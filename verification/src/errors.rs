use vstd::prelude::*;

verus! {

/// Every way a price query can fail.
///
/// `OracleNumberOverflow` is an arithmetic result that does not fit the
/// target width; the remaining variants reject bad or untrustworthy data.
#[derive(Clone, Copy, Debug, PartialEq, Eq, Structural)]
pub enum ErrorCode {
    /// An arithmetic step's exact result does not fit the target width.
    OracleNumberOverflow,
    /// A source reported its scale in the wrong direction (positive exponent).
    PythOracleMustHaveNegativeExpo,
    /// The reported price is zero or negative.
    PythPriceWasNoneOrNegative,
    /// The feed account's owner tag matches no known oracle program.
    AccountMustBeOwnedByOracleProgram,
    /// The latest reading is older than the allowed age, or absent.
    OraclePriceExpired,
    /// The reported uncertainty exceeds the allowed confidence bound.
    OracleBadConfidence,
    /// A spot reading and its smoothed counterpart use different scales.
    InconsistentScale,
    /// The caller omitted the confidence bound that the resolved
    /// provider requires: a contract violation, not a data condition.
    MissingValidationParameter,
}

} // verus!
