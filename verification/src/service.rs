use crate::convert::{convert_price_decimals, convert_result};
use crate::errors::ErrorCode;
use crate::feed::{
    provider_from_tag, pyth_owner, pyth_owner_seq, resolve_oracle_owner, resolve_result,
    switchboard_owner, switchboard_owner_seq, tags_equal, Decimal, FeedContent, FeedHandle,
    OracleProvider,
};
use crate::validate::{
    load_pyth_price, pyth_validation_result, switchboard_validation_result,
    validate_switchboard_reading,
};
use vstd::prelude::*;

verus! {

/// What a full price query returns for a feed.
///
/// The feed's owner tag is resolved against the known oracle
/// programs; the caller must have supplied the confidence bound that
/// the resolved provider requires, else the query fails with
/// `MissingValidationParameter`; the decoded reading is validated for
/// positivity, freshness and confidence; and the validated value is
/// rescaled to `desired` decimal places. A recognized feed that holds
/// no decodable reading counts as having no reading within the age
/// window, which is `OraclePriceExpired`.
pub open spec fn oracle_price_result(
    feed: FeedHandle,
    desired: int,
    current_time: int,
    conf_thresh_pyth: Option<u32>,
    conf_thresh_switch: Option<Decimal>,
    max_age: int,
    round_up: bool,
) -> Result<u64, ErrorCode> {
    match resolve_result(feed.owner@, false) {
        Ok(OracleProvider::SWITCHBOARD) => match conf_thresh_switch {
            None => Err(ErrorCode::MissingValidationParameter),
            Some(bound) => match feed.content {
                FeedContent::Switchboard { result: Some(reading) } => match
                    switchboard_validation_result(reading, bound, current_time, max_age) {
                    Ok(value) => convert_result(
                        value.mantissa as int,
                        value.scale as int,
                        desired,
                        round_up,
                    ),
                    Err(e) => Err(e),
                },
                _ => Err(ErrorCode::OraclePriceExpired),
            },
        },
        Ok(OracleProvider::PYTH) => match conf_thresh_pyth {
            None => Err(ErrorCode::MissingValidationParameter),
            Some(bound) => match feed.content {
                FeedContent::Pyth { spot, smoothed } => match pyth_validation_result(
                    spot,
                    smoothed,
                    current_time,
                    bound as int,
                    max_age,
                ) {
                    Ok(pair) => convert_result(pair.0 as int, -(pair.1 as int), desired, round_up),
                    Err(e) => Err(e),
                },
                _ => Err(ErrorCode::OraclePriceExpired),
            },
        },
        Ok(OracleProvider::INTERNAL) => Err(ErrorCode::AccountMustBeOwnedByOracleProgram),
        Err(e) => Err(e),
    }
}

/// Produces the price of `feed`, rescaled to `desired_decimals`
/// decimal places, after resolving the feed's owner and validating
/// the reading for freshness within `max_age` seconds of
/// `current_time` and for confidence against the bound belonging to
/// the resolved provider: `conf_thresh_pyth` (fractional, in parts of
/// `u32::MAX`) for a Pyth-style feed, `conf_thresh_switch` (an
/// absolute decimal) for a Switchboard-style feed. Omitting the bound
/// the provider needs is reported as `MissingValidationParameter`.
pub fn get_oracle_price(
    feed: &FeedHandle,
    desired_decimals: u8,
    current_time: i64,
    conf_thresh_pyth: Option<u32>,
    conf_thresh_switch: Option<Decimal>,
    max_age: u64,
    round_up: bool,
) -> (r: Result<u64, ErrorCode>)
    ensures
        r == oracle_price_result(
            *feed,
            desired_decimals as int,
            current_time as int,
            conf_thresh_pyth,
            conf_thresh_switch,
            max_age as int,
            round_up,
        ),
{
    match resolve_oracle_owner(&feed.owner, false) {
        Ok(OracleProvider::SWITCHBOARD) => {
            let bound = match conf_thresh_switch {
                Some(b) => b,
                None => {
                    return Err(ErrorCode::MissingValidationParameter);
                },
            };
            match feed.content {
                FeedContent::Switchboard { result: Some(reading) } => {
                    match validate_switchboard_reading(&reading, &bound, current_time, max_age) {
                        Ok(value) => convert_price_decimals(
                            value.mantissa,
                            value.scale,
                            desired_decimals,
                            round_up,
                        ),
                        Err(e) => Err(e),
                    }
                },
                _ => Err(ErrorCode::OraclePriceExpired),
            }
        },
        Ok(OracleProvider::PYTH) => {
            let bound = match conf_thresh_pyth {
                Some(b) => b,
                None => {
                    return Err(ErrorCode::MissingValidationParameter);
                },
            };
            match feed.content {
                FeedContent::Pyth { spot, smoothed } => {
                    match load_pyth_price(&spot, &smoothed, current_time, bound, max_age) {
                        Ok((mantissa, exponent)) => {
                            let scale: u32 = (-(exponent as i64)) as u32;
                            convert_price_decimals(mantissa, scale, desired_decimals, round_up)
                        },
                        Err(e) => Err(e),
                    }
                },
                _ => Err(ErrorCode::OraclePriceExpired),
            }
        },
        Ok(OracleProvider::INTERNAL) => Err(ErrorCode::AccountMustBeOwnedByOracleProgram),
        Err(e) => Err(e),
    }
}

/// What identifying a feed returns: the provider whose program owns
/// the feed, after a validity probe of the reading with the age and
/// confidence checks disabled. With `force_local` set the owner check
/// is bypassed and the feed is taken to be Pyth-style.
pub open spec fn oracle_id_result(
    feed: FeedHandle,
    current_time: int,
    force_local: bool,
) -> Result<OracleProvider, ErrorCode> {
    if force_local {
        Ok(OracleProvider::PYTH)
    } else {
        match resolve_result(feed.owner@, false) {
            Ok(OracleProvider::SWITCHBOARD) => match feed.content {
                FeedContent::Switchboard { result: Some(_) } => Ok(OracleProvider::SWITCHBOARD),
                _ => Err(ErrorCode::OraclePriceExpired),
            },
            Ok(OracleProvider::PYTH) => match feed.content {
                FeedContent::Pyth { spot, smoothed } => match pyth_validation_result(
                    spot,
                    smoothed,
                    current_time,
                    u32::MAX as int,
                    u64::MAX as int,
                ) {
                    Ok(_) => Ok(OracleProvider::PYTH),
                    Err(e) => Err(e),
                },
                _ => Err(ErrorCode::OraclePriceExpired),
            },
            Ok(OracleProvider::INTERNAL) => Err(ErrorCode::AccountMustBeOwnedByOracleProgram),
            Err(e) => Err(e),
        }
    }
}

/// Identifies which known oracle program owns `feed` and probes that
/// the feed holds a well-formed reading, without rescaling anything.
/// The probe runs with the age window and the confidence bound wide
/// open, so only structural defects fail it.
pub fn validate_and_get_oracle_id(feed: &FeedHandle, current_time: i64, force_local: bool) -> (r:
    Result<OracleProvider, ErrorCode>)
    ensures
        r == oracle_id_result(*feed, current_time as int, force_local),
{
    if force_local {
        return Ok(OracleProvider::PYTH);
    }
    match resolve_oracle_owner(&feed.owner, false) {
        Ok(OracleProvider::SWITCHBOARD) => match feed.content {
            FeedContent::Switchboard { result: Some(_) } => Ok(OracleProvider::SWITCHBOARD),
            _ => Err(ErrorCode::OraclePriceExpired),
        },
        Ok(OracleProvider::PYTH) => match feed.content {
            FeedContent::Pyth { spot, smoothed } => {
                match load_pyth_price(&spot, &smoothed, current_time, u32::MAX, u64::MAX) {
                    Ok(_) => Ok(OracleProvider::PYTH),
                    Err(e) => Err(e),
                }
            },
            _ => Err(ErrorCode::OraclePriceExpired),
        },
        Ok(OracleProvider::INTERNAL) => Err(ErrorCode::AccountMustBeOwnedByOracleProgram),
        Err(e) => Err(e),
    }
}

/// What confirming a feed against a claimed provider returns: `Ok`
/// when the feed's owner matches the provider named by the one-byte
/// `provider_tag` and the feed passes the same structural probe as
/// identification; an `Internal` claim is accepted without any check,
/// and `force_local` bypasses everything.
pub open spec fn oracle_claim_result(
    feed: FeedHandle,
    provider_tag: u8,
    current_time: int,
    force_local: bool,
) -> Result<(), ErrorCode> {
    if force_local {
        Ok(())
    } else {
        match provider_from_tag(provider_tag) {
            Ok(OracleProvider::PYTH) => if feed.owner@ != pyth_owner_seq() {
                Err(ErrorCode::AccountMustBeOwnedByOracleProgram)
            } else {
                match feed.content {
                    FeedContent::Pyth { spot, smoothed } => match pyth_validation_result(
                        spot,
                        smoothed,
                        current_time,
                        u32::MAX as int,
                        u64::MAX as int,
                    ) {
                        Ok(_) => Ok(()),
                        Err(e) => Err(e),
                    },
                    _ => Err(ErrorCode::OraclePriceExpired),
                }
            },
            Ok(OracleProvider::SWITCHBOARD) => if feed.owner@ != switchboard_owner_seq() {
                Err(ErrorCode::AccountMustBeOwnedByOracleProgram)
            } else {
                match feed.content {
                    FeedContent::Switchboard { result: Some(_) } => Ok(()),
                    _ => Err(ErrorCode::OraclePriceExpired),
                }
            },
            Ok(OracleProvider::INTERNAL) => Ok(()),
            Err(e) => Err(e),
        }
    }
}

/// Confirms that `feed` belongs to the provider a caller previously
/// resolved, identified by its one-byte storage tag, and that the
/// feed still holds a well-formed reading. Extracts no price.
pub fn validate_oracle(
    feed: &FeedHandle,
    oracle_provider_id: u8,
    current_time: i64,
    force_local: bool,
) -> (r: Result<(), ErrorCode>)
    ensures
        r == oracle_claim_result(*feed, oracle_provider_id, current_time as int, force_local),
{
    if force_local {
        return Ok(());
    }
    match OracleProvider::from_u8(oracle_provider_id) {
        Ok(OracleProvider::PYTH) => {
            let pyth: [u8; 32] = pyth_owner();
            if !tags_equal(&feed.owner, &pyth) {
                return Err(ErrorCode::AccountMustBeOwnedByOracleProgram);
            }
            match feed.content {
                FeedContent::Pyth { spot, smoothed } => {
                    match load_pyth_price(&spot, &smoothed, current_time, u32::MAX, u64::MAX) {
                        Ok(_) => Ok(()),
                        Err(e) => Err(e),
                    }
                },
                _ => Err(ErrorCode::OraclePriceExpired),
            }
        },
        Ok(OracleProvider::SWITCHBOARD) => {
            let switchboard: [u8; 32] = switchboard_owner();
            if !tags_equal(&feed.owner, &switchboard) {
                return Err(ErrorCode::AccountMustBeOwnedByOracleProgram);
            }
            match feed.content {
                FeedContent::Switchboard { result: Some(_) } => Ok(()),
                _ => Err(ErrorCode::OraclePriceExpired),
            }
        },
        Ok(OracleProvider::INTERNAL) => Ok(()),
        Err(e) => Err(e),
    }
}

} // verus!
