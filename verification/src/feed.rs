use crate::errors::ErrorCode;
use vstd::prelude::*;

verus! {

/// Number of decimal places a normalized price carries by default.
pub const PRICE_DECIMALS: u8 = 8;

/// The oracle providers this library recognizes.
#[derive(Clone, Copy, Debug, PartialEq, Eq, Structural)]
pub enum OracleProvider {
    PYTH,
    SWITCHBOARD,
    INTERNAL,
}

/// Which provider a one-byte storage tag denotes.
pub open spec fn provider_from_tag(tag: u8) -> Result<OracleProvider, ErrorCode> {
    if tag == 0 {
        Ok(OracleProvider::PYTH)
    } else if tag == 1 {
        Ok(OracleProvider::SWITCHBOARD)
    } else if tag == 2 {
        Ok(OracleProvider::INTERNAL)
    } else {
        Err(ErrorCode::AccountMustBeOwnedByOracleProgram)
    }
}

impl OracleProvider {
    /// Reads a provider from its one-byte storage tag; a tag outside
    /// the closed set is rejected.
    pub fn from_u8(tag: u8) -> (r: Result<OracleProvider, ErrorCode>)
        ensures
            r == provider_from_tag(tag),
    {
        match tag {
            0 => Ok(OracleProvider::PYTH),
            1 => Ok(OracleProvider::SWITCHBOARD),
            2 => Ok(OracleProvider::INTERNAL),
            _ => Err(ErrorCode::AccountMustBeOwnedByOracleProgram),
        }
    }

    /// The one-byte storage tag of this provider.
    pub fn to_u8(self) -> (r: u8)
        ensures
            provider_from_tag(r) == Ok::<OracleProvider, ErrorCode>(self),
    {
        match self {
            OracleProvider::PYTH => 0,
            OracleProvider::SWITCHBOARD => 1,
            OracleProvider::INTERNAL => 2,
        }
    }
}

/// One decoded oracle reading: the price is `mantissa * 10^exponent`,
/// with an absolute `confidence` radius quoted in the same scale.
#[derive(Clone, Copy, Debug, PartialEq, Eq, Structural)]
pub struct RawPrice {
    pub mantissa: i128,
    pub exponent: i32,
    pub confidence: u64,
    pub publish_time: i64,
}

/// A fixed-point decimal: the value is `mantissa / 10^scale`.
#[derive(Clone, Copy, Debug, PartialEq, Eq, Structural)]
pub struct Decimal {
    pub mantissa: i128,
    pub scale: u32,
}

impl Decimal {
    pub fn new(mantissa: i128, scale: u32) -> (r: Decimal)
        ensures
            r.mantissa == mantissa,
            r.scale == scale,
    {
        Decimal { mantissa, scale }
    }
}

/// The latest confirmed round of a Switchboard-style feed: the
/// aggregated value, the spread of the oracles' answers, and when the
/// round opened.
#[derive(Clone, Copy, Debug, PartialEq, Eq, Structural)]
pub struct SwitchboardReading {
    pub value: Decimal,
    pub std_deviation: Decimal,
    pub publish_time: i64,
}

/// What decoding a feed account yielded.
///
/// `Unreadable` stands for an account whose data held no reading that
/// the provider's layout could yield.
#[derive(Clone, Copy, Debug)]
pub enum FeedContent {
    Pyth { spot: RawPrice, smoothed: RawPrice },
    Switchboard { result: Option<SwitchboardReading> },
    Unreadable,
}

/// A feed account as the caller hands it in: its owner program's
/// 32-byte identity tag, and the decoded reading.
#[derive(Clone, Copy, Debug)]
pub struct FeedHandle {
    pub owner: [u8; 32],
    pub content: FeedContent,
}

/// The 32-byte identity of the Pyth oracle program.
pub open spec fn pyth_owner_seq() -> Seq<u8> {
    seq![
        220u8, 229u8, 235u8, 225u8, 228u8, 156u8, 59u8, 159u8, 17u8, 76u8, 181u8, 84u8, 76u8,
        80u8, 169u8, 158u8, 192u8, 214u8, 146u8, 214u8, 63u8, 86u8, 121u8, 90u8, 224u8, 41u8,
        172u8, 131u8, 217u8, 234u8, 139u8, 226u8,
    ]
}

/// The 32-byte identity of the Switchboard oracle program.
pub open spec fn switchboard_owner_seq() -> Seq<u8> {
    seq![
        6u8, 136u8, 81u8, 198u8, 140u8, 104u8, 50u8, 240u8, 47u8, 165u8, 129u8, 177u8, 191u8,
        73u8, 27u8, 119u8, 202u8, 65u8, 119u8, 107u8, 162u8, 185u8, 136u8, 181u8, 166u8, 250u8,
        186u8, 142u8, 227u8, 162u8, 236u8, 144u8,
    ]
}

/// The Pyth program identity as an owner tag.
pub fn pyth_owner() -> (r: [u8; 32])
    ensures
        r@ == pyth_owner_seq(),
{
    let r: [u8; 32] = [
        220, 229, 235, 225, 228, 156, 59, 159, 17, 76, 181, 84, 76, 80, 169, 158, 192, 214, 146,
        214, 63, 86, 121, 90, 224, 41, 172, 131, 217, 234, 139, 226,
    ];
    proof {
        assert(r@ =~= pyth_owner_seq());
    }
    r
}

/// The Switchboard program identity as an owner tag.
pub fn switchboard_owner() -> (r: [u8; 32])
    ensures
        r@ == switchboard_owner_seq(),
{
    let r: [u8; 32] = [
        6, 136, 81, 198, 140, 104, 50, 240, 47, 165, 129, 177, 191, 73, 27, 119, 202, 65, 119,
        107, 162, 185, 136, 181, 166, 250, 186, 142, 227, 162, 236, 144,
    ];
    proof {
        assert(r@ =~= switchboard_owner_seq());
    }
    r
}

/// Whether two 32-byte owner tags are the same identity.
pub fn tags_equal(a: &[u8; 32], b: &[u8; 32]) -> (r: bool)
    ensures
        r == (a@ == b@),
{
    let mut i: usize = 0;
    while i < 32
        invariant
            i <= 32,
            forall|j: int| 0 <= j < i ==> a@[j] == b@[j],
        decreases 32 - i,
    {
        if a[i] != b[i] {
            return false;
        }
        i = i + 1;
    }
    proof {
        assert(a@ =~= b@);
    }
    true
}

/// Which provider a feed with the given owner tag belongs to.
///
/// `force_local` bypasses the ownership check and fixes the provider,
/// for local or test deployments only; it must never be set in a
/// production configuration.
pub open spec fn resolve_result(owner: Seq<u8>, force_local: bool) -> Result<
    OracleProvider,
    ErrorCode,
> {
    if force_local {
        Ok(OracleProvider::PYTH)
    } else if owner == switchboard_owner_seq() {
        Ok(OracleProvider::SWITCHBOARD)
    } else if owner == pyth_owner_seq() {
        Ok(OracleProvider::PYTH)
    } else {
        Err(ErrorCode::AccountMustBeOwnedByOracleProgram)
    }
}

/// Resolves a feed's owner tag against the fixed allow-list of known
/// oracle programs.
pub fn resolve_oracle_owner(owner: &[u8; 32], force_local: bool) -> (r: Result<
    OracleProvider,
    ErrorCode,
>)
    ensures
        r == resolve_result(owner@, force_local),
{
    if force_local {
        return Ok(OracleProvider::PYTH);
    }
    let switchboard: [u8; 32] = switchboard_owner();
    if tags_equal(owner, &switchboard) {
        return Ok(OracleProvider::SWITCHBOARD);
    }
    let pyth: [u8; 32] = pyth_owner();
    if tags_equal(owner, &pyth) {
        return Ok(OracleProvider::PYTH);
    }
    Err(ErrorCode::AccountMustBeOwnedByOracleProgram)
}

} // verus!
