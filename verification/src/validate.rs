use crate::errors::ErrorCode;
use crate::feed::{Decimal, RawPrice, SwitchboardReading};
use crate::pow10::{
    lemma_pow10_38, lemma_pow10_adds, lemma_pow10_mono, lemma_pow10_pos, pow10, pow10_u128,
    MAX_POW10_EXP,
};
use vstd::arithmetic::div_mod::lemma_fundamental_div_mod;
use vstd::arithmetic::div_mod::lemma_mod_bound;
use vstd::arithmetic::mul::lemma_mul_inequality;
use vstd::arithmetic::mul::lemma_mul_basics;
use vstd::arithmetic::mul::lemma_mul_inequality_converse;
use vstd::arithmetic::mul::lemma_mul_is_associative;
use vstd::arithmetic::mul::lemma_mul_is_commutative;
use vstd::arithmetic::mul::lemma_mul_is_distributive_add_other_way;
use vstd::prelude::*;

verus! {

/// How many seconds apart two timestamps lie, regardless of order.
pub open spec fn time_diff(a: int, b: int) -> int {
    if a >= b {
        a - b
    } else {
        b - a
    }
}

/// The distance in seconds between two timestamps.
pub fn abs_time_diff(a: i64, b: i64) -> (r: u64)
    ensures
        r == time_diff(a as int, b as int),
{
    let wide_a: i128 = a as i128;
    let wide_b: i128 = b as i128;
    if wide_a >= wide_b {
        (wide_a - wide_b) as u64
    } else {
        (wide_b - wide_a) as u64
    }
}

/// The absolute confidence a Pyth-style reading may carry: the
/// fractional bound (in parts of `u32::MAX`) applied to the smoothed
/// reading's magnitude, truncated.
pub open spec fn pyth_allowed_confidence(bound: int, smoothed_mantissa: int) -> int {
    (bound * smoothed_mantissa) / (u32::MAX as int)
}

/// What validating a Pyth-style pair of readings returns: the spot
/// mantissa and exponent on success, the first failed rule otherwise.
///
/// The rules apply in order: scale direction on both readings, then
/// positivity of both, then scale agreement between the two, then
/// freshness of both against `max_age`, then the confidence bound.
/// The spot confidence is measured against the smoothed magnitude,
/// which damps single-tick volatility spikes; the boundary is
/// inclusive, so a confidence equal to the allowed bound passes.
pub open spec fn pyth_validation_result(
    spot: RawPrice,
    smoothed: RawPrice,
    current_time: int,
    conf_bound: int,
    max_age: int,
) -> Result<(i128, i32), ErrorCode> {
    if spot.exponent > 0 || smoothed.exponent > 0 {
        Err(ErrorCode::PythOracleMustHaveNegativeExpo)
    } else if spot.mantissa <= 0 || smoothed.mantissa <= 0 {
        Err(ErrorCode::PythPriceWasNoneOrNegative)
    } else if spot.exponent != smoothed.exponent {
        Err(ErrorCode::InconsistentScale)
    } else if time_diff(current_time, spot.publish_time as int) > max_age || time_diff(
        current_time,
        smoothed.publish_time as int,
    ) > max_age {
        Err(ErrorCode::OraclePriceExpired)
    } else if conf_bound * smoothed.mantissa > u128::MAX {
        Err(ErrorCode::OracleNumberOverflow)
    } else if spot.confidence > pyth_allowed_confidence(conf_bound, smoothed.mantissa as int) {
        Err(ErrorCode::OracleBadConfidence)
    } else {
        Ok((spot.mantissa, spot.exponent))
    }
}

/// Validates a Pyth-style spot reading against its smoothed
/// counterpart: scale direction, positivity, scale agreement,
/// freshness within `max_age` seconds of `current_time`, and the
/// fractional confidence bound `conf_threshold` (in parts of
/// `u32::MAX`). Returns the spot mantissa and exponent.
pub fn load_pyth_price(
    spot: &RawPrice,
    smoothed: &RawPrice,
    current_time: i64,
    conf_threshold: u32,
    max_age: u64,
) -> (r: Result<(i128, i32), ErrorCode>)
    ensures
        r == pyth_validation_result(
            *spot,
            *smoothed,
            current_time as int,
            conf_threshold as int,
            max_age as int,
        ),
{
    if spot.exponent > 0 || smoothed.exponent > 0 {
        return Err(ErrorCode::PythOracleMustHaveNegativeExpo);
    }
    if spot.mantissa <= 0 || smoothed.mantissa <= 0 {
        return Err(ErrorCode::PythPriceWasNoneOrNegative);
    }
    if spot.exponent != smoothed.exponent {
        return Err(ErrorCode::InconsistentScale);
    }
    if abs_time_diff(current_time, spot.publish_time) > max_age || abs_time_diff(
        current_time,
        smoothed.publish_time,
    ) > max_age {
        return Err(ErrorCode::OraclePriceExpired);
    }
    let bound: u128 = conf_threshold as u128;
    let magnitude: u128 = smoothed.mantissa as u128;
    if bound > 0 {
        let cap: u128 = u128::MAX / bound;
        proof {
            lemma_fundamental_div_mod(u128::MAX as int, bound as int);
            lemma_mod_bound(u128::MAX as int, bound as int);
        }
        if magnitude > cap {
            proof {
                lemma_mul_inequality((cap + 1) as int, magnitude as int, bound as int);
                lemma_mul_is_distributive_add_other_way(bound as int, cap as int, 1);
                lemma_mul_is_commutative(cap as int, bound as int);
                lemma_mul_is_commutative(magnitude as int, bound as int);
                assert((cap + 1) * (bound as int) == cap * bound + 1 * bound);
                assert(u128::MAX == bound * cap + (u128::MAX as int) % (bound as int));
                assert((u128::MAX as int) % (bound as int) < bound);
                assert((cap + 1) * (bound as int) > u128::MAX);
                assert(bound * magnitude > u128::MAX);
            }
            return Err(ErrorCode::OracleNumberOverflow);
        }
        proof {
            lemma_mul_inequality(magnitude as int, cap as int, bound as int);
            lemma_mul_is_commutative(cap as int, bound as int);
            lemma_mul_is_commutative(magnitude as int, bound as int);
            assert(magnitude * bound <= cap * bound <= u128::MAX);
        }
    }
    let product: u128 = bound * magnitude;
    let allowed: u128 = product / (u32::MAX as u128);
    if (spot.confidence as u128) > allowed {
        return Err(ErrorCode::OracleBadConfidence);
    }
    Ok((spot.mantissa, spot.exponent))
}

/// The mantissa of `x` brought to `target_scale` decimal places.
pub open spec fn aligned_mantissa(x: Decimal, target_scale: int) -> int {
    x.mantissa * pow10((target_scale - x.scale) as nat)
}

/// The common scale two decimals are compared at.
pub open spec fn common_scale(a: Decimal, b: Decimal) -> int {
    if a.scale >= b.scale {
        a.scale as int
    } else {
        b.scale as int
    }
}

/// Whether `a <= b` as exact decimal fractions, decided by bringing
/// both mantissas to the larger of the two scales. If either aligned
/// mantissa leaves the 128-bit range the comparison is refused.
pub open spec fn decimal_le_result(a: Decimal, b: Decimal) -> Result<bool, ErrorCode> {
    let s = common_scale(a, b);
    let av = aligned_mantissa(a, s);
    let bv = aligned_mantissa(b, s);
    if i128::MIN <= av <= i128::MAX && i128::MIN <= bv <= i128::MAX {
        Ok(av <= bv)
    } else {
        Err(ErrorCode::OracleNumberOverflow)
    }
}

/// Brings a decimal's mantissa up by `diff` decimal places, refusing
/// a result outside the 128-bit range.
fn scale_mantissa_up(m: i128, diff: u32) -> (r: Result<i128, ErrorCode>)
    ensures
        r matches Ok(v) ==> v == m * pow10(diff as nat) && i128::MIN <= m * pow10(diff as nat)
            <= i128::MAX,
        r is Err ==> !(i128::MIN <= m * pow10(diff as nat) <= i128::MAX),
        r matches Err(e) ==> e == ErrorCode::OracleNumberOverflow,
{
    if m == 0 {
        proof {
            assert(0 * pow10(diff as nat) == 0);
        }
        return Ok(0);
    }
    if diff > MAX_POW10_EXP {
        proof {
            lemma_pow10_38();
            lemma_pow10_mono(39, diff as nat);
            assert(pow10(39) == 10 * pow10(38));
            let p = pow10(diff as nat) as int;
            if m >= 1 {
                lemma_mul_inequality(1, m as int, p);
                assert(1 * p == p);
            } else {
                lemma_mul_inequality(m as int, -1, p);
                assert(-1 * p == -p);
            }
        }
        return Err(ErrorCode::OracleNumberOverflow);
    }
    let factor_wide: u128 = pow10_u128(diff);
    proof {
        lemma_pow10_mono(diff as nat, 38);
        lemma_pow10_38();
    }
    let factor: i128 = factor_wide as i128;
    match m.checked_mul(factor) {
        Some(v) => Ok(v),
        None => Err(ErrorCode::OracleNumberOverflow),
    }
}

/// Decides `a <= b` on exact decimal fractions.
pub fn decimal_le(a: &Decimal, b: &Decimal) -> (r: Result<bool, ErrorCode>)
    ensures
        r == decimal_le_result(*a, *b),
{
    let (diff_a, diff_b) = if a.scale >= b.scale {
        (0u32, a.scale - b.scale)
    } else {
        (b.scale - a.scale, 0u32)
    };
    let av = match scale_mantissa_up(a.mantissa, diff_a) {
        Ok(v) => v,
        Err(e) => {
            return Err(e);
        },
    };
    let bv = match scale_mantissa_up(b.mantissa, diff_b) {
        Ok(v) => v,
        Err(e) => {
            return Err(e);
        },
    };
    Ok(av <= bv)
}

/// A successful decimal comparison decides exactly the order of the
/// two fractions `a.mantissa / 10^a.scale` and
/// `b.mantissa / 10^b.scale`, stated here multiplied through by both
/// powers of ten.
pub proof fn lemma_decimal_le_is_fraction_order(a: Decimal, b: Decimal, c: bool)
    requires
        decimal_le_result(a, b) == Ok::<bool, ErrorCode>(c),
    ensures
        c == (a.mantissa * pow10(b.scale as nat) <= b.mantissa * pow10(a.scale as nat)),
{
    let s = common_scale(a, b);
    let av = aligned_mantissa(a, s);
    let bv = aligned_mantissa(b, s);
    if a.scale >= b.scale {
        let p = pow10(b.scale as nat) as int;
        lemma_pow10_pos(b.scale as nat);
        assert(av == a.mantissa * 1);
        lemma_mul_basics(a.mantissa as int);
        lemma_pow10_adds((a.scale - b.scale) as nat, b.scale as nat);
        lemma_mul_is_associative(
            b.mantissa as int,
            pow10((a.scale - b.scale) as nat) as int,
            p,
        );
        assert(b.mantissa * pow10(a.scale as nat) == bv * p);
        if av <= bv {
            lemma_mul_inequality(av, bv, p);
        }
        if av * p <= bv * p {
            lemma_mul_inequality_converse(av, bv, p);
        }
        assert((av <= bv) == (av * p <= bv * p));
        lemma_mul_is_commutative(av, p);
        assert(a.mantissa * pow10(b.scale as nat) == av * p);
    } else {
        let p = pow10(a.scale as nat) as int;
        lemma_pow10_pos(a.scale as nat);
        assert(bv == b.mantissa * 1);
        lemma_mul_basics(b.mantissa as int);
        lemma_pow10_adds((b.scale - a.scale) as nat, a.scale as nat);
        lemma_mul_is_associative(
            a.mantissa as int,
            pow10((b.scale - a.scale) as nat) as int,
            p,
        );
        assert(a.mantissa * pow10(b.scale as nat) == av * p);
        if av <= bv {
            lemma_mul_inequality(av, bv, p);
        }
        if av * p <= bv * p {
            lemma_mul_inequality_converse(av, bv, p);
        }
        assert((av <= bv) == (av * p <= bv * p));
        lemma_mul_is_commutative(bv, p);
        assert(b.mantissa * pow10(a.scale as nat) == bv * p);
    }
}

/// What validating a Switchboard-style reading returns: the value on
/// success, the first failed rule otherwise.
///
/// The rules apply in order: positivity of the value, freshness of
/// the round against `max_age`, then the absolute confidence bound.
/// The boundary is inclusive: a spread equal to the bound passes.
pub open spec fn switchboard_validation_result(
    reading: SwitchboardReading,
    bound: Decimal,
    current_time: int,
    max_age: int,
) -> Result<Decimal, ErrorCode> {
    if reading.value.mantissa <= 0 {
        Err(ErrorCode::PythPriceWasNoneOrNegative)
    } else if time_diff(current_time, reading.publish_time as int) > max_age {
        Err(ErrorCode::OraclePriceExpired)
    } else {
        match decimal_le_result(reading.std_deviation, bound) {
            Ok(true) => Ok(reading.value),
            Ok(false) => Err(ErrorCode::OracleBadConfidence),
            Err(e) => Err(e),
        }
    }
}

/// Validates a Switchboard-style reading: positivity, freshness
/// within `max_age` seconds of `current_time`, and the absolute
/// confidence bound `bound` on the round's spread.
pub fn validate_switchboard_reading(
    reading: &SwitchboardReading,
    bound: &Decimal,
    current_time: i64,
    max_age: u64,
) -> (r: Result<Decimal, ErrorCode>)
    ensures
        r == switchboard_validation_result(*reading, *bound, current_time as int, max_age as int),
{
    if reading.value.mantissa <= 0 {
        return Err(ErrorCode::PythPriceWasNoneOrNegative);
    }
    if abs_time_diff(current_time, reading.publish_time) > max_age {
        return Err(ErrorCode::OraclePriceExpired);
    }
    match decimal_le(&reading.std_deviation, bound) {
        Ok(true) => Ok(reading.value),
        Ok(false) => Err(ErrorCode::OracleBadConfidence),
        Err(e) => Err(e),
    }
}

/// A Pyth-style reading published more than `max_age` seconds from
/// the current time always fails as expired, whatever confidence the
/// spot reading carries and whatever bound the caller supplies.
pub proof fn lemma_stale_pyth_reading_fails(
    spot: RawPrice,
    smoothed: RawPrice,
    current_time: int,
    conf_bound: int,
    max_age: int,
)
    requires
        spot.exponent <= 0,
        smoothed.exponent <= 0,
        spot.mantissa > 0,
        smoothed.mantissa > 0,
        spot.exponent == smoothed.exponent,
        time_diff(current_time, spot.publish_time as int) > max_age,
    ensures
        pyth_validation_result(spot, smoothed, current_time, conf_bound, max_age) == Err::<
            (i128, i32),
            ErrorCode,
        >(ErrorCode::OraclePriceExpired),
{
}

/// A Switchboard-style reading published more than `max_age` seconds
/// from the current time always fails as expired, whatever its spread
/// and whatever bound the caller supplies.
pub proof fn lemma_stale_switchboard_reading_fails(
    reading: SwitchboardReading,
    bound: Decimal,
    current_time: int,
    max_age: int,
)
    requires
        reading.value.mantissa > 0,
        time_diff(current_time, reading.publish_time as int) > max_age,
    ensures
        switchboard_validation_result(reading, bound, current_time, max_age) == Err::<
            Decimal,
            ErrorCode,
        >(ErrorCode::OraclePriceExpired),
{
}

/// The confidence boundary is inclusive: a spot confidence equal to
/// the allowed bound passes validation, and any confidence above it
/// fails with `OracleBadConfidence`.
pub proof fn lemma_confidence_boundary(
    spot: RawPrice,
    smoothed: RawPrice,
    current_time: int,
    conf_bound: int,
    max_age: int,
)
    requires
        spot.exponent <= 0,
        smoothed.exponent <= 0,
        spot.mantissa > 0,
        smoothed.mantissa > 0,
        spot.exponent == smoothed.exponent,
        time_diff(current_time, spot.publish_time as int) <= max_age,
        time_diff(current_time, smoothed.publish_time as int) <= max_age,
        0 <= conf_bound,
        conf_bound * smoothed.mantissa <= u128::MAX,
    ensures
        spot.confidence <= pyth_allowed_confidence(conf_bound, smoothed.mantissa as int)
            ==> pyth_validation_result(spot, smoothed, current_time, conf_bound, max_age) == Ok::<
            (i128, i32),
            ErrorCode,
        >((spot.mantissa, spot.exponent)),
        spot.confidence > pyth_allowed_confidence(conf_bound, smoothed.mantissa as int)
            ==> pyth_validation_result(spot, smoothed, current_time, conf_bound, max_age) == Err::<
            (i128, i32),
            ErrorCode,
        >(ErrorCode::OracleBadConfidence),
{
}

} // verus!
