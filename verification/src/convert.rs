use crate::errors::ErrorCode;
use crate::pow10::{
    lemma_pow10_38, lemma_pow10_mono, lemma_pow10_pos, pow10, pow10_u128, MAX_POW10_EXP,
};
use vstd::arithmetic::div_mod::*;
use vstd::arithmetic::mul::*;
use vstd::prelude::*;

verus! {

/// Truncating division of `a` by a positive `b`: the quotient rounded
/// toward zero, as machine signed division computes it.
pub open spec fn div_trunc(a: int, b: int) -> int {
    if a >= 0 {
        a / b
    } else {
        -((-a) / b)
    }
}

/// What rescaling `m` from `s` decimal places to `d` decimal places
/// returns, for either rounding direction.
///
/// Scaling up multiplies by `10^(d - s)` and is exact; scaling down
/// divides by `10^(s - d)`, truncating, or first adds `10^(s - d) - 1`
/// to round upward. Every step is checked: a power of ten beyond
/// `i128`, a rounding adjustment that leaves `i128`, or a result
/// outside `u64` all yield `OracleNumberOverflow` rather than a
/// wrapped value.
pub open spec fn convert_result(m: int, s: int, d: int, round_up: bool) -> Result<u64, ErrorCode> {
    if d >= s {
        if d - s > MAX_POW10_EXP {
            Err(ErrorCode::OracleNumberOverflow)
        } else {
            let v = m * pow10((d - s) as nat);
            if 0 <= v <= u64::MAX {
                Ok(v as u64)
            } else {
                Err(ErrorCode::OracleNumberOverflow)
            }
        }
    } else {
        if s - d > MAX_POW10_EXP {
            Err(ErrorCode::OracleNumberOverflow)
        } else {
            let g = pow10((s - d) as nat) as int;
            if round_up {
                if m + g - 1 > i128::MAX {
                    Err(ErrorCode::OracleNumberOverflow)
                } else {
                    let v = div_trunc(m + g - 1, g);
                    if 0 <= v <= u64::MAX {
                        Ok(v as u64)
                    } else {
                        Err(ErrorCode::OracleNumberOverflow)
                    }
                }
            } else {
                let v = div_trunc(m, g);
                if 0 <= v <= u64::MAX {
                    Ok(v as u64)
                } else {
                    Err(ErrorCode::OracleNumberOverflow)
                }
            }
        }
    }
}

/// Rescales `starting_price`, quoted with `starting_decimals` decimal
/// places, to `desired_decimals` decimal places.
///
/// Scaling up is exact; scaling down truncates, or rounds up when
/// `round_up` is set. The exact result must be representable at every
/// step and fit in a `u64`, else `OracleNumberOverflow` is returned.
pub fn convert_price_decimals(
    starting_price: i128,
    starting_decimals: u32,
    desired_decimals: u8,
    round_up: bool,
) -> (r: Result<u64, ErrorCode>)
    ensures
        r == convert_result(
            starting_price as int,
            starting_decimals as int,
            desired_decimals as int,
            round_up,
        ),
{
    let desired: u32 = desired_decimals as u32;
    if desired >= starting_decimals {
        let pow: u32 = desired - starting_decimals;
        if pow > MAX_POW10_EXP {
            return Err(ErrorCode::OracleNumberOverflow);
        }
        let factor: u128 = pow10_u128(pow);
        if starting_price < 0 {
            proof {
                lemma_pow10_pos(pow as nat);
                lemma_mul_inequality(starting_price as int, -1, pow10(pow as nat) as int);
            }
            return Err(ErrorCode::OracleNumberOverflow);
        }
        let mantissa: u128 = starting_price as u128;
        proof {
            lemma_pow10_pos(pow as nat);
        }
        let limit: u128 = (u64::MAX as u128) / factor;
        proof {
            lemma_fundamental_div_mod(u64::MAX as int, factor as int);
            lemma_mod_bound(u64::MAX as int, factor as int);
        }
        if mantissa > limit {
            proof {
                lemma_mul_inequality((limit + 1) as int, mantissa as int, factor as int);
                lemma_mul_is_distributive_add_other_way(
                    factor as int,
                    limit as int,
                    1,
                );
                assert((limit + 1) * (factor as int) == limit * factor + factor);
                assert(mantissa * factor > u64::MAX);
            }
            return Err(ErrorCode::OracleNumberOverflow);
        }
        proof {
            lemma_mul_inequality(mantissa as int, limit as int, factor as int);
            assert(mantissa * factor <= limit * factor <= u64::MAX);
        }
        let value: u128 = mantissa * factor;
        Ok(value as u64)
    } else {
        let shift: u32 = starting_decimals - desired;
        if shift > MAX_POW10_EXP {
            return Err(ErrorCode::OracleNumberOverflow);
        }
        let divisor: u128 = pow10_u128(shift);
        proof {
            lemma_pow10_pos(shift as nat);
            lemma_pow10_mono(shift as nat, 38);
            lemma_pow10_38();
        }
        let divisor_i: i128 = divisor as i128;
        if round_up {
            if starting_price >= 0 {
                if starting_price > i128::MAX - (divisor_i - 1) {
                    return Err(ErrorCode::OracleNumberOverflow);
                }
                let numerator: i128 = starting_price + (divisor_i - 1);
                let quotient: u128 = (numerator as u128) / divisor;
                if quotient > u64::MAX as u128 {
                    return Err(ErrorCode::OracleNumberOverflow);
                }
                Ok(quotient as u64)
            } else {
                // A negative mantissa truncates toward zero: the result is
                // zero exactly when the adjusted numerator lies in (-g, g).
                let numerator: i128 = starting_price + (divisor_i - 1);
                if numerator > -divisor_i {
                    proof {
                        if numerator >= 0 {
                            lemma_basic_div(numerator as int, divisor as int);
                        } else {
                            lemma_basic_div((-numerator) as int, divisor as int);
                        }
                    }
                    Ok(0)
                } else {
                    proof {
                        lemma_div_by_multiple(1, divisor as int);
                        lemma_div_is_ordered(divisor as int, (-numerator) as int, divisor as int);
                    }
                    Err(ErrorCode::OracleNumberOverflow)
                }
            }
        } else {
            if starting_price >= 0 {
                let quotient: u128 = (starting_price as u128) / divisor;
                if quotient > u64::MAX as u128 {
                    return Err(ErrorCode::OracleNumberOverflow);
                }
                Ok(quotient as u64)
            } else {
                if starting_price > -divisor_i {
                    proof {
                        lemma_basic_div((-starting_price) as int, divisor as int);
                    }
                    Ok(0)
                } else {
                    proof {
                        lemma_div_by_multiple(1, divisor as int);
                        lemma_div_is_ordered(
                            divisor as int,
                            (-starting_price) as int,
                            divisor as int,
                        );
                    }
                    Err(ErrorCode::OracleNumberOverflow)
                }
            }
        }
    }
}

/// Rescales a decimal value to `desired_decimals` decimal places.
/// The decimal's own scale is the number of places its mantissa is
/// shifted right, so this is a plain decimal-place conversion.
pub fn convert_switchboard_price(
    sb_value: &crate::feed::Decimal,
    desired_decimals: u8,
    round_up: bool,
) -> (r: Result<u64, ErrorCode>)
    ensures
        r == convert_result(
            sb_value.mantissa as int,
            sb_value.scale as int,
            desired_decimals as int,
            round_up,
        ),
{
    convert_price_decimals(sb_value.mantissa, sb_value.scale, desired_decimals, round_up)
}

/// Scaling up never loses digits: a successful conversion to a scale
/// with at least as many decimal places returns exactly the mantissa
/// multiplied by the corresponding power of ten, whatever the rounding
/// flag says.
pub proof fn lemma_scale_up_is_exact(m: int, s: int, d: int, round_up: bool, v: u64)
    requires
        s <= d,
        convert_result(m, s, d, round_up) == Ok::<u64, ErrorCode>(v),
    ensures
        v == m * pow10((d - s) as nat),
{
}

/// Scaling a value up and then back down returns the original value,
/// for either rounding direction on the way back.
pub proof fn lemma_convert_round_trip(m: int, a: int, b: int, up1: bool, up2: bool, v: u64)
    requires
        0 <= a <= b,
        convert_result(m, a, b, up1) == Ok::<u64, ErrorCode>(v),
    ensures
        0 <= m <= u64::MAX,
        convert_result(v as int, b, a, up2) == Ok::<u64, ErrorCode>(m as u64),
{
    let k = (b - a) as nat;
    let f = pow10(k) as int;
    lemma_pow10_pos(k);
    assert(v == m * f);
    if m < 0 {
        lemma_mul_inequality(m, -1, f);
        assert(-1 * f == -f);
        assert(false);
    }
    lemma_mul_inequality(1, f, m);
    lemma_mul_is_commutative(1, m);
    lemma_mul_is_commutative(f, m);
    assert(m <= m * f);
    if a == b {
        assert(pow10(0) == 1);
        assert(v * 1 == v);
    } else {
        lemma_pow10_mono(k, 38);
        lemma_pow10_38();
        lemma_mul_is_commutative(m, f);
        if up2 {
            assert(v + f - 1 <= i128::MAX);
            lemma_div_multiples_vanish_fancy(m, f - 1, f);
            assert((f * m + (f - 1)) / f == m);
            assert(v + f - 1 == f * m + (f - 1));
        } else {
            lemma_div_multiples_vanish(m, f);
            assert((f * m) / f == m);
        }
    }
}

/// A rounded-down conversion never exceeds the exact rescaled value,
/// a rounded-up conversion is never below it, and the two results
/// differ by at most one unit in the last place.
///
/// The comparisons against the exact value `m / 10^(s - d)` are stated
/// multiplied through by the power of ten.
pub proof fn lemma_rounding_bounds(m: int, s: int, d: int, vd: u64, vu: u64)
    requires
        0 <= m,
        d < s,
        convert_result(m, s, d, false) == Ok::<u64, ErrorCode>(vd),
        convert_result(m, s, d, true) == Ok::<u64, ErrorCode>(vu),
    ensures
        vd * pow10((s - d) as nat) <= m,
        m <= vu * pow10((s - d) as nat),
        vd <= vu <= vd + 1,
{
    let k = (s - d) as nat;
    let g = pow10(k) as int;
    lemma_pow10_pos(k);
    let n = m + g - 1;
    assert(vd == m / g);
    assert(vu == n / g);
    lemma_fundamental_div_mod(m, g);
    lemma_mod_bound(m, g);
    let r0 = m % g;
    lemma_fundamental_div_mod(n, g);
    lemma_mod_bound(n, g);
    lemma_mul_is_commutative(vd as int, g);
    lemma_mul_is_commutative(vu as int, g);
    assert(g * (n / g) <= n);
    lemma_div_is_ordered(m, n, g);
    if r0 == 0 {
        lemma_div_multiples_vanish_fancy(vd as int, g - 1, g);
        assert(n == g * vd + (g - 1));
        assert(n / g == vd);
    } else {
        assert(g * (vd + 1) == g * vd + g) by {
            lemma_mul_is_distributive_add(g, vd as int, 1);
        }
        assert(n == (vd + 1) * g + (r0 - 1)) by {
            lemma_mul_is_commutative(vd + 1, g);
        }
        lemma_fundamental_div_mod_converse(n, g, vd + 1, r0 - 1);
        assert(n / g == vd + 1);
    }
}

/// A conversion whose correctly rounded result does not fit in a
/// `u64` fails with `OracleNumberOverflow`; it is never wrapped or
/// clamped.
pub proof fn lemma_overflow_is_error(m: int, s: int, d: int, round_up: bool)
    requires
        0 <= m,
    ensures
        s <= d && d - s <= MAX_POW10_EXP && m * pow10((d - s) as nat) > u64::MAX
            ==> convert_result(m, s, d, round_up) == Err::<u64, ErrorCode>(
                ErrorCode::OracleNumberOverflow,
            ),
        d < s && s - d <= MAX_POW10_EXP && div_trunc(m, pow10((s - d) as nat) as int) > u64::MAX
            ==> convert_result(m, s, d, false) == Err::<u64, ErrorCode>(
                ErrorCode::OracleNumberOverflow,
            ),
        d < s && s - d <= MAX_POW10_EXP && div_trunc(
            m + pow10((s - d) as nat) - 1,
            pow10((s - d) as nat) as int,
        ) > u64::MAX ==> convert_result(m, s, d, true) == Err::<u64, ErrorCode>(
            ErrorCode::OracleNumberOverflow,
        ),
{
}

} // verus!
