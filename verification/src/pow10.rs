use vstd::prelude::*;

verus! {

/// Ten raised to the `n`-th power: the factor between two decimal scales
/// that differ by `n` places.
pub open spec fn pow10(n: nat) -> nat
    decreases n,
{
    if n == 0 {
        1
    } else {
        10 * pow10((n - 1) as nat)
    }
}

/// The largest exponent whose power of ten still fits in an `i128`.
pub const MAX_POW10_EXP: u32 = 38;

/// Every power of ten is at least one.
pub proof fn lemma_pow10_pos(n: nat)
    ensures
        pow10(n) >= 1,
    decreases n,
{
    if n > 0 {
        lemma_pow10_pos((n - 1) as nat);
    }
}

/// Powers of ten grow with the exponent.
pub proof fn lemma_pow10_mono(a: nat, b: nat)
    requires
        a <= b,
    ensures
        pow10(a) <= pow10(b),
    decreases b,
{
    if a < b {
        lemma_pow10_mono(a, (b - 1) as nat);
        lemma_pow10_pos((b - 1) as nat);
    }
}

/// Powers of ten multiply by adding exponents.
pub proof fn lemma_pow10_adds(a: nat, b: nat)
    ensures
        pow10(a + b) == pow10(a) * pow10(b),
    decreases a,
{
    if a == 0 {
        assert(pow10(b) == 1 * pow10(b)) by {
            vstd::arithmetic::mul::lemma_mul_basics(pow10(b) as int);
        }
    } else {
        lemma_pow10_adds((a - 1) as nat, b);
        assert(pow10(a + b) == 10 * pow10((a + b - 1) as nat));
        vstd::arithmetic::mul::lemma_mul_is_associative(
            10,
            pow10((a - 1) as nat) as int,
            pow10(b) as int,
        );
    }
}

/// Pins the numeric value of `pow10(38)`, the largest power of ten
/// below `i128::MAX`.
pub proof fn lemma_pow10_38()
    ensures
        pow10(38) == 100000000000000000000000000000000000000,
{
    reveal_with_fuel(pow10, 40);
}

/// Computes ten to the `k`-th power exactly.
pub fn pow10_u128(k: u32) -> (r: u128)
    requires
        k <= MAX_POW10_EXP,
    ensures
        r == pow10(k as nat),
{
    let mut i: u32 = 0;
    let mut acc: u128 = 1;
    while i < k
        invariant
            i <= k <= MAX_POW10_EXP,
            acc == pow10(i as nat),
        decreases k - i,
    {
        proof {
            lemma_pow10_mono((i + 1) as nat, 38);
            lemma_pow10_38();
            assert(pow10((i + 1) as nat) == 10 * pow10(i as nat));
        }
        acc = acc * 10;
        i = i + 1;
    }
    acc
}

} // verus!
