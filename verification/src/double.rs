//! Whole numbers as a double holds them: to fifty-three bits, halves rounded to even.

use vstd::arithmetic::div_mod::lemma_div_denominator;
use vstd::arithmetic::power2::{lemma_pow2_pos, lemma_pow2_unfold, pow2};
use vstd::prelude::*;

verus! {

/// The first number that takes more bits than a double has.
pub const PRECISION: u128 = 9_007_199_254_740_992;

/// The quotient of `n` and `d` to the nearest whole number; halves go to the even one.
pub open spec fn nearest(n: nat, d: nat) -> nat {
    let whole = n / d;
    let rest = n % d;
    if 2 * rest > d || (2 * rest == d && whole % 2 == 1) {
        whole + 1
    } else {
        whole
    }
}

/// How many bits of `n` a double has no room for.
pub open spec fn excess(n: nat) -> nat
    decreases n,
{
    if n < PRECISION {
        0
    } else {
        1 + excess(n / 2)
    }
}

/// What a double holds where it is to hold `n`.
pub open spec fn held(n: nat) -> nat {
    nearest(n, pow2(excess(n))) * pow2(excess(n))
}

/// The quotient of `n` and `d` to the nearest whole number; halves go to the even one.
pub fn nearest_of(n: u128, d: u128) -> (r: u128)
    requires
        d > 0,
        n < u128::MAX,
    ensures
        r == nearest(n as nat, d as nat),
{
    let whole: u128 = n / d;
    let rest: u128 = n % d;
    assert(whole <= n) by (nonlinear_arith)
        requires
            whole == n as int / d as int,
            d >= 1,
            n >= 0,
    ;
    if rest > d - rest || (rest == d - rest && whole % 2 == 1) {
        whole + 1
    } else {
        whole
    }
}

/// The unit of the last bit in which a double holds `n`.
fn unit_of(n: u128) -> (r: u128)
    ensures
        r == pow2(excess(n as nat)),
        r == 1 || r <= n,
{
    let mut unit: u128 = 1;
    let mut left: u128 = n;
    let ghost mut e: nat = 0;
    proof {
        vstd::arithmetic::power2::lemma2_to64();
    }
    while left >= PRECISION
        invariant
            unit == pow2(e),
            unit >= 1,
            left == n as nat / unit as nat,
            excess(n as nat) == e + excess(left as nat),
            unit == 1 || unit <= n,
        decreases left,
    {
        proof {
            lemma_pow2_unfold(e + 1);
            lemma_div_denominator(n as int, unit as int, 2);
            assert(unit * 2 <= n) by (nonlinear_arith)
                requires
                    left == n as int / unit as int,
                    left >= 2,
                    unit >= 1,
            ;
            e = e + 1;
        }
        left = left / 2;
        unit = unit * 2;
    }
    unit
}

/// What is held is at most twice what was to be held.
proof fn lemma_held_is_near(n: nat)
    ensures
        held(n) <= 2 * n,
{
    let e = excess(n);
    let unit = pow2(e);
    lemma_pow2_pos(e);
    lemma_unit_is_small(n);
    let whole = n / unit;
    assert(whole * unit <= n) by (nonlinear_arith)
        requires
            whole == n / unit,
            unit > 0,
    ;
    if unit == 1 {
        assert(n / 1 == n && n % 1 == 0);
    } else {
        assert((whole + 1) * unit == whole * unit + unit) by (nonlinear_arith);
    }
}

proof fn lemma_unit_is_small(n: nat)
    ensures
        pow2(excess(n)) == 1 || pow2(excess(n)) <= n,
    decreases n,
{
    vstd::arithmetic::power2::lemma2_to64();
    if n >= PRECISION {
        lemma_unit_is_small(n / 2);
        lemma_pow2_unfold(excess(n));
    }
}

/// What a double holds where it is to hold `n`.
pub fn held_of(n: u128) -> (r: u128)
    requires
        n <= u128::MAX / 2,
    ensures
        r == held(n as nat),
        r <= 2 * n,
{
    let unit: u128 = unit_of(n);
    proof {
        lemma_pow2_pos(excess(n as nat));
        lemma_held_is_near(n as nat);
    }
    nearest_of(n, unit) * unit
}

/// The nearest whole number lies within a half of the fraction, and of two that are equally near the
/// even one is taken.
pub proof fn the_nearest_is_within_a_half(n: nat, d: nat)
    requires
        d > 0,
    ensures
        2 * (nearest(n, d) * d) <= 2 * n + d,
        2 * n <= 2 * (nearest(n, d) * d) + d,
        2 * (nearest(n, d) * d) == 2 * n + d || 2 * n == 2 * (nearest(n, d) * d) + d ==> nearest(
            n,
            d,
        ) % 2 == 0,
{
    let whole = n / d;
    let rest = n % d;
    assert(n == whole * d + rest && rest < d) by (nonlinear_arith)
        requires
            d > 0,
            whole == n / d,
            rest == n % d,
    ;
    assert((whole + 1) * d == whole * d + d) by (nonlinear_arith);
}

} // verus!
