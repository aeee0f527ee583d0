//! Facts about whole-number division that the rest of the library leans on.
//!
//! In specifications `/` rounds down for a positive divisor.

use vstd::prelude::*;

verus! {

/// The quotient `n / d` rounded to the nearest whole number, a half going up.
pub open spec fn rounded_quotient(n: int, d: int) -> int {
    (2 * n + d) / (2 * d)
}

/// The quotient of a division by a positive number is the one multiple of
/// the divisor that lies at or just below the dividend.
pub proof fn lemma_floor_bounds(x: int, d: int)
    requires
        d > 0,
    ensures
        (x / d) * d <= x < (x / d) * d + d,
{
    vstd::arithmetic::div_mod::lemma_fundamental_div_mod(x, d);
    vstd::arithmetic::div_mod::lemma_mod_bound(x, d);
    vstd::arithmetic::mul::lemma_mul_is_commutative(x / d, d);
}

/// Any number `q` whose multiple of the divisor lies at or just below the
/// dividend is the quotient.
pub proof fn lemma_floor_is(x: int, d: int, q: int)
    requires
        d > 0,
        q * d <= x < q * d + d,
    ensures
        x / d == q,
{
    vstd::arithmetic::div_mod::lemma_fundamental_div_mod_converse(x, d, q, x - q * d);
}

/// A larger dividend never gives a smaller quotient.
pub proof fn lemma_floor_is_monotonic(x: int, y: int, d: int)
    requires
        d > 0,
        x <= y,
    ensures
        x / d <= y / d,
{
    vstd::arithmetic::div_mod::lemma_div_is_ordered(x, y, d);
}

/// The rounded quotient lies within one half of the exact one: twice its
/// distance from `n / d`, measured in units of `1 / d`, is at most `d`, and
/// less than `d` on the upper side.
pub proof fn lemma_rounded_quotient_is_nearest(n: int, d: int)
    requires
        n >= 0,
        d > 0,
    ensures
        rounded_quotient(n, d) >= 0,
        2 * (rounded_quotient(n, d) * d) - d <= 2 * n < 2 * (rounded_quotient(n, d) * d) + d,
{
    let r = rounded_quotient(n, d);
    lemma_floor_bounds(2 * n + d, 2 * d);
    assert(r * (2 * d) == 2 * (r * d)) by (nonlinear_arith);
    lemma_floor_is_monotonic(0, 2 * n + d, 2 * d);
}

/// No other whole number lies that close to the exact quotient.
pub proof fn lemma_rounded_quotient_is_unique(n: int, d: int, r: int)
    requires
        d > 0,
        2 * (r * d) - d <= 2 * n < 2 * (r * d) + d,
    ensures
        r == rounded_quotient(n, d),
{
    assert(r * (2 * d) == 2 * (r * d)) by (nonlinear_arith);
    lemma_floor_is(2 * n + d, 2 * d, r);
}

} // verus!
