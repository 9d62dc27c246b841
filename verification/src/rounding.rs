//! Rounding a quotient to the nearest whole number.

use vstd::prelude::*;

verus! {

/// `n / d` rounded to the nearest whole number; where `n / d` lies halfway
/// between two whole numbers, the even one is taken.
pub open spec fn round_half_even(n: nat, d: nat) -> nat
    recommends
        d > 0,
{
    let q = n / d;
    let r = n % d;
    if 2 * r > d || (2 * r == d && q % 2 == 1) {
        q + 1
    } else {
        q
    }
}

/// Computes `n / d` rounded to the nearest whole number, ties to even.
pub fn rounded_quotient(n: u64, d: u64) -> (q: u64)
    requires
        d > 0,
    ensures
        q == round_half_even(n as nat, d as nat),
{
    let whole: u64 = n / d;
    let rest: u64 = n % d;
    let gap: u64 = d - rest;
    if gap < rest || (gap == rest && whole % 2 == 1) {
        assert(whole < u64::MAX) by (nonlinear_arith)
            requires
                whole == n as int / d as int,
                d >= 2,
                0 <= n <= u64::MAX,
        ;
        whole + 1
    } else {
        whole
    }
}

} // verus!
