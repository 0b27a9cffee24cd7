//! Small arithmetic helpers.

use vstd::prelude::*;

verus! {

/// Quotient of `a` by `b` rounded up; `0` where `b` is `0`.
pub open spec fn ceil_div(a: int, b: int) -> int {
    if b <= 0 {
        0
    } else {
        (a + b - 1) / b
    }
}

/// Divides `a` by `b` and rounds the quotient up. A zero divisor gives zero.
pub fn div_cell(a: usize, b: usize) -> (q: usize)
    ensures
        q == ceil_div(a as int, b as int),
{
    if b == 0 {
        return 0;
    }
    let whole: usize = a / b;
    let rest: usize = a % b;
    proof {
        lemma_ceil_div_parts(a as int, b as int);
    }
    if rest == 0 {
        whole
    } else {
        whole + 1
    }
}

/// The rounded-up quotient is the plain quotient, plus one where the division
/// leaves a remainder.
pub proof fn lemma_ceil_div_parts(a: int, b: int)
    requires
        0 <= a,
        0 < b,
    ensures
        ceil_div(a, b) == a / b + if a % b == 0 { 0int } else { 1int },
        a / b <= a,
        a % b != 0 ==> a / b < a,
{
    assert(ceil_div(a, b) == a / b + if a % b == 0 { 0int } else { 1int }) by (nonlinear_arith)
        requires
            0 <= a,
            0 < b,
            ceil_div(a, b) == (a + b - 1) / b,
    ;
    assert(a / b <= a && (a % b != 0 ==> a / b < a)) by (nonlinear_arith)
        requires
            0 <= a,
            0 < b,
    ;
}

} // verus!
