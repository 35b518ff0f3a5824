//! Arithmetic facts shared by the fee computations.

use vstd::prelude::*;
use vstd::arithmetic::div_mod::lemma_hoist_over_denominator;

verus! {

/// Dividing `x * y` by `d` after splitting `x` into `q * d + r`: the whole
/// multiples of `d` pass through the division untouched.
pub proof fn lemma_mul_div_split(x: int, y: int, d: int, q: int, r: int)
    requires
        0 < d,
        x == q * d + r,
    ensures
        (x * y) / d == q * y + (r * y) / d,
{
    assert(x * y == r * y + (q * y) * d) by (nonlinear_arith)
        requires
            x == q * d + r,
    ;
    lemma_hoist_over_denominator(r * y, q * y, d as nat);
}

} // verus!
