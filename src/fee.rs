//! Weight-derived fees and the fixed-point fee multiplier.

use vstd::prelude::*;

verus! {

/// An abstract measure of computational cost.
pub type Weight = u64;

/// An amount of currency, in its smallest unit.
pub type Balance = u128;

/// Saturates a mathematical integer at the largest `Balance`.
pub open spec fn saturate(x: int) -> int {
    if x > u128::MAX {
        u128::MAX as int
    } else {
        x
    }
}

/// The fee for `weight` at `coefficient` per unit, capped at the largest `Balance`.
pub open spec fn weight_fee_spec(weight: int, coefficient: int) -> int {
    saturate(weight * coefficient)
}

/// Converts a weight into a fee: `weight * coefficient`, saturating.
pub fn weight_to_fee(weight: Weight, coefficient: Balance) -> (fee: Balance)
    ensures
        fee == weight_fee_spec(weight as int, coefficient as int),
{
    match (weight as u128).checked_mul(coefficient) {
        Some(fee) => fee,
        None => u128::MAX,
    }
}

/// The weight fee never decreases as the weight grows.
pub proof fn lemma_weight_fee_monotonic(w1: Weight, w2: Weight, coefficient: Balance)
    requires
        w1 < w2,
    ensures
        weight_fee_spec(w1 as int, coefficient as int) <= weight_fee_spec(w2 as int, coefficient as int),
{
    assert(w1 as int * coefficient as int <= w2 as int * coefficient as int) by (nonlinear_arith)
        requires
            w1 < w2,
    ;
}

} // verus!
