//! The fee multiplier and the controller that adjusts it once per block.

use vstd::prelude::*;
use crate::arith::lemma_mul_div_split;
use crate::fee::{saturate, Balance, Weight};

verus! {

/// The multiplier that stands for the ratio 1.
pub const MULTIPLIER_ONE: u128 = 1_000_000_000_000_000_000;

/// The smallest multiplier the controller leaves behind: fees never reach zero
/// through adjustment alone.
pub const MIN_MULTIPLIER: u128 = 1;

/// Parts of a block's fullness that stand for a completely full block.
pub const FULLNESS_ONE: u32 = 1_000_000_000;

/// Multiplier units added per part of fullness above the target.
pub const LINEAR_GAIN: u128 = 40_000;

/// The quadratic term is `excess * excess * QUADRATIC_NUM / QUADRATIC_DEN`.
pub const QUADRATIC_NUM: u128 = 8;

pub const QUADRATIC_DEN: u128 = 10_000_000_000;

/// A positive fixed-point ratio: `inner / MULTIPLIER_ONE`.
#[derive(Clone, Copy, Debug, PartialEq, Eq, Structural)]
pub struct Multiplier {
    pub inner: u128,
}

impl Multiplier {
    pub open spec fn wf(self) -> bool {
        self.inner >= MIN_MULTIPLIER
    }

    /// The ratio 1: fees are the plain weight fee.
    pub fn one() -> (m: Multiplier)
        ensures
            m.inner == MULTIPLIER_ONE,
            m.wf(),
    {
        Multiplier { inner: MULTIPLIER_ONE }
    }

    /// The multiplier with `inner` units, or `None` where that is below the floor.
    pub fn from_inner(inner: u128) -> (m: Option<Multiplier>)
        ensures
            inner >= MIN_MULTIPLIER <==> m.is_some(),
            m.is_some() ==> m.unwrap().inner == inner && m.unwrap().wf(),
    {
        if inner >= MIN_MULTIPLIER {
            Some(Multiplier { inner })
        } else {
            None
        }
    }
}

/// A weight fee scaled by a multiplier, rounded down and capped.
pub open spec fn scaled_fee_spec(fee: int, inner: int) -> int {
    saturate((fee * inner) / (MULTIPLIER_ONE as int))
}

/// Scales `fee` by the multiplier: `floor(fee * m)`, saturating at the largest `Balance`.
pub fn scale_fee(fee: Balance, m: Multiplier) -> (r: Balance)
    ensures
        r == scaled_fee_spec(fee as int, m.inner as int),
{
    let one = MULTIPLIER_ONE;
    let q = fee / one;
    let rem = fee % one;
    let a = m.inner / one;
    let b = m.inner % one;
    proof {
        lemma_mul_div_split(fee as int, m.inner as int, one as int, q as int, rem as int);
        lemma_mul_div_split(m.inner as int, rem as int, one as int, a as int, b as int);
        assert(rem as int * m.inner as int == m.inner as int * rem as int) by (nonlinear_arith);
        assert(b as int * rem as int == rem as int * b as int) by (nonlinear_arith);
        assert(a as int * rem as int <= a as int * (one as int - 1)) by (nonlinear_arith)
            requires
                rem < one,
                a >= 0,
        ;
        assert(a as int * one as int <= m.inner) by (nonlinear_arith)
            requires
                m.inner as int == a as int * one as int + b as int,
                b >= 0,
        ;
        assert(rem as int * b as int <= (one as int - 1) * (one as int - 1)) by (nonlinear_arith)
            requires
                rem < one,
                b < one,
                rem >= 0,
                b >= 0,
        ;
        assert((rem as int * b as int) / (one as int) <= rem as int * b as int) by (nonlinear_arith)
            requires
                rem as int * b as int >= 0,
                one as int >= 1,
        ;
    }
    let low = a * rem + (rem * b) / one;
    match q.checked_mul(m.inner) {
        Some(high) => match high.checked_add(low) {
            Some(r) => r,
            None => u128::MAX,
        },
        None => {
            proof {
                assert(q as int * m.inner as int + low as int >= q as int * m.inner as int);
            }
            u128::MAX
        },
    }
}

/// The size of the correction for fullness `excess` parts away from the target:
/// a proportional term and, for a convex response, a term in its square.
pub open spec fn linear_term(excess: int) -> int {
    LINEAR_GAIN * excess
}

pub open spec fn quadratic_term(excess: int) -> int {
    (excess * excess * QUADRATIC_NUM) / (QUADRATIC_DEN as int)
}

/// The multiplier after a block of the given fullness. Above the target both
/// terms push it up, capped at the largest value; below the target the square
/// softens the pull down, which stops at the floor.
pub open spec fn next_multiplier_spec(prev: int, fullness: int, target: int) -> int {
    if fullness >= target {
        let excess = fullness - target;
        saturate(prev + linear_term(excess) + quadratic_term(excess))
    } else {
        let shortfall = target - fullness;
        let down = linear_term(shortfall) - quadratic_term(shortfall);
        if prev - down < MIN_MULTIPLIER {
            MIN_MULTIPLIER as int
        } else {
            prev - down
        }
    }
}

proof fn lemma_terms_bounded(excess: int)
    requires
        0 <= excess <= FULLNESS_ONE,
    ensures
        0 <= quadratic_term(excess) <= excess,
        excess * excess * QUADRATIC_NUM <= 8_000_000_000_000_000_000,
        0 < excess ==> quadratic_term(excess) < linear_term(excess),
        linear_term(excess) <= 40_000_000_000_000,
{
    assert(excess * excess * 8 <= excess * 8_000_000_000) by (nonlinear_arith)
        requires
            0 <= excess <= 1_000_000_000,
    ;
    assert(excess * 8_000_000_000 <= 8_000_000_000_000_000_000) by (nonlinear_arith)
        requires
            0 <= excess <= 1_000_000_000,
    ;
    assert((excess * excess * 8) / 10_000_000_000 <= excess) by (nonlinear_arith)
        requires
            0 <= excess * excess * 8 <= excess * 8_000_000_000,
    ;
}

/// Computes the multiplier for the next block from the last one and the
/// fullness of the block just finished, both fullness values in parts of
/// `FULLNESS_ONE`.
pub fn adjust_multiplier(prev: Multiplier, fullness: u32, target: u32) -> (next: Multiplier)
    requires
        prev.wf(),
        fullness <= FULLNESS_ONE,
        target <= FULLNESS_ONE,
    ensures
        next.wf(),
        next.inner == next_multiplier_spec(prev.inner as int, fullness as int, target as int),
        fullness == target ==> next == prev,
        fullness > target ==> next.inner > prev.inner || next.inner == u128::MAX,
        fullness < target ==> next.inner <= prev.inner,
{
    if fullness >= target {
        let excess = (fullness - target) as u128;
        proof {
            lemma_terms_bounded(excess as int);
        }
        let linear = LINEAR_GAIN * excess;
        let quadratic = excess * excess * QUADRATIC_NUM / QUADRATIC_DEN;
        let next = prev.inner.saturating_add(linear + quadratic);
        Multiplier { inner: next }
    } else {
        let shortfall = (target - fullness) as u128;
        proof {
            lemma_terms_bounded(shortfall as int);
        }
        let down = LINEAR_GAIN * shortfall - shortfall * shortfall * QUADRATIC_NUM / QUADRATIC_DEN;
        if prev.inner < down || prev.inner - down < MIN_MULTIPLIER {
            Multiplier { inner: MIN_MULTIPLIER }
        } else {
            Multiplier { inner: prev.inner - down }
        }
    }
}

proof fn lemma_quadratic_growth(a: int, b: int)
    requires
        0 <= a <= b <= FULLNESS_ONE,
    ensures
        quadratic_term(a) <= quadratic_term(b),
        a < b ==> quadratic_term(b) - quadratic_term(a) < linear_term(b) - linear_term(a),
{
    let den = QUADRATIC_DEN as int;
    assert(a * a * 8 <= b * b * 8) by (nonlinear_arith)
        requires
            0 <= a <= b,
    ;
    vstd::arithmetic::div_mod::lemma_div_is_ordered(a * a * 8, b * b * 8, den);
    if a < b {
        assert(b * b * 8 - a * a * 8 <= (b - a) * 16_000_000_000) by (nonlinear_arith)
            requires
                0 <= a < b <= 1_000_000_000,
        ;
        vstd::arithmetic::div_mod::lemma_fundamental_div_mod(a * a * 8, den);
        vstd::arithmetic::div_mod::lemma_fundamental_div_mod(b * b * 8, den);
        vstd::arithmetic::div_mod::lemma_mod_bound(a * a * 8, den);
        vstd::arithmetic::div_mod::lemma_mod_bound(b * b * 8, den);
        let qa = (a * a * 8) / den;
        let qb = (b * b * 8) / den;
        assert((qb - qa) * den < (b - a) * 16_000_000_000 + den);
        assert(qb - qa < 40_000 * (b - a)) by (nonlinear_arith)
            requires
                (qb - qa) * den < (b - a) * 16_000_000_000 + den,
                den == 10_000_000_000,
                b - a >= 1,
        ;
    }
}

/// The controller's response is monotonic: a fuller block never leaves a
/// smaller multiplier than an emptier one, from the same starting point.
pub proof fn lemma_adjust_monotonic(prev: Multiplier, f1: u32, f2: u32, target: u32)
    requires
        prev.wf(),
        f1 <= f2 <= FULLNESS_ONE,
        target <= FULLNESS_ONE,
    ensures
        next_multiplier_spec(prev.inner as int, f1 as int, target as int)
            <= next_multiplier_spec(prev.inner as int, f2 as int, target as int),
{
    if f1 >= target {
        lemma_quadratic_growth(f1 - target, f2 - target);
    } else if f2 >= target {
        lemma_terms_bounded(target - f1);
    } else {
        lemma_quadratic_growth(target - f2, target - f1);
    }
}

/// The fullness of a block that consumed `consumed` of `max` weight, in parts of
/// `FULLNESS_ONE`, rounded down and capped at a full block.
pub open spec fn fullness_spec(consumed: int, max: int) -> int {
    let f = consumed * FULLNESS_ONE / max;
    if f > FULLNESS_ONE {
        FULLNESS_ONE as int
    } else {
        f
    }
}

pub fn block_fullness(consumed: Weight, max: Weight) -> (f: u32)
    requires
        max > 0,
    ensures
        f == fullness_spec(consumed as int, max as int),
        f <= FULLNESS_ONE,
{
    assert(consumed as int * FULLNESS_ONE as int <= u64::MAX as int * 1_000_000_000) by (nonlinear_arith)
        requires
            consumed <= u64::MAX,
    ;
    let f = (consumed as u128) * (FULLNESS_ONE as u128) / (max as u128);
    if f > FULLNESS_ONE as u128 {
        FULLNESS_ONE
    } else {
        f as u32
    }
}

} // verus!
