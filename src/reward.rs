//! Splitting collected fees between beneficiaries.

use vstd::prelude::*;
use vstd::arithmetic::div_mod::lemma_fundamental_div_mod;
use crate::arith::lemma_mul_div_split;
use crate::fee::Balance;
use crate::state::{burnt, credit_lands, credited, saturating_sub, ChainState, FeeConfig};

verus! {

/// Currency taken out of an account and not yet credited anywhere.
#[derive(Debug, PartialEq, Eq, Structural)]
pub struct Imbalance {
    pub amount: Balance,
}

/// The first of two shares of `amount` in the ratio `first : second`, rounded down.
pub open spec fn first_share(amount: int, first: int, second: int) -> int {
    amount * first / (first + second)
}

/// Splits `amount` in the ratio `first : second`: the first part is rounded
/// down and the second takes the remainder, so that nothing is lost.
pub fn split_amount(amount: Balance, first: u32, second: u32) -> (parts: (Balance, Balance))
    requires
        first as int + second as int > 0,
    ensures
        parts.0 == first_share(amount as int, first as int, second as int),
        parts.0 + parts.1 == amount,
{
    let total = first as u128 + second as u128;
    let k = amount / total;
    let r = amount % total;
    proof {
        lemma_fundamental_div_mod(amount as int, total as int);
        assert(total as int * k as int == k as int * total as int) by (nonlinear_arith);
        lemma_mul_div_split(amount as int, first as int, total as int, k as int, r as int);
        assert(r as int * first as int <= total as int * first as int) by (nonlinear_arith)
            requires
                r < total,
                first >= 0,
        ;
        assert(total as int * first as int <= 0x2_0000_0000 * 0x1_0000_0000) by (nonlinear_arith)
            requires
                total <= 0x2_0000_0000,
                first <= 0x1_0000_0000,
                first >= 0,
        ;
        assert((r as int * first as int) / total as int <= r as int) by (nonlinear_arith)
            requires
                r < total,
                first as int <= total as int,
                r >= 0,
                first >= 0,
        ;
        assert(k as int * first as int + r as int * first as int / total as int <= amount) by (nonlinear_arith)
            requires
                amount as int == k as int * total as int + r as int,
                first as int <= total as int,
                (r as int * first as int) / total as int <= r as int,
                k >= 0,
                first >= 0,
        ;
        assert(k as int * first as int <= k as int * total as int) by (nonlinear_arith)
            requires
                first as int <= total as int,
                k >= 0,
        ;
    }
    let part1 = k * first as u128 + r * (first as u128) / total;
    (part1, amount - part1)
}

impl Imbalance {
    pub fn peek(&self) -> (r: Balance)
        ensures
            r == self.amount,
    {
        self.amount
    }

    /// Splits the imbalance in the ratio `first : second`; the two parts hold
    /// exactly what the whole held.
    pub fn split(self, first: u32, second: u32) -> (parts: (Imbalance, Imbalance))
        requires
            first as int + second as int > 0,
        ensures
            parts.0.amount == first_share(self.amount as int, first as int, second as int),
            parts.0.amount + parts.1.amount == self.amount,
    {
        let (a, b) = split_amount(self.amount, first, second);
        (Imbalance { amount: a }, Imbalance { amount: b })
    }
}

/// The treasury as a destination of fees: it receives them in the treasury account.
pub struct MockTreasury;

impl MockTreasury {
    /// Credits `amount` to the treasury account; burns it where there is none
    /// or its balance has no room.
    pub fn on_unbalanced(state: &mut ChainState, amount: Imbalance) -> (landed: bool)
        ensures
            landed == credit_lands(old(state).accounts@, old(state).treasury, amount.amount as int),
            final(state).accounts@ == credited(old(state).accounts@, old(state).treasury, amount.amount as int),
            final(state).total_issuance == saturating_sub(
                old(state).total_issuance as int,
                burnt(old(state).accounts@, old(state).treasury, amount.amount as int),
            ),
            final(state).block_weight == old(state).block_weight,
            final(state).block_gas == old(state).block_gas,
            final(state).multiplier == old(state).multiplier,
            final(state).author == old(state).author,
            final(state).treasury == old(state).treasury,
    {
        let treasury = state.treasury;
        state.resolve(treasury, amount.amount)
    }
}

/// The author of the current block as a destination of fees.
pub struct BlockAuthor;

impl BlockAuthor {
    /// Credits `amount` to the block author; burns it where the author is
    /// unknown or its balance has no room.
    pub fn on_unbalanced(state: &mut ChainState, amount: Imbalance) -> (landed: bool)
        ensures
            landed == credit_lands(old(state).accounts@, old(state).author, amount.amount as int),
            final(state).accounts@ == credited(old(state).accounts@, old(state).author, amount.amount as int),
            final(state).total_issuance == saturating_sub(
                old(state).total_issuance as int,
                burnt(old(state).accounts@, old(state).author, amount.amount as int),
            ),
            final(state).block_weight == old(state).block_weight,
            final(state).block_gas == old(state).block_gas,
            final(state).multiplier == old(state).multiplier,
            final(state).author == old(state).author,
            final(state).treasury == old(state).treasury,
    {
        let author = state.author;
        state.resolve(author, amount.amount)
    }
}

/// Shares collected fees: `cfg.treasury_share` parts to the treasury and
/// `cfg.author_share` parts to the block author, rounding in the author's
/// favour. Returns the two amounts.
pub fn deal_with_fees(state: &mut ChainState, cfg: &FeeConfig, fees: Imbalance) -> (parts: (Balance, Balance))
    requires
        cfg.wf(),
    ensures
        parts.0 == first_share(fees.amount as int, cfg.treasury_share as int, cfg.author_share as int),
        parts.0 + parts.1 == fees.amount,
        final(state).accounts@ == credited(
            credited(old(state).accounts@, old(state).treasury, parts.0 as int),
            old(state).author,
            parts.1 as int,
        ),
        final(state).total_issuance == saturating_sub(
            saturating_sub(
                old(state).total_issuance as int,
                burnt(old(state).accounts@, old(state).treasury, parts.0 as int),
            ),
            burnt(credited(old(state).accounts@, old(state).treasury, parts.0 as int), old(state).author, parts.1 as int),
        ),
        final(state).block_weight == old(state).block_weight,
        final(state).block_gas == old(state).block_gas,
        final(state).multiplier == old(state).multiplier,
        final(state).author == old(state).author,
        final(state).treasury == old(state).treasury,
{
    let (to_treasury, to_author) = fees.split(cfg.treasury_share, cfg.author_share);
    let parts = (to_treasury.peek(), to_author.peek());
    MockTreasury::on_unbalanced(state, to_treasury);
    BlockAuthor::on_unbalanced(state, to_author);
    parts
}

} // verus!
