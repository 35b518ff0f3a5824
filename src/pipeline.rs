//! The ordered validation pipeline every extrinsic passes before inclusion,
//! and the atomic application of one that passes.

use vstd::prelude::*;
use crate::extrinsic::{Era, Extrinsic};
use crate::fee::{saturate, weight_fee_spec, weight_to_fee, Balance, Weight};
use crate::multiplier::{
    adjust_multiplier, block_fullness, fullness_spec, next_multiplier_spec, scale_fee, scaled_fee_spec, Multiplier,
    FULLNESS_ONE,
};
use crate::reward::{deal_with_fees, first_share, Imbalance};
use crate::state::{burnt, credited, saturating_sub, AccountInfo, ChainInfo, ChainState, FeeConfig};

verus! {

/// Why an extrinsic was turned away, by the stage that turned it away.
#[derive(Clone, Copy, Debug, PartialEq, Eq, Structural)]
pub enum Rejection {
    /// It was made for another runtime version.
    BadVersion,
    /// It was made for another chain.
    BadGenesis,
    /// Its mortality window has passed.
    Stale,
    /// Its mortality window has not begun.
    Future,
    /// No account has the signer's index.
    UnknownAccount,
    /// Its nonce was used already.
    NonceTooLow,
    /// Its nonce leaves a gap after the account's stored nonce.
    NonceTooHigh,
    /// The account's nonce has no successor left.
    NonceExhausted,
    /// Its weight does not fit in what remains of the block.
    ExhaustsResources,
    /// The account cannot pay the fee and the tip.
    InsufficientBalance,
    /// Its gas does not fit in what remains of the block's gas limit.
    GasLimitExceeded,
}

/// What applying an extrinsic did with its payment.
#[derive(Clone, Copy, Debug, PartialEq, Eq, Structural)]
pub struct Applied {
    /// Withdrawn from the signer: the fee and the tip.
    pub charged: Balance,
    /// The treasury's part of it.
    pub to_treasury: Balance,
    /// The block author's part of it.
    pub to_author: Balance,
}

/// Where the mortality check stands for `era` at block `now`.
pub open spec fn era_rejection(era: Era, now: int) -> Option<Rejection> {
    match era {
        Era::Immortal => None,
        Era::Mortal { birth, period } => if now < birth {
            Some(Rejection::Future)
        } else if now - birth >= period {
            Some(Rejection::Stale)
        } else {
            None
        },
    }
}

/// The fee for an extrinsic of `len` bytes and `weight`: base fee, length fee and
/// the weight fee scaled by the multiplier, each step saturating.
pub open spec fn fee_spec(cfg: FeeConfig, m: Multiplier, len: int, weight: int) -> int {
    saturate(
        cfg.base_fee + saturate(len * cfg.byte_fee) + scaled_fee_spec(
            weight_fee_spec(weight, cfg.weight_coefficient as int),
            m.inner as int,
        ),
    )
}

/// What is withdrawn from the signer: the fee and the tip, saturating.
pub open spec fn charge_spec(cfg: FeeConfig, m: Multiplier, len: int, weight: int, tip: int) -> int {
    saturate(fee_spec(cfg, m, len, weight) + tip)
}

/// The pipeline's outcome: the first stage that rejects, in order, or the
/// amount to withdraw where all accept.
pub open spec fn check_spec(
    state: ChainState,
    chain: ChainInfo,
    cfg: FeeConfig,
    xt: Extrinsic,
    len: int,
) -> Result<int, Rejection> {
    let extra = xt.extra;
    if extra.spec_version != chain.spec_version {
        Err(Rejection::BadVersion)
    } else if extra.genesis_hash@ != chain.genesis_hash@ {
        Err(Rejection::BadGenesis)
    } else if era_rejection(extra.era, chain.block_number as int).is_some() {
        Err(era_rejection(extra.era, chain.block_number as int).unwrap())
    } else if xt.signer >= state.accounts@.len() {
        Err(Rejection::UnknownAccount)
    } else if extra.nonce < state.accounts@[xt.signer as int].nonce {
        Err(Rejection::NonceTooLow)
    } else if extra.nonce > state.accounts@[xt.signer as int].nonce {
        Err(Rejection::NonceTooHigh)
    } else if extra.nonce == u64::MAX {
        Err(Rejection::NonceExhausted)
    } else if state.block_weight + extra.weight > chain.max_block_weight {
        Err(Rejection::ExhaustsResources)
    } else if charge_spec(cfg, state.multiplier, len, extra.weight as int, extra.tip as int)
        > state.accounts@[xt.signer as int].balance {
        Err(Rejection::InsufficientBalance)
    } else if state.block_gas + xt.call.gas_limit > chain.block_gas_limit {
        Err(Rejection::GasLimitExceeded)
    } else {
        Ok(charge_spec(cfg, state.multiplier, len, extra.weight as int, extra.tip as int))
    }
}

/// The accounts once the signer's nonce has moved on and `charge` has left its balance.
pub open spec fn debited(accounts: Seq<AccountInfo>, who: int, charge: int) -> Seq<AccountInfo> {
    accounts.update(
        who,
        AccountInfo { nonce: (accounts[who].nonce + 1) as u64, balance: (accounts[who].balance - charge) as u128 },
    )
}

/// The treasury's part of `charge`; the author has the rest.
pub open spec fn treasury_part(cfg: FeeConfig, charge: int) -> int {
    first_share(charge, cfg.treasury_share as int, cfg.author_share as int)
}

/// The accounts after a successful application that withdrew `charge`.
pub open spec fn applied_accounts(state: ChainState, cfg: FeeConfig, xt: Extrinsic, charge: int) -> Seq<AccountInfo> {
    let paid = debited(state.accounts@, xt.signer as int, charge);
    let t = treasury_part(cfg, charge);
    let after_treasury = credited(paid, state.treasury, t);
    credited(after_treasury, state.author, charge - t)
}

/// The issuance after a successful application: it loses what could not be credited.
pub open spec fn applied_issuance(state: ChainState, cfg: FeeConfig, xt: Extrinsic, charge: int) -> int {
    let paid = debited(state.accounts@, xt.signer as int, charge);
    let t = treasury_part(cfg, charge);
    let after_treasury = credited(paid, state.treasury, t);
    saturating_sub(
        saturating_sub(state.total_issuance as int, burnt(paid, state.treasury, t)),
        burnt(after_treasury, state.author, charge - t),
    )
}

/// `after` is `before` with the effects of applying `xt`, which was charged `charge`.
pub open spec fn applied_step(before: ChainState, after: ChainState, cfg: FeeConfig, xt: Extrinsic, charge: int) -> bool {
    &&& after.accounts@ == applied_accounts(before, cfg, xt, charge)
    &&& after.total_issuance == applied_issuance(before, cfg, xt, charge)
    &&& after.block_weight == before.block_weight + xt.extra.weight
    &&& after.block_gas == before.block_gas + xt.call.gas_limit
    &&& after.multiplier == before.multiplier
    &&& after.author == before.author
    &&& after.treasury == before.treasury
}

/// Crediting leaves the number of accounts and every nonce as they were.
proof fn lemma_credit_keeps_nonces(accounts: Seq<AccountInfo>, who: Option<usize>, amount: int)
    ensures
        credited(accounts, who, amount).len() == accounts.len(),
        forall|i: int| 0 <= i < accounts.len() ==> #[trigger] credited(accounts, who, amount)[i].nonce == accounts[i].nonce,
{
}

/// Once an extrinsic is applied, a second one from the same account with the
/// same nonce is rejected, whatever block it is offered to and whatever it
/// pays: a nonce is never used twice.
pub proof fn lemma_nonce_not_reused(
    before: ChainState,
    after: ChainState,
    chain: ChainInfo,
    cfg: FeeConfig,
    first: Extrinsic,
    len: int,
    later_chain: ChainInfo,
    later_cfg: FeeConfig,
    second: Extrinsic,
    later_len: int,
)
    requires
        check_spec(before, chain, cfg, first, len) is Ok,
        applied_step(before, after, cfg, first, check_spec(before, chain, cfg, first, len)->Ok_0),
        second.signer == first.signer,
        second.extra.nonce == first.extra.nonce,
    ensures
        check_spec(after, later_chain, later_cfg, second, later_len) is Err,
{
    let charge = check_spec(before, chain, cfg, first, len)->Ok_0;
    let paid = debited(before.accounts@, first.signer as int, charge);
    let t = treasury_part(cfg, charge);
    lemma_credit_keeps_nonces(paid, before.treasury, t);
    lemma_credit_keeps_nonces(credited(paid, before.treasury, t), before.author, charge - t);
    assert(after.accounts@[first.signer as int].nonce == first.extra.nonce + 1);
}

/// Computes the fee for an extrinsic of `len` bytes and `weight` under `m`.
pub fn compute_fee(cfg: &FeeConfig, m: Multiplier, len: u64, weight: Weight) -> (fee: Balance)
    ensures
        fee == fee_spec(*cfg, m, len as int, weight as int),
{
    let len_fee = match (len as u128).checked_mul(cfg.byte_fee) {
        Some(f) => f,
        None => u128::MAX,
    };
    let weight_fee = scale_fee(weight_to_fee(weight, cfg.weight_coefficient), m);
    cfg.base_fee.saturating_add(len_fee).saturating_add(weight_fee)
}

/// Checks `a` and `b` for equal contents.
fn bytes_equal(a: &Vec<u8>, b: &Vec<u8>) -> (r: bool)
    ensures
        r == (a@ == b@),
{
    if a.len() != b.len() {
        return false;
    }
    let mut i: usize = 0;
    while i < a.len()
        invariant
            a@.len() == b@.len(),
            i <= a@.len(),
            forall|j: int| 0 <= j < i ==> a@[j] == b@[j],
        decreases a@.len() - i,
    {
        if a[i] != b[i] {
            return false;
        }
        i = i + 1;
    }
    assert(a@ =~= b@);
    true
}

/// The mortality check.
fn check_era(era: Era, now: u64) -> (r: Option<Rejection>)
    ensures
        r == era_rejection(era, now as int),
{
    match era {
        Era::Immortal => None,
        Era::Mortal { birth, period } => {
            if now < birth {
                Some(Rejection::Future)
            } else if now - birth >= period {
                Some(Rejection::Stale)
            } else {
                None
            }
        },
    }
}

/// Runs every stage in order against the current state, changing nothing:
/// the first rejection, or what the signer would be charged.
pub fn validate(state: &ChainState, chain: &ChainInfo, cfg: &FeeConfig, xt: &Extrinsic, len: u64) -> (r: Result<Balance, Rejection>)
    ensures
        r matches Ok(c) ==> check_spec(*state, *chain, *cfg, *xt, len as int) == Ok::<int, Rejection>(c as int),
        r matches Err(e) ==> check_spec(*state, *chain, *cfg, *xt, len as int) == Err::<int, Rejection>(e),
{
    let extra = &xt.extra;
    if extra.spec_version != chain.spec_version {
        return Err(Rejection::BadVersion);
    }
    if !bytes_equal(&extra.genesis_hash, &chain.genesis_hash) {
        return Err(Rejection::BadGenesis);
    }
    if let Some(e) = check_era(extra.era, chain.block_number) {
        return Err(e);
    }
    if xt.signer >= state.accounts.len() {
        return Err(Rejection::UnknownAccount);
    }
    let account = state.accounts[xt.signer];
    if extra.nonce < account.nonce {
        return Err(Rejection::NonceTooLow);
    }
    if extra.nonce > account.nonce {
        return Err(Rejection::NonceTooHigh);
    }
    if extra.nonce == u64::MAX {
        return Err(Rejection::NonceExhausted);
    }
    if state.block_weight as u128 + extra.weight as u128 > chain.max_block_weight as u128 {
        return Err(Rejection::ExhaustsResources);
    }
    let charge = compute_fee(cfg, state.multiplier, len, extra.weight).saturating_add(extra.tip);
    if charge > account.balance {
        return Err(Rejection::InsufficientBalance);
    }
    if state.block_gas as u128 + xt.call.gas_limit as u128 > chain.block_gas_limit as u128 {
        return Err(Rejection::GasLimitExceeded);
    }
    Ok(charge)
}

/// Validates `xt` and, only where every stage accepts, commits all its effects
/// at once: the signer's nonce moves on, the charge leaves its balance and is
/// shared between the treasury and the block author, and the block's running
/// weight and gas grow. On a rejection nothing changes.
pub fn apply(
    state: &mut ChainState,
    chain: &ChainInfo,
    cfg: &FeeConfig,
    xt: &Extrinsic,
    len: u64,
) -> (r: Result<Applied, Rejection>)
    requires
        cfg.wf(),
    ensures
        match check_spec(*old(state), *chain, *cfg, *xt, len as int) {
            Err(e) => r == Err::<Applied, Rejection>(e) && *final(state) == *old(state),
            Ok(charge) => {
                &&& r matches Ok(a) && a.charged == charge && a.to_treasury == treasury_part(*cfg, charge)
                    && a.to_treasury + a.to_author == charge
                &&& applied_step(*old(state), *final(state), *cfg, *xt, charge)
            },
        },
{
    let charge = match validate(state, chain, cfg, xt, len) {
        Ok(c) => c,
        Err(e) => return Err(e),
    };
    let who = xt.signer;
    let account = state.accounts[who];
    state.accounts[who] = AccountInfo { nonce: account.nonce + 1, balance: account.balance - charge };
    let (to_treasury, to_author) = deal_with_fees(state, cfg, Imbalance { amount: charge });
    state.block_weight = state.block_weight + xt.extra.weight;
    state.block_gas = state.block_gas + xt.call.gas_limit;
    Ok(Applied { charged: charge, to_treasury, to_author })
}

/// Ends the block once its weight is final: the multiplier moves by the
/// block's fullness against `target`, and the running totals start again at
/// zero for the next block. Accounts and issuance are untouched.
pub fn finalize_block(state: &mut ChainState, chain: &ChainInfo, target: u32)
    requires
        old(state).multiplier.wf(),
        chain.max_block_weight > 0,
        target <= FULLNESS_ONE,
    ensures
        final(state).multiplier.wf(),
        final(state).multiplier.inner == next_multiplier_spec(
            old(state).multiplier.inner as int,
            fullness_spec(old(state).block_weight as int, chain.max_block_weight as int),
            target as int,
        ),
        final(state).block_weight == 0,
        final(state).block_gas == 0,
        final(state).accounts@ == old(state).accounts@,
        final(state).total_issuance == old(state).total_issuance,
        final(state).author == old(state).author,
        final(state).treasury == old(state).treasury,
{
    let fullness = block_fullness(state.block_weight, chain.max_block_weight);
    state.multiplier = adjust_multiplier(state.multiplier, fullness, target);
    state.block_weight = 0;
    state.block_gas = 0;
}

} // verus!
