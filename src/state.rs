//! The chain state that validation reads and that applying an extrinsic changes.

use vstd::prelude::*;
use crate::fee::{Balance, Weight};
use crate::multiplier::Multiplier;

verus! {

/// An account's bookkeeping: its next nonce and its free balance.
#[derive(Clone, Copy, Debug, PartialEq, Eq, Structural)]
pub struct AccountInfo {
    pub nonce: u64,
    pub balance: Balance,
}

/// What the chain is, and where it stands: read-only during validation.
#[derive(Clone, Debug)]
pub struct ChainInfo {
    pub spec_version: u32,
    pub genesis_hash: Vec<u8>,
    pub block_number: u64,
    pub max_block_weight: Weight,
    pub block_gas_limit: u64,
}

/// The fee schedule and the ratio in which fees are shared.
#[derive(Clone, Copy, Debug, PartialEq, Eq, Structural)]
pub struct FeeConfig {
    pub base_fee: Balance,
    pub byte_fee: Balance,
    pub weight_coefficient: Balance,
    /// Parts of each fee that go to the treasury.
    pub treasury_share: u32,
    /// Parts of each fee that go to the block author.
    pub author_share: u32,
}

impl FeeConfig {
    pub open spec fn wf(self) -> bool {
        self.treasury_share as int + self.author_share as int > 0
    }
}

/// Accounts (by index), the issuance, and the running totals of the current block.
#[derive(Clone, Debug)]
pub struct ChainState {
    pub accounts: Vec<AccountInfo>,
    pub total_issuance: Balance,
    pub block_weight: Weight,
    pub block_gas: u64,
    pub multiplier: Multiplier,
    /// The author of the current block, where it is known.
    pub author: Option<usize>,
    /// The account that receives the treasury's share, where there is one.
    pub treasury: Option<usize>,
}

/// Whether crediting `amount` to `who` succeeds: the account exists and its
/// balance has room.
pub open spec fn credit_lands(accounts: Seq<AccountInfo>, who: Option<usize>, amount: int) -> bool {
    match who {
        Some(i) => i < accounts.len() && accounts[i as int].balance + amount <= u128::MAX,
        None => false,
    }
}

/// The accounts after crediting `amount` to `who`; unchanged where the credit
/// does not land (the amount is then burnt).
pub open spec fn credited(accounts: Seq<AccountInfo>, who: Option<usize>, amount: int) -> Seq<AccountInfo> {
    if credit_lands(accounts, who, amount) {
        let i = who.unwrap() as int;
        accounts.update(i, AccountInfo { nonce: accounts[i].nonce, balance: (accounts[i].balance + amount) as u128 })
    } else {
        accounts
    }
}

/// What leaves the issuance when `amount` is resolved to `who`.
pub open spec fn burnt(accounts: Seq<AccountInfo>, who: Option<usize>, amount: int) -> int {
    if credit_lands(accounts, who, amount) {
        0
    } else {
        amount
    }
}

/// Subtraction that stops at zero.
pub open spec fn saturating_sub(a: int, b: int) -> int {
    if a < b {
        0
    } else {
        a - b
    }
}

impl ChainState {
    /// Resolves `amount` to the account `who`: credits it there, or, where the
    /// account is unknown or its balance has no room, burns it by reducing the
    /// issuance. Returns whether it was credited.
    pub fn resolve(&mut self, who: Option<usize>, amount: Balance) -> (landed: bool)
        ensures
            landed == credit_lands(old(self).accounts@, who, amount as int),
            final(self).accounts@ == credited(old(self).accounts@, who, amount as int),
            final(self).total_issuance == saturating_sub(
                old(self).total_issuance as int,
                burnt(old(self).accounts@, who, amount as int),
            ),
            final(self).block_weight == old(self).block_weight,
            final(self).block_gas == old(self).block_gas,
            final(self).multiplier == old(self).multiplier,
            final(self).author == old(self).author,
            final(self).treasury == old(self).treasury,
    {
        match who {
            Some(i) => {
                if i < self.accounts.len() {
                    let info = self.accounts[i];
                    if let Some(balance) = info.balance.checked_add(amount) {
                        self.accounts[i] = AccountInfo { nonce: info.nonce, balance };
                        return true;
                    }
                }
            },
            None => {},
        }
        self.total_issuance = self.total_issuance.saturating_sub(amount);
        false
    }
}

} // verus!
