//! Extrinsics: a call, the extra data the validation pipeline reads, and a signature.

use vstd::prelude::*;
use crate::fee::{Balance, Weight};

verus! {

/// The blocks in which an extrinsic may be included.
#[derive(Clone, Copy, Debug, PartialEq, Eq, Structural)]
pub enum Era {
    /// Valid in every block.
    Immortal,
    /// Valid in blocks `birth <= n < birth + period`.
    Mortal { birth: u64, period: u64 },
}

/// A dispatchable call: its encoded form and the resources it declares.
#[derive(Clone, Debug)]
pub struct Call {
    pub data: Vec<u8>,
    pub weight: Weight,
    pub gas_limit: u64,
}

/// The data, besides the call, that the signature covers and the pipeline checks.
#[derive(Clone, Debug)]
pub struct Extra {
    pub spec_version: u32,
    pub genesis_hash: Vec<u8>,
    pub era: Era,
    pub nonce: u64,
    pub weight: Weight,
    pub tip: Balance,
}

/// A signed transaction from the account with index `signer`.
#[derive(Clone, Debug)]
pub struct Extrinsic {
    pub signer: usize,
    pub call: Call,
    pub extra: Extra,
    pub signature: Vec<u8>,
}

} // verus!
