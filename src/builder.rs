//! Building signed extrinsics that the validation pipeline will accept.

use vstd::prelude::*;
use crate::extrinsic::{Call, Era, Extra, Extrinsic};
use crate::pipeline::{charge_spec, check_spec};
use crate::state::{ChainInfo, ChainState, FeeConfig};

verus! {

/// The number of blocks for which a built extrinsic stays valid.
pub const MORTALITY_PERIOD: u64 = 256;

/// A key that signs payloads on behalf of an account. It may decline, for
/// instance where the key is not at hand.
pub trait SigningKey {
    fn sign(&self, payload: &Vec<u8>, signer: usize) -> Option<Vec<u8>>;
}

/// Why building an extrinsic failed.
#[derive(Clone, Copy, Debug, PartialEq, Eq, Structural)]
pub enum BuildError {
    /// The signing key declined to sign.
    SigningFailed,
}

/// The `n` low bytes of `x`, least significant first.
pub open spec fn le_bytes(x: nat, n: nat) -> Seq<u8>
    decreases n,
{
    if n == 0 {
        Seq::empty()
    } else {
        seq![(x % 256) as u8] + le_bytes(x / 256, (n - 1) as nat)
    }
}

/// A byte sequence preceded by its length.
pub open spec fn framed(bytes: Seq<u8>) -> Seq<u8> {
    le_bytes(bytes.len(), 8) + bytes
}

pub open spec fn era_bytes(era: Era) -> Seq<u8> {
    match era {
        Era::Immortal => seq![0u8],
        Era::Mortal { birth, period } => seq![1u8] + le_bytes(birth as nat, 8) + le_bytes(period as nat, 8),
    }
}

/// The bytes that a signature covers: the call, then the extra data.
pub open spec fn payload_spec(call: Call, extra: Extra) -> Seq<u8> {
    framed(call.data@) + le_bytes(call.weight as nat, 8) + le_bytes(call.gas_limit as nat, 8)
        + le_bytes(extra.spec_version as nat, 4) + framed(extra.genesis_hash@) + era_bytes(extra.era)
        + le_bytes(extra.nonce as nat, 8) + le_bytes(extra.weight as nat, 8) + le_bytes(extra.tip as nat, 16)
}

/// Appends the `n` low bytes of `x`, least significant first.
fn push_le(out: &mut Vec<u8>, x: u128, n: usize)
    ensures
        final(out)@ == old(out)@ + le_bytes(x as nat, n as nat),
{
    let ghost start = out@;
    let mut v: u128 = x;
    let mut i: usize = 0;
    while i < n
        invariant
            i <= n,
            out@ + le_bytes(v as nat, (n - i) as nat) == start + le_bytes(x as nat, n as nat),
        decreases n - i,
    {
        let ghost before = out@;
        let ghost rest = le_bytes((v / 256) as nat, (n - i - 1) as nat);
        assert(le_bytes(v as nat, (n - i) as nat) == seq![(v % 256) as u8] + rest);
        out.push((v % 256) as u8);
        assert(out@ + rest =~= before + (seq![(v % 256) as u8] + rest));
        v = v / 256;
        i = i + 1;
    }
    assert(le_bytes(v as nat, 0) =~= Seq::<u8>::empty());
    assert(out@ + Seq::<u8>::empty() =~= out@);
}

/// Appends `bytes` after their length.
fn push_framed(out: &mut Vec<u8>, bytes: &Vec<u8>)
    ensures
        final(out)@ == old(out)@ + framed(bytes@),
{
    let ghost start = out@;
    push_le(out, bytes.len() as u128, 8);
    let ghost mid = out@;
    let mut i: usize = 0;
    while i < bytes.len()
        invariant
            i <= bytes@.len(),
            out@ == mid + bytes@.subrange(0, i as int),
        decreases bytes@.len() - i,
    {
        out.push(bytes[i]);
        assert(bytes@.subrange(0, i as int + 1) =~= bytes@.subrange(0, i as int).push(bytes@[i as int]));
        i = i + 1;
    }
    assert(bytes@.subrange(0, bytes@.len() as int) =~= bytes@);
    assert(out@ =~= start + framed(bytes@));
}

/// Encodes a call and its extra data into the bytes that the signer signs.
pub fn signing_payload(call: &Call, extra: &Extra) -> (payload: Vec<u8>)
    ensures
        payload@ == payload_spec(*call, *extra),
{
    let mut out: Vec<u8> = Vec::new();
    push_framed(&mut out, &call.data);
    push_le(&mut out, call.weight as u128, 8);
    push_le(&mut out, call.gas_limit as u128, 8);
    push_le(&mut out, extra.spec_version as u128, 4);
    push_framed(&mut out, &extra.genesis_hash);
    match extra.era {
        Era::Immortal => {
            out.push(0u8);
        },
        Era::Mortal { birth, period } => {
            out.push(1u8);
            push_le(&mut out, birth as u128, 8);
            push_le(&mut out, period as u128, 8);
        },
    }
    push_le(&mut out, extra.nonce as u128, 8);
    push_le(&mut out, extra.weight as u128, 8);
    push_le(&mut out, extra.tip, 16);
    proof {
        let s = payload_spec(*call, *extra);
        assert(out@ =~= s);
    }
    out
}

/// `extra` is what the builder attaches for a call of `weight` with `nonce`,
/// anchored at the chain's current block.
pub open spec fn extra_for(extra: Extra, chain: ChainInfo, nonce: u64, weight: u64) -> bool {
    &&& extra.spec_version == chain.spec_version
    &&& extra.genesis_hash@ == chain.genesis_hash@
    &&& extra.era == (Era::Mortal { birth: chain.block_number, period: MORTALITY_PERIOD })
    &&& extra.nonce == nonce
    &&& extra.weight == weight
    &&& extra.tip == 0
}

/// `xt` carries `call` for `signer` with the extra data the builder attaches.
pub open spec fn built_for(xt: Extrinsic, chain: ChainInfo, call: Call, signer: usize, nonce: u64) -> bool {
    &&& xt.signer == signer
    &&& xt.call.data@ == call.data@
    &&& xt.call.weight == call.weight
    &&& xt.call.gas_limit == call.gas_limit
    &&& extra_for(xt.extra, chain, nonce, call.weight)
}

/// Builds a signed extrinsic for `call` from the account `signer`, whose
/// stored nonce is `nonce`: the extra data names the chain's current version
/// and genesis, a mortality window that opens at the current block, the nonce
/// and no tip; the key signs the call and the extra data together.
pub fn build_transaction<K: SigningKey>(
    key: &K,
    call: Call,
    signer: usize,
    nonce: u64,
    chain: &ChainInfo,
) -> (r: Result<Extrinsic, BuildError>)
    ensures
        r matches Ok(xt) ==> built_for(xt, *chain, call, signer, nonce),
{
    let extra = Extra {
        spec_version: chain.spec_version,
        genesis_hash: chain.genesis_hash.clone(),
        era: Era::Mortal { birth: chain.block_number, period: MORTALITY_PERIOD },
        nonce,
        weight: call.weight,
        tip: 0,
    };
    let payload = signing_payload(&call, &extra);
    match key.sign(&payload, signer) {
        Some(signature) => Ok(Extrinsic { signer, call, extra, signature }),
        None => Err(BuildError::SigningFailed),
    }
}

/// What the builder makes is accepted by the pipeline on the chain it was
/// built for, in any block of its window, wherever the account exists with
/// that nonce, can pay, and the block has room for the weight and the gas.
pub proof fn lemma_built_is_accepted(
    xt: Extrinsic,
    built_on: ChainInfo,
    call: Call,
    nonce: u64,
    state: ChainState,
    chain: ChainInfo,
    cfg: FeeConfig,
    len: int,
)
    requires
        built_for(xt, built_on, call, xt.signer, nonce),
        chain.spec_version == built_on.spec_version,
        chain.genesis_hash@ == built_on.genesis_hash@,
        built_on.block_number <= chain.block_number < built_on.block_number + MORTALITY_PERIOD,
        xt.signer < state.accounts@.len(),
        state.accounts@[xt.signer as int].nonce == nonce,
        nonce < u64::MAX,
        state.block_weight + call.weight <= chain.max_block_weight,
        charge_spec(cfg, state.multiplier, len, call.weight as int, 0)
            <= state.accounts@[xt.signer as int].balance,
        state.block_gas + call.gas_limit <= chain.block_gas_limit,
    ensures
        check_spec(state, chain, cfg, xt, len) == Ok::<int, crate::pipeline::Rejection>(
            charge_spec(cfg, state.multiplier, len, call.weight as int, 0),
        ),
{
}

} // verus!
