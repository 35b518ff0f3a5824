use node_runtime::builder::{build_transaction, signing_payload, BuildError, SigningKey, MORTALITY_PERIOD};
use node_runtime::extrinsic::{Call, Era, Extra, Extrinsic};
use node_runtime::fee::weight_to_fee;
use node_runtime::multiplier::{adjust_multiplier, block_fullness, scale_fee, Multiplier, MIN_MULTIPLIER, MULTIPLIER_ONE};
use node_runtime::pipeline::{apply, compute_fee, finalize_block, validate, Applied, Rejection};
use node_runtime::reward::{deal_with_fees, split_amount, Imbalance};
use node_runtime::state::{AccountInfo, ChainInfo, ChainState, FeeConfig};
use node_runtime::version::{native_version, runtime_version};

const ALICE: usize = 0;
const TREASURY: usize = 1;
const AUTHOR: usize = 2;

fn chain() -> ChainInfo {
    ChainInfo {
        spec_version: 84,
        genesis_hash: vec![7u8; 32],
        block_number: 100,
        max_block_weight: 1_000,
        block_gas_limit: 500,
    }
}

fn config() -> FeeConfig {
    FeeConfig { base_fee: 1, byte_fee: 1, weight_coefficient: 1, treasury_share: 4, author_share: 1 }
}

fn state(nonce: u64, balance: u128) -> ChainState {
    ChainState {
        accounts: vec![
            AccountInfo { nonce, balance },
            AccountInfo { nonce: 0, balance: 0 },
            AccountInfo { nonce: 0, balance: 0 },
        ],
        total_issuance: 1_000_000,
        block_weight: 0,
        block_gas: 0,
        multiplier: Multiplier::one(),
        author: Some(AUTHOR),
        treasury: Some(TREASURY),
    }
}

fn extrinsic(nonce: u64, weight: u64) -> Extrinsic {
    Extrinsic {
        signer: ALICE,
        call: Call { data: vec![1, 2, 3], weight, gas_limit: 0 },
        extra: Extra {
            spec_version: 84,
            genesis_hash: vec![7u8; 32],
            era: Era::Mortal { birth: 90, period: 64 },
            nonce,
            weight,
            tip: 0,
        },
        signature: vec![9u8; 64],
    }
}

struct Key {
    willing: bool,
}

impl SigningKey for Key {
    fn sign(&self, payload: &Vec<u8>, signer: usize) -> Option<Vec<u8>> {
        if self.willing {
            let mut s = payload.clone();
            s.push(signer as u8);
            Some(s)
        } else {
            None
        }
    }
}

#[test]
fn weight_fee_is_linear_and_saturates() {
    assert_eq!(weight_to_fee(5, 1), 5);
    assert_eq!(weight_to_fee(1_000, 50), 50_000);
    assert_eq!(weight_to_fee(0, 7), 0);
    assert_eq!(weight_to_fee(u64::MAX, u128::MAX), u128::MAX);
}

#[test]
fn weight_fee_is_monotonic() {
    let c: u128 = 3;
    let mut last = weight_to_fee(0, c);
    for w in 1..200u64 {
        let f = weight_to_fee(w, c);
        assert!(last <= f);
        last = f;
    }
    assert!(weight_to_fee(10, u128::MAX / 8) <= weight_to_fee(11, u128::MAX / 8));
}

#[test]
fn split_sums_exactly() {
    assert_eq!(split_amount(16, 4, 1), (12, 4));
    assert_eq!(split_amount(0, 4, 1), (0, 0));
    assert_eq!(split_amount(10, 1, 2), (3, 7));
    let (a, b) = split_amount(u128::MAX, 1, 1);
    assert_eq!(a, u128::MAX / 2);
    assert_eq!(a + b, u128::MAX);
    let (a, b) = split_amount(u128::MAX, u32::MAX, u32::MAX - 1);
    assert_eq!(a.checked_add(b), Some(u128::MAX));
    let (p, q) = Imbalance { amount: 16 }.split(4, 1);
    assert_eq!((p.peek(), q.peek()), (12, 4));
}

#[test]
fn multiplier_unchanged_at_target() {
    let m = Multiplier::one();
    assert_eq!(adjust_multiplier(m, 250_000_000, 250_000_000), m);
}

#[test]
fn multiplier_rises_above_target() {
    let next = adjust_multiplier(Multiplier::one(), 500_000_000, 250_000_000);
    assert_eq!(next.inner, 1_000_010_000_050_000_000);
    let full = adjust_multiplier(Multiplier::one(), 1_000_000_000, 250_000_000);
    assert!(full.inner > next.inner);
    let tiny = adjust_multiplier(Multiplier::one(), 250_000_001, 250_000_000);
    assert!(tiny.inner > MULTIPLIER_ONE);
    let top = Multiplier::from_inner(u128::MAX).unwrap();
    assert_eq!(adjust_multiplier(top, 1_000_000_000, 0).inner, u128::MAX);
}

#[test]
fn multiplier_falls_below_target_and_stays_positive() {
    let next = adjust_multiplier(Multiplier::one(), 0, 250_000_000);
    assert_eq!(next.inner, 999_990_000_050_000_000);
    let small = Multiplier::from_inner(5).unwrap();
    assert_eq!(adjust_multiplier(small, 0, 1_000_000_000).inner, MIN_MULTIPLIER);
    let mut m = Multiplier::one();
    for _ in 0..1_000 {
        m = adjust_multiplier(m, 0, 250_000_000);
        assert!(m.inner >= 1);
    }
    assert!(Multiplier::from_inner(0).is_none());
}

#[test]
fn fullness_of_block() {
    assert_eq!(block_fullness(250, 1_000), 250_000_000);
    assert_eq!(block_fullness(0, 1_000), 0);
    assert_eq!(block_fullness(5_000, 1_000), 1_000_000_000);
}

#[test]
fn multiplier_scales_fee() {
    assert_eq!(scale_fee(1_000, Multiplier::from_inner(1_500_000_000_000_000_000).unwrap()), 1_500);
    assert_eq!(scale_fee(7, Multiplier::from_inner(MULTIPLIER_ONE / 2).unwrap()), 3);
    assert_eq!(scale_fee(u128::MAX, Multiplier::from_inner(2 * MULTIPLIER_ONE).unwrap()), u128::MAX);
    assert_eq!(scale_fee(u128::MAX, Multiplier::one()), u128::MAX);
}

#[test]
fn fee_of_an_extrinsic() {
    assert_eq!(compute_fee(&config(), Multiplier::one(), 10, 5), 16);
    let cfg = FeeConfig { base_fee: 100, byte_fee: 10, weight_coefficient: 2, treasury_share: 4, author_share: 1 };
    let double = Multiplier::from_inner(2 * MULTIPLIER_ONE).unwrap();
    assert_eq!(compute_fee(&cfg, double, 3, 7), 100 + 30 + 28);
    let huge = FeeConfig { base_fee: u128::MAX, byte_fee: 1, weight_coefficient: 1, treasury_share: 1, author_share: 1 };
    assert_eq!(compute_fee(&huge, Multiplier::one(), 1, 1), u128::MAX);
}

#[test]
fn end_to_end_charge_and_split() {
    let mut s = state(0, 1_000);
    let xt = extrinsic(0, 5);
    assert_eq!(validate(&s, &chain(), &config(), &xt, 10), Ok(16));
    let r = apply(&mut s, &chain(), &config(), &xt, 10);
    assert_eq!(r, Ok(Applied { charged: 16, to_treasury: 12, to_author: 4 }));
    assert_eq!(s.accounts[ALICE], AccountInfo { nonce: 1, balance: 984 });
    assert_eq!(s.accounts[TREASURY].balance, 12);
    assert_eq!(s.accounts[AUTHOR].balance, 4);
    assert_eq!(s.total_issuance, 1_000_000);
    assert_eq!(s.block_weight, 5);
}

#[test]
fn failed_charge_leaves_nonce() {
    let mut s = state(5, 0);
    let xt = extrinsic(5, 5);
    assert_eq!(apply(&mut s, &chain(), &config(), &xt, 10), Err(Rejection::InsufficientBalance));
    assert_eq!(s.accounts[ALICE].nonce, 5);
    assert_eq!(s.accounts[ALICE].balance, 0);
    assert_eq!(s.block_weight, 0);
}

#[test]
fn nonce_reuse_is_rejected() {
    let mut s = state(0, 1_000);
    let first = extrinsic(0, 5);
    let second = extrinsic(0, 1);
    assert!(validate(&s, &chain(), &config(), &second, 10).is_ok());
    assert!(apply(&mut s, &chain(), &config(), &first, 10).is_ok());
    assert_eq!(validate(&s, &chain(), &config(), &second, 10), Err(Rejection::NonceTooLow));
    assert_eq!(apply(&mut s, &chain(), &config(), &second, 10), Err(Rejection::NonceTooLow));
    assert_eq!(s.accounts[ALICE].nonce, 1);
}

#[test]
fn each_stage_rejects() {
    let s = state(3, 1_000);
    let c = chain();
    let cfg = config();
    let mut xt = extrinsic(3, 5);
    xt.extra.spec_version = 83;
    assert_eq!(validate(&s, &c, &cfg, &xt, 10), Err(Rejection::BadVersion));
    let mut xt = extrinsic(3, 5);
    xt.extra.genesis_hash = vec![8u8; 32];
    assert_eq!(validate(&s, &c, &cfg, &xt, 10), Err(Rejection::BadGenesis));
    let mut xt = extrinsic(3, 5);
    xt.extra.era = Era::Mortal { birth: 20, period: 64 };
    assert_eq!(validate(&s, &c, &cfg, &xt, 10), Err(Rejection::Stale));
    let mut xt = extrinsic(3, 5);
    xt.extra.era = Era::Mortal { birth: 101, period: 64 };
    assert_eq!(validate(&s, &c, &cfg, &xt, 10), Err(Rejection::Future));
    let mut xt = extrinsic(3, 5);
    xt.signer = 9;
    assert_eq!(validate(&s, &c, &cfg, &xt, 10), Err(Rejection::UnknownAccount));
    assert_eq!(validate(&s, &c, &cfg, &extrinsic(2, 5), 10), Err(Rejection::NonceTooLow));
    assert_eq!(validate(&s, &c, &cfg, &extrinsic(4, 5), 10), Err(Rejection::NonceTooHigh));
    assert_eq!(validate(&s, &c, &cfg, &extrinsic(3, 1_001), 10), Err(Rejection::ExhaustsResources));
    assert_eq!(validate(&s, &c, &cfg, &extrinsic(3, 990), 10), Err(Rejection::InsufficientBalance));
    let mut xt = extrinsic(3, 5);
    xt.call.gas_limit = 501;
    assert_eq!(validate(&s, &c, &cfg, &xt, 10), Err(Rejection::GasLimitExceeded));
    let mut xt = extrinsic(3, 5);
    xt.extra.era = Era::Immortal;
    assert_eq!(validate(&s, &c, &cfg, &xt, 10), Ok(16));
    let worn = state(u64::MAX, 1_000);
    assert_eq!(validate(&worn, &c, &cfg, &extrinsic(u64::MAX, 5), 10), Err(Rejection::NonceExhausted));
}

#[test]
fn version_is_checked_before_nonce() {
    let s = state(3, 0);
    let mut xt = extrinsic(0, 5);
    xt.extra.spec_version = 1;
    assert_eq!(validate(&s, &chain(), &config(), &xt, 10), Err(Rejection::BadVersion));
}

#[test]
fn tip_is_charged_with_the_fee() {
    let mut s = state(0, 1_000);
    let mut xt = extrinsic(0, 5);
    xt.extra.tip = 4;
    let r = apply(&mut s, &chain(), &config(), &xt, 10);
    assert_eq!(r, Ok(Applied { charged: 20, to_treasury: 16, to_author: 4 }));
    assert_eq!(s.accounts[ALICE].balance, 980);
}

#[test]
fn fees_burn_without_author() {
    let mut s = state(0, 1_000);
    s.author = None;
    let r = apply(&mut s, &chain(), &config(), &extrinsic(0, 5), 10);
    assert_eq!(r, Ok(Applied { charged: 16, to_treasury: 12, to_author: 4 }));
    assert_eq!(s.accounts[TREASURY].balance, 12);
    assert_eq!(s.total_issuance, 1_000_000 - 4);
}

#[test]
fn deal_with_fees_credits_both() {
    let mut s = state(0, 0);
    let parts = deal_with_fees(&mut s, &config(), Imbalance { amount: 101 });
    assert_eq!(parts, (80, 21));
    assert_eq!(s.accounts[TREASURY].balance, 80);
    assert_eq!(s.accounts[AUTHOR].balance, 21);
    s.treasury = Some(77);
    let parts = deal_with_fees(&mut s, &config(), Imbalance { amount: 5 });
    assert_eq!(parts, (4, 1));
    assert_eq!(s.total_issuance, 1_000_000 - 4);
    assert_eq!(s.accounts[AUTHOR].balance, 22);
}

#[test]
fn built_transaction_is_accepted() {
    let c = chain();
    let call = Call { data: vec![4, 5, 6], weight: 5, gas_limit: 10 };
    let xt = build_transaction(&Key { willing: true }, call, ALICE, 0, &c).unwrap();
    assert_eq!(xt.extra.era, Era::Mortal { birth: 100, period: MORTALITY_PERIOD });
    assert_eq!(xt.extra.nonce, 0);
    assert_eq!(xt.extra.tip, 0);
    let mut s = state(0, 1_000);
    assert_eq!(validate(&s, &c, &config(), &xt, 10), Ok(16));
    let mut later = chain();
    later.block_number = 100 + MORTALITY_PERIOD - 1;
    assert_eq!(validate(&s, &later, &config(), &xt, 10), Ok(16));
    later.block_number = 100 + MORTALITY_PERIOD;
    assert_eq!(validate(&s, &later, &config(), &xt, 10), Err(Rejection::Stale));
    assert!(apply(&mut s, &c, &config(), &xt, 10).is_ok());
    assert_eq!(s.block_gas, 10);
}

#[test]
fn declined_signature_fails_the_build() {
    let call = Call { data: vec![1], weight: 1, gas_limit: 0 };
    let r = build_transaction(&Key { willing: false }, call, ALICE, 0, &chain());
    assert!(matches!(r, Err(BuildError::SigningFailed)));
}

#[test]
fn payload_layout() {
    let call = Call { data: vec![0xAA], weight: 0x0102, gas_limit: 3 };
    let extra = Extra { spec_version: 84, genesis_hash: vec![0xBB, 0xCC], era: Era::Immortal, nonce: 1, weight: 2, tip: 5 };
    let p = signing_payload(&call, &extra);
    let mut want: Vec<u8> = vec![1, 0, 0, 0, 0, 0, 0, 0, 0xAA];
    want.extend_from_slice(&[0x02, 0x01, 0, 0, 0, 0, 0, 0]);
    want.extend_from_slice(&[3, 0, 0, 0, 0, 0, 0, 0]);
    want.extend_from_slice(&[84, 0, 0, 0]);
    want.extend_from_slice(&[2, 0, 0, 0, 0, 0, 0, 0, 0xBB, 0xCC]);
    want.push(0);
    want.extend_from_slice(&[1, 0, 0, 0, 0, 0, 0, 0]);
    want.extend_from_slice(&[2, 0, 0, 0, 0, 0, 0, 0]);
    want.extend_from_slice(&[5, 0, 0, 0, 0, 0, 0, 0, 0, 0, 0, 0, 0, 0, 0, 0]);
    assert_eq!(p, want);
}

#[test]
fn versions() {
    let v = runtime_version();
    assert_eq!(v.spec_name, "node");
    assert_eq!(v.impl_name, "darwinia-node");
    assert_eq!((v.authoring_version, v.spec_version, v.impl_version), (3, 84, 84));
    let n = native_version();
    assert_eq!(n.runtime_version.spec_version, 84);
    assert!(n.can_author_with.is_empty());
}

#[test]
fn finalizing_moves_the_multiplier() {
    let mut s = state(0, 1_000);
    s.block_weight = 500;
    s.block_gas = 40;
    finalize_block(&mut s, &chain(), 250_000_000);
    assert_eq!(s.multiplier.inner, 1_000_010_000_050_000_000);
    assert_eq!((s.block_weight, s.block_gas), (0, 0));
    assert_eq!(s.accounts[ALICE].balance, 1_000);
    finalize_block(&mut s, &chain(), 250_000_000);
    assert!(s.multiplier.inner < 1_000_010_000_050_000_000);
}
