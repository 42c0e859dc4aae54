//! Local reward derivation: an ephemeral keychain, the fixed burn path,
//! and the reward output/kernel pair.
//!
//! The keychain's commitment scheme is a collaborator; what the build
//! pipeline relies on is only the shape of what it hands back, stated
//! in the contracts below.

use vstd::prelude::*;
use crate::types::{
    KernelFeatures, KeyIdentifier, Output, OutputFeatures, TxKernel, COMMIT_LEN, SIG_LEN,
};

verus! {

/// Block subsidy credited to the coinbase on top of the fees.
pub const BLOCK_SUBSIDY: u64 = 60_000_000_000;

/// An ephemeral keychain: a seed all key material is derived from.
pub struct Keychain {
    pub seed: Vec<u8>,
}

impl Keychain {
    /// A keychain over the given seed.
    pub fn from_seed(seed: Vec<u8>) -> (r: Keychain)
        ensures
            r.seed@ == seed@,
    {
        Keychain { seed }
    }
}

/// The fixed local-burn derivation path: depth 1, path (1, 0, 0, 0).
pub open spec fn spec_burn_key_id() -> KeyIdentifier {
    KeyIdentifier { depth: 1, path0: 1, path1: 0, path2: 0, path3: 0 }
}

/// The key identifier of a fixed derivation path.
pub fn derive_key_id(depth: u8, path0: u32, path1: u32, path2: u32, path3: u32) -> (r:
    KeyIdentifier)
    ensures
        r == (KeyIdentifier { depth, path0, path1, path2, path3 }),
{
    KeyIdentifier { depth, path0, path1, path2, path3 }
}

/// The fixed local-burn key identifier.
pub fn burn_key_id() -> (r: KeyIdentifier)
    ensures
        r == spec_burn_key_id(),
{
    derive_key_id(1, 1, 0, 0, 0)
}

/// Reward amount of a block: subsidy plus fees, saturating.
pub open spec fn spec_reward_amount(fees: u64) -> u64 {
    if BLOCK_SUBSIDY + fees > u64::MAX {
        u64::MAX
    } else {
        (BLOCK_SUBSIDY + fees) as u64
    }
}

/// Reward amount of a block: subsidy plus fees, saturating.
pub fn reward_amount(fees: u64) -> (r: u64)
    ensures
        r == spec_reward_amount(fees),
{
    if fees > u64::MAX - BLOCK_SUBSIDY {
        u64::MAX
    } else {
        BLOCK_SUBSIDY + fees
    }
}

/// One step of the byte mixer.
fn mix_step(s: u64, b: u8) -> u64 {
    ((s << 7) | (s >> 57)) ^ (b as u64)
}

/// Low byte of the mixer state.
fn low_byte(s: u64) -> u8 {
    proof {
        assert(s & 0xff < 256) by (bit_vector);
    }
    (s & 0xff) as u8
}

/// Byte string of width `n` derived deterministically from seed, path
/// and amount: the stand-in for the keychain's commitment scheme. Only
/// the width is relied on.
fn derive_bytes(seed: &Vec<u8>, key_id: &KeyIdentifier, amount: u64, tag: u8, n: usize) -> (r: Vec<
    u8>)
    ensures
        r@.len() == n,
{
    let mut s: u64 = 0x9e3779b97f4a7c15 ^ (tag as u64);
    let mut i: usize = 0;
    while i < seed.len()
        invariant
            i <= seed@.len(),
        decreases seed@.len() - i,
    {
        s = mix_step(s, seed[i]);
        i = i + 1;
    }
    s = s ^ amount;
    s = mix_step(s, key_id.depth);
    s = s ^ ((key_id.path0 as u64) << 32) ^ (key_id.path1 as u64);
    s = s ^ ((key_id.path2 as u64) << 32) ^ (key_id.path3 as u64);
    let mut out: Vec<u8> = Vec::new();
    let mut j: usize = 0;
    while j < n
        invariant
            j <= n,
            out@.len() == j,
        decreases n - j,
    {
        s = mix_step(s, low_byte(s));
        out.push(low_byte(s));
        j = j + 1;
    }
    out
}

/// The reward pair for the given fees, bound to the given key of the
/// keychain: a coinbase output and a zero-fee coinbase kernel.
pub fn reward_output(keychain: &Keychain, key_id: &KeyIdentifier, fees: u64) -> (r: (
    Output,
    TxKernel,
))
    ensures
        r.0.wf(),
        r.0.features == OutputFeatures::Coinbase,
        r.1.wf(),
        r.1.features == KernelFeatures::Coinbase,
        r.1.fee == 0,
        r.1.lock_height == 0,
{
    let amount = reward_amount(fees);
    let commit = derive_bytes(&keychain.seed, key_id, amount, 0, COMMIT_LEN);
    let excess = derive_bytes(&keychain.seed, key_id, amount, 1, COMMIT_LEN);
    let excess_sig = derive_bytes(&keychain.seed, key_id, amount, 2, SIG_LEN);
    let output = Output { features: OutputFeatures::Coinbase, commit };
    let kernel = TxKernel {
        features: KernelFeatures::Coinbase,
        fee: 0,
        lock_height: 0,
        excess,
        excess_sig,
    };
    (output, kernel)
}

} // verus!
