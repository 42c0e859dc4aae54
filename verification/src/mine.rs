//! One build attempt, and the retry orchestrator that drives attempts
//! until a block exists.

use vstd::prelude::*;
use crate::assemble::{assemble_block, build_timestamp, sum_fees};
use crate::coinbase::get_coinbase;
use crate::env::{ChainView, Runtime, TxSource, VerifierCache, WalletClient};
use crate::retry::classify;
use crate::reward::spec_burn_key_id;
use crate::sys::{now_utc_sec, random_nonce};
use crate::types::{
    Block, BlockFees, BuildError, BuildFault, ChainError, KeyIdentifier, Transaction,
};

verus! {

/// What every successfully built template looks like, whatever the
/// collaborators answered: roots set, heights consistent, a key bound,
/// and a well-formed coinbase pair in last position. With no wallet
/// listener configured the pair is the local burn pair: coinbase
/// features, zero fee, and the fixed burn key.
pub open spec fn template_wf(b: Block, fees: BlockFees, wallet_listener_url: Option<String>) -> bool {
    &&& b.header.roots is Some
    &&& b.header.height == fees.height
    &&& fees.height >= 1
    &&& fees.key_id is Some
    &&& b.outputs@.len() >= 1
    &&& b.outputs@.last().wf()
    &&& b.kernels@.len() >= 1
    &&& b.kernels@.last().wf()
    &&& wallet_listener_url is None ==> b.has_coinbase() && fees.key_id == Some(
        spec_burn_key_id(),
    )
}

/// One build attempt: head snapshot, difficulty, transaction selection
/// with fallback to an empty set on any pool error, coinbase, assembly,
/// validation, and root-setting. A duplicate commitment from
/// root-setting is re-surfaced verbatim; any other chain failure keeps
/// its chain classification.
pub fn build_block<C: ChainView, T: TxSource, V: VerifierCache, W: WalletClient>(
    chain: &mut C,
    tx_pool: &mut T,
    verifier_cache: &mut V,
    wallet: &mut W,
    key_id: Option<KeyIdentifier>,
    wallet_listener_url: &Option<String>,
) -> (r: Result<(Block, BlockFees), BuildError>)
    ensures
        r matches Ok(t) ==> template_wf(t.0, t.1, *wallet_listener_url),
{
    let head = match chain.head() {
        Ok(h) => h,
        Err(e) => {
            return Err(BuildError::Chain(e));
        },
    };
    if head.height >= u64::MAX || head.timestamp >= i64::MAX {
        return Err(BuildError::General(BuildFault::HeadOutOfRange));
    }
    let now_sec = now_utc_sec();
    let timestamp = build_timestamp(now_sec, head.timestamp);
    let height = head.height + 1;

    // The scoped difficulty read lives only inside this call.
    let difficulty = match chain.next_difficulty(height) {
        Ok(d) => d,
        Err(e) => {
            return Err(BuildError::Chain(e));
        },
    };

    // Any pool failure falls back to an empty transaction set: an empty
    // block is always a valid thing to mine.
    let txs: Vec<Transaction> = match tx_pool.prepare_mineable_transactions() {
        Ok(txs) => txs,
        Err(_) => Vec::new(),
    };

    let fees = sum_fees(&txs);
    let block_fees = BlockFees { fees, key_id, height };
    let (output, kernel, block_fees) = match get_coinbase(wallet, wallet_listener_url, block_fees) {
        Ok(t) => t,
        Err(e) => {
            return Err(e);
        },
    };

    let mut b = assemble_block(
        &head,
        txs,
        output,
        kernel,
        &difficulty,
        timestamp,
        random_nonce(),
    );

    // Make sure no time is spent mining a block that cannot be accepted.
    match verifier_cache.validate(&b, head.total_kernel_offset) {
        Ok(_) => {},
        Err(_) => {
            return Err(BuildError::General(BuildFault::Validation));
        },
    }

    match chain.compute_roots(&b) {
        Ok(roots) => {
            b.header.roots = Some(roots);
            Ok((b, block_fees))
        },
        Err(e) => {
            match e {
                // Likely a key that was already derived: let the caller
                // retry with the next derivation.
                ChainError::DuplicateCommitment(c) => Err(
                    BuildError::Chain(ChainError::DuplicateCommitment(c)),
                ),
                // Some other issue, possibly a duplicate kernel.
                ChainError::Other(detail) => Err(BuildError::Chain(ChainError::Other(detail))),
            }
        },
    }
}

/// Builds until a block suitable for mining exists: each failure is
/// classified, logged at its severity, waited out for its prescribed
/// delay, and the whole build is redone from a fresh head snapshot.
/// The retry budget is so large it cannot be exhausted in practice
/// (one attempt per pause for longer than the age of the universe);
/// only an exhausted budget returns the last failure.
pub fn get_block<C: ChainView, T: TxSource, V: VerifierCache, W: WalletClient, R: Runtime>(
    chain: &mut C,
    tx_pool: &mut T,
    verifier_cache: &mut V,
    wallet: &mut W,
    rt: &mut R,
    key_id: Option<KeyIdentifier>,
    wallet_listener_url: &Option<String>,
) -> (r: Result<(Block, BlockFees), BuildError>)
    ensures
        r matches Ok(t) ==> template_wf(t.0, t.1, *wallet_listener_url),
{
    let mut result = build_block(chain, tx_pool, verifier_cache, wallet, key_id,
        wallet_listener_url);
    let mut attempts_left: u64 = u64::MAX;
    while result.is_err() && attempts_left > 0
        invariant
            result matches Ok(t) ==> template_wf(t.0, t.1, *wallet_listener_url),
        decreases attempts_left,
    {
        match &result {
            Ok(_) => {},
            Err(e) => {
                let decision = classify(e);
                rt.log_retry(decision.severity, e);
                rt.sleep_ms(decision.delay_ms);
            },
        }
        result = build_block(chain, tx_pool, verifier_cache, wallet, key_id,
            wallet_listener_url);
        attempts_left = attempts_left - 1;
    }
    result
}

} // verus!
