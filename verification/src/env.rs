//! Collaborator interfaces the build pipeline consumes: the chain view,
//! the transaction source, the block validator, the wallet client, and
//! the runtime that sleeps and logs for the retry orchestrator.
//!
//! Their methods carry no contracts: the pipeline states what holds of
//! its own results whatever a collaborator hands back.

use vstd::prelude::*;
use crate::retry::Severity;
use crate::types::{
    Block, BlockFees, BuildError, ChainError, ChainHead, DifficultyTarget, PoolError, RootsInfo,
    Transaction, ValidationError, WalletError, WalletResponse,
};

verus! {

/// Chain view: head snapshot, difficulty target, txhashset roots.
pub trait ChainView {
    /// The current chain head, or a chain-access error.
    fn head(&mut self) -> Result<ChainHead, ChainError>;

    /// Difficulty the block at `height` must meet. The scoped read
    /// handle this takes against chain storage lives only for the call.
    fn next_difficulty(&mut self, height: u64) -> Result<DifficultyTarget, ChainError>;

    /// Merkle roots and sizes for the body of `block`, or
    /// `DuplicateCommitment` when its coinbase commitment collides with
    /// an existing UTXO-set entry, or `Other` for any other failure.
    fn compute_roots(&mut self, block: &Block) -> Result<RootsInfo, ChainError>;
}

/// Transaction source: the pool's mineable-transactions query.
pub trait TxSource {
    /// The ordered transactions currently worth mining, or an error;
    /// any error is non-fatal to block assembly.
    fn prepare_mineable_transactions(&mut self) -> Result<Vec<Transaction>, PoolError>;
}

/// Shared verification cache: validates an assembled block against the
/// head's accumulated kernel offset, memoizing expensive checks.
pub trait VerifierCache {
    fn validate(&mut self, block: &Block, total_kernel_offset: u64) -> Result<(), ValidationError>;
}

/// Wallet client: the HTTP round-trip that asks the configured listener
/// to build a coinbase for the given fees.
pub trait WalletClient {
    fn create_coinbase(&mut self, url: &str, fees: &BlockFees) -> Result<
        WalletResponse,
        WalletError,
    >;
}

/// Runtime the retry orchestrator is driven by: a sleep primitive and a
/// structured logging sink, pluggable so tests can observe backoff
/// without real delay.
pub trait Runtime {
    /// Parks the calling thread for `ms` milliseconds.
    fn sleep_ms(&mut self, ms: u64);

    /// Records one classified build failure at the given severity.
    fn log_retry(&mut self, severity: Severity, error: &BuildError);
}

} // verus!
