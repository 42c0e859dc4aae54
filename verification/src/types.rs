//! Data model: chain snapshot, transactions, coinbase artifacts, the block
//! under construction, and the error taxonomy of the build pipeline.

use vstd::prelude::*;

verus! {

/// Immutable snapshot of the chain tip a build attempt works from.
#[derive(Clone, Copy, Debug)]
pub struct ChainHead {
    /// Height of the tip block.
    pub height: u64,
    /// Timestamp of the tip block, seconds since the epoch.
    pub timestamp: i64,
    /// Total accumulated kernel offset at the tip, as an opaque handle.
    pub total_kernel_offset: u64,
    /// Total accumulated difficulty at the tip.
    pub total_difficulty: u64,
}

impl ChainHead {
    /// A head a block can be built on: the next height and the next
    /// timestamp must still be representable.
    pub open spec fn wf(self) -> bool {
        self.height < u64::MAX && self.timestamp < i64::MAX
    }
}

/// Difficulty the next block must meet, as computed from the chain's
/// recent history by the chain view.
#[derive(Clone, Copy, Debug)]
pub struct DifficultyTarget {
    /// Target difficulty value.
    pub difficulty: u64,
    /// Secondary proof-of-work scaling factor.
    pub secondary_scaling: u32,
}

/// A key derivation path: a depth and four fixed path segments.
#[derive(Clone, Copy, Debug, PartialEq, Eq, Structural)]
pub struct KeyIdentifier {
    pub depth: u8,
    pub path0: u32,
    pub path1: u32,
    pub path2: u32,
    pub path3: u32,
}

/// Feature flag of a transaction output.
#[derive(Clone, Copy, Debug, PartialEq, Eq, Structural)]
pub enum OutputFeatures {
    Plain,
    Coinbase,
}

/// A transaction output: a feature flag and an opaque Pedersen-style
/// commitment of fixed width.
#[derive(Clone, Debug, PartialEq, Eq)]
pub struct Output {
    pub features: OutputFeatures,
    pub commit: Vec<u8>,
}

/// Mathematical value of an [`Output`].
pub struct OutputV {
    pub features: OutputFeatures,
    pub commit: Seq<u8>,
}

impl OutputV {
    /// The commitment has its canonical width.
    pub open spec fn wf(self) -> bool {
        self.commit.len() == COMMIT_LEN
    }
}

impl View for Output {
    type V = OutputV;

    open spec fn view(&self) -> OutputV {
        OutputV { features: self.features, commit: self.commit@ }
    }
}

impl Output {
    /// The commitment has its canonical width.
    pub open spec fn wf(self) -> bool {
        self@.wf()
    }
}

/// Feature flag of a transaction kernel.
#[derive(Clone, Copy, Debug, PartialEq, Eq, Structural)]
pub enum KernelFeatures {
    Plain,
    Coinbase,
    HeightLocked,
}

/// A transaction kernel: feature flag, fee, lock height, and the opaque
/// excess commitment with its signature.
#[derive(Clone, Debug, PartialEq, Eq)]
pub struct TxKernel {
    pub features: KernelFeatures,
    pub fee: u64,
    pub lock_height: u64,
    pub excess: Vec<u8>,
    pub excess_sig: Vec<u8>,
}

/// Mathematical value of a [`TxKernel`].
pub struct TxKernelV {
    pub features: KernelFeatures,
    pub fee: u64,
    pub lock_height: u64,
    pub excess: Seq<u8>,
    pub excess_sig: Seq<u8>,
}

impl TxKernelV {
    /// Excess and signature have their canonical widths.
    pub open spec fn wf(self) -> bool {
        self.excess.len() == COMMIT_LEN && self.excess_sig.len() == SIG_LEN
    }
}

impl View for TxKernel {
    type V = TxKernelV;

    open spec fn view(&self) -> TxKernelV {
        TxKernelV {
            features: self.features,
            fee: self.fee,
            lock_height: self.lock_height,
            excess: self.excess@,
            excess_sig: self.excess_sig@,
        }
    }
}

impl TxKernel {
    /// Excess and signature have their canonical widths.
    pub open spec fn wf(self) -> bool {
        self@.wf()
    }
}

/// Width in bytes of a commitment.
pub const COMMIT_LEN: usize = 33;

/// Width in bytes of a kernel signature.
pub const SIG_LEN: usize = 64;

/// A transaction input: the commitment of the output it spends.
#[derive(Clone, Debug, PartialEq, Eq)]
pub struct Input {
    pub commit: Vec<u8>,
}

/// A pending transaction drawn from the pool: its inputs, outputs and
/// kernels. Its fee is the sum of its kernel fees.
#[derive(Debug)]
pub struct Transaction {
    pub inputs: Vec<Input>,
    pub outputs: Vec<Output>,
    pub kernels: Vec<TxKernel>,
}

/// Fee total, reward-key identifier and target height handed to the
/// coinbase provider, and returned with the finished template.
#[derive(Clone, Copy, Debug, PartialEq, Eq, Structural)]
pub struct BlockFees {
    /// Total fee of the selected transactions.
    pub fees: u64,
    /// Key the reward is (or is to be) bound to, if one is known.
    pub key_id: Option<KeyIdentifier>,
    /// Height of the block the fees were computed for.
    pub height: u64,
}

/// Merkle roots and sizes of the aggregate output and kernel sets, as
/// computed by the chain view for the block under construction.
#[derive(Clone, Debug, PartialEq, Eq)]
pub struct RootsInfo {
    pub output_root: Vec<u8>,
    pub kernel_root: Vec<u8>,
    pub output_mmr_size: u64,
    pub kernel_mmr_size: u64,
}

/// Header of the block under construction.
#[derive(Debug)]
pub struct BlockHeader {
    pub height: u64,
    /// Seconds since the epoch; strictly after the head's timestamp.
    pub timestamp: i64,
    /// Target difficulty of this block.
    pub difficulty: u64,
    /// Secondary proof-of-work scaling factor.
    pub secondary_scaling: u32,
    /// Total accumulated difficulty including this block.
    pub total_difficulty: u64,
    /// Proof-of-work nonce, freshly randomized per attempt.
    pub pow_nonce: u64,
    /// Txhashset roots and sizes; set only once the chain view has
    /// computed them for this very block.
    pub roots: Option<RootsInfo>,
}

/// The block under construction: header plus aggregated body.
#[derive(Debug)]
pub struct Block {
    pub header: BlockHeader,
    pub inputs: Vec<Input>,
    pub outputs: Vec<Output>,
    pub kernels: Vec<TxKernel>,
}

impl Block {
    /// The body carries the coinbase pair in last position: a well-formed
    /// coinbase output and a well-formed zero-fee coinbase kernel.
    pub open spec fn has_coinbase(self) -> bool {
        &&& self.outputs@.len() >= 1
        &&& self.outputs@.last().wf()
        &&& self.outputs@.last().features == OutputFeatures::Coinbase
        &&& self.kernels@.len() >= 1
        &&& self.kernels@.last().wf()
        &&& self.kernels@.last().features == KernelFeatures::Coinbase
        &&& self.kernels@.last().fee == 0
        &&& self.kernels@.last().lock_height == 0
    }
}

/// Hex-encoded coinbase artifacts as returned by a remote wallet.
#[derive(Clone, Debug, PartialEq, Eq)]
pub struct WalletResponse {
    /// Hex encoding of the canonically serialized reward output.
    pub output: String,
    /// Hex encoding of the canonically serialized reward kernel.
    pub kernel: String,
    /// Hex encoding of the canonically serialized key identifier the
    /// wallet actually used.
    pub key_id: String,
}

/// An opaque commitment reported in a duplicate-commitment conflict.
#[derive(Clone, Debug, PartialEq, Eq)]
pub struct Commitment {
    pub bytes: Vec<u8>,
}

/// Failure reported by the chain view.
#[derive(Clone, Debug, PartialEq, Eq)]
pub enum ChainError {
    /// The coinbase commitment collides with an existing entry of the
    /// UTXO set; retry with a fresh derivation.
    DuplicateCommitment(Commitment),
    /// Any other chain-access or root-computation failure.
    Other(String),
}

/// Failure reported by the wallet client.
#[derive(Clone, Copy, Debug, PartialEq, Eq, Structural)]
pub enum WalletError {
    /// The listener could not be reached at all.
    Unreachable,
    /// The listener answered, but not with a usable response.
    BadResponse,
}

/// Failure reported by the transaction source. Always recovered locally:
/// the assembler falls back to an empty transaction set.
#[derive(Clone, Copy, Debug, PartialEq, Eq, Structural)]
pub struct PoolError;

/// Failure reported by a block validator.
#[derive(Clone, Copy, Debug, PartialEq, Eq, Structural)]
pub struct ValidationError;

/// Cause of a generic (warn-and-retry) build failure.
#[derive(Clone, Copy, Debug, PartialEq, Eq, Structural)]
pub enum BuildFault {
    /// The head snapshot cannot be built on (height or timestamp at the
    /// numeric limit).
    HeadOutOfRange,
    /// The wallet's `output` field is not valid hex.
    HexOutput,
    /// The wallet's `kernel` field is not valid hex.
    HexKernel,
    /// The wallet's `key_id` field is not valid hex.
    HexKeyId,
    /// The wallet's `output` bytes do not decode to an output.
    DecodeOutput,
    /// The wallet's `kernel` bytes do not decode to a kernel.
    DecodeKernel,
    /// The wallet's `key_id` bytes do not decode to a key identifier.
    DecodeKeyId,
    /// The assembled block failed validation.
    Validation,
}

/// A classified build failure. Only the distinction between
/// [`ChainError::DuplicateCommitment`], wallet errors and everything else
/// matters to the caller: those drive distinct backoff policies.
#[derive(Clone, Debug, PartialEq, Eq)]
pub enum BuildError {
    /// Chain-view failure; duplicate commitments are kept verbatim.
    Chain(ChainError),
    /// Wallet failure: the listener is down or answered badly.
    Wallet(WalletError),
    /// Everything else: a generic, warn-and-retry build failure.
    General(BuildFault),
}

} // verus!
