//! Block assembly: timestamp clamping, saturating fee summation, and
//! aggregation of the selected transactions with the coinbase pair into
//! one candidate block.

use vstd::prelude::*;
use crate::types::{
    Block, BlockHeader, ChainHead, DifficultyTarget, Input, Output, Transaction, TxKernel,
};

verus! {

/// Saturating addition on `u64`.
pub open spec fn sat_add_u64(a: u64, b: u64) -> u64 {
    if a + b > u64::MAX {
        u64::MAX
    } else {
        (a + b) as u64
    }
}

/// Saturating addition on `u64`.
pub fn sat_add(a: u64, b: u64) -> (r: u64)
    ensures
        r == sat_add_u64(a, b),
{
    if a > u64::MAX - b {
        u64::MAX
    } else {
        a + b
    }
}

/// Header timestamp for the block under construction: wall-clock time,
/// clamped so it is strictly after the head's timestamp.
pub fn build_timestamp(now_sec: i64, head_sec: i64) -> (r: i64)
    requires
        head_sec < i64::MAX,
    ensures
        r == if now_sec <= head_sec { head_sec + 1 } else { now_sec as int },
        r > head_sec,
{
    if now_sec <= head_sec {
        head_sec + 1
    } else {
        now_sec
    }
}

/// Saturating sum of the fees of a kernel sequence.
pub open spec fn spec_sum_kernel_fees(ks: Seq<TxKernel>) -> u64
    decreases ks.len(),
{
    if ks.len() == 0 {
        0
    } else {
        sat_add_u64(spec_sum_kernel_fees(ks.drop_last()), ks.last().fee)
    }
}

/// Fee of a transaction: the saturating sum of its kernel fees.
pub open spec fn spec_tx_fee(tx: Transaction) -> u64 {
    spec_sum_kernel_fees(tx.kernels@)
}

/// Total fee of an ordered transaction set, saturating.
pub open spec fn spec_total_fees(txs: Seq<Transaction>) -> u64
    decreases txs.len(),
{
    if txs.len() == 0 {
        0
    } else {
        sat_add_u64(spec_total_fees(txs.drop_last()), spec_tx_fee(txs.last()))
    }
}

impl Transaction {
    /// Fee this transaction pays: the saturating sum of its kernel
    /// fees.
    pub fn fee(&self) -> (r: u64)
        ensures
            r == spec_tx_fee(*self),
    {
        let mut acc: u64 = 0;
        let mut i: usize = 0;
        while i < self.kernels.len()
            invariant
                i <= self.kernels@.len(),
                acc == spec_sum_kernel_fees(self.kernels@.take(i as int)),
            decreases self.kernels@.len() - i,
        {
            proof {
                assert(self.kernels@.take(i + 1).drop_last() =~= self.kernels@.take(i as int));
                assert(self.kernels@.take(i + 1).last() == self.kernels@[i as int]);
            }
            acc = sat_add(acc, self.kernels[i].fee);
            i = i + 1;
        }
        proof {
            assert(self.kernels@.take(self.kernels@.len() as int) =~= self.kernels@);
        }
        acc
    }
}

/// Total fee of the selected transactions, in order, saturating.
pub fn sum_fees(txs: &Vec<Transaction>) -> (r: u64)
    ensures
        r == spec_total_fees(txs@),
{
    let mut acc: u64 = 0;
    let mut i: usize = 0;
    while i < txs.len()
        invariant
            i <= txs@.len(),
            acc == spec_total_fees(txs@.take(i as int)),
        decreases txs@.len() - i,
    {
        proof {
            assert(txs@.take(i + 1).drop_last() =~= txs@.take(i as int));
            assert(txs@.take(i + 1).last() == txs@[i as int]);
        }
        acc = sat_add(acc, txs[i].fee());
        i = i + 1;
    }
    proof {
        assert(txs@.take(txs@.len() as int) =~= txs@);
    }
    acc
}

/// All inputs of a transaction sequence, in order.
pub open spec fn txs_inputs(txs: Seq<Transaction>) -> Seq<Input>
    decreases txs.len(),
{
    if txs.len() == 0 {
        Seq::empty()
    } else {
        txs_inputs(txs.drop_last()) + txs.last().inputs@
    }
}

/// All outputs of a transaction sequence, in order.
pub open spec fn txs_outputs(txs: Seq<Transaction>) -> Seq<Output>
    decreases txs.len(),
{
    if txs.len() == 0 {
        Seq::empty()
    } else {
        txs_outputs(txs.drop_last()) + txs.last().outputs@
    }
}

/// All kernels of a transaction sequence, in order.
pub open spec fn txs_kernels(txs: Seq<Transaction>) -> Seq<TxKernel>
    decreases txs.len(),
{
    if txs.len() == 0 {
        Seq::empty()
    } else {
        txs_kernels(txs.drop_last()) + txs.last().kernels@
    }
}

/// Pure-fallback law: an empty transaction set contributes nothing to
/// the body, so the assembled block holds exactly the coinbase pair and
/// no inputs.
pub proof fn lemma_empty_pool_fallback(txs: Seq<Transaction>)
    requires
        txs.len() == 0,
    ensures
        txs_inputs(txs) == Seq::<Input>::empty(),
        txs_outputs(txs) == Seq::<Output>::empty(),
        txs_kernels(txs) == Seq::<TxKernel>::empty(),
{
}

/// Assembles the candidate block: a header over the head with the given
/// difficulty, timestamp and nonce, and a body holding the
/// transactions' inputs, outputs and kernels in order with the coinbase
/// pair in last position. Roots stay unset until the chain view
/// computes them for this very block.
pub fn assemble_block(
    head: &ChainHead,
    txs: Vec<Transaction>,
    output: Output,
    kernel: TxKernel,
    difficulty: &DifficultyTarget,
    timestamp: i64,
    nonce: u64,
) -> (b: Block)
    requires
        head.wf(),
        timestamp > head.timestamp,
    ensures
        b.header.height == head.height + 1,
        b.header.timestamp == timestamp,
        b.header.timestamp > head.timestamp,
        b.header.difficulty == difficulty.difficulty,
        b.header.secondary_scaling == difficulty.secondary_scaling,
        b.header.total_difficulty == sat_add_u64(head.total_difficulty, difficulty.difficulty),
        b.header.pow_nonce == nonce,
        b.header.roots is None,
        b.inputs@ == txs_inputs(txs@),
        b.outputs@ == txs_outputs(txs@).push(output),
        b.kernels@ == txs_kernels(txs@).push(kernel),
{
    let ghost txs0 = txs@;
    let mut rest = txs;
    let ghost mut done: Seq<Transaction> = Seq::empty();
    let mut inputs: Vec<Input> = Vec::new();
    let mut outputs: Vec<Output> = Vec::new();
    let mut kernels: Vec<TxKernel> = Vec::new();
    while rest.len() > 0
        invariant
            txs0 == done + rest@,
            inputs@ == txs_inputs(done),
            outputs@ == txs_outputs(done),
            kernels@ == txs_kernels(done),
        decreases rest@.len(),
    {
        let mut tx = rest.remove(0);
        let ghost tx0 = tx;
        let ghost done_old = done;
        inputs.append(&mut tx.inputs);
        outputs.append(&mut tx.outputs);
        kernels.append(&mut tx.kernels);
        proof {
            done = done.push(tx0);
            assert(done.drop_last() =~= done_old);
            assert(done.last() == tx0);
            assert(txs0 =~= done + rest@);
        }
    }
    proof {
        assert(done =~= txs0);
    }
    outputs.push(output);
    kernels.push(kernel);
    let total_difficulty = sat_add(head.total_difficulty, difficulty.difficulty);
    let header = BlockHeader {
        height: head.height + 1,
        timestamp,
        difficulty: difficulty.difficulty,
        secondary_scaling: difficulty.secondary_scaling,
        total_difficulty,
        pow_nonce: nonce,
        roots: None,
    };
    Block { header, inputs, outputs, kernels }
}

} // verus!
