use vstd::prelude::*;

use crate::errors::BenchError;

verus! {

/// What one visited block contributes to a gather: its parent pointer and
/// its transactions as raw bytes.
pub struct BlockSample {
    pub prev: Seq<u8>,
    pub txs: Seq<Seq<u8>>,
}

/// The mathematical state of a backward walk assembling a training window.
pub struct GatherModel {
    /// How many more ancestor blocks the walk must visit.
    pub remaining: nat,
    /// The hash of the next block to visit.
    pub next_hash: Seq<u8>,
    /// Every record gathered so far, in visiting order.
    pub samples: Seq<Seq<u8>>,
}

/// A fresh walk: `window` steps to go, starting at the reference point.
pub open spec fn gather_init(tip: Seq<u8>, window: nat) -> GatherModel {
    GatherModel { remaining: window, next_hash: tip, samples: Seq::empty() }
}

/// One step of the walk: the visited block's transactions are flattened onto
/// the sample list and the walk moves to the block's parent.
pub open spec fn feed_spec(g: GatherModel, b: BlockSample) -> GatherModel
    recommends
        g.remaining > 0,
{
    GatherModel {
        remaining: (g.remaining - 1) as nat,
        next_hash: b.prev,
        samples: g.samples + b.txs,
    }
}

/// The walk state after feeding a sequence of blocks in order.
pub open spec fn gather_run(g: GatherModel, blocks: Seq<BlockSample>) -> GatherModel
    decreases blocks.len(),
{
    if blocks.len() == 0 {
        g
    } else {
        gather_run(feed_spec(g, blocks.first()), blocks.drop_first())
    }
}

/// The sum of the blocks' transaction counts.
pub open spec fn total_tx_count(blocks: Seq<BlockSample>) -> nat
    decreases blocks.len(),
{
    if blocks.len() == 0 {
        0
    } else {
        blocks.first().txs.len() + total_tx_count(blocks.drop_first())
    }
}

/// The blocks' transactions flattened into one record sequence, in visiting
/// order.
pub open spec fn window_records(blocks: Seq<BlockSample>) -> Seq<Seq<u8>>
    decreases blocks.len(),
{
    if blocks.len() == 0 {
        Seq::empty()
    } else {
        blocks.first().txs + window_records(blocks.drop_first())
    }
}

proof fn lemma_window_records_count(blocks: Seq<BlockSample>)
    ensures
        window_records(blocks).len() == total_tx_count(blocks),
    decreases blocks.len(),
{
    if blocks.len() > 0 {
        lemma_window_records_count(blocks.drop_first());
    }
}

proof fn lemma_gather_run_steps(g: GatherModel, blocks: Seq<BlockSample>)
    requires
        blocks.len() <= g.remaining,
    ensures
        gather_run(g, blocks).remaining == g.remaining - blocks.len(),
        gather_run(g, blocks).samples == g.samples + window_records(blocks),
    decreases blocks.len(),
{
    if blocks.len() == 0 {
        assert(g.samples + window_records(blocks) =~= g.samples);
    } else {
        let g1 = feed_spec(g, blocks.first());
        lemma_gather_run_steps(g1, blocks.drop_first());
        assert(g1.samples + window_records(blocks.drop_first()) =~= g.samples + window_records(
            blocks,
        ));
    }
}

/// Law: a walk of exactly `w` ancestor blocks from any reference point ends
/// with no steps remaining, and its training set holds exactly the visited
/// blocks' transactions, flattened in visiting order; in particular its
/// record count is the sum of the transaction counts across exactly those
/// `w` blocks.
pub proof fn lemma_gather_window_count(tip: Seq<u8>, w: nat, blocks: Seq<BlockSample>)
    requires
        blocks.len() == w,
    ensures
        gather_run(gather_init(tip, w), blocks).remaining == 0,
        gather_run(gather_init(tip, w), blocks).samples == window_records(blocks),
        gather_run(gather_init(tip, w), blocks).samples.len() == total_tx_count(blocks),
{
    lemma_gather_run_steps(gather_init(tip, w), blocks);
    lemma_window_records_count(blocks);
    assert(gather_init(tip, w).samples + window_records(blocks) =~= window_records(blocks));
}

/// A training-window walk in progress: it visits `window` blocks backward
/// from a reference point, one `feed_block` per visited block, the record
/// source being asked outside for the block `next_hash` names.
pub struct WindowGather {
    remaining: usize,
    next_hash: Vec<u8>,
    samples: Vec<Vec<u8>>,
}

impl View for WindowGather {
    type V = GatherModel;

    closed spec fn view(&self) -> GatherModel {
        GatherModel {
            remaining: self.remaining as nat,
            next_hash: self.next_hash@,
            samples: self.samples.deep_view(),
        }
    }
}

impl WindowGather {
    /// Begin a walk of `window` blocks back from `tip`; a zero-block window
    /// is rejected rather than silently producing an empty training set.
    pub fn new(tip: Vec<u8>, window: usize) -> (r: Result<WindowGather, BenchError>)
        ensures
            window == 0 ==> r == Err::<WindowGather, BenchError>(BenchError::EmptyWindow),
            window > 0 ==> (r matches Ok(g) && g@ == gather_init(tip@, window as nat)),
    {
        if window == 0 {
            Err(BenchError::EmptyWindow)
        } else {
            let g = WindowGather { remaining: window, next_hash: tip, samples: Vec::new() };
            proof {
                assert(g@.samples =~= gather_init(g.next_hash@, window as nat).samples);
            }
            Ok(g)
        }
    }

    /// The hash of the block the walk must visit next.
    pub fn next_hash(&self) -> (r: &Vec<u8>)
        ensures
            r@ == self@.next_hash,
    {
        &self.next_hash
    }

    /// How many more blocks the walk must visit.
    pub fn remaining(&self) -> (r: usize)
        ensures
            r as nat == self@.remaining,
    {
        self.remaining
    }

    /// Whether the walk has visited its full window.
    pub fn is_done(&self) -> (r: bool)
        ensures
            r == (self@.remaining == 0),
    {
        self.remaining == 0
    }

    /// Record one visited block: its transactions join the training set and
    /// the walk moves to its parent.
    pub fn feed_block(&mut self, prev_hash: Vec<u8>, txs: Vec<Vec<u8>>)
        requires
            old(self)@.remaining > 0,
        ensures
            final(self)@ == feed_spec(
                old(self)@,
                BlockSample { prev: prev_hash@, txs: txs.deep_view() },
            ),
    {
        let ghost txs0: Seq<Seq<u8>> = txs.deep_view();
        let ghost before: Seq<Seq<u8>> = self.samples.deep_view();
        let mut txs = txs;
        self.remaining = self.remaining - 1;
        self.next_hash = prev_hash;
        self.samples.append(&mut txs);
        proof {
            assert(self.samples.deep_view() =~= before + txs0);
        }
    }

    /// Hand the gathered training set over, once the walk is complete.
    pub fn finish(self) -> (r: Vec<Vec<u8>>)
        requires
            self@.remaining == 0,
        ensures
            r.deep_view() == self@.samples,
    {
        self.samples
    }
}

} // verus!
