//! The batch-send-and-track workflow's decision core.
//!
//! The driver records the chain height, submits one signing-and-sending task
//! per transaction, then polls: whenever the height has advanced it fetches
//! every newly available block and accumulates the transactions observed in
//! each body. All decisions live here as a state machine over plain values;
//! the driver only performs the submissions and fetches and feeds the results
//! back. The watermark (next height to fetch) advances only past heights that
//! have actually been fetched, so a height the node has not produced yet is
//! waited for, never skipped. The workflow is finished exactly when the
//! observed count has reached the requested count.

use vstd::prelude::*;

verus! {

/// Progress of one batch-send-and-track run.
#[derive(Debug, Clone, Copy, PartialEq, Eq, Structural)]
pub struct BenchProgress {
    /// How many transactions the run wants to see included.
    pub requested: u64,
    /// The chain height when the run started.
    pub start_height: u64,
    /// The watermark: the next block height to fetch.
    pub next_height: u64,
    /// Transactions observed in fetched blocks so far.
    pub observed: u64,
}

impl BenchProgress {
    /// The workflow is finished: every requested transaction was observed.
    pub open spec fn spec_done(self) -> bool {
        self.observed >= self.requested
    }

    /// Start a run: nothing observed yet, polling begins just above the
    /// recorded starting height. A run asking for zero transactions is done
    /// from the start, before any polling.
    pub fn begin(requested: u64, start_height: u64) -> (s: BenchProgress)
        requires
            start_height < u64::MAX,
        ensures
            s.requested == requested,
            s.start_height == start_height,
            s.next_height == start_height + 1,
            s.observed == 0,
            s.spec_done() <==> requested == 0,
    {
        BenchProgress { requested, start_height, next_height: start_height + 1, observed: 0 }
    }

    /// Exec mirror of [`Self::spec_done`]: the termination condition.
    pub fn is_done(&self) -> (r: bool)
        ensures
            r == self.spec_done(),
    {
        self.observed >= self.requested
    }

    /// The heights to fetch now that the chain reports `current_height`:
    /// every height from the watermark up to the reported one, in order, and
    /// none when the chain has not advanced past the watermark.
    pub fn heights_to_fetch(&self, current_height: u64) -> (r: Vec<u64>)
        requires
            current_height < u64::MAX,
        ensures
            current_height < self.next_height ==> r@.len() == 0,
            current_height >= self.next_height ==> r@.len() == current_height - self.next_height
                + 1,
            forall|t: int| 0 <= t < r@.len() ==> r@[t] == self.next_height + t,
    {
        let mut out: Vec<u64> = Vec::new();
        let mut h = self.next_height;
        while h <= current_height
            invariant
                current_height < u64::MAX,
                self.next_height <= h,
                h <= current_height + 1 || h == self.next_height,
                out@.len() == h - self.next_height,
                forall|t: int| 0 <= t < out@.len() ==> out@[t] == self.next_height + t,
            decreases current_height + 1 - h,
        {
            out.push(h);
            h = h + 1;
        }
        out
    }

    /// Record one fetched block at exactly the watermark: the watermark
    /// advances past it and the observed count grows by the block's
    /// transaction count (capped at the counter's maximum). The observed
    /// count never decreases, and a finished run stays finished.
    pub fn record_block(&mut self, height: u64, tx_count: u64)
        requires
            height == old(self).next_height,
            old(self).next_height < u64::MAX,
        ensures
            final(self).next_height == old(self).next_height + 1,
            final(self).requested == old(self).requested,
            final(self).start_height == old(self).start_height,
            old(self).observed + tx_count <= u64::MAX ==> final(self).observed == old(
                self,
            ).observed + tx_count,
            old(self).observed + tx_count > u64::MAX ==> final(self).observed == u64::MAX,
            final(self).observed >= old(self).observed,
            old(self).spec_done() ==> final(self).spec_done(),
    {
        self.observed = match self.observed.checked_add(tx_count) {
            Some(v) => v,
            None => u64::MAX,
        };
        self.next_height = self.next_height + 1;
    }
}

} // verus!
