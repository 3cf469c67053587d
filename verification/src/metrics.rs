//! What one commit round reports of itself: how much it processed and how long
//! the outside work took. The figures are for observation only; no decision of
//! the stage reads them.

use crate::entry::{batch_transactions, count_transactions, Batch, BatchModel};
use vstd::prelude::*;

verus! {

/// A natural number as a counter shows it: counters stop at `u64::MAX`.
pub open spec fn clamp(n: nat) -> u64 {
    if n > u64::MAX {
        u64::MAX
    } else {
        n as u64
    }
}

/// Adding to a counter that has stopped, or stops, is adding to the number it stands for.
pub proof fn lemma_clamp_add(a: nat, b: nat)
    ensures
        clamp(clamp(a) as nat + b) == clamp(a + b),
        clamp(a).saturating_add(clamp(b)) == clamp(a + b),
{
}

/// The figures of one commit round. Every counter saturates at `u64::MAX`.
#[derive(Clone, Copy, Debug, PartialEq, Eq)]
pub struct Metrics {
    /// Batches received in the round.
    pub batches: u64,
    /// Entries in those batches.
    pub entries: u64,
    /// Transactions in those entries.
    pub transactions: u64,
    /// Milliseconds spent merging votes into the cluster directory.
    pub merge_ms: u64,
    /// Milliseconds spent writing to the ledger.
    pub write_ms: u64,
    /// Milliseconds spent forwarding downstream.
    pub forward_ms: u64,
}

impl Metrics {
    /// The figures of a round in which nothing has happened yet.
    pub open spec fn zero() -> Metrics {
        Metrics { batches: 0, entries: 0, transactions: 0, merge_ms: 0, write_ms: 0, forward_ms: 0 }
    }

    /// The figures after one more batch was received.
    pub open spec fn after_batch(self, batch: BatchModel) -> Metrics {
        Metrics {
            batches: self.batches.saturating_add(1),
            entries: self.entries.saturating_add(clamp(batch.len())),
            transactions: self.transactions.saturating_add(
                clamp(batch_transactions(batch).len()),
            ),
            ..self
        }
    }

    /// The figures after a vote merge that took `ms` milliseconds.
    pub open spec fn after_merge(self, ms: u64) -> Metrics {
        Metrics { merge_ms: self.merge_ms.saturating_add(ms), ..self }
    }

    /// The figures after a ledger write that took `ms` milliseconds.
    pub open spec fn after_write(self, ms: u64) -> Metrics {
        Metrics { write_ms: self.write_ms.saturating_add(ms), ..self }
    }

    /// The figures after a forward that took `ms` milliseconds.
    pub open spec fn after_forward(self, ms: u64) -> Metrics {
        Metrics { forward_ms: self.forward_ms.saturating_add(ms), ..self }
    }

    pub fn new() -> (metrics: Metrics)
        ensures
            metrics == Metrics::zero(),
    {
        Metrics { batches: 0, entries: 0, transactions: 0, merge_ms: 0, write_ms: 0, forward_ms: 0 }
    }

    /// Counts one received batch, its entries and their transactions.
    pub fn record_batch(self, batch: &Batch) -> (metrics: Metrics)
        ensures
            metrics == self.after_batch(batch.deep_view()),
    {
        Metrics {
            batches: self.batches.saturating_add(1),
            entries: self.entries.saturating_add(batch.len() as u64),
            transactions: self.transactions.saturating_add(count_transactions(batch)),
            merge_ms: self.merge_ms,
            write_ms: self.write_ms,
            forward_ms: self.forward_ms,
        }
    }

    /// Adds the time of one vote merge.
    pub fn record_merge(self, ms: u64) -> (metrics: Metrics)
        ensures
            metrics == self.after_merge(ms),
    {
        Metrics {
            batches: self.batches,
            entries: self.entries,
            transactions: self.transactions,
            merge_ms: self.merge_ms.saturating_add(ms),
            write_ms: self.write_ms,
            forward_ms: self.forward_ms,
        }
    }

    /// Adds the time of one ledger write.
    pub fn record_write(self, ms: u64) -> (metrics: Metrics)
        ensures
            metrics == self.after_write(ms),
    {
        Metrics {
            batches: self.batches,
            entries: self.entries,
            transactions: self.transactions,
            merge_ms: self.merge_ms,
            write_ms: self.write_ms.saturating_add(ms),
            forward_ms: self.forward_ms,
        }
    }

    /// Adds the time of one forward.
    pub fn record_forward(self, ms: u64) -> (metrics: Metrics)
        ensures
            metrics == self.after_forward(ms),
    {
        Metrics {
            batches: self.batches,
            entries: self.entries,
            transactions: self.transactions,
            merge_ms: self.merge_ms,
            write_ms: self.write_ms,
            forward_ms: self.forward_ms.saturating_add(ms),
        }
    }
}

} // verus!
