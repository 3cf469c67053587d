//! What holds of every commit round, whatever the outside world reports to
//! it and in whatever order.
//!
//! A round is judged by what others see of it: the batches it took from
//! upstream, the vote lists it handed to the directory, the batches it handed
//! to the ledger writer and those it handed downstream. [`RoundTrace`]
//! collects these along a series of events, and the laws below relate them.

use crate::entry::{batch_transactions, batch_votes, BatchModel, EntryModel, Transaction, Vote};
use crate::metrics::{clamp, lemma_clamp_add, Metrics};
use crate::round::{
    Cause, Outcome, Phase, RoundActionModel, RoundError, RoundEventModel, RoundModel,
};
use vstd::prelude::*;
use vstd::seq_lib::lemma_flatten_concat;

verus! {

/// The batches among `batches` that hold at least one entry, in order.
pub open spec fn non_empty(batches: Seq<BatchModel>) -> Seq<BatchModel> {
    batches.filter(|b: BatchModel| b.len() > 0)
}

/// The vote list of each of `batches`, in order.
pub open spec fn votes_each(batches: Seq<BatchModel>) -> Seq<Seq<Vote>> {
    batches.map_values(|b: BatchModel| batch_votes(b))
}

/// All entries of `batches`, in order.
pub open spec fn entries_in(batches: Seq<BatchModel>) -> Seq<EntryModel> {
    batches.flatten()
}

/// All transactions of `batches`, in order.
pub open spec fn transactions_in(batches: Seq<BatchModel>) -> Seq<Transaction> {
    batch_transactions(batches.flatten())
}

/// A round together with what the outside world has seen of it so far.
pub struct RoundTrace {
    /// The round as it stands.
    pub round: RoundModel,
    /// The batches that the round took from upstream, in the order of arrival.
    pub received: Seq<BatchModel>,
    /// The vote lists that the round asked to merge, in the order it asked.
    pub merged: Seq<Seq<Vote>>,
    /// The batches that the round asked to write, in the order it asked.
    pub written: Seq<BatchModel>,
    /// How many of those writes were reported as done.
    pub committed: nat,
    /// The batches that the round asked to forward, in the order it asked.
    pub forwarded: Seq<BatchModel>,
    /// How the round ended, once it has.
    pub outcome: Option<Outcome>,
}

impl RoundTrace {
    /// A round that has not begun: nothing was seen of it.
    pub open spec fn start() -> RoundTrace {
        RoundTrace {
            round: RoundModel::initial(),
            received: Seq::empty(),
            merged: Seq::empty(),
            written: Seq::empty(),
            committed: 0,
            forwarded: Seq::empty(),
            outcome: None,
        }
    }

    /// The trace after one more event. An event that the round does not
    /// accept leaves no mark.
    pub open spec fn extend(self, event: RoundEventModel) -> RoundTrace {
        let (round, answer) = self.round.step(event);
        match answer {
            None => self,
            Some(action) => RoundTrace {
                round,
                received: match event {
                    RoundEventModel::Batch(batch) => self.received.push(batch),
                    _ => self.received,
                },
                merged: match action {
                    RoundActionModel::MergeVotes(votes) => self.merged.push(votes),
                    _ => self.merged,
                },
                written: match action {
                    RoundActionModel::WriteEntries(batch) => self.written.push(batch),
                    _ => self.written,
                },
                committed: match event {
                    RoundEventModel::Written(_) => self.committed + 1,
                    _ => self.committed,
                },
                forwarded: match action {
                    RoundActionModel::Forward(batch) => self.forwarded.push(batch),
                    _ => self.forwarded,
                },
                outcome: match action {
                    RoundActionModel::Finish(outcome) => Some(outcome),
                    _ => self.outcome,
                },
            },
        }
    }

    /// The trace of a round that was reported `events`, one after the other,
    /// from its beginning.
    pub open spec fn of(events: Seq<RoundEventModel>) -> RoundTrace
        decreases events.len(),
    {
        if events.len() == 0 {
            Self::start()
        } else {
            Self::of(events.drop_last()).extend(events.last())
        }
    }

    /// What ties a round to what was seen of it. It holds of every trace.
    pub open spec fn consistent(self) -> bool {
        let n = self.received.len();
        let k = self.committed;
        &&& self.round.wf()
        &&& k <= n
        &&& self.merged.len() <= n
        &&& self.written.len() <= n
        &&& k <= self.written.len()
        &&& self.merged == votes_each(self.received.take(self.merged.len() as int))
        &&& self.written == self.received.take(self.written.len() as int)
        &&& self.forwarded == non_empty(self.received.take(k as int))
        &&& self.round.metrics.batches == clamp(n)
        &&& self.round.metrics.entries == clamp(entries_in(self.received).len())
        &&& self.round.metrics.transactions == clamp(transactions_in(self.received).len())
        &&& (self.round.phase is Finished <==> self.outcome is Some)
        &&& match self.round.phase {
            Phase::Receiving => n == 0,
            Phase::Draining => {
                &&& k == 0
                &&& self.merged.len() == 0
                &&& self.written.len() == 0
                &&& self.round.pending == self.received
            },
            Phase::Merging => {
                &&& self.merged.len() == k + 1
                &&& self.written.len() == k
                &&& self.round.pending == self.received.skip(k as int)
            },
            Phase::Writing => {
                &&& self.merged.len() == k + 1
                &&& self.written.len() == k + 1
                &&& self.round.pending == self.received.skip(k as int)
            },
            Phase::Forwarding => {
                &&& k > 0
                &&& self.received[k - 1].len() > 0
                &&& self.merged.len() == k
                &&& self.written.len() == k
                &&& self.round.pending == self.received.skip(k as int)
            },
            Phase::Finished => match self.outcome {
                Some(Ok(metrics)) => {
                    &&& metrics == self.round.metrics
                    &&& n > 0
                    &&& k == n
                    &&& self.merged.len() == n
                    &&& self.written.len() == n
                },
                Some(Err(RoundError::Timeout)) | Some(Err(RoundError::Disconnected)) => n == 0,
                Some(Err(RoundError::Other(Cause::LedgerWrite))) => {
                    &&& self.merged.len() == k + 1
                    &&& self.written.len() == k + 1
                },
                Some(Err(RoundError::Other(Cause::Forward))) => {
                    &&& k > 0
                    &&& self.merged.len() == k
                    &&& self.written.len() == k
                    &&& self.received[k - 1].len() > 0
                },
                None => false,
            },
        }
    }
}

/// The transactions of two runs of entries, one after the other, are those
/// of the first followed by those of the second.
proof fn lemma_transactions_concat(a: BatchModel, b: BatchModel)
    ensures
        batch_transactions(a + b) == batch_transactions(a) + batch_transactions(b),
{
    let each = |e: EntryModel| e.transactions;
    assert((a + b).map_values(each) =~= a.map_values(each) + b.map_values(each));
    lemma_flatten_concat(a.map_values(each), b.map_values(each));
}

/// Receiving one more batch adds its entries and transactions to the totals.
proof fn lemma_totals_push(received: Seq<BatchModel>, batch: BatchModel)
    ensures
        entries_in(received.push(batch)) == entries_in(received) + batch,
        transactions_in(received.push(batch)) == transactions_in(received) + batch_transactions(
            batch,
        ),
{
    received.lemma_flatten_push(batch);
    lemma_transactions_concat(received.flatten(), batch);
}

/// The counters after one more batch stand for the totals with that batch.
proof fn lemma_metrics_after_batch(metrics: Metrics, received: Seq<BatchModel>, batch: BatchModel)
    requires
        metrics.batches == clamp(received.len()),
        metrics.entries == clamp(entries_in(received).len()),
        metrics.transactions == clamp(transactions_in(received).len()),
    ensures
        metrics.after_batch(batch).batches == clamp(received.push(batch).len()),
        metrics.after_batch(batch).entries == clamp(entries_in(received.push(batch)).len()),
        metrics.after_batch(batch).transactions == clamp(
            transactions_in(received.push(batch)).len(),
        ),
{
    lemma_totals_push(received, batch);
    lemma_clamp_add(received.len(), 1);
    lemma_clamp_add(entries_in(received).len(), batch.len());
    lemma_clamp_add(transactions_in(received).len(), batch_transactions(batch).len());
}

/// Going on with the batches that wait keeps a trace consistent.
proof fn lemma_proceed_consistent(before: RoundTrace, metrics: Metrics, k: nat)
    requires
        k <= before.received.len(),
        before.merged.len() == k,
        before.written.len() == k,
        before.merged == votes_each(before.received.take(k as int)),
        before.written == before.received.take(k as int),
        before.forwarded == non_empty(before.received.take(k as int)),
        before.received.len() > 0,
        before.outcome is None,
        metrics.batches == clamp(before.received.len()),
        metrics.entries == clamp(entries_in(before.received).len()),
        metrics.transactions == clamp(transactions_in(before.received).len()),
    ensures
        ({
            let (round, action) = RoundModel::proceed(before.received.skip(k as int), metrics);
            (RoundTrace {
                round,
                received: before.received,
                merged: match action {
                    RoundActionModel::MergeVotes(votes) => before.merged.push(votes),
                    _ => before.merged,
                },
                written: before.written,
                committed: k,
                forwarded: before.forwarded,
                outcome: match action {
                    RoundActionModel::Finish(outcome) => Some(outcome),
                    _ => before.outcome,
                },
            }).consistent()
        }),
{
    let received = before.received;
    let rest = received.skip(k as int);
    if rest.len() > 0 {
        let each = |b: BatchModel| batch_votes(b);
        assert(rest[0] == received[k as int]);
        assert(received.take((k + 1) as int) =~= received.take(k as int).push(received[k as int]));
        received.take(k as int).lemma_push_map_commute(each, received[k as int]);
    }
}

/// One more event keeps a consistent trace consistent.
proof fn lemma_extend_consistent(before: RoundTrace, event: RoundEventModel)
    requires
        before.consistent(),
    ensures
        before.extend(event).consistent(),
{
    let after = before.extend(event);
    let received = before.received;
    let k = before.committed;
    if before.round.step(event).1 is Some {
        match (before.round.phase, event) {
            (Phase::Receiving, RoundEventModel::Batch(batch))
            | (Phase::Draining, RoundEventModel::Batch(batch)) => {
                lemma_metrics_after_batch(before.round.metrics, received, batch);
                assert(received.push(batch).take(0) =~= received.take(0));
                assert(before.round.pending =~= received);
            },
            (Phase::Draining, RoundEventModel::Empty)
            | (Phase::Draining, RoundEventModel::Disconnected) => {
                assert(received.skip(0) =~= received);
                lemma_proceed_consistent(before, before.round.metrics, 0);
            },
            (Phase::Merging, RoundEventModel::Merged(ms)) => {
                assert(before.round.pending[0] == received[k as int]);
                assert(received.take((k + 1) as int) =~= received.take(k as int).push(received[k as int]));
            },
            (Phase::Writing, RoundEventModel::Written(ms)) => {
                let head = received[k as int];
                let keep = |b: BatchModel| b.len() > 0;
                assert(before.round.pending[0] == head);
                assert(before.round.pending.skip(1) =~= received.skip((k + 1) as int));
                assert(received.take((k + 1) as int) =~= received.take(k as int).push(head));
                received.take(k as int).lemma_filter_push(head, keep);
                if head.len() == 0 {
                    let staged = RoundTrace { committed: k + 1, ..before };
                    lemma_proceed_consistent(staged, before.round.metrics.after_write(ms), k + 1);
                }
            },
            (Phase::Forwarding, RoundEventModel::Forwarded(ms)) => {
                lemma_proceed_consistent(before, before.round.metrics.after_forward(ms), k);
            },
            _ => {},
        }
    }
}

/// Every trace is consistent.
pub proof fn lemma_trace_consistent(events: Seq<RoundEventModel>)
    ensures
        RoundTrace::of(events).consistent(),
    decreases events.len(),
{
    if events.len() == 0 {
        assert(RoundTrace::start().received.take(0) =~= Seq::<BatchModel>::empty());
        assert(non_empty(Seq::<BatchModel>::empty()) =~= Seq::<BatchModel>::empty());
        assert(votes_each(Seq::<BatchModel>::empty()) =~= Seq::<Seq<Vote>>::empty());
        assert(entries_in(Seq::<BatchModel>::empty()) =~= Seq::<EntryModel>::empty());
        assert(transactions_in(Seq::<BatchModel>::empty()) =~= Seq::<Transaction>::empty());
    } else {
        lemma_trace_consistent(events.drop_last());
        lemma_extend_consistent(RoundTrace::of(events.drop_last()), events.last());
    }
}

/// Batches are committed in the order in which they arrived. The ledger
/// writer is handed the batches of the round in arrival order, none twice
/// and none left out before a later one; the directory is handed the votes
/// of each batch once, in the same order, the votes of a batch before that
/// batch is written; and downstream are handed, in the same order again,
/// exactly those batches with a write reported as done that hold an entry.
pub proof fn lemma_arrival_order(events: Seq<RoundEventModel>)
    ensures
        ({
            let trace = RoundTrace::of(events);
            &&& trace.written.len() <= trace.received.len()
            &&& trace.written == trace.received.take(trace.written.len() as int)
            &&& trace.written.len() <= trace.merged.len() <= trace.written.len() + 1
            &&& trace.merged == votes_each(trace.received.take(trace.merged.len() as int))
            &&& trace.forwarded == non_empty(trace.received.take(trace.committed as int))
        }),
{
    lemma_trace_consistent(events);
}

/// Nothing goes downstream before the ledger has it. Every batch that the
/// round asks to forward is one of those whose write was reported as done,
/// and they are forwarded in the order in which they were written.
pub proof fn lemma_written_before_forwarded(events: Seq<RoundEventModel>)
    ensures
        ({
            let trace = RoundTrace::of(events);
            &&& trace.committed <= trace.written.len()
            &&& trace.forwarded == non_empty(trace.written.take(trace.committed as int))
        }),
{
    lemma_trace_consistent(events);
    let trace = RoundTrace::of(events);
    assert(trace.written.take(trace.committed as int) =~= trace.received.take(
        trace.committed as int,
    ));
}

/// A forward is only ever the answer to a write reported as done, and what
/// is forwarded is the batch that was written, which holds an entry.
pub proof fn lemma_forward_answers_write(round: RoundModel, event: RoundEventModel)
    ensures
        round.step(event).1 matches Some(RoundActionModel::Forward(batch)) ==> {
            &&& round.phase is Writing
            &&& event is Written
            &&& batch == round.pending[0]
            &&& batch.len() > 0
        },
{
}

/// An empty batch is never forwarded.
pub proof fn lemma_no_empty_batch_forwarded(events: Seq<RoundEventModel>, i: int)
    requires
        0 <= i < RoundTrace::of(events).forwarded.len(),
    ensures
        RoundTrace::of(events).forwarded[i].len() > 0,
{
    lemma_trace_consistent(events);
    let trace = RoundTrace::of(events);
    let keep = |b: BatchModel| b.len() > 0;
    trace.received.take(trace.committed as int).lemma_filter_pred(keep, i);
}

/// A round that ends with success has committed everything it received:
/// each batch was written, empty ones too, in arrival order; the votes of
/// each were merged; each batch that holds an entry was forwarded; and the
/// figures it reports count all of them.
pub proof fn lemma_success_commits_all(events: Seq<RoundEventModel>, metrics: Metrics)
    requires
        RoundTrace::of(events).outcome == Some(Ok::<Metrics, RoundError>(metrics)),
    ensures
        ({
            let trace = RoundTrace::of(events);
            &&& trace.received.len() > 0
            &&& trace.written == trace.received
            &&& trace.merged == votes_each(trace.received)
            &&& trace.forwarded == non_empty(trace.received)
            &&& trace.committed == trace.received.len()
            &&& metrics.batches == clamp(trace.received.len())
            &&& metrics.entries == clamp(entries_in(trace.received).len())
            &&& metrics.transactions == clamp(transactions_in(trace.received).len())
        }),
{
    lemma_trace_consistent(events);
    let trace = RoundTrace::of(events);
    assert(trace.received.take(trace.received.len() as int) =~= trace.received);
}

/// A round ends without having received anything exactly when its blocking
/// receive timed out or found the channel closed; then nothing was merged,
/// written or forwarded.
pub proof fn lemma_idle_round(events: Seq<RoundEventModel>)
    requires
        RoundTrace::of(events).outcome is Some,
    ensures
        ({
            let trace = RoundTrace::of(events);
            let idle = trace.outcome == Some(Err::<Metrics, RoundError>(RoundError::Timeout))
                || trace.outcome == Some(Err::<Metrics, RoundError>(RoundError::Disconnected));
            &&& idle <==> trace.received.len() == 0
            &&& idle ==> trace.merged.len() == 0 && trace.written.len() == 0
                && trace.forwarded.len() == 0
        }),
{
    lemma_trace_consistent(events);
    let trace = RoundTrace::of(events);
    if trace.received.len() == 0 {
        assert(trace.received.take(0) =~= Seq::<BatchModel>::empty());
        assert(non_empty(Seq::<BatchModel>::empty()) =~= Seq::<BatchModel>::empty());
    }
}

/// A round that has ended takes no further event.
pub proof fn lemma_end_is_final(events: Seq<RoundEventModel>, event: RoundEventModel)
    requires
        RoundTrace::of(events).outcome is Some,
    ensures
        RoundTrace::of(events.push(event)) == RoundTrace::of(events),
{
    lemma_trace_consistent(events);
    assert(events.push(event).drop_last() =~= events);
}

/// The events of a burst: each of `batches` received, one after the other.
pub open spec fn burst(batches: Seq<BatchModel>) -> Seq<RoundEventModel> {
    batches.map_values(|b: BatchModel| RoundEventModel::Batch(b))
}

/// Batches that arrive in a burst are taken into one round. Each of them is
/// accepted as it arrives, whatever their number, and when the channel is
/// found empty all of them wait to be committed, the first of them first.
pub proof fn lemma_burst_is_one_round(batches: Seq<BatchModel>)
    requires
        batches.len() > 0,
    ensures
        ({
            let drained = RoundTrace::of(burst(batches));
            let begun = RoundTrace::of(burst(batches).push(RoundEventModel::Empty));
            &&& drained.received == batches
            &&& drained.round.phase is Draining
            &&& drained.round.pending == batches
            &&& drained.round.metrics.batches == clamp(batches.len())
            &&& begun.received == batches
            &&& begun.round.phase is Merging
            &&& begun.round.pending == batches
            &&& begun.merged == seq![batch_votes(batches[0])]
        }),
    decreases batches.len(),
{
    let events = burst(batches);
    let wrap = |b: BatchModel| RoundEventModel::Batch(b);
    let earlier = batches.drop_last();
    assert(events.drop_last() =~= burst(earlier));
    assert(events.last() == wrap(batches.last()));
    if earlier.len() > 0 {
        lemma_burst_is_one_round(earlier);
    }
    assert(earlier.push(batches.last()) =~= batches);
    lemma_trace_consistent(events);
    assert(events.push(RoundEventModel::Empty).drop_last() =~= events);
}

/// How many answers, at most, a round that has begun to commit still takes
/// before it has ended: three for each batch that waits, less what the batch
/// in hand has behind it.
pub open spec fn steps_left(round: RoundModel) -> nat {
    match round.phase {
        Phase::Merging => 3 * round.pending.len(),
        Phase::Writing => (3 * round.pending.len() - 1) as nat,
        Phase::Forwarding => 3 * round.pending.len() + 1,
        _ => 0,
    }
}

/// Once the drain is over a round cannot be held up. Until it has ended it
/// accepts the report of the work it asked for, and every answer it accepts
/// brings its end nearer, so that it ends after at most three answers for
/// each batch it received.
pub proof fn lemma_commit_makes_progress(round: RoundModel, event: RoundEventModel)
    requires
        round.wf(),
        round.phase is Merging || round.phase is Writing || round.phase is Forwarding,
    ensures
        round.accepts(RoundEventModel::Merged(0)) || round.accepts(RoundEventModel::Written(0))
            || round.accepts(RoundEventModel::Forwarded(0)),
        round.accepts(event) ==> {
            let next = round.step(event).0;
            &&& steps_left(next) < steps_left(round)
            &&& next.phase is Merging || next.phase is Writing || next.phase is Forwarding
                || next.phase is Finished
        },
{
}

/// A round takes batches from upstream only until it has begun to commit:
/// what it commits was all received before the first merge.
pub proof fn lemma_no_receive_after_the_drain(round: RoundModel, batch: BatchModel)
    ensures
        round.accepts(RoundEventModel::Batch(batch)) <==> (round.phase is Receiving
            || round.phase is Draining),
{
}

} // verus!
