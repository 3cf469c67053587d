//! One commit round: receive a burst of batches, then, batch by batch in the
//! order of arrival, merge its votes into the cluster directory, write it to
//! the ledger and forward it downstream.
//!
//! The round itself touches neither channel, directory nor ledger. It is a
//! state machine: it names the next piece of outside work as a
//! [`RoundAction`], the caller performs it and reports what happened as a
//! [`RoundEvent`], and the round answers with the action after that.
//!
//! A failed ledger write or forward ends the round at once. Batches of the
//! same round that were still waiting behind the failing one are dropped:
//! they are neither written nor forwarded, and no later round sees them.

use crate::entry::{batch_votes, copy_of, votes_of, Batch, BatchModel, Vote};
use crate::metrics::Metrics;
use crate::stage::WriteStage;
use std::collections::VecDeque;
use vstd::prelude::*;

verus! {

/// How long the first receive of a round may block, in milliseconds.
pub const RECEIVE_TIMEOUT_MS: u64 = 1000;

/// Where a round stands: which answer it is waiting for.
#[derive(Clone, Copy, Debug, PartialEq, Eq)]
pub enum Phase {
    /// Waiting for the blocking receive of the first batch.
    Receiving,
    /// Waiting for a non-blocking receive of a further batch.
    Draining,
    /// Waiting for the votes of the first pending batch to be merged.
    Merging,
    /// Waiting for the first pending batch to be written to the ledger.
    Writing,
    /// Waiting for the batch just written to be forwarded.
    Forwarding,
    /// The round is over.
    Finished,
}

/// Which outside operation made a round fail.
#[derive(Clone, Copy, Debug, PartialEq, Eq)]
pub enum Cause {
    /// The ledger writer reported an error.
    LedgerWrite,
    /// The downstream channel has no receiver left.
    Forward,
}

/// Why a round ended without committing all it received.
#[derive(Clone, Copy, Debug, PartialEq, Eq)]
pub enum RoundError {
    /// The upstream channel is closed: no batch will ever arrive again.
    Disconnected,
    /// No batch arrived within the wait window.
    Timeout,
    /// A ledger write or a forward failed.
    Other(Cause),
}

/// How a round ended.
pub type Outcome = Result<Metrics, RoundError>;

/// What the outside world reports to a round.
#[derive(Debug, PartialEq, Eq)]
pub enum RoundEvent {
    /// A receive yielded this batch.
    Batch(Batch),
    /// The blocking receive gave up after the wait window.
    Timeout,
    /// The non-blocking receive found nothing waiting.
    Empty,
    /// The receive found the upstream channel closed.
    Disconnected,
    /// The votes were merged into the directory; it took this many milliseconds.
    Merged(u64),
    /// The batch was written to the ledger; it took this many milliseconds.
    Written(u64),
    /// The ledger writer failed.
    WriteFailed,
    /// The batch was sent downstream; it took this many milliseconds.
    Forwarded(u64),
    /// The batch could not be sent downstream.
    ForwardFailed,
}

/// What a round asks the outside world to do next.
#[derive(Debug, PartialEq, Eq)]
pub enum RoundAction {
    /// Wait on the upstream channel, at most `RECEIVE_TIMEOUT_MS`.
    Receive,
    /// Try the upstream channel without waiting.
    TryReceive,
    /// Merge these votes into the cluster directory, under its write lock,
    /// and release the lock before anything else is done.
    MergeVotes(Vec<Vote>),
    /// Append this batch to the ledger.
    WriteEntries(Batch),
    /// Send this batch downstream.
    Forward(Batch),
    /// Nothing more: the round has ended so.
    Finish(Outcome),
}

/// A round event as a mathematical value.
pub enum RoundEventModel {
    Batch(BatchModel),
    Timeout,
    Empty,
    Disconnected,
    Merged(u64),
    Written(u64),
    WriteFailed,
    Forwarded(u64),
    ForwardFailed,
}

/// A round action as a mathematical value.
pub enum RoundActionModel {
    Receive,
    TryReceive,
    MergeVotes(Seq<Vote>),
    WriteEntries(BatchModel),
    Forward(BatchModel),
    Finish(Outcome),
}

impl View for RoundEvent {
    type V = RoundEventModel;

    open spec fn view(&self) -> RoundEventModel {
        match *self {
            RoundEvent::Batch(batch) => RoundEventModel::Batch(batch.deep_view()),
            RoundEvent::Timeout => RoundEventModel::Timeout,
            RoundEvent::Empty => RoundEventModel::Empty,
            RoundEvent::Disconnected => RoundEventModel::Disconnected,
            RoundEvent::Merged(ms) => RoundEventModel::Merged(ms),
            RoundEvent::Written(ms) => RoundEventModel::Written(ms),
            RoundEvent::WriteFailed => RoundEventModel::WriteFailed,
            RoundEvent::Forwarded(ms) => RoundEventModel::Forwarded(ms),
            RoundEvent::ForwardFailed => RoundEventModel::ForwardFailed,
        }
    }
}

impl View for RoundAction {
    type V = RoundActionModel;

    open spec fn view(&self) -> RoundActionModel {
        match *self {
            RoundAction::Receive => RoundActionModel::Receive,
            RoundAction::TryReceive => RoundActionModel::TryReceive,
            RoundAction::MergeVotes(votes) => RoundActionModel::MergeVotes(votes@),
            RoundAction::WriteEntries(batch) => RoundActionModel::WriteEntries(batch.deep_view()),
            RoundAction::Forward(batch) => RoundActionModel::Forward(batch.deep_view()),
            RoundAction::Finish(outcome) => RoundActionModel::Finish(outcome),
        }
    }
}

/// A round as a mathematical value.
pub struct RoundModel {
    pub phase: Phase,
    /// The batches received and not yet written, in the order of arrival.
    pub pending: Seq<BatchModel>,
    pub metrics: Metrics,
}

impl RoundModel {
    /// A round in which nothing has happened yet. Its first action is
    /// `Receive`.
    pub open spec fn initial() -> RoundModel {
        RoundModel { phase: Phase::Receiving, pending: Seq::empty(), metrics: Metrics::zero() }
    }

    /// Before the first batch and after the end nothing is pending; while a
    /// batch is awaited, merged or written there is one at the head.
    pub open spec fn wf(self) -> bool {
        match self.phase {
            Phase::Receiving | Phase::Finished => self.pending.len() == 0,
            Phase::Draining | Phase::Merging | Phase::Writing => self.pending.len() > 0,
            Phase::Forwarding => true,
        }
    }

    /// Go on with the batches that wait: merge the votes of the first, or
    /// finish with success when none is left.
    pub open spec fn proceed(pending: Seq<BatchModel>, metrics: Metrics) -> (
        RoundModel,
        RoundActionModel,
    ) {
        if pending.len() == 0 {
            (
                RoundModel { phase: Phase::Finished, pending, metrics },
                RoundActionModel::Finish(Ok(metrics)),
            )
        } else {
            (
                RoundModel { phase: Phase::Merging, pending, metrics },
                RoundActionModel::MergeVotes(batch_votes(pending[0])),
            )
        }
    }

    /// End the round with an error and drop whatever still waits.
    pub open spec fn abandon(metrics: Metrics, error: RoundError) -> (
        RoundModel,
        RoundActionModel,
    ) {
        (
            RoundModel { phase: Phase::Finished, pending: Seq::empty(), metrics },
            RoundActionModel::Finish(Err(error)),
        )
    }

    /// The round after `event` and the action it answers with; `None`, and
    /// the round unchanged, where `event` is no answer to what the round is
    /// waiting for.
    pub open spec fn step(self, event: RoundEventModel) -> (RoundModel, Option<RoundActionModel>) {
        match (self.phase, event) {
            (Phase::Receiving, RoundEventModel::Batch(batch))
            | (Phase::Draining, RoundEventModel::Batch(batch)) => (
                RoundModel {
                    phase: Phase::Draining,
                    pending: self.pending.push(batch),
                    metrics: self.metrics.after_batch(batch),
                },
                Some(RoundActionModel::TryReceive),
            ),
            (Phase::Receiving, RoundEventModel::Timeout) => {
                let (round, action) = Self::abandon(self.metrics, RoundError::Timeout);
                (round, Some(action))
            },
            (Phase::Receiving, RoundEventModel::Disconnected) => {
                let (round, action) = Self::abandon(self.metrics, RoundError::Disconnected);
                (round, Some(action))
            },
            (Phase::Draining, RoundEventModel::Empty)
            | (Phase::Draining, RoundEventModel::Disconnected) => {
                let (round, action) = Self::proceed(self.pending, self.metrics);
                (round, Some(action))
            },
            (Phase::Merging, RoundEventModel::Merged(ms)) => (
                RoundModel {
                    phase: Phase::Writing,
                    pending: self.pending,
                    metrics: self.metrics.after_merge(ms),
                },
                Some(RoundActionModel::WriteEntries(self.pending[0])),
            ),
            (Phase::Writing, RoundEventModel::Written(ms)) => {
                let metrics = self.metrics.after_write(ms);
                let rest = self.pending.skip(1);
                if self.pending[0].len() > 0 {
                    (
                        RoundModel { phase: Phase::Forwarding, pending: rest, metrics },
                        Some(RoundActionModel::Forward(self.pending[0])),
                    )
                } else {
                    let (round, action) = Self::proceed(rest, metrics);
                    (round, Some(action))
                }
            },
            (Phase::Writing, RoundEventModel::WriteFailed) => {
                let (round, action) = Self::abandon(
                    self.metrics,
                    RoundError::Other(Cause::LedgerWrite),
                );
                (round, Some(action))
            },
            (Phase::Forwarding, RoundEventModel::Forwarded(ms)) => {
                let (round, action) = Self::proceed(self.pending, self.metrics.after_forward(ms));
                (round, Some(action))
            },
            (Phase::Forwarding, RoundEventModel::ForwardFailed) => {
                let (round, action) = Self::abandon(self.metrics, RoundError::Other(Cause::Forward));
                (round, Some(action))
            },
            _ => (self, None),
        }
    }

    /// Whether `event` answers what the round is waiting for.
    pub open spec fn accepts(self, event: RoundEventModel) -> bool {
        self.step(event).1 is Some
    }
}

/// The state of one commit round. It lives for one round only: each round
/// starts from a new one.
pub struct CommitRound {
    phase: Phase,
    pending: VecDeque<Batch>,
    metrics: Metrics,
}

impl View for CommitRound {
    type V = RoundModel;

    closed spec fn view(&self) -> RoundModel {
        RoundModel {
            phase: self.phase,
            pending: self.pending.deep_view(),
            metrics: self.metrics,
        }
    }
}

impl CommitRound {
    #[verifier::type_invariant]
    spec fn inv(self) -> bool {
        self@.wf()
    }

    /// A round that has not begun. The action to perform for it is
    /// `RoundAction::Receive`.
    pub fn new() -> (round: CommitRound)
        ensures
            round@ == RoundModel::initial(),
    {
        let round = CommitRound {
            phase: Phase::Receiving,
            pending: VecDeque::new(),
            metrics: Metrics::new(),
        };
        assert(round.pending.deep_view() =~= Seq::<BatchModel>::empty());
        round
    }

    /// Where the round stands.
    pub fn phase(&self) -> (phase: Phase)
        ensures
            phase == self@.phase,
    {
        self.phase
    }

    /// How many batches were received and are not yet written.
    pub fn pending(&self) -> (count: usize)
        ensures
            count == self@.pending.len(),
    {
        self.pending.len()
    }

    /// The figures of the round so far.
    pub fn metrics(&self) -> (metrics: Metrics)
        ensures
            metrics == self@.metrics,
    {
        self.metrics
    }

    /// Whether the round is over.
    pub fn is_finished(&self) -> (finished: bool)
        ensures
            finished == (self@.phase is Finished),
    {
        match self.phase {
            Phase::Finished => true,
            _ => false,
        }
    }

    fn proceed(pending: VecDeque<Batch>, metrics: Metrics) -> (next: (CommitRound, RoundAction))
        ensures
            (next.0@, next.1@) == RoundModel::proceed(pending.deep_view(), metrics),
    {
        if pending.len() == 0 {
            (
                CommitRound { phase: Phase::Finished, pending, metrics },
                RoundAction::Finish(Ok(metrics)),
            )
        } else {
            let votes = votes_of(&pending[0]);
            (CommitRound { phase: Phase::Merging, pending, metrics }, RoundAction::MergeVotes(votes))
        }
    }

    fn abandon(metrics: Metrics, error: RoundError) -> (next: (CommitRound, RoundAction))
        ensures
            (next.0@, next.1@) == RoundModel::abandon(metrics, error),
    {
        let round = CommitRound { phase: Phase::Finished, pending: VecDeque::new(), metrics };
        assert(round.pending.deep_view() =~= Seq::<BatchModel>::empty());
        (round, RoundAction::Finish(Err(error)))
    }

    fn enqueue(self, batch: Batch) -> (next: (CommitRound, RoundAction))
        ensures
            next.0@ == (RoundModel {
                phase: Phase::Draining,
                pending: self@.pending.push(batch.deep_view()),
                metrics: self@.metrics.after_batch(batch.deep_view()),
            }),
            next.1@ == RoundActionModel::TryReceive,
    {
        let metrics = self.metrics.record_batch(&batch);
        let mut pending = self.pending;
        let ghost before = pending.deep_view();
        pending.push_back(batch);
        assert(pending.deep_view() =~= before.push(batch.deep_view()));
        (CommitRound { phase: Phase::Draining, pending, metrics }, RoundAction::TryReceive)
    }
}

impl WriteStage {
    /// Takes a commit round one step further: `event` reports how the action
    /// that the round last asked for went, and the answer is the action to
    /// perform next. A round begins as `CommitRound::new()` with the action
    /// `RoundAction::Receive`, and is over when the answer is
    /// `RoundAction::Finish`.
    ///
    /// An event that is no answer to what the round is waiting for is handed
    /// back as `Err`, and the round stays as it was.
    pub fn write_and_send_entries(round: CommitRound, event: RoundEvent) -> (next: (
        CommitRound,
        Result<RoundAction, RoundEvent>,
    ))
        ensures
            next.0@ == round@.step(event@).0,
            next.0@.wf(),
            match next.1 {
                Ok(action) => round@.step(event@).1 == Some(action@),
                Err(refused) => round@.step(event@).1 is None && refused == event,
            },
    {
        proof {
            use_type_invariant(&round);
        }
        let ghost before = round@;
        match round.phase {
            Phase::Receiving => match event {
                RoundEvent::Batch(batch) => {
                    let (round, action) = round.enqueue(batch);
                    (round, Ok(action))
                },
                RoundEvent::Timeout => {
                    let (round, action) = CommitRound::abandon(round.metrics, RoundError::Timeout);
                    (round, Ok(action))
                },
                RoundEvent::Disconnected => {
                    let (round, action) = CommitRound::abandon(
                        round.metrics,
                        RoundError::Disconnected,
                    );
                    (round, Ok(action))
                },
                other => (round, Err(other)),
            },
            Phase::Draining => match event {
                RoundEvent::Batch(batch) => {
                    let (round, action) = round.enqueue(batch);
                    (round, Ok(action))
                },
                RoundEvent::Empty | RoundEvent::Disconnected => {
                    let (round, action) = CommitRound::proceed(round.pending, round.metrics);
                    (round, Ok(action))
                },
                other => (round, Err(other)),
            },
            Phase::Merging => match event {
                RoundEvent::Merged(ms) => {
                    let batch = copy_of(&round.pending[0]);
                    let metrics = round.metrics.record_merge(ms);
                    (
                        CommitRound { phase: Phase::Writing, pending: round.pending, metrics },
                        Ok(RoundAction::WriteEntries(batch)),
                    )
                },
                other => (round, Err(other)),
            },
            Phase::Writing => match event {
                RoundEvent::Written(ms) => {
                    let metrics = round.metrics.record_write(ms);
                    let mut pending = round.pending;
                    let batch = pending.pop_front().unwrap();
                    assert(pending.deep_view() =~= before.pending.skip(1));
                    if batch.len() > 0 {
                        (
                            CommitRound { phase: Phase::Forwarding, pending, metrics },
                            Ok(RoundAction::Forward(batch)),
                        )
                    } else {
                        let (round, action) = CommitRound::proceed(pending, metrics);
                        (round, Ok(action))
                    }
                },
                RoundEvent::WriteFailed => {
                    let (round, action) = CommitRound::abandon(
                        round.metrics,
                        RoundError::Other(Cause::LedgerWrite),
                    );
                    (round, Ok(action))
                },
                other => (round, Err(other)),
            },
            Phase::Forwarding => match event {
                RoundEvent::Forwarded(ms) => {
                    let metrics = round.metrics.record_forward(ms);
                    let (round, action) = CommitRound::proceed(round.pending, metrics);
                    (round, Ok(action))
                },
                RoundEvent::ForwardFailed => {
                    let (round, action) = CommitRound::abandon(
                        round.metrics,
                        RoundError::Other(Cause::Forward),
                    );
                    (round, Ok(action))
                },
                other => (round, Err(other)),
            },
            Phase::Finished => (round, Err(event)),
        }
    }
}

} // verus!
