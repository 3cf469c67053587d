//! The stage's loop: commit a round, consider how it ended, let the leader
//! vote, and begin again, until the upstream channel is closed.
//!
//! Like a commit round, the loop is a state machine. It names the next piece
//! of work as a [`StageAction`], the caller performs it and reports the
//! result as a [`StageEvent`]. Running a commit round is one such piece of
//! work; invoking the leader vote trigger is the other.
//!
//! Only the closing of the upstream channel ends the loop. A round that
//! timed out is nothing to speak of; a round that failed is counted and
//! reported for logging; a vote that failed is counted. After each of them
//! the loop goes on.

use crate::round::{Cause, Outcome, RoundError};
use vstd::prelude::*;

verus! {

/// The timing state that throttles the leader vote. The stage keeps it from
/// one iteration to the next and hands it to the vote trigger, which alone
/// changes it.
#[derive(Clone, Copy, Debug, PartialEq, Eq)]
pub struct VoteThrottle {
    pub last_vote_time: u64,
    pub last_valid_validator_timestamp: u64,
}

/// Where the loop stands: which report it is waiting for.
#[derive(Clone, Copy, Debug, PartialEq, Eq)]
pub enum StagePhase {
    /// A commit round is under way.
    Committing,
    /// The leader vote trigger is under way.
    Voting,
    /// The loop has ended.
    Stopped,
}

/// What the outside world reports to the loop.
#[derive(Clone, Copy, Debug, PartialEq, Eq)]
pub enum StageEvent {
    /// The commit round ended so.
    RoundFinished(Outcome),
    /// The vote trigger returned. `throttle` is the throttle state as the
    /// trigger left it; `failed` says whether it reported an error.
    Voted { throttle: VoteThrottle, failed: bool },
}

/// What the loop asks the outside world to do next.
#[derive(Clone, Copy, Debug, PartialEq, Eq)]
pub enum StageAction {
    /// Run one commit round to its end.
    Commit,
    /// Log `failure`, if there is one, as the error of the round that just
    /// ended; then invoke the leader vote trigger once, on `throttle`.
    Vote { throttle: VoteThrottle, failure: Option<Cause> },
    /// Leave the loop.
    Stop,
}

/// The loop as a mathematical value.
pub struct StageModel {
    pub phase: StagePhase,
    pub throttle: VoteThrottle,
    /// Commit rounds that failed, saturating at `u64::MAX`.
    pub commit_errors: u64,
    /// Leader votes that failed, saturating at `u64::MAX`.
    pub vote_errors: u64,
}

impl StageModel {
    /// The loop before its first round: both timestamps zero, nothing
    /// counted. Its first action is `Commit`.
    pub open spec fn initial() -> StageModel {
        StageModel {
            phase: StagePhase::Committing,
            throttle: VoteThrottle { last_vote_time: 0, last_valid_validator_timestamp: 0 },
            commit_errors: 0,
            vote_errors: 0,
        }
    }

    /// The loop after `event` and the action it answers with; `None`, and
    /// the loop unchanged, where `event` is no answer to what the loop is
    /// waiting for.
    pub open spec fn step(self, event: StageEvent) -> (StageModel, Option<StageAction>) {
        match (self.phase, event) {
            (StagePhase::Committing, StageEvent::RoundFinished(Err(RoundError::Disconnected))) => (
                StageModel { phase: StagePhase::Stopped, ..self },
                Some(StageAction::Stop),
            ),
            (StagePhase::Committing, StageEvent::RoundFinished(Err(RoundError::Other(cause)))) => (
                StageModel {
                    phase: StagePhase::Voting,
                    commit_errors: self.commit_errors.saturating_add(1),
                    ..self
                },
                Some(StageAction::Vote { throttle: self.throttle, failure: Some(cause) }),
            ),
            (StagePhase::Committing, StageEvent::RoundFinished(_)) => (
                StageModel { phase: StagePhase::Voting, ..self },
                Some(StageAction::Vote { throttle: self.throttle, failure: None }),
            ),
            (StagePhase::Voting, StageEvent::Voted { throttle, failed }) => (
                StageModel {
                    phase: StagePhase::Committing,
                    throttle,
                    vote_errors: if failed {
                        self.vote_errors.saturating_add(1)
                    } else {
                        self.vote_errors
                    },
                    ..self
                },
                Some(StageAction::Commit),
            ),
            _ => (self, None),
        }
    }

    /// Whether `event` answers what the loop is waiting for.
    pub open spec fn accepts(self, event: StageEvent) -> bool {
        self.step(event).1 is Some
    }
}

/// The state of the stage's loop.
pub struct WriteStage {
    phase: StagePhase,
    throttle: VoteThrottle,
    commit_errors: u64,
    vote_errors: u64,
}

impl View for WriteStage {
    type V = StageModel;

    closed spec fn view(&self) -> StageModel {
        StageModel {
            phase: self.phase,
            throttle: self.throttle,
            commit_errors: self.commit_errors,
            vote_errors: self.vote_errors,
        }
    }
}

impl WriteStage {
    /// The loop before its first round. The action to perform for it is
    /// `StageAction::Commit`.
    pub fn new() -> (stage: WriteStage)
        ensures
            stage@ == StageModel::initial(),
    {
        WriteStage {
            phase: StagePhase::Committing,
            throttle: VoteThrottle { last_vote_time: 0, last_valid_validator_timestamp: 0 },
            commit_errors: 0,
            vote_errors: 0,
        }
    }

    /// Takes the loop one step further: `event` reports how the action that
    /// the loop last asked for went, and the answer is the action to perform
    /// next. The loop is over when the answer is `StageAction::Stop`.
    ///
    /// An event that is no answer to what the loop is waiting for is handed
    /// back as `Err`, and the loop stays as it was.
    pub fn step(self, event: StageEvent) -> (next: (WriteStage, Result<StageAction, StageEvent>))
        ensures
            next.0@ == self@.step(event).0,
            match next.1 {
                Ok(action) => self@.step(event).1 == Some(action),
                Err(refused) => self@.step(event).1 is None && refused == event,
            },
    {
        match self.phase {
            StagePhase::Committing => match event {
                StageEvent::RoundFinished(Err(RoundError::Disconnected)) => (
                    WriteStage {
                        phase: StagePhase::Stopped,
                        throttle: self.throttle,
                        commit_errors: self.commit_errors,
                        vote_errors: self.vote_errors,
                    },
                    Ok(StageAction::Stop),
                ),
                StageEvent::RoundFinished(Err(RoundError::Other(cause))) => (
                    WriteStage {
                        phase: StagePhase::Voting,
                        throttle: self.throttle,
                        commit_errors: self.commit_errors.saturating_add(1),
                        vote_errors: self.vote_errors,
                    },
                    Ok(StageAction::Vote { throttle: self.throttle, failure: Some(cause) }),
                ),
                StageEvent::RoundFinished(_) => (
                    WriteStage {
                        phase: StagePhase::Voting,
                        throttle: self.throttle,
                        commit_errors: self.commit_errors,
                        vote_errors: self.vote_errors,
                    },
                    Ok(StageAction::Vote { throttle: self.throttle, failure: None }),
                ),
                other => (self, Err(other)),
            },
            StagePhase::Voting => match event {
                StageEvent::Voted { throttle, failed } => {
                    let vote_errors = if failed {
                        self.vote_errors.saturating_add(1)
                    } else {
                        self.vote_errors
                    };
                    (
                        WriteStage {
                            phase: StagePhase::Committing,
                            throttle,
                            commit_errors: self.commit_errors,
                            vote_errors,
                        },
                        Ok(StageAction::Commit),
                    )
                },
                other => (self, Err(other)),
            },
            StagePhase::Stopped => (self, Err(event)),
        }
    }

    /// Where the loop stands.
    pub fn phase(&self) -> (phase: StagePhase)
        ensures
            phase == self@.phase,
    {
        self.phase
    }

    /// Whether the loop has ended.
    pub fn is_stopped(&self) -> (stopped: bool)
        ensures
            stopped == (self@.phase is Stopped),
    {
        match self.phase {
            StagePhase::Stopped => true,
            _ => false,
        }
    }

    /// The throttle state as the vote trigger last left it.
    pub fn throttle(&self) -> (throttle: VoteThrottle)
        ensures
            throttle == self@.throttle,
    {
        self.throttle
    }

    /// How many commit rounds have failed.
    pub fn commit_errors(&self) -> (count: u64)
        ensures
            count == self@.commit_errors,
    {
        self.commit_errors
    }

    /// How many leader votes have failed.
    pub fn vote_errors(&self) -> (count: u64)
        ensures
            count == self@.vote_errors,
    {
        self.vote_errors
    }
}

} // verus!
