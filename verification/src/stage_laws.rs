//! What holds of the stage's loop, whatever the outside world reports to it.

use crate::metrics::{clamp, lemma_clamp_add, Metrics};
use crate::round::{Cause, Outcome, RoundActionModel, RoundError, RoundEventModel, RoundModel};
use crate::stage::{StageAction, StageEvent, StageModel, StagePhase, VoteThrottle};
use vstd::prelude::*;

verus! {

/// The loop together with what the outside world has seen of it so far.
pub struct StageTrace {
    /// The loop as it stands.
    pub stage: StageModel,
    /// How many commit rounds the loop has asked for, the first included.
    pub rounds: nat,
    /// How many times the loop has asked for the leader vote trigger.
    pub votes: nat,
    /// How many rounds were reported as failed in a ledger write or a forward.
    pub failed_rounds: nat,
    /// How many votes were reported as failed.
    pub failed_votes: nat,
    /// The throttle state that the vote trigger last handed back, if it ever ran.
    pub handed_back: Option<VoteThrottle>,
    /// Whether a round was reported as ended by the closing of the channel.
    pub disconnected: bool,
}

impl StageTrace {
    /// The loop before anything was reported: its first round is asked for.
    pub open spec fn start() -> StageTrace {
        StageTrace {
            stage: StageModel::initial(),
            rounds: 1,
            votes: 0,
            failed_rounds: 0,
            failed_votes: 0,
            handed_back: None,
            disconnected: false,
        }
    }

    /// The trace after one more event. An event that the loop does not
    /// accept leaves no mark.
    pub open spec fn extend(self, event: StageEvent) -> StageTrace {
        let (stage, answer) = self.stage.step(event);
        match answer {
            None => self,
            Some(action) => StageTrace {
                stage,
                rounds: if action is Commit {
                    self.rounds + 1
                } else {
                    self.rounds
                },
                votes: if action is Vote {
                    self.votes + 1
                } else {
                    self.votes
                },
                failed_rounds: match event {
                    StageEvent::RoundFinished(Err(RoundError::Other(_))) => self.failed_rounds + 1,
                    _ => self.failed_rounds,
                },
                failed_votes: match event {
                    StageEvent::Voted { failed: true, .. } => self.failed_votes + 1,
                    _ => self.failed_votes,
                },
                handed_back: match event {
                    StageEvent::Voted { throttle, .. } => Some(throttle),
                    _ => self.handed_back,
                },
                disconnected: match event {
                    StageEvent::RoundFinished(Err(RoundError::Disconnected)) => true,
                    _ => self.disconnected,
                },
            },
        }
    }

    /// The trace of a loop that was reported `events`, one after the other,
    /// from its beginning.
    pub open spec fn of(events: Seq<StageEvent>) -> StageTrace
        decreases events.len(),
    {
        if events.len() == 0 {
            Self::start()
        } else {
            Self::of(events.drop_last()).extend(events.last())
        }
    }

    /// What ties the loop to what was seen of it. It holds of every trace.
    pub open spec fn consistent(self) -> bool {
        &&& self.stage.commit_errors == clamp(self.failed_rounds)
        &&& self.stage.vote_errors == clamp(self.failed_votes)
        &&& self.stage.throttle == match self.handed_back {
            Some(throttle) => throttle,
            None => StageModel::initial().throttle,
        }
        &&& self.disconnected <==> self.stage.phase is Stopped
        &&& match self.stage.phase {
            StagePhase::Committing | StagePhase::Stopped => self.rounds == self.votes + 1,
            StagePhase::Voting => self.rounds == self.votes,
        }
    }
}

/// Every trace is consistent.
pub proof fn lemma_trace_consistent(events: Seq<StageEvent>)
    ensures
        StageTrace::of(events).consistent(),
    decreases events.len(),
{
    if events.len() > 0 {
        lemma_trace_consistent(events.drop_last());
        let before = StageTrace::of(events.drop_last());
        lemma_clamp_add(before.failed_rounds, 1);
        lemma_clamp_add(before.failed_votes, 1);
    }
}

/// The leader vote trigger is invoked once for every round that the closing
/// of the channel did not end, after that round and before the next: while a
/// round is under way, and when the loop has stopped, one more round was
/// asked for than votes; while a vote is under way, as many.
pub proof fn lemma_one_vote_per_round(events: Seq<StageEvent>)
    ensures
        ({
            let trace = StageTrace::of(events);
            match trace.stage.phase {
                StagePhase::Committing | StagePhase::Stopped => trace.rounds == trace.votes + 1,
                StagePhase::Voting => trace.rounds == trace.votes,
            }
        }),
{
    lemma_trace_consistent(events);
}

/// Only the closing of the upstream channel ends the loop: the loop has
/// stopped exactly when a round was reported as ended by disconnection.
/// Timeouts, failed rounds and failed votes, however many, leave it running.
pub proof fn lemma_only_disconnection_stops(events: Seq<StageEvent>)
    ensures
        StageTrace::of(events).stage.phase is Stopped <==> StageTrace::of(events).disconnected,
{
    lemma_trace_consistent(events);
}

/// The counters of the loop are the numbers of failed rounds and of failed
/// votes that were reported to it, up to `u64::MAX`.
pub proof fn lemma_failures_are_counted(events: Seq<StageEvent>)
    ensures
        StageTrace::of(events).stage.commit_errors == clamp(StageTrace::of(events).failed_rounds),
        StageTrace::of(events).stage.vote_errors == clamp(StageTrace::of(events).failed_votes),
{
    lemma_trace_consistent(events);
}

/// Nobody but the vote trigger changes the throttle state: the loop holds
/// what the trigger last handed back, and both timestamps zero until the
/// trigger has run.
pub proof fn lemma_throttle_is_the_triggers(events: Seq<StageEvent>)
    ensures
        StageTrace::of(events).stage.throttle == match StageTrace::of(events).handed_back {
            Some(throttle) => throttle,
            None => (VoteThrottle { last_vote_time: 0, last_valid_validator_timestamp: 0 }),
        },
{
    lemma_trace_consistent(events);
}

/// When the blocking receive of a round finds the upstream channel closed,
/// the round ends at once with `Disconnected`; reported to a loop that waits
/// for its round, this ends the loop, no vote is asked for, and the stopped
/// loop takes no further event.
pub proof fn lemma_closed_channel_ends_the_loop(stage: StageModel, later: StageEvent)
    requires
        stage.phase is Committing,
    ensures
        ({
            let (round, answer) = RoundModel::initial().step(RoundEventModel::Disconnected);
            let ended: Outcome = Err(RoundError::Disconnected);
            let (stopped, action) = stage.step(StageEvent::RoundFinished(ended));
            &&& answer == Some(RoundActionModel::Finish(ended))
            &&& round.phase is Finished
            &&& action == Some(StageAction::Stop)
            &&& stopped.phase is Stopped
            &&& !stopped.accepts(later)
        }),
{
}

/// A failed ledger write does not end the loop. The round of the failing
/// batch ends at once with the failure and drops what still waited; the
/// loop counts the failure, asks for it to be logged and for the vote on
/// the unchanged throttle state, and after the vote asks for the next round,
/// which starts as every round does.
pub proof fn lemma_failed_write_is_survived(
    round: RoundModel,
    stage: StageModel,
    throttle: VoteThrottle,
    failed: bool,
)
    requires
        round.phase is Writing,
        stage.phase is Committing,
    ensures
        ({
            let failure: Outcome = Err(RoundError::Other(Cause::LedgerWrite));
            let (ended, answer) = round.step(RoundEventModel::WriteFailed);
            let (voting, vote) = stage.step(StageEvent::RoundFinished(failure));
            let (next, commit) = voting.step(StageEvent::Voted { throttle, failed });
            &&& answer == Some(RoundActionModel::Finish(failure))
            &&& ended.phase is Finished
            &&& ended.pending.len() == 0
            &&& vote == Some(
                StageAction::Vote { throttle: stage.throttle, failure: Some(Cause::LedgerWrite) },
            )
            &&& voting.commit_errors == stage.commit_errors.saturating_add(1)
            &&& commit == Some(StageAction::Commit)
            &&& next.phase is Committing
            &&& next.throttle == throttle
        }),
{
}

/// A round that timed out, and a round that succeeded, are nothing to the
/// loop but the occasion of the next vote: nothing is counted and nothing
/// is to be logged.
pub proof fn lemma_quiet_rounds(stage: StageModel, metrics: Metrics)
    requires
        stage.phase is Committing,
    ensures
        ({
            let vote = Some(StageAction::Vote { throttle: stage.throttle, failure: None });
            let voting = StageModel { phase: StagePhase::Voting, ..stage };
            let timeout: Outcome = Err(RoundError::Timeout);
            let success: Outcome = Ok(metrics);
            &&& stage.step(StageEvent::RoundFinished(timeout)) == (voting, vote)
            &&& stage.step(StageEvent::RoundFinished(success)) == (voting, vote)
        }),
{
}

} // verus!
