use std::collections::VecDeque;
use write_stage::entry::{Entry, Transaction};
use write_stage::metrics::Metrics;
use write_stage::round::{Cause, CommitRound, Outcome, RoundAction, RoundError, RoundEvent};
use write_stage::stage::{StageAction, StageEvent, StagePhase, VoteThrottle, WriteStage};

fn batch(ids: &[u64]) -> Vec<Entry> {
    ids.iter()
        .map(|id| Entry { id: *id, transactions: vec![Transaction { id: *id, vote: None }] })
        .collect()
}

fn zero() -> VoteThrottle {
    VoteThrottle { last_vote_time: 0, last_valid_validator_timestamp: 0 }
}

fn advance(stage: WriteStage, event: StageEvent) -> (WriteStage, StageAction) {
    let (stage, answer) = stage.step(event);
    match answer {
        Ok(action) => (stage, action),
        Err(event) => panic!("event out of turn: {:?}", event),
    }
}

/// The outside world of the loop, played from a script: what upstream
/// delivers before each round, which ledger writes fail, which votes fail.
struct World {
    deliveries: VecDeque<Vec<Vec<Entry>>>,
    failing_writes: Vec<Vec<Entry>>,
    failing_votes: Vec<u64>,
    clock: u64,
    written: Vec<Vec<Entry>>,
    forwarded: Vec<Vec<Entry>>,
    outcomes: Vec<Outcome>,
    logged: Vec<Cause>,
    votes: u64,
}

impl World {
    fn with(deliveries: Vec<Vec<Vec<Entry>>>) -> World {
        World {
            deliveries: deliveries.into_iter().collect(),
            failing_writes: Vec::new(),
            failing_votes: Vec::new(),
            clock: 0,
            written: Vec::new(),
            forwarded: Vec::new(),
            outcomes: Vec::new(),
            logged: Vec::new(),
            votes: 0,
        }
    }

    /// One commit round. Upstream is closed once the script has run out.
    fn round(&mut self) -> Outcome {
        let closed = self.deliveries.is_empty();
        let mut upstream: VecDeque<Vec<Entry>> =
            self.deliveries.pop_front().unwrap_or_default().into_iter().collect();
        let mut round = CommitRound::new();
        let mut action = RoundAction::Receive;
        loop {
            let event = match action {
                RoundAction::Receive => match upstream.pop_front() {
                    Some(batch) => RoundEvent::Batch(batch),
                    None if closed => RoundEvent::Disconnected,
                    None => RoundEvent::Timeout,
                },
                RoundAction::TryReceive => match upstream.pop_front() {
                    Some(batch) => RoundEvent::Batch(batch),
                    None => RoundEvent::Empty,
                },
                RoundAction::MergeVotes(_) => RoundEvent::Merged(1),
                RoundAction::WriteEntries(batch) => {
                    if self.failing_writes.contains(&batch) {
                        RoundEvent::WriteFailed
                    } else {
                        self.written.push(batch);
                        RoundEvent::Written(1)
                    }
                }
                RoundAction::Forward(batch) => {
                    self.forwarded.push(batch);
                    RoundEvent::Forwarded(1)
                }
                RoundAction::Finish(outcome) => return outcome,
            };
            let (next, answer) = WriteStage::write_and_send_entries(round, event);
            round = next;
            action = answer.unwrap();
        }
    }

    /// The whole loop, until it stops.
    fn run(&mut self) -> WriteStage {
        let mut stage = WriteStage::new();
        let mut action = StageAction::Commit;
        loop {
            let event = match action {
                StageAction::Commit => {
                    let outcome = self.round();
                    self.outcomes.push(outcome);
                    StageEvent::RoundFinished(outcome)
                }
                StageAction::Vote { throttle, failure } => {
                    if let Some(cause) = failure {
                        self.logged.push(cause);
                    }
                    assert_eq!(throttle, stage.throttle());
                    self.votes += 1;
                    self.clock += 10;
                    let failed = self.failing_votes.contains(&self.votes);
                    let throttle = if failed {
                        throttle
                    } else {
                        VoteThrottle {
                            last_vote_time: self.clock,
                            last_valid_validator_timestamp: self.clock + 1,
                        }
                    };
                    StageEvent::Voted { throttle, failed }
                }
                StageAction::Stop => return stage,
            };
            let (next, next_action) = advance(stage, event);
            stage = next;
            action = next_action;
        }
    }
}

#[test]
fn a_new_loop_waits_for_its_first_round() {
    let stage = WriteStage::new();
    assert_eq!(stage.phase(), StagePhase::Committing);
    assert_eq!(stage.throttle(), zero());
    assert_eq!(stage.commit_errors(), 0);
    assert_eq!(stage.vote_errors(), 0);
    assert!(!stage.is_stopped());
}

#[test]
fn a_disconnected_round_stops_the_loop() {
    let stage = WriteStage::new();
    let (stage, action) = advance(stage, StageEvent::RoundFinished(Err(RoundError::Disconnected)));
    assert_eq!(action, StageAction::Stop);
    assert_eq!(stage.phase(), StagePhase::Stopped);
    assert!(stage.is_stopped());
    assert_eq!(stage.commit_errors(), 0);
}

#[test]
fn a_stopped_loop_takes_no_event() {
    let stage = WriteStage::new();
    let (stage, _) = advance(stage, StageEvent::RoundFinished(Err(RoundError::Disconnected)));
    let timeout = StageEvent::RoundFinished(Err(RoundError::Timeout));
    let (stage, answer) = stage.step(timeout);
    assert_eq!(answer, Err(timeout));
    let voted = StageEvent::Voted { throttle: zero(), failed: false };
    let (stage, answer) = stage.step(voted);
    assert_eq!(answer, Err(voted));
    assert!(stage.is_stopped());
}

#[test]
fn a_round_that_timed_out_is_followed_by_a_vote() {
    let stage = WriteStage::new();
    let (stage, action) = advance(stage, StageEvent::RoundFinished(Err(RoundError::Timeout)));
    assert_eq!(action, StageAction::Vote { throttle: zero(), failure: None });
    assert_eq!(stage.phase(), StagePhase::Voting);
    assert_eq!(stage.commit_errors(), 0);
}

#[test]
fn a_round_that_succeeded_is_followed_by_a_vote() {
    let stage = WriteStage::new();
    let (stage, action) = advance(stage, StageEvent::RoundFinished(Ok(Metrics::new())));
    assert_eq!(action, StageAction::Vote { throttle: zero(), failure: None });
    assert_eq!(stage.phase(), StagePhase::Voting);
    assert_eq!(stage.commit_errors(), 0);
}

#[test]
fn a_failed_round_is_counted_and_reported() {
    let stage = WriteStage::new();
    let failure = StageEvent::RoundFinished(Err(RoundError::Other(Cause::LedgerWrite)));
    let (stage, action) = advance(stage, failure);
    assert_eq!(action, StageAction::Vote { throttle: zero(), failure: Some(Cause::LedgerWrite) });
    assert_eq!(stage.commit_errors(), 1);
    let (stage, action) = advance(stage, StageEvent::Voted { throttle: zero(), failed: false });
    assert_eq!(action, StageAction::Commit);
    let failure = StageEvent::RoundFinished(Err(RoundError::Other(Cause::Forward)));
    let (stage, action) = advance(stage, failure);
    assert_eq!(action, StageAction::Vote { throttle: zero(), failure: Some(Cause::Forward) });
    assert_eq!(stage.commit_errors(), 2);
    assert_eq!(stage.vote_errors(), 0);
}

#[test]
fn the_throttle_is_what_the_trigger_handed_back() {
    let stage = WriteStage::new();
    let (stage, _) = advance(stage, StageEvent::RoundFinished(Err(RoundError::Timeout)));
    let handed = VoteThrottle { last_vote_time: 77, last_valid_validator_timestamp: 42 };
    let (stage, action) = advance(stage, StageEvent::Voted { throttle: handed, failed: false });
    assert_eq!(action, StageAction::Commit);
    assert_eq!(stage.throttle(), handed);
    let (stage, action) = advance(stage, StageEvent::RoundFinished(Ok(Metrics::new())));
    assert_eq!(action, StageAction::Vote { throttle: handed, failure: None });
    assert_eq!(stage.throttle(), handed);
}

#[test]
fn a_failed_vote_is_counted_and_the_loop_goes_on() {
    let stage = WriteStage::new();
    let (stage, _) = advance(stage, StageEvent::RoundFinished(Err(RoundError::Timeout)));
    let handed = VoteThrottle { last_vote_time: 5, last_valid_validator_timestamp: 6 };
    let (stage, action) = advance(stage, StageEvent::Voted { throttle: handed, failed: true });
    assert_eq!(action, StageAction::Commit);
    assert_eq!(stage.phase(), StagePhase::Committing);
    assert_eq!(stage.vote_errors(), 1);
    assert_eq!(stage.commit_errors(), 0);
    assert_eq!(stage.throttle(), handed);
}

#[test]
fn loop_events_out_of_turn_are_handed_back() {
    let stage = WriteStage::new();
    let voted = StageEvent::Voted { throttle: zero(), failed: true };
    let (stage, answer) = stage.step(voted);
    assert_eq!(answer, Err(voted));
    assert_eq!(stage.phase(), StagePhase::Committing);
    assert_eq!(stage.vote_errors(), 0);
    let (stage, _) = advance(stage, StageEvent::RoundFinished(Err(RoundError::Timeout)));
    let failure = StageEvent::RoundFinished(Err(RoundError::Other(Cause::Forward)));
    let (stage, answer) = stage.step(failure);
    assert_eq!(answer, Err(failure));
    assert_eq!(stage.phase(), StagePhase::Voting);
    assert_eq!(stage.commit_errors(), 0);
}

#[test]
fn closing_the_channel_ends_the_loop() {
    let mut world = World::with(vec![]);
    let stage = world.run();
    assert!(stage.is_stopped());
    assert_eq!(world.outcomes, vec![Err(RoundError::Disconnected)]);
    assert_eq!(world.votes, 0);
}

#[test]
fn a_failed_write_is_not_fatal_and_later_batches_are_committed() {
    let (b1, b2, b3) = (batch(&[1]), batch(&[2]), batch(&[3]));
    let mut world = World::with(vec![vec![b1.clone(), b2.clone()], vec![b3.clone()]]);
    world.failing_writes = vec![b2.clone()];
    let stage = world.run();
    assert!(stage.is_stopped());
    assert_eq!(stage.commit_errors(), 1);
    assert_eq!(world.logged, vec![Cause::LedgerWrite]);
    assert_eq!(world.outcomes.len(), 3);
    assert_eq!(world.outcomes[0], Err(RoundError::Other(Cause::LedgerWrite)));
    assert_eq!(world.outcomes[1].map(|metrics| metrics.batches), Ok(1));
    assert_eq!(world.outcomes[2], Err(RoundError::Disconnected));
    assert_eq!(world.written, vec![b1.clone(), b3.clone()]);
    assert_eq!(world.forwarded, vec![b1, b3]);
}

#[test]
fn the_trigger_runs_once_after_every_round_but_the_last() {
    let mut world = World::with(vec![vec![batch(&[1])], vec![], vec![batch(&[2]), batch(&[3])]]);
    world.failing_votes = vec![2];
    let stage = world.run();
    assert_eq!(world.outcomes.len(), 4);
    assert_eq!(world.outcomes[1], Err(RoundError::Timeout));
    assert_eq!(world.outcomes[3], Err(RoundError::Disconnected));
    assert_eq!(world.votes, 3);
    assert_eq!(stage.vote_errors(), 1);
    assert_eq!(stage.commit_errors(), 0);
    assert_eq!(
        stage.throttle(),
        VoteThrottle { last_vote_time: 30, last_valid_validator_timestamp: 31 }
    );
    assert!(world.logged.is_empty());
}
