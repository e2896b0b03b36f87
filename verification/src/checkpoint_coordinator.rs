//! The single-flight mempool checkpoint coordinator as a state machine: who
//! owns the flight, what a retained termination asks for, whether another
//! write is needed, and the bounded outcome of one call.
use vstd::prelude::*;
use crate::checkpoint::{CheckpointTrigger, SnapshotWriteAbort, SnapshotWriteFailure, SnapshotWriteReceipt};
use crate::checkpoint_evidence::CheckpointEvidenceSnapshot;
use crate::effects::EffectCompletion;
use crate::handle::ManagedNetworkAuthorityError;

verus! {

/// The evidence interval used while driving a flight.
pub const INTERNAL_EVIDENCE_INTERVAL_SECONDS: u64 = 1;

/// At most this many writes start in one call.
pub const MAX_WRITES_PER_CALL: u8 = 2;

/// One bounded result from driving the checkpoint state machine.
#[derive(Debug, Clone, Copy, PartialEq, Eq, Structural)]
pub enum MempoolCheckpointOutcome {
    SkippedClean,
    Coalesced,
    Completed { writes_started: u8, maybe_last_completion: Option<EffectCompletion> },
}

/// Typed failure while driving one checkpoint flight.
#[derive(Debug, Clone, Copy, PartialEq, Eq)]
pub enum MempoolCheckpointError {
    CoordinatorPoisoned,
    Authority(ManagedNetworkAuthorityError),
    Execution(SnapshotWriteFailure),
    CompletionDispatch(ManagedNetworkAuthorityError),
    AbortDispatch { maybe_storage_failure: Option<SnapshotWriteFailure>, source: ManagedNetworkAuthorityError },
    ShutdownNotCurrent { current_generation: u64, maybe_last_durable_generation: Option<u64> },
}

/// Who owns the flight, and what the last flight left behind.
#[derive(Debug)]
pub enum CheckpointCoordinatorState {
    Idle,
    Persisting,
    UnachievedAwaitingAbort(SnapshotWriteAbort),
    AchievedAwaitingCompletion(SnapshotWriteReceipt),
}

/// What a new flight must finish first.
#[derive(Debug)]
pub enum RetainedTermination {
    Nothing,
    Abort(SnapshotWriteAbort),
    Completion(SnapshotWriteReceipt),
}

/// The result of trying to claim the flight.
#[derive(Debug)]
pub enum FlightClaim {
    Coalesced,
    Claimed(RetainedTermination),
}

/// The owner of at most one checkpoint flight.
#[derive(Debug)]
pub struct MempoolCheckpointCoordinator {
    pub state: CheckpointCoordinatorState,
}

impl MempoolCheckpointCoordinator {
    /// An idle coordinator.
    pub fn new() -> (r: Self)
        ensures
            r.state is Idle,
    {
        MempoolCheckpointCoordinator { state: CheckpointCoordinatorState::Idle }
    }

    /// Claims the flight: a flight already in progress coalesces; otherwise
    /// the caller owns it, with whatever the previous flight retained.
    pub fn claim_flight(&mut self) -> (r: FlightClaim)
        ensures
            final(self).state is Persisting,
            old(self).state is Persisting <==> r is Coalesced,
            old(self).state is Idle ==> r matches FlightClaim::Claimed(RetainedTermination::Nothing),
            old(self).state matches CheckpointCoordinatorState::UnachievedAwaitingAbort(a) ==> r
                == FlightClaim::Claimed(RetainedTermination::Abort(a)),
            old(self).state matches CheckpointCoordinatorState::AchievedAwaitingCompletion(c) ==> r
                == FlightClaim::Claimed(RetainedTermination::Completion(c)),
    {
        let mut previous = CheckpointCoordinatorState::Persisting;
        std::mem::swap(&mut previous, &mut self.state);
        match previous {
            CheckpointCoordinatorState::Idle => FlightClaim::Claimed(RetainedTermination::Nothing),
            CheckpointCoordinatorState::Persisting => FlightClaim::Coalesced,
            CheckpointCoordinatorState::UnachievedAwaitingAbort(abort) => FlightClaim::Claimed(
                RetainedTermination::Abort(abort),
            ),
            CheckpointCoordinatorState::AchievedAwaitingCompletion(receipt) => FlightClaim::Claimed(
                RetainedTermination::Completion(receipt),
            ),
        }
    }

    /// Ends the flight, keeping an abort that could not be dispatched.
    pub fn retain_abort(&mut self, abort: SnapshotWriteAbort)
        ensures
            final(self).state == CheckpointCoordinatorState::UnachievedAwaitingAbort(abort),
    {
        self.state = CheckpointCoordinatorState::UnachievedAwaitingAbort(abort);
    }

    /// Ends the flight, keeping a receipt whose completion could not be dispatched.
    pub fn retain_completion(&mut self, receipt: SnapshotWriteReceipt)
        ensures
            final(self).state == CheckpointCoordinatorState::AchievedAwaitingCompletion(receipt),
    {
        self.state = CheckpointCoordinatorState::AchievedAwaitingCompletion(receipt);
    }

    /// Ends the flight with nothing retained.
    pub fn release_flight(&mut self)
        ensures
            final(self).state is Idle,
    {
        self.state = CheckpointCoordinatorState::Idle;
    }

    /// Ends a claimed flight on a failure and says what the caller reports:
    /// an abort or a completion that could not be dispatched is retained for
    /// the next flight; after a failed write or an unreachable authority
    /// nothing is retained.
    pub fn end_flight_on_failure(&mut self, failure: FlightFailure) -> (r: MempoolCheckpointError)
        ensures
            match failure {
                FlightFailure::AbortDispatch { maybe_storage_failure, source, abort } => {
                    &&& final(self).state == CheckpointCoordinatorState::UnachievedAwaitingAbort(abort)
                    &&& r == MempoolCheckpointError::AbortDispatch { maybe_storage_failure, source }
                },
                FlightFailure::CompletionDispatch { source, receipt } => {
                    &&& final(self).state == CheckpointCoordinatorState::AchievedAwaitingCompletion(receipt)
                    &&& r == MempoolCheckpointError::CompletionDispatch(source)
                },
                FlightFailure::Execution(f) => final(self).state is Idle && r == MempoolCheckpointError::Execution(f),
                FlightFailure::Authority(e) => final(self).state is Idle && r == MempoolCheckpointError::Authority(e),
            },
    {
        match failure {
            FlightFailure::AbortDispatch { maybe_storage_failure, source, abort } => {
                self.retain_abort(abort);
                MempoolCheckpointError::AbortDispatch { maybe_storage_failure, source }
            },
            FlightFailure::CompletionDispatch { source, receipt } => {
                self.retain_completion(receipt);
                MempoolCheckpointError::CompletionDispatch(source)
            },
            FlightFailure::Execution(f) => {
                self.release_flight();
                MempoolCheckpointError::Execution(f)
            },
            FlightFailure::Authority(e) => {
                self.release_flight();
                MempoolCheckpointError::Authority(e)
            },
        }
    }
}

/// A failure that ends a claimed flight.
#[derive(Debug)]
pub enum FlightFailure {
    /// A write was not achieved and its abort could not be dispatched.
    AbortDispatch {
        maybe_storage_failure: Option<SnapshotWriteFailure>,
        source: ManagedNetworkAuthorityError,
        abort: SnapshotWriteAbort,
    },
    /// A write was achieved and its completion could not be dispatched.
    CompletionDispatch { source: ManagedNetworkAuthorityError, receipt: SnapshotWriteReceipt },
    /// A write failed after its abort was dispatched.
    Execution(SnapshotWriteFailure),
    /// The authoritative network could not be reached.
    Authority(ManagedNetworkAuthorityError),
}

/// Whether the evidence asks for another write: a dirty generation, or, at
/// shutdown, a durable generation behind the current one.
pub open spec fn requires_write_spec(evidence: CheckpointEvidenceSnapshot, trigger: CheckpointTrigger) -> bool {
    evidence.maybe_dirty_generation is Some || (trigger == CheckpointTrigger::Shutdown
        && evidence.maybe_last_durable_generation != Some(evidence.current_generation))
}

/// Whether the evidence asks for another write.
pub fn requires_write(evidence: &CheckpointEvidenceSnapshot, trigger: CheckpointTrigger) -> (r: bool)
    ensures
        r == requires_write_spec(*evidence, trigger),
{
    evidence.maybe_dirty_generation.is_some() || (trigger == CheckpointTrigger::Shutdown && !matches!(evidence.maybe_last_durable_generation, Some(g) if g == evidence.current_generation))
}

/// The progress of one claimed flight.
#[derive(Debug, Clone, Copy, PartialEq, Eq, Structural)]
pub struct CheckpointFlight {
    pub trigger: CheckpointTrigger,
    pub writes_started: u8,
    pub made_progress: bool,
    pub maybe_last_completion: Option<EffectCompletion>,
}

/// What the flight does next.
#[derive(Debug, Clone, Copy, PartialEq, Eq, Structural)]
pub enum CheckpointFlightStep {
    Finish(MempoolCheckpointOutcome),
    Write,
}

impl CheckpointFlight {
    /// A flight that has done nothing yet.
    pub fn begin(trigger: CheckpointTrigger) -> (r: Self)
        ensures
            r == (CheckpointFlight { trigger, writes_started: 0, made_progress: false, maybe_last_completion: None }),
    {
        CheckpointFlight { trigger, writes_started: 0, made_progress: false, maybe_last_completion: None }
    }

    /// Records that a retained abort was dispatched.
    pub fn note_retained_abort(&mut self)
        ensures
            *final(self) == (CheckpointFlight { made_progress: true, ..*old(self) }),
    {
        self.made_progress = true;
    }

    /// Records the completion of a retained receipt.
    pub fn note_retained_completion(&mut self, completion: EffectCompletion)
        ensures
            *final(self) == (CheckpointFlight {
                made_progress: true,
                maybe_last_completion: Some(completion),
                ..*old(self)
            }),
    {
        self.made_progress = true;
        self.maybe_last_completion = Some(completion);
    }

    /// Records one write started and completed.
    pub fn note_write_completed(&mut self, completion: EffectCompletion)
        requires
            old(self).writes_started < MAX_WRITES_PER_CALL,
        ensures
            *final(self) == (CheckpointFlight {
                writes_started: (old(self).writes_started + 1) as u8,
                made_progress: true,
                maybe_last_completion: Some(completion),
                ..*old(self)
            }),
    {
        self.writes_started = self.writes_started + 1;
        self.made_progress = true;
        self.maybe_last_completion = Some(completion);
    }

    /// The next step after reading `evidence`: finish when no write is
    /// needed (completed if anything happened, else skipped as clean) or
    /// when the per-call write budget is spent; otherwise write.
    pub open spec fn decide_spec(self, evidence: CheckpointEvidenceSnapshot) -> CheckpointFlightStep {
        if !requires_write_spec(evidence, self.trigger) {
            if self.made_progress {
                CheckpointFlightStep::Finish(
                    MempoolCheckpointOutcome::Completed {
                        writes_started: self.writes_started,
                        maybe_last_completion: self.maybe_last_completion,
                    },
                )
            } else {
                CheckpointFlightStep::Finish(MempoolCheckpointOutcome::SkippedClean)
            }
        } else if self.writes_started == MAX_WRITES_PER_CALL {
            CheckpointFlightStep::Finish(
                MempoolCheckpointOutcome::Completed {
                    writes_started: self.writes_started,
                    maybe_last_completion: self.maybe_last_completion,
                },
            )
        } else {
            CheckpointFlightStep::Write
        }
    }

    /// The next step after reading `evidence`.
    pub fn decide(&self, evidence: &CheckpointEvidenceSnapshot) -> (r: CheckpointFlightStep)
        ensures
            r == self.decide_spec(*evidence),
    {
        if !requires_write(evidence, self.trigger) {
            if self.made_progress {
                CheckpointFlightStep::Finish(
                    MempoolCheckpointOutcome::Completed {
                        writes_started: self.writes_started,
                        maybe_last_completion: self.maybe_last_completion,
                    },
                )
            } else {
                CheckpointFlightStep::Finish(MempoolCheckpointOutcome::SkippedClean)
            }
        } else if self.writes_started == MAX_WRITES_PER_CALL {
            CheckpointFlightStep::Finish(
                MempoolCheckpointOutcome::Completed {
                    writes_started: self.writes_started,
                    maybe_last_completion: self.maybe_last_completion,
                },
            )
        } else {
            CheckpointFlightStep::Write
        }
    }
}

/// After a shutdown flight: success only when the durable generation is the
/// current one.
pub fn shutdown_settled(evidence: &CheckpointEvidenceSnapshot) -> (r: Result<(), MempoolCheckpointError>)
    ensures
        evidence.maybe_last_durable_generation == Some(evidence.current_generation) <==> r is Ok,
        r is Err ==> r == Err::<(), MempoolCheckpointError>(
            MempoolCheckpointError::ShutdownNotCurrent {
                current_generation: evidence.current_generation,
                maybe_last_durable_generation: evidence.maybe_last_durable_generation,
            },
        ),
{
    match evidence.maybe_last_durable_generation {
        Some(g) => {
            if g == evidence.current_generation {
                return Ok(());
            }
        },
        None => {},
    }
    Err(
        MempoolCheckpointError::ShutdownNotCurrent {
            current_generation: evidence.current_generation,
            maybe_last_durable_generation: evidence.maybe_last_durable_generation,
        },
    )
}

/// Law: a flight never starts more than the per-call budget of writes.
/// `Write` is decided only while the budget has room, so recording the
/// write keeps the count within it.
pub proof fn law_flight_write_budget(flight: CheckpointFlight, evidence: CheckpointEvidenceSnapshot)
    requires
        flight.writes_started <= MAX_WRITES_PER_CALL,
    ensures
        flight.decide_spec(evidence) is Write ==> flight.writes_started < MAX_WRITES_PER_CALL,
        flight.decide_spec(evidence) matches CheckpointFlightStep::Finish(MempoolCheckpointOutcome::Completed {
            writes_started,
            ..
        }) ==> writes_started <= MAX_WRITES_PER_CALL,
{
}

/// Law: a flight that did nothing finishes as skipped exactly when no
/// write is needed.
pub proof fn law_clean_flight_is_skipped(trigger: CheckpointTrigger, evidence: CheckpointEvidenceSnapshot)
    ensures
        (CheckpointFlight { trigger, writes_started: 0, made_progress: false, maybe_last_completion: None }).decide_spec(
            evidence,
        ) == if requires_write_spec(evidence, trigger) {
            CheckpointFlightStep::Write
        } else {
            CheckpointFlightStep::Finish(MempoolCheckpointOutcome::SkippedClean)
        },
{
}

} // verus!
