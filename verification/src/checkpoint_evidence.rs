//! The authority's bounded, identifier-free truth about checkpoint attempts.
use vstd::prelude::*;
use crate::checkpoint::{
    CheckpointPersistenceStrength, CheckpointTrigger, SnapshotWriteFailure, SnapshotWriteReceipt,
};
use crate::effects::PolicyTime;
use crate::generation::LifecycleGeneration;

verus! {

/// Terminal truth for the latest authority-observed checkpoint attempt.
#[derive(Debug, Clone, Copy, PartialEq, Eq, Structural)]
pub enum CheckpointOutcome {
    NeverAttempted,
    Pending,
    Succeeded,
    Failed,
}

/// Exact generations that may be absent from the last durable checkpoint.
#[derive(Debug, Clone, Copy, PartialEq, Eq, Structural)]
pub struct CheckpointGenerationLossRange {
    pub maybe_after_generation: Option<u64>,
    pub through_generation: u64,
}

/// Bounded, identifier-free checkpoint evidence owned by the lifecycle authority.
#[derive(Debug, Clone, Copy, PartialEq, Eq, Structural)]
pub struct CheckpointEvidenceSnapshot {
    pub current_generation: u64,
    pub maybe_dirty_generation: Option<u64>,
    pub maybe_in_flight_generation: Option<u64>,
    pub maybe_last_durable_generation: Option<u64>,
    pub maybe_captured_at: Option<PolicyTime>,
    pub maybe_completed_at: Option<PolicyTime>,
    pub maybe_failed_at: Option<PolicyTime>,
    pub maybe_trigger: Option<CheckpointTrigger>,
    pub maybe_persistence_strength: Option<CheckpointPersistenceStrength>,
    pub outcome: CheckpointOutcome,
    pub maybe_failure: Option<SnapshotWriteFailure>,
    pub overdue: bool,
    pub checkpoint_age_seconds: Option<u64>,
    pub maybe_loss_bound_seconds: Option<u64>,
    pub maybe_generation_loss_range: Option<CheckpointGenerationLossRange>,
}

#[derive(Debug, Clone, Copy, PartialEq, Eq, Structural)]
pub struct CheckpointAttempt {
    pub generation: LifecycleGeneration,
    pub captured_at: PolicyTime,
    pub trigger: CheckpointTrigger,
}

#[derive(Debug, Clone, Copy, PartialEq, Eq, Structural)]
pub struct DurableCheckpoint {
    pub generation: LifecycleGeneration,
    pub captured_at: PolicyTime,
    pub completed_at: PolicyTime,
    pub trigger: CheckpointTrigger,
    pub strength: CheckpointPersistenceStrength,
}

/// The authority's checkpoint state.
#[derive(Debug, Clone, Copy, PartialEq, Eq, Structural)]
pub struct CheckpointAuthorityState {
    pub maybe_in_flight: Option<CheckpointAttempt>,
    pub maybe_last_durable: Option<DurableCheckpoint>,
    pub maybe_captured_at: Option<PolicyTime>,
    pub maybe_completed_at: Option<PolicyTime>,
    pub maybe_failed_at: Option<PolicyTime>,
    pub maybe_trigger: Option<CheckpointTrigger>,
    pub maybe_strength: Option<CheckpointPersistenceStrength>,
    pub outcome: CheckpointOutcome,
    pub maybe_failure: Option<SnapshotWriteFailure>,
}

/// The state before any checkpoint attempt.
pub open spec fn fresh_checkpoint_state() -> CheckpointAuthorityState {
    CheckpointAuthorityState {
        maybe_in_flight: None,
        maybe_last_durable: None,
        maybe_captured_at: None,
        maybe_completed_at: None,
        maybe_failed_at: None,
        maybe_trigger: None,
        maybe_strength: None,
        outcome: CheckpointOutcome::NeverAttempted,
        maybe_failure: None,
    }
}

/// Seconds from `captured` to `now`, clamped below at zero and above at `i64::MAX`.
pub open spec fn age_seconds(now: PolicyTime, captured: PolicyTime) -> u64 {
    let d = now.unix_seconds - captured.unix_seconds;
    if d <= 0 {
        0
    } else if d > i64::MAX {
        i64::MAX as u64
    } else {
        d as u64
    }
}

/// The evidence that `state` yields for the given generations, time and interval.
pub open spec fn evidence_of(
    state: CheckpointAuthorityState,
    current: LifecycleGeneration,
    maybe_dirty: Option<LifecycleGeneration>,
    now: PolicyTime,
    interval: u64,
) -> CheckpointEvidenceSnapshot {
    let age = match state.maybe_captured_at {
        Some(c) => Some(age_seconds(now, c)),
        None => None,
    };
    let overdue = age matches Some(a) && a > interval;
    let last_durable = match state.maybe_last_durable {
        Some(d) => Some(d.generation.0),
        None => None,
    };
    let loss = match last_durable {
        Some(ld) if ld >= current.0 => None,
        _ => Some(CheckpointGenerationLossRange { maybe_after_generation: last_durable, through_generation: current.0 }),
    };
    CheckpointEvidenceSnapshot {
        current_generation: current.0,
        maybe_dirty_generation: match maybe_dirty {
            Some(g) => Some(g.0),
            None => None,
        },
        maybe_in_flight_generation: match state.maybe_in_flight {
            Some(a) => Some(a.generation.0),
            None => None,
        },
        maybe_last_durable_generation: last_durable,
        maybe_captured_at: state.maybe_captured_at,
        maybe_completed_at: state.maybe_completed_at,
        maybe_failed_at: state.maybe_failed_at,
        maybe_trigger: state.maybe_trigger,
        maybe_persistence_strength: state.maybe_strength,
        outcome: state.outcome,
        maybe_failure: state.maybe_failure,
        overdue,
        checkpoint_age_seconds: age,
        maybe_loss_bound_seconds: if state.outcome == CheckpointOutcome::Succeeded && !overdue {
            Some(interval)
        } else {
            None
        },
        maybe_generation_loss_range: loss,
    }
}

fn elapsed_seconds(now: PolicyTime, captured: PolicyTime) -> (r: u64)
    ensures
        r == age_seconds(now, captured),
{
    let n = now.unix_seconds;
    let c = captured.unix_seconds;
    if n <= c {
        0
    } else if c < 0 && n > i64::MAX + c {
        i64::MAX as u64
    } else {
        (n - c) as u64
    }
}

impl CheckpointAuthorityState {
    pub fn new() -> (r: CheckpointAuthorityState)
        ensures
            r == fresh_checkpoint_state(),
    {
        CheckpointAuthorityState {
            maybe_in_flight: None,
            maybe_last_durable: None,
            maybe_captured_at: None,
            maybe_completed_at: None,
            maybe_failed_at: None,
            maybe_trigger: None,
            maybe_strength: None,
            outcome: CheckpointOutcome::NeverAttempted,
            maybe_failure: None,
        }
    }

    /// Whether nothing was ever attempted.
    pub fn is_fresh_start(&self) -> (r: bool)
        ensures
            r == (*self == fresh_checkpoint_state()),
    {
        self.maybe_in_flight.is_none() && self.maybe_last_durable.is_none() && self.maybe_captured_at.is_none()
            && self.maybe_completed_at.is_none() && self.maybe_failed_at.is_none() && self.maybe_trigger.is_none()
            && self.maybe_strength.is_none() && self.outcome == CheckpointOutcome::NeverAttempted
            && self.maybe_failure.is_none()
    }

    /// Records that a snapshot of `generation` was captured and is in flight.
    pub fn note_prepared(&mut self, generation: LifecycleGeneration, captured_at: PolicyTime, trigger: CheckpointTrigger)
        ensures
            *final(self) == (CheckpointAuthorityState {
                maybe_in_flight: Some(CheckpointAttempt { generation, captured_at, trigger }),
                maybe_last_durable: old(self).maybe_last_durable,
                maybe_captured_at: Some(captured_at),
                maybe_completed_at: None,
                maybe_failed_at: None,
                maybe_trigger: Some(trigger),
                maybe_strength: None,
                outcome: CheckpointOutcome::Pending,
                maybe_failure: None,
            }),
    {
        self.maybe_in_flight = Some(CheckpointAttempt { generation, captured_at, trigger });
        self.maybe_captured_at = Some(captured_at);
        self.maybe_completed_at = None;
        self.maybe_failed_at = None;
        self.maybe_trigger = Some(trigger);
        self.maybe_strength = None;
        self.outcome = CheckpointOutcome::Pending;
        self.maybe_failure = None;
    }

    /// Records that the attempt for `generation` ended before achievement.
    pub fn note_aborted(&mut self, generation: LifecycleGeneration, failed_at: PolicyTime, failure: SnapshotWriteFailure)
        ensures
            *final(self) == (CheckpointAuthorityState {
                maybe_in_flight: if (old(self).maybe_in_flight matches Some(a) && a.generation == generation) {
                    None
                } else {
                    old(self).maybe_in_flight
                },
                maybe_completed_at: None,
                maybe_failed_at: Some(failed_at),
                maybe_strength: None,
                outcome: CheckpointOutcome::Failed,
                maybe_failure: Some(failure),
                ..*old(self)
            }),
    {
        if let Some(attempt) = self.maybe_in_flight {
            if attempt.generation == generation {
                self.maybe_in_flight = None;
            }
        }
        self.maybe_completed_at = None;
        self.maybe_failed_at = Some(failed_at);
        self.maybe_strength = None;
        self.outcome = CheckpointOutcome::Failed;
        self.maybe_failure = Some(failure);
    }

    /// Records an achieved write; the durable high-water mark only moves forward.
    pub fn note_completed(&mut self, receipt: &SnapshotWriteReceipt)
        ensures
            (receipt.maybe_completed_at is None || receipt.maybe_strength is None) ==> *final(self) == *old(self),
            receipt.maybe_completed_at matches Some(completed_at) ==> receipt.maybe_strength matches Some(strength) ==> {
                let generation = receipt.persistence_generation;
                let advances = match old(self).maybe_last_durable {
                    None => true,
                    Some(d) => generation.0 >= d.generation.0,
                };
                &&& final(self).maybe_in_flight == if (old(self).maybe_in_flight matches Some(a) && a.generation
                    == generation) {
                    None
                } else {
                    old(self).maybe_in_flight
                }
                &&& advances ==> final(self).maybe_last_durable == Some(
                    DurableCheckpoint {
                        generation,
                        captured_at: receipt.captured_at,
                        completed_at,
                        trigger: receipt.trigger,
                        strength,
                    },
                )
                &&& advances ==> final(self).maybe_captured_at == Some(receipt.captured_at)
                &&& advances ==> final(self).maybe_completed_at == Some(completed_at)
                &&& advances ==> final(self).maybe_trigger == Some(receipt.trigger)
                &&& advances ==> final(self).maybe_strength == Some(strength)
                &&& !advances ==> final(self).maybe_last_durable == old(self).maybe_last_durable
                &&& !advances ==> final(self).maybe_captured_at == old(self).maybe_captured_at
                &&& !advances ==> final(self).maybe_completed_at == old(self).maybe_completed_at
                &&& !advances ==> final(self).maybe_trigger == old(self).maybe_trigger
                &&& !advances ==> final(self).maybe_strength == old(self).maybe_strength
                &&& final(self).maybe_failed_at is None
                &&& final(self).outcome == CheckpointOutcome::Succeeded
                &&& final(self).maybe_failure is None
            },
    {
        let completed_at = match receipt.maybe_completed_at {
            Some(t) => t,
            None => return,
        };
        let strength = match receipt.maybe_strength {
            Some(s) => s,
            None => return,
        };
        let generation = receipt.persistence_generation;
        if let Some(attempt) = self.maybe_in_flight {
            if attempt.generation == generation {
                self.maybe_in_flight = None;
            }
        }
        let advances = match self.maybe_last_durable {
            None => true,
            Some(d) => generation.0 >= d.generation.0,
        };
        if advances {
            self.maybe_last_durable = Some(
                DurableCheckpoint {
                    generation,
                    captured_at: receipt.captured_at,
                    completed_at,
                    trigger: receipt.trigger,
                    strength,
                },
            );
            self.maybe_captured_at = Some(receipt.captured_at);
            self.maybe_completed_at = Some(completed_at);
            self.maybe_trigger = Some(receipt.trigger);
            self.maybe_strength = Some(strength);
        }
        self.maybe_failed_at = None;
        self.outcome = CheckpointOutcome::Succeeded;
        self.maybe_failure = None;
    }

    /// Forgets the in-flight binding for `generation`, falling back to the
    /// last durable checkpoint's truth, or to a fresh state if there is none.
    pub fn clear_compatibility_binding(&mut self, generation: LifecycleGeneration)
        ensures
            !(old(self).maybe_in_flight matches Some(a) && a.generation == generation) ==> *final(self) == *old(self),
            (old(self).maybe_in_flight matches Some(a) && a.generation == generation) ==> match old(
                self,
            ).maybe_last_durable {
                None => *final(self) == fresh_checkpoint_state(),
                Some(d) => *final(self) == (CheckpointAuthorityState {
                    maybe_in_flight: None,
                    maybe_last_durable: Some(d),
                    maybe_captured_at: Some(d.captured_at),
                    maybe_completed_at: Some(d.completed_at),
                    maybe_failed_at: None,
                    maybe_trigger: Some(d.trigger),
                    maybe_strength: Some(d.strength),
                    outcome: CheckpointOutcome::Succeeded,
                    maybe_failure: None,
                }),
            },
    {
        match self.maybe_in_flight {
            Some(attempt) => {
                if attempt.generation != generation {
                    return;
                }
            },
            None => return,
        }
        self.maybe_in_flight = None;
        match self.maybe_last_durable {
            None => {
                *self = CheckpointAuthorityState::new();
            },
            Some(durable) => {
                self.maybe_captured_at = Some(durable.captured_at);
                self.maybe_completed_at = Some(durable.completed_at);
                self.maybe_failed_at = None;
                self.maybe_trigger = Some(durable.trigger);
                self.maybe_strength = Some(durable.strength);
                self.outcome = CheckpointOutcome::Succeeded;
                self.maybe_failure = None;
            },
        }
    }

    /// The bounded evidence for the current and dirty generations at `now`.
    pub fn snapshot(
        &self,
        current_generation: LifecycleGeneration,
        maybe_dirty_generation: Option<LifecycleGeneration>,
        now: PolicyTime,
        periodic_interval_seconds: u64,
    ) -> (r: CheckpointEvidenceSnapshot)
        ensures
            r == evidence_of(*self, current_generation, maybe_dirty_generation, now, periodic_interval_seconds),
    {
        let checkpoint_age_seconds = match self.maybe_captured_at {
            Some(captured_at) => Some(elapsed_seconds(now, captured_at)),
            None => None,
        };
        let overdue = match checkpoint_age_seconds {
            Some(age) => age > periodic_interval_seconds,
            None => false,
        };
        let maybe_last_durable_generation = match self.maybe_last_durable {
            Some(durable) => Some(durable.generation.0),
            None => None,
        };
        let maybe_generation_loss_range = match maybe_last_durable_generation {
            Some(last_durable) if last_durable >= current_generation.0 => None,
            _ => Some(
                CheckpointGenerationLossRange {
                    maybe_after_generation: maybe_last_durable_generation,
                    through_generation: current_generation.0,
                },
            ),
        };
        let maybe_loss_bound_seconds = if self.outcome == CheckpointOutcome::Succeeded && !overdue {
            Some(periodic_interval_seconds)
        } else {
            None
        };
        CheckpointEvidenceSnapshot {
            current_generation: current_generation.0,
            maybe_dirty_generation: match maybe_dirty_generation {
                Some(g) => Some(g.0),
                None => None,
            },
            maybe_in_flight_generation: match self.maybe_in_flight {
                Some(attempt) => Some(attempt.generation.0),
                None => None,
            },
            maybe_last_durable_generation,
            maybe_captured_at: self.maybe_captured_at,
            maybe_completed_at: self.maybe_completed_at,
            maybe_failed_at: self.maybe_failed_at,
            maybe_trigger: self.maybe_trigger,
            maybe_persistence_strength: self.maybe_strength,
            outcome: self.outcome,
            maybe_failure: self.maybe_failure,
            overdue,
            checkpoint_age_seconds,
            maybe_loss_bound_seconds,
            maybe_generation_loss_range,
        }
    }
}

} // verus!
