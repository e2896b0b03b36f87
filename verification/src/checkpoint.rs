//! Checkpoint effects: the snapshot-write capability, its receipt and abort,
//! the bounded snapshot ledger, and the authority's checkpoint evidence.
use vstd::prelude::*;
use crate::effects::{
    EffectPreparationError, PolicyTime, SnapshotEffectId, SnapshotIdentity,
    MAX_COMPLETED_SNAPSHOT_EFFECTS, MAX_PENDING_SNAPSHOT_EFFECTS,
};
use crate::generation::{AuthorityEpoch, LifecycleGeneration};
use crate::ledger::{
    bounded_push, EffectAbort, ExactEffectLedger, ExactEffectLedgerCompletion, ExactKey,
    ReserveRefusal,
};

verus! {

/// The authority-owned reason one mempool checkpoint was captured.
#[derive(Debug, Clone, Copy, PartialEq, Eq, Structural, PartialOrd, Ord, Hash)]
pub enum CheckpointTrigger {
    Periodic,
    Shutdown,
}

/// The durability boundary achieved by one completed checkpoint write.
#[derive(Debug, Clone, Copy, PartialEq, Eq, Structural, Hash)]
pub enum CheckpointPersistenceStrength {
    Sync,
}

/// Low-cardinality failure truth for one checkpoint attempt.
#[derive(Debug, Clone, Copy, PartialEq, Eq, Structural, Hash)]
pub enum SnapshotWriteFailure {
    Encode,
    Storage,
    AbortDispatch,
}

/// Why a requested pre-achievement abort could not be constructed.
#[derive(Debug, Clone, Copy, PartialEq, Eq, Structural)]
pub enum SnapshotWriteAbortError {
    AchievedStateOnlyFailure,
}

impl SnapshotWriteAbortError {
    pub fn message(&self) -> (r: &'static str)
        ensures
            r == ("an achieved-state-only failure cannot abort an unachieved write"),
    {
        "an achieved-state-only failure cannot abort an unachieved write"
    }
}

/// The complete immutable binding of one snapshot write.
#[derive(Debug, Clone, Copy, PartialEq, Eq, Structural)]
pub struct SnapshotEffectKey {
    pub authority_incarnation: AuthorityEpoch,
    pub reserved_generation: LifecycleGeneration,
    pub captured_at: PolicyTime,
    pub trigger: CheckpointTrigger,
    pub reserved_effect: SnapshotEffectId,
    pub reserved_snapshot: SnapshotIdentity,
}

impl ExactKey for SnapshotEffectKey {
    fn same_key(&self, other: &Self) -> (r: bool) {
        *self == *other
    }
}

/// A consuming capability that can acknowledge one exact successful snapshot write.
#[derive(Debug, PartialEq, Eq, Structural)]
pub struct SnapshotWriteCapability {
    pub authority_epoch: AuthorityEpoch,
    pub persistence_generation: LifecycleGeneration,
    pub captured_at: PolicyTime,
    pub trigger: CheckpointTrigger,
    pub effect_id: SnapshotEffectId,
    pub snapshot_identity: SnapshotIdentity,
}

/// Proof that one exact snapshot write succeeded.
#[derive(Debug, PartialEq, Eq, Structural)]
pub struct SnapshotWriteReceipt {
    pub authority_epoch: AuthorityEpoch,
    pub persistence_generation: LifecycleGeneration,
    pub captured_at: PolicyTime,
    pub trigger: CheckpointTrigger,
    pub maybe_completed_at: Option<PolicyTime>,
    pub maybe_strength: Option<CheckpointPersistenceStrength>,
    pub effect_id: SnapshotEffectId,
    pub snapshot_identity: SnapshotIdentity,
}

/// One exact pre-achievement checkpoint termination.
#[derive(Debug, PartialEq, Eq, Structural)]
pub struct SnapshotWriteAbort {
    pub capability: SnapshotWriteCapability,
    pub failed_at: PolicyTime,
    pub failure: SnapshotWriteFailure,
}

/// One owned snapshot plus its success capability; the executor may create a
/// receipt only after persistence succeeds.
#[derive(Debug)]
pub struct PreparedSnapshotWrite<T> {
    pub snapshot: T,
    pub capability: SnapshotWriteCapability,
}

impl SnapshotWriteCapability {
    pub open spec fn key(&self) -> SnapshotEffectKey {
        SnapshotEffectKey {
            authority_incarnation: self.authority_epoch,
            reserved_generation: self.persistence_generation,
            captured_at: self.captured_at,
            trigger: self.trigger,
            reserved_effect: self.effect_id,
            reserved_snapshot: self.snapshot_identity,
        }
    }

    pub fn exact_key(&self) -> (r: SnapshotEffectKey)
        ensures
            r == self.key(),
    {
        SnapshotEffectKey {
            authority_incarnation: self.authority_epoch,
            reserved_generation: self.persistence_generation,
            captured_at: self.captured_at,
            trigger: self.trigger,
            reserved_effect: self.effect_id,
            reserved_snapshot: self.snapshot_identity,
        }
    }

    pub fn persistence_generation(&self) -> (r: LifecycleGeneration)
        ensures
            r == self.persistence_generation,
    {
        self.persistence_generation
    }

    /// The receipt of this exact write, completed at `completed_at` with `strength`.
    pub fn acknowledge_write(self, completed_at: PolicyTime, strength: CheckpointPersistenceStrength) -> (r:
        SnapshotWriteReceipt)
        ensures
            r.key() == self.key(),
            r.maybe_completed_at == Some(completed_at),
            r.maybe_strength == Some(strength),
    {
        SnapshotWriteReceipt {
            authority_epoch: self.authority_epoch,
            persistence_generation: self.persistence_generation,
            captured_at: self.captured_at,
            trigger: self.trigger,
            maybe_completed_at: Some(completed_at),
            maybe_strength: Some(strength),
            effect_id: self.effect_id,
            snapshot_identity: self.snapshot_identity,
        }
    }
}

impl SnapshotWriteAbort {
    /// An abort of `capability`, refused for a failure that only an achieved
    /// write can have.
    pub fn new(capability: SnapshotWriteCapability, failed_at: PolicyTime, failure: SnapshotWriteFailure) -> (r:
        Result<SnapshotWriteAbort, SnapshotWriteAbortError>)
        ensures
            failure == SnapshotWriteFailure::AbortDispatch ==> r == Err::<SnapshotWriteAbort, SnapshotWriteAbortError>(
                SnapshotWriteAbortError::AchievedStateOnlyFailure),
            failure != SnapshotWriteFailure::AbortDispatch ==> r == Ok::<SnapshotWriteAbort, SnapshotWriteAbortError>(
                SnapshotWriteAbort { capability, failed_at, failure }),
    {
        if failure == SnapshotWriteFailure::AbortDispatch {
            return Err(SnapshotWriteAbortError::AchievedStateOnlyFailure);
        }
        Ok(SnapshotWriteAbort { capability, failed_at, failure })
    }

    pub fn failed_at(&self) -> (r: PolicyTime)
        ensures
            r == self.failed_at,
    {
        self.failed_at
    }

    pub fn failure(&self) -> (r: SnapshotWriteFailure)
        ensures
            r == self.failure,
    {
        self.failure
    }
}

impl SnapshotWriteReceipt {
    pub open spec fn key(&self) -> SnapshotEffectKey {
        SnapshotEffectKey {
            authority_incarnation: self.authority_epoch,
            reserved_generation: self.persistence_generation,
            captured_at: self.captured_at,
            trigger: self.trigger,
            reserved_effect: self.effect_id,
            reserved_snapshot: self.snapshot_identity,
        }
    }

    pub fn exact_key(&self) -> (r: SnapshotEffectKey)
        ensures
            r == self.key(),
    {
        SnapshotEffectKey {
            authority_incarnation: self.authority_epoch,
            reserved_generation: self.persistence_generation,
            captured_at: self.captured_at,
            trigger: self.trigger,
            reserved_effect: self.effect_id,
            reserved_snapshot: self.snapshot_identity,
        }
    }

    pub fn captured_generation(&self) -> (r: u64)
        ensures
            r == self.persistence_generation.0,
    {
        self.persistence_generation.0
    }

    pub fn captured_at(&self) -> (r: PolicyTime)
        ensures
            r == self.captured_at,
    {
        self.captured_at
    }

    pub fn checkpoint_trigger(&self) -> (r: CheckpointTrigger)
        ensures
            r == self.trigger,
    {
        self.trigger
    }

    pub fn completed_at(&self) -> (r: Option<PolicyTime>)
        ensures
            r == self.maybe_completed_at,
    {
        self.maybe_completed_at
    }

    pub fn persistence_strength(&self) -> (r: Option<CheckpointPersistenceStrength>)
        ensures
            r == self.maybe_strength,
    {
        self.maybe_strength
    }

    /// An identical receipt for the same exact write.
    pub fn duplicate(&self) -> (r: SnapshotWriteReceipt)
        ensures
            r == *self,
    {
        SnapshotWriteReceipt {
            authority_epoch: self.authority_epoch,
            persistence_generation: self.persistence_generation,
            captured_at: self.captured_at,
            trigger: self.trigger,
            maybe_completed_at: self.maybe_completed_at,
            maybe_strength: self.maybe_strength,
            effect_id: self.effect_id,
            snapshot_identity: self.snapshot_identity,
        }
    }
}

impl<T> PreparedSnapshotWrite<T> {
    pub fn snapshot(&self) -> (r: &T)
        ensures
            *r == self.snapshot,
    {
        &self.snapshot
    }

    pub fn into_parts(self) -> (r: (T, SnapshotWriteCapability))
        ensures
            r.0 == self.snapshot,
            r.1 == self.capability,
    {
        (self.snapshot, self.capability)
    }

    pub fn checkpoint_trigger(&self) -> (r: CheckpointTrigger)
        ensures
            r == self.capability.trigger,
    {
        self.capability.trigger
    }
}

/// The snapshot-effect ledger; as for peers, every key names an effect id
/// below `next_id`.
#[derive(Debug)]
pub struct SnapshotEffectLedger {
    pub core: ExactEffectLedger<SnapshotEffectKey>,
    pub next_id: u64,
}

impl SnapshotEffectLedger {
    pub open spec fn wf(&self) -> bool {
        &&& self.core.wf()
        &&& self.core.max_pending == MAX_PENDING_SNAPSHOT_EFFECTS
        &&& self.core.max_completed == MAX_COMPLETED_SNAPSHOT_EFFECTS
        &&& forall|i: int| 0 <= i < self.core.pending@.len() ==> (#[trigger] self.core.pending@[i]).reserved_effect.0 < self.next_id
        &&& forall|i: int| 0 <= i < self.core.completed@.len() ==> (#[trigger] self.core.completed@[i]).reserved_effect.0 < self.next_id
    }

    pub fn new() -> (r: SnapshotEffectLedger)
        ensures
            r.wf(),
            r.core.pending@ == Seq::<SnapshotEffectKey>::empty(),
            r.core.completed@ == Seq::<SnapshotEffectKey>::empty(),
            r.next_id == 0,
    {
        SnapshotEffectLedger {
            core: ExactEffectLedger::new(MAX_PENDING_SNAPSHOT_EFFECTS, MAX_COMPLETED_SNAPSHOT_EFFECTS),
            next_id: 0,
        }
    }

    /// Reserves the next snapshot write for the given binding and payload.
    pub fn reserve_next<T>(
        &mut self,
        authority_epoch: AuthorityEpoch,
        persistence_generation: LifecycleGeneration,
        captured_at: PolicyTime,
        trigger: CheckpointTrigger,
        snapshot: T,
    ) -> (r: Result<PreparedSnapshotWrite<T>, EffectPreparationError>)
        requires
            old(self).wf(),
        ensures
            final(self).wf(),
            final(self).core.completed@ == old(self).core.completed@,
            old(self).next_id == u64::MAX ==> (r matches Err(e) && e == EffectPreparationError::EffectIdentityExhausted),
            old(self).next_id < u64::MAX && old(self).core.pending@.len() >= MAX_PENDING_SNAPSHOT_EFFECTS ==> (r matches Err(
                e) && e == EffectPreparationError::SnapshotEffectPending),
            r is Err ==> final(self).core.pending@ == old(self).core.pending@ && final(self).next_id == old(self).next_id,
            r is Ok <==> old(self).next_id < u64::MAX && old(self).core.pending@.len() < MAX_PENDING_SNAPSHOT_EFFECTS,
            r matches Ok(p) ==> {
                &&& p.snapshot == snapshot
                &&& p.capability.authority_epoch == authority_epoch
                &&& p.capability.persistence_generation == persistence_generation
                &&& p.capability.captured_at == captured_at
                &&& p.capability.trigger == trigger
                &&& p.capability.effect_id == SnapshotEffectId(old(self).next_id)
                &&& p.capability.snapshot_identity == SnapshotIdentity(old(self).next_id)
                &&& final(self).core.pending@ == old(self).core.pending@.push(p.capability.key())
                &&& final(self).next_id == old(self).next_id + 1
            },
    {
        if self.next_id == u64::MAX {
            return Err(EffectPreparationError::EffectIdentityExhausted);
        }
        let effect_id = SnapshotEffectId::new(self.next_id);
        let next_id = self.next_id + 1;
        let capability = SnapshotWriteCapability {
            authority_epoch,
            persistence_generation,
            captured_at,
            trigger,
            effect_id,
            snapshot_identity: SnapshotIdentity::from_effect_id(effect_id),
        };
        let key = capability.exact_key();
        proof {
            assert(!self.core.pending@.contains(key)) by {
                if self.core.pending@.contains(key) {
                    let i = choose|i: int| 0 <= i < self.core.pending@.len() && self.core.pending@[i] == key;
                    assert(self.core.pending@[i].reserved_effect.0 < self.next_id);
                }
            }
            assert(!self.core.completed@.contains(key)) by {
                if self.core.completed@.contains(key) {
                    let i = choose|i: int| 0 <= i < self.core.completed@.len() && self.core.completed@[i] == key;
                    assert(self.core.completed@[i].reserved_effect.0 < self.next_id);
                }
            }
        }
        match self.core.try_reserve_key(key) {
            Ok(()) => {
                self.next_id = next_id;
                Ok(PreparedSnapshotWrite { snapshot, capability })
            },
            Err(ReserveRefusal::AtCapacity) => Err(EffectPreparationError::SnapshotEffectPending),
            Err(ReserveRefusal::Collision) => Err(EffectPreparationError::EffectIdentityCollision),
        }
    }

    pub fn complete_exact(&mut self, receipt: &SnapshotWriteReceipt) -> (r: ExactEffectLedgerCompletion)
        requires
            old(self).wf(),
        ensures
            final(self).wf(),
            final(self).next_id == old(self).next_id,
            old(self).core.completed@.contains(receipt.key()) ==> r == ExactEffectLedgerCompletion::AlreadyRecorded,
            r == ExactEffectLedgerCompletion::Recorded <==> old(self).core.pending@.contains(receipt.key()),
            r != ExactEffectLedgerCompletion::Recorded ==> final(self).core.pending@ == old(self).core.pending@
                && final(self).core.completed@ == old(self).core.completed@,
            r == ExactEffectLedgerCompletion::Recorded ==> {
                &&& final(self).core.pending@.to_set() == old(self).core.pending@.to_set().remove(receipt.key())
                &&& final(self).core.completed@ == bounded_push(
                    old(self).core.completed@,
                    receipt.key(),
                    MAX_COMPLETED_SNAPSHOT_EFFECTS as nat,
                )
            },
    {
        let key = receipt.exact_key();
        let r = self.core.complete_exact(key);
        proof {
            if r == ExactEffectLedgerCompletion::Recorded {
                assert forall|i: int| 0 <= i < self.core.pending@.len() implies (#[trigger] self.core.pending@[i]).reserved_effect.0 < self.next_id by {
                    assert(self.core.pending@.to_set().contains(self.core.pending@[i]));
                    assert(old(self).core.pending@.contains(self.core.pending@[i]));
                }
                assert forall|i: int| 0 <= i < self.core.completed@.len() implies (#[trigger] self.core.completed@[i]).reserved_effect.0 < self.next_id by {
                    let s = old(self).core.completed@.push(key);
                    if s.len() > MAX_COMPLETED_SNAPSHOT_EFFECTS {
                        assert(self.core.completed@[i] == s[i + 1]);
                    } else {
                        assert(self.core.completed@[i] == s[i]);
                    }
                }
            }
        }
        r
    }

    pub fn abort_exact(&mut self, capability: &SnapshotWriteCapability) -> (r: EffectAbort)
        requires
            old(self).wf(),
        ensures
            final(self).wf(),
            final(self).next_id == old(self).next_id,
            final(self).core.completed@ == old(self).core.completed@,
            old(self).core.completed@.contains(capability.key()) ==> r == EffectAbort::AlreadyCompleted,
            !old(self).core.completed@.contains(capability.key()) && old(self).core.pending@.contains(capability.key())
                ==> r == EffectAbort::Aborted,
            !old(self).core.completed@.contains(capability.key()) && !old(self).core.pending@.contains(capability.key())
                ==> r == EffectAbort::NotPending,
            r != EffectAbort::Aborted ==> final(self).core.pending@ == old(self).core.pending@,
            r == EffectAbort::Aborted ==> final(self).core.pending@.to_set() == old(self).core.pending@.to_set().remove(
                capability.key()),
    {
        let key = capability.exact_key();
        let r = self.core.abort_exact(key);
        proof {
            if r == EffectAbort::Aborted {
                assert forall|i: int| 0 <= i < self.core.pending@.len() implies (#[trigger] self.core.pending@[i]).reserved_effect.0 < self.next_id by {
                    assert(self.core.pending@.to_set().contains(self.core.pending@[i]));
                    assert(old(self).core.pending@.contains(self.core.pending@[i]));
                }
            }
        }
        r
    }

    pub fn is_completed(&self, key: SnapshotEffectKey) -> (r: bool)
        ensures
            r == self.core.completed@.contains(key),
    {
        self.core.is_completed(&key)
    }

    pub fn has_pending(&self) -> (r: bool)
        ensures
            r == (self.core.pending@.len() > 0),
    {
        self.core.has_pending()
    }

    pub fn pending_len(&self) -> (r: usize)
        ensures
            r == self.core.pending@.len(),
    {
        self.core.pending_len()
    }

    pub fn completed_len(&self) -> (r: usize)
        ensures
            r == self.core.completed@.len(),
    {
        self.core.completed_len()
    }
}

} // verus!
