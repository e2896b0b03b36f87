//! Family-specific identities, capabilities, receipts and bounded ledgers for
//! lifecycle effects that are achieved outside the authority.
use vstd::prelude::*;
use crate::generation::{AuthorityEpoch, LifecycleGeneration};
use crate::identity::PeerId;
use crate::ledger::{
    EffectAbort, ExactEffectLedger, ExactEffectLedgerCompletion, ExactKey, ReserveRefusal,
};

verus! {

/// The per-session bound on queued peer messages; it also bounds pending and
/// remembered peer effects.
pub const MAX_PEER_QUEUED_MESSAGES: usize = 128;

pub const MAX_PENDING_PEER_EFFECTS: usize = MAX_PEER_QUEUED_MESSAGES;

pub const MAX_COMPLETED_PEER_EFFECTS: usize = MAX_PEER_QUEUED_MESSAGES;

pub const MAX_PENDING_SNAPSHOT_EFFECTS: usize = 1;

pub const MAX_COMPLETED_SNAPSHOT_EFFECTS: usize = 2;

/// A point in time at whole-second resolution.
#[derive(Debug, Clone, Copy, PartialEq, Eq, Structural, PartialOrd, Ord, Hash)]
pub struct PolicyTime {
    pub unix_seconds: i64,
}

impl PolicyTime {
    pub fn new(unix_seconds: i64) -> (r: PolicyTime)
        ensures
            r.unix_seconds == unix_seconds,
    {
        PolicyTime { unix_seconds }
    }

    pub fn unix_seconds(&self) -> (r: i64)
        ensures
            r == self.unix_seconds,
    {
        self.unix_seconds
    }
}

/// Classification of one achieved effect.
#[derive(Debug, Clone, Copy, PartialEq, Eq, Structural)]
pub enum EffectCompletion {
    Applied,
    AchievedButStale,
    AlreadyApplied,
}

/// Why an effect could not be prepared.
#[derive(Debug, Clone, Copy, PartialEq, Eq, Structural)]
pub enum EffectPreparationError {
    PeerEffectsAtCapacity,
    SnapshotEffectPending,
    EffectIdentityCollision,
    EffectIdentityExhausted,
}

#[derive(Debug, Clone, Copy, PartialEq, Eq, Structural, PartialOrd, Ord, Hash)]
pub struct PeerEffectId(pub u64);

impl PeerEffectId {
    pub fn new(raw: u64) -> (r: PeerEffectId)
        ensures
            r.0 == raw,
    {
        PeerEffectId(raw)
    }
}

#[derive(Debug, Clone, Copy, PartialEq, Eq, Structural, PartialOrd, Ord, Hash)]
pub struct SnapshotEffectId(pub u64);

impl SnapshotEffectId {
    pub fn new(raw: u64) -> (r: SnapshotEffectId)
        ensures
            r.0 == raw,
    {
        SnapshotEffectId(raw)
    }
}

#[derive(Debug, Clone, Copy, PartialEq, Eq, Structural, PartialOrd, Ord, Hash)]
pub struct PeerSessionGeneration(pub u64);

impl PeerSessionGeneration {
    /// The generation of a peer's first session.
    pub fn initial() -> (r: PeerSessionGeneration)
        ensures
            r.0 == 0,
    {
        PeerSessionGeneration(0)
    }

    pub fn new(raw: u64) -> (r: PeerSessionGeneration)
        ensures
            r.0 == raw,
    {
        PeerSessionGeneration(raw)
    }

    pub fn checked_next(self) -> (r: Result<PeerSessionGeneration, EffectPreparationError>)
        ensures
            self.0 < u64::MAX ==> r == Ok::<PeerSessionGeneration, EffectPreparationError>(PeerSessionGeneration((self.0 + 1) as u64)),
            self.0 == u64::MAX ==> r == Err::<PeerSessionGeneration, EffectPreparationError>(EffectPreparationError::EffectIdentityExhausted),
    {
        if self.0 < u64::MAX {
            Ok(PeerSessionGeneration(self.0 + 1))
        } else {
            Err(EffectPreparationError::EffectIdentityExhausted)
        }
    }
}

#[derive(Debug, Clone, Copy, PartialEq, Eq, Structural, PartialOrd, Ord, Hash)]
pub struct SnapshotIdentity(pub u64);

impl SnapshotIdentity {
    pub fn new(raw: u64) -> (r: SnapshotIdentity)
        ensures
            r.0 == raw,
    {
        SnapshotIdentity(raw)
    }

    pub fn from_effect_id(effect_id: SnapshotEffectId) -> (r: SnapshotIdentity)
        ensures
            r.0 == effect_id.0,
    {
        SnapshotIdentity(effect_id.0)
    }
}

/// The complete immutable binding of one peer effect.
#[derive(Debug, Clone, Copy, PartialEq, Eq, Structural)]
pub struct PeerEffectKey {
    pub authority_incarnation: AuthorityEpoch,
    pub reserved_generation: LifecycleGeneration,
    pub reserved_effect: PeerEffectId,
    pub target_peer: PeerId,
    pub target_session: PeerSessionGeneration,
}

impl ExactKey for PeerEffectKey {
    fn same_key(&self, other: &Self) -> (r: bool) {
        *self == *other
    }
}

/// A consuming capability that can acknowledge one exact successful peer write.
#[derive(Debug, PartialEq, Eq, Structural)]
pub struct PeerEffectCapability {
    pub authority_epoch: AuthorityEpoch,
    pub lifecycle_generation: LifecycleGeneration,
    pub effect_id: PeerEffectId,
    pub peer_id: PeerId,
    pub peer_session_generation: PeerSessionGeneration,
}

/// Proof that one exact peer write succeeded outside the authority.
#[derive(Debug, PartialEq, Eq, Structural)]
pub struct PeerEffectReceipt {
    pub authority_epoch: AuthorityEpoch,
    pub lifecycle_generation: LifecycleGeneration,
    pub effect_id: PeerEffectId,
    pub peer_id: PeerId,
    pub peer_session_generation: PeerSessionGeneration,
}

impl PeerEffectCapability {
    pub open spec fn key(&self) -> PeerEffectKey {
        PeerEffectKey {
            authority_incarnation: self.authority_epoch,
            reserved_generation: self.lifecycle_generation,
            reserved_effect: self.effect_id,
            target_peer: self.peer_id,
            target_session: self.peer_session_generation,
        }
    }

    pub fn new(
        authority_epoch: AuthorityEpoch,
        lifecycle_generation: LifecycleGeneration,
        effect_id: PeerEffectId,
        peer_id: PeerId,
        peer_session_generation: PeerSessionGeneration,
    ) -> (r: PeerEffectCapability)
        ensures
            r.authority_epoch == authority_epoch,
            r.lifecycle_generation == lifecycle_generation,
            r.effect_id == effect_id,
            r.peer_id == peer_id,
            r.peer_session_generation == peer_session_generation,
    {
        PeerEffectCapability {
            authority_epoch,
            lifecycle_generation,
            effect_id,
            peer_id,
            peer_session_generation,
        }
    }

    /// Turns the capability into the receipt of the same exact effect.
    pub fn acknowledge_write(self) -> (r: PeerEffectReceipt)
        ensures
            r.key() == self.key(),
    {
        PeerEffectReceipt {
            authority_epoch: self.authority_epoch,
            lifecycle_generation: self.lifecycle_generation,
            effect_id: self.effect_id,
            peer_id: self.peer_id,
            peer_session_generation: self.peer_session_generation,
        }
    }

    pub fn peer_id(&self) -> (r: PeerId)
        ensures
            r == self.peer_id,
    {
        self.peer_id
    }

    pub fn exact_key(&self) -> (r: PeerEffectKey)
        ensures
            r == self.key(),
    {
        PeerEffectKey {
            authority_incarnation: self.authority_epoch,
            reserved_generation: self.lifecycle_generation,
            reserved_effect: self.effect_id,
            target_peer: self.peer_id,
            target_session: self.peer_session_generation,
        }
    }
}

impl PeerEffectReceipt {
    pub open spec fn key(&self) -> PeerEffectKey {
        PeerEffectKey {
            authority_incarnation: self.authority_epoch,
            reserved_generation: self.lifecycle_generation,
            reserved_effect: self.effect_id,
            target_peer: self.peer_id,
            target_session: self.peer_session_generation,
        }
    }

    pub fn peer_id(&self) -> (r: PeerId)
        ensures
            r == self.peer_id,
    {
        self.peer_id
    }

    pub fn exact_key(&self) -> (r: PeerEffectKey)
        ensures
            r == self.key(),
    {
        PeerEffectKey {
            authority_incarnation: self.authority_epoch,
            reserved_generation: self.lifecycle_generation,
            reserved_effect: self.effect_id,
            target_peer: self.peer_id,
            target_session: self.peer_session_generation,
        }
    }

    /// An identical receipt for the same exact effect.
    pub fn duplicate(&self) -> (r: PeerEffectReceipt)
        ensures
            r == *self,
    {
        PeerEffectReceipt {
            authority_epoch: self.authority_epoch,
            lifecycle_generation: self.lifecycle_generation,
            effect_id: self.effect_id,
            peer_id: self.peer_id,
            peer_session_generation: self.peer_session_generation,
        }
    }
}

/// The peer-effect ledger: every key it has seen names an effect id below
/// `next_id`, so a reserved identity is never handed out twice.
#[derive(Debug)]
pub struct PeerEffectLedger {
    pub core: ExactEffectLedger<PeerEffectKey>,
    pub next_id: u64,
}

impl PeerEffectLedger {
    pub open spec fn wf(&self) -> bool {
        &&& self.core.wf()
        &&& self.core.max_pending == MAX_PENDING_PEER_EFFECTS
        &&& self.core.max_completed == MAX_COMPLETED_PEER_EFFECTS
        &&& forall|i: int| 0 <= i < self.core.pending@.len() ==> (#[trigger] self.core.pending@[i]).reserved_effect.0 < self.next_id
        &&& forall|i: int| 0 <= i < self.core.completed@.len() ==> (#[trigger] self.core.completed@[i]).reserved_effect.0 < self.next_id
    }

    pub fn new() -> (r: PeerEffectLedger)
        ensures
            r.wf(),
            r.core.pending@ == Seq::<PeerEffectKey>::empty(),
            r.core.completed@ == Seq::<PeerEffectKey>::empty(),
            r.next_id == 0,
    {
        PeerEffectLedger {
            core: ExactEffectLedger::new(MAX_PENDING_PEER_EFFECTS, MAX_COMPLETED_PEER_EFFECTS),
            next_id: 0,
        }
    }

    /// Reserves the next peer effect identity for the given binding.
    pub fn reserve_next(
        &mut self,
        authority_epoch: AuthorityEpoch,
        lifecycle_generation: LifecycleGeneration,
        peer_id: PeerId,
        peer_session_generation: PeerSessionGeneration,
    ) -> (r: Result<PeerEffectCapability, EffectPreparationError>)
        requires
            old(self).wf(),
        ensures
            final(self).wf(),
            final(self).core.completed@ == old(self).core.completed@,
            old(self).next_id == u64::MAX ==> r == Err::<PeerEffectCapability, EffectPreparationError>(
                EffectPreparationError::EffectIdentityExhausted),
            old(self).next_id < u64::MAX && old(self).core.pending@.len() >= MAX_PENDING_PEER_EFFECTS ==> r
                == Err::<PeerEffectCapability, EffectPreparationError>(EffectPreparationError::PeerEffectsAtCapacity),
            r is Err ==> final(self).core.pending@ == old(self).core.pending@ && final(self).next_id == old(self).next_id,
            r is Ok <==> old(self).next_id < u64::MAX && old(self).core.pending@.len() < MAX_PENDING_PEER_EFFECTS,
            r matches Ok(cap) ==> {
                &&& cap.authority_epoch == authority_epoch
                &&& cap.lifecycle_generation == lifecycle_generation
                &&& cap.effect_id == PeerEffectId(old(self).next_id)
                &&& cap.peer_id == peer_id
                &&& cap.peer_session_generation == peer_session_generation
                &&& final(self).core.pending@ == old(self).core.pending@.push(cap.key())
                &&& final(self).next_id == old(self).next_id + 1
            },
    {
        if self.next_id == u64::MAX {
            return Err(EffectPreparationError::EffectIdentityExhausted);
        }
        let effect_id = PeerEffectId::new(self.next_id);
        let next_id = self.next_id + 1;
        let capability = PeerEffectCapability::new(
            authority_epoch,
            lifecycle_generation,
            effect_id,
            peer_id,
            peer_session_generation,
        );
        let key = capability.exact_key();
        proof {
            assert(!self.core.pending@.contains(key)) by {
                if self.core.pending@.contains(key) {
                    let i = choose|i: int| 0 <= i < self.core.pending@.len() && self.core.pending@[i] == key;
                    assert(self.core.pending@[i].reserved_effect.0 < self.next_id);
                }
            }
            assert(!self.core.completed@.contains(key)) by {
                if self.core.completed@.contains(key) {
                    let i = choose|i: int| 0 <= i < self.core.completed@.len() && self.core.completed@[i] == key;
                    assert(self.core.completed@[i].reserved_effect.0 < self.next_id);
                }
            }
        }
        match self.core.try_reserve_key(key) {
            Ok(()) => {
                self.next_id = next_id;
                Ok(capability)
            },
            Err(ReserveRefusal::AtCapacity) => Err(EffectPreparationError::PeerEffectsAtCapacity),
            Err(ReserveRefusal::Collision) => Err(EffectPreparationError::EffectIdentityCollision),
        }
    }

    pub fn complete_exact(&mut self, receipt: &PeerEffectReceipt) -> (r: ExactEffectLedgerCompletion)
        requires
            old(self).wf(),
        ensures
            final(self).wf(),
            final(self).next_id == old(self).next_id,
            old(self).core.completed@.contains(receipt.key()) ==> r == ExactEffectLedgerCompletion::AlreadyRecorded,
            r == ExactEffectLedgerCompletion::Recorded <==> old(self).core.pending@.contains(receipt.key()),
            r != ExactEffectLedgerCompletion::Recorded ==> final(self).core.pending@ == old(self).core.pending@
                && final(self).core.completed@ == old(self).core.completed@,
            r == ExactEffectLedgerCompletion::Recorded ==> {
                &&& final(self).core.pending@.to_set() == old(self).core.pending@.to_set().remove(receipt.key())
                &&& final(self).core.completed@ == crate::ledger::bounded_push(
                    old(self).core.completed@,
                    receipt.key(),
                    MAX_COMPLETED_PEER_EFFECTS as nat,
                )
            },
    {
        let key = receipt.exact_key();
        let r = self.core.complete_exact(key);
        proof {
            if r == ExactEffectLedgerCompletion::Recorded {
                assert forall|i: int| 0 <= i < self.core.pending@.len() implies (#[trigger] self.core.pending@[i]).reserved_effect.0 < self.next_id by {
                    assert(self.core.pending@.to_set().contains(self.core.pending@[i]));
                    assert(old(self).core.pending@.contains(self.core.pending@[i]));
                }
                assert forall|i: int| 0 <= i < self.core.completed@.len() implies (#[trigger] self.core.completed@[i]).reserved_effect.0 < self.next_id by {
                    let s = old(self).core.completed@.push(key);
                    if s.len() > MAX_COMPLETED_PEER_EFFECTS {
                        assert(self.core.completed@[i] == s[i + 1]);
                    } else {
                        assert(self.core.completed@[i] == s[i]);
                    }
                }
            }
        }
        r
    }

    pub fn abort_exact(&mut self, capability: &PeerEffectCapability) -> (r: EffectAbort)
        requires
            old(self).wf(),
        ensures
            final(self).wf(),
            final(self).next_id == old(self).next_id,
            final(self).core.completed@ == old(self).core.completed@,
            old(self).core.completed@.contains(capability.key()) ==> r == EffectAbort::AlreadyCompleted,
            !old(self).core.completed@.contains(capability.key()) && old(self).core.pending@.contains(capability.key())
                ==> r == EffectAbort::Aborted,
            !old(self).core.completed@.contains(capability.key()) && !old(self).core.pending@.contains(capability.key())
                ==> r == EffectAbort::NotPending,
            r != EffectAbort::Aborted ==> final(self).core.pending@ == old(self).core.pending@,
            r == EffectAbort::Aborted ==> final(self).core.pending@.to_set() == old(self).core.pending@.to_set().remove(
                capability.key()),
    {
        let key = capability.exact_key();
        let r = self.core.abort_exact(key);
        proof {
            if r == EffectAbort::Aborted {
                assert forall|i: int| 0 <= i < self.core.pending@.len() implies (#[trigger] self.core.pending@[i]).reserved_effect.0 < self.next_id by {
                    assert(self.core.pending@.to_set().contains(self.core.pending@[i]));
                    assert(old(self).core.pending@.contains(self.core.pending@[i]));
                }
            }
        }
        r
    }

    pub fn is_pending(&self, receipt: &PeerEffectReceipt) -> (r: bool)
        ensures
            r == self.core.pending@.contains(receipt.key()),
    {
        self.core.is_pending(&receipt.exact_key())
    }

    pub fn is_completed(&self, key: PeerEffectKey) -> (r: bool)
        ensures
            r == self.core.completed@.contains(key),
    {
        self.core.is_completed(&key)
    }

    pub fn has_pending(&self) -> (r: bool)
        ensures
            r == (self.core.pending@.len() > 0),
    {
        self.core.has_pending()
    }

    pub open spec fn has_pending_for_peer_spec(&self, peer_id: PeerId) -> bool {
        exists|i: int| 0 <= i < self.core.pending@.len() && (#[trigger] self.core.pending@[i]).target_peer == peer_id
    }

    /// Whether some pending effect targets `peer_id`.
    pub fn has_pending_for_peer(&self, peer_id: PeerId) -> (r: bool)
        ensures
            r == self.has_pending_for_peer_spec(peer_id),
    {
        let mut i: usize = 0;
        while i < self.core.pending.len()
            invariant
                i <= self.core.pending@.len(),
                forall|j: int| 0 <= j < i ==> (#[trigger] self.core.pending@[j]).target_peer != peer_id,
            decreases self.core.pending@.len() - i,
        {
            if self.core.pending[i].target_peer == peer_id {
                return true;
            }
            i = i + 1;
        }
        false
    }

    pub fn pending_len(&self) -> (r: usize)
        ensures
            r == self.core.pending@.len(),
    {
        self.core.pending_len()
    }

    pub fn completed_len(&self) -> (r: usize)
        ensures
            r == self.core.completed@.len(),
    {
        self.core.completed_len()
    }
}

} // verus!
