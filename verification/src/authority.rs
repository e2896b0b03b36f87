//! The lifecycle authority: the sole owner of the epoch, the generations, the
//! checkpoint evidence and the effect ledgers, and the only place where a
//! prepared effect is classified when its outside work is done.
use vstd::prelude::*;
use crate::checkpoint::{
    CheckpointTrigger, PreparedSnapshotWrite, SnapshotEffectLedger, SnapshotWriteAbort,
    SnapshotWriteReceipt,
};
use crate::checkpoint_evidence::{
    evidence_of, fresh_checkpoint_state, CheckpointAuthorityState, CheckpointEvidenceSnapshot,
};
use crate::effects::{
    EffectCompletion, EffectPreparationError, PeerEffectCapability, PeerEffectLedger,
    PeerEffectReceipt, PeerSessionGeneration, PolicyTime,
};
use crate::generation::{AuthorityEpoch, LifecycleGeneration};
use crate::identity::{MemberIdentity, PeerId};
use crate::ledger::{EffectAbort, ExactEffectLedgerCompletion};
use crate::lifecycle::{
    remove_member, sat_add, saturating_add_u64, zero_evidence, LifecycleEvidenceSnapshot,
    PreparedPersistenceProjection,
};

verus! {

/// The family of a receipt that did not match the authority's ledgers.
#[derive(Debug, Clone, Copy, PartialEq, Eq, Structural)]
pub enum ReceiptFamily {
    Peer,
    TypedSnapshot,
}

impl ReceiptFamily {
    pub fn as_str(&self) -> (r: &'static str)
        ensures
            r == (match self {
                ReceiptFamily::Peer => "peer",
                ReceiptFamily::TypedSnapshot => "typed snapshot",
            }),
    {
        match self {
            ReceiptFamily::Peer => "peer",
            ReceiptFamily::TypedSnapshot => "typed snapshot",
        }
    }
}

/// Why a mempool snapshot could not be captured.
#[derive(Debug, Clone, Copy, PartialEq, Eq, Structural)]
pub enum MempoolSnapshotError {
    /// The mempool holds more entries than a snapshot may record.
    ResourceBoundExceeded,
}

/// Failures detected by the authority's validation boundary.
#[derive(Debug, Clone, Copy, PartialEq, Eq, Structural)]
pub enum LifecycleProjectionError {
    AuthorityUnavailable,
    StaleAuthorityEpoch { expected: AuthorityEpoch, actual: AuthorityEpoch },
    EffectPreparation(EffectPreparationError),
    InvalidEffectReceipt(ReceiptFamily),
    MempoolSnapshot(MempoolSnapshotError),
}

/// The session generation recorded for one peer.
#[derive(Debug, Clone, Copy, PartialEq, Eq, Structural)]
pub struct PeerSessionEntry {
    pub peer_id: PeerId,
    pub generation: PeerSessionGeneration,
}

/// The authority's state.
#[derive(Debug)]
pub struct LifecycleAuthority {
    pub authority_epoch: AuthorityEpoch,
    pub lifecycle_generation: LifecycleGeneration,
    pub dirty_generation: Option<LifecycleGeneration>,
    pub lifecycle_evidence: LifecycleEvidenceSnapshot,
    pub checkpoint_evidence: CheckpointAuthorityState,
    pub peer_sessions: Vec<PeerSessionEntry>,
    pub peer_effect_ledger: PeerEffectLedger,
    pub snapshot_effect_ledger: SnapshotEffectLedger,
    pub unbroadcast_members: Vec<MemberIdentity>,
    pub maybe_last_transport_written_clear: Option<MemberIdentity>,
}

/// The session generation of `peer` in `sessions`: the recorded one, or the initial one.
pub open spec fn session_of(sessions: Seq<PeerSessionEntry>, peer: PeerId) -> PeerSessionGeneration {
    if exists|i: int| 0 <= i < sessions.len() && (#[trigger] sessions[i]).peer_id == peer {
        sessions[choose|i: int| 0 <= i < sessions.len() && (#[trigger] sessions[i]).peer_id == peer].generation
    } else {
        PeerSessionGeneration(0)
    }
}

pub open spec fn peers_distinct(sessions: Seq<PeerSessionEntry>) -> bool {
    forall|i: int, j: int| 0 <= i < sessions.len() && 0 <= j < sessions.len() && i != j ==> (#[trigger] sessions[i]).peer_id
        != (#[trigger] sessions[j]).peer_id
}

/// Whether a receipt is bound to the authority's current epoch and generation.
pub open spec fn snapshot_receipt_is_fresh(a: LifecycleAuthority, receipt: SnapshotWriteReceipt) -> bool {
    receipt.authority_epoch == a.authority_epoch && receipt.persistence_generation == a.lifecycle_generation
}

/// Whether a peer receipt is bound to the current epoch, generation and peer session.
pub open spec fn peer_receipt_is_fresh(a: LifecycleAuthority, receipt: PeerEffectReceipt) -> bool {
    &&& receipt.authority_epoch == a.authority_epoch
    &&& receipt.lifecycle_generation == a.lifecycle_generation
    &&& receipt.peer_session_generation == session_of(a.peer_sessions@, receipt.peer_id)
}

/// What aborting a peer reservation answers: a capability of another epoch
/// or one that matches nothing is not pending, one already achieved stays
/// achieved, and a pending one is released.
pub open spec fn peer_abort_outcome(a: LifecycleAuthority, capability: PeerEffectCapability) -> EffectAbort {
    if capability.authority_epoch != a.authority_epoch {
        EffectAbort::NotPending
    } else if a.peer_effect_ledger.core.completed@.contains(capability.key()) {
        EffectAbort::AlreadyCompleted
    } else if a.peer_effect_ledger.core.pending@.contains(capability.key()) {
        EffectAbort::Aborted
    } else {
        EffectAbort::NotPending
    }
}

/// What aborting a snapshot reservation answers.
pub open spec fn snapshot_abort_outcome(a: LifecycleAuthority, abort_request: SnapshotWriteAbort) -> EffectAbort {
    if a.snapshot_effect_ledger.core.completed@.contains(abort_request.capability.key()) {
        EffectAbort::AlreadyCompleted
    } else if a.snapshot_effect_ledger.core.pending@.contains(abort_request.capability.key()) {
        EffectAbort::Aborted
    } else {
        EffectAbort::NotPending
    }
}

/// What one completion of `receipt` guarantees of the authority `before`
/// and `after` it: the answer is `snapshot_completion_outcome`; an accepted
/// receipt is recorded as completed; and a repeated or malformed receipt
/// leaves the authority as it was.
pub open spec fn snapshot_completion_step(
    before: LifecycleAuthority,
    receipt: SnapshotWriteReceipt,
    after: LifecycleAuthority,
    r: Result<EffectCompletion, LifecycleProjectionError>,
) -> bool {
    &&& r == snapshot_completion_outcome(before, receipt)
    &&& r is Ok ==> after.snapshot_effect_ledger.core.completed@.contains(receipt.key())
    &&& (receipt.maybe_completed_at is None || receipt.maybe_strength is None
        || before.snapshot_effect_ledger.core.completed@.contains(receipt.key())) ==> after == before
}

/// What completing a snapshot write answers: a receipt without its time or
/// strength, or one that matches nothing, is refused; a repeated one is
/// already applied; a pending one is applied when it is bound to the current
/// epoch and generation, and achieved but stale otherwise.
pub open spec fn snapshot_completion_outcome(a: LifecycleAuthority, receipt: SnapshotWriteReceipt) -> Result<
    EffectCompletion,
    LifecycleProjectionError,
> {
    if receipt.maybe_completed_at is None || receipt.maybe_strength is None {
        Err(LifecycleProjectionError::InvalidEffectReceipt(ReceiptFamily::TypedSnapshot))
    } else if a.snapshot_effect_ledger.core.completed@.contains(receipt.key()) {
        Ok(EffectCompletion::AlreadyApplied)
    } else if a.snapshot_effect_ledger.core.pending@.contains(receipt.key()) {
        if snapshot_receipt_is_fresh(a, receipt) {
            Ok(EffectCompletion::Applied)
        } else {
            Ok(EffectCompletion::AchievedButStale)
        }
    } else {
        Err(LifecycleProjectionError::InvalidEffectReceipt(ReceiptFamily::TypedSnapshot))
    }
}

impl LifecycleAuthority {
    pub open spec fn wf(&self) -> bool {
        &&& self.peer_effect_ledger.wf()
        &&& self.snapshot_effect_ledger.wf()
        &&& self.unbroadcast_members@.no_duplicates()
        &&& peers_distinct(self.peer_sessions@)
    }

    /// Whether this is the fresh authority of `authority_epoch`: initial
    /// generation, nothing dirty, zero evidence, no checkpoint attempted, no
    /// peer session, empty ledgers that have reserved nothing yet, and no
    /// unbroadcast member.
    pub open spec fn is_fresh(&self, authority_epoch: AuthorityEpoch) -> bool {
        &&& self.authority_epoch == authority_epoch
        &&& self.lifecycle_generation == LifecycleGeneration(0)
        &&& self.dirty_generation is None
        &&& self.lifecycle_evidence == zero_evidence()
        &&& self.checkpoint_evidence == fresh_checkpoint_state()
        &&& self.peer_sessions@.len() == 0
        &&& self.peer_effect_ledger.core.pending@.len() == 0
        &&& self.peer_effect_ledger.core.completed@.len() == 0
        &&& self.peer_effect_ledger.next_id == 0
        &&& self.snapshot_effect_ledger.core.pending@.len() == 0
        &&& self.snapshot_effect_ledger.core.completed@.len() == 0
        &&& self.snapshot_effect_ledger.next_id == 0
        &&& self.unbroadcast_members@.len() == 0
        &&& self.maybe_last_transport_written_clear is None
    }

    /// A fresh authority for the given epoch.
    pub fn new(authority_epoch: AuthorityEpoch) -> (r: LifecycleAuthority)
        ensures
            r.wf(),
            r.is_fresh(authority_epoch),
            r.authority_epoch == authority_epoch,
            r.lifecycle_generation == LifecycleGeneration(0),
            r.dirty_generation is None,
            r.lifecycle_evidence == zero_evidence(),
            r.checkpoint_evidence == fresh_checkpoint_state(),
            r.peer_sessions@.len() == 0,
            r.peer_effect_ledger.core.pending@.len() == 0,
            r.peer_effect_ledger.core.completed@.len() == 0,
            r.snapshot_effect_ledger.core.pending@.len() == 0,
            r.snapshot_effect_ledger.core.completed@.len() == 0,
            r.unbroadcast_members@.len() == 0,
            r.maybe_last_transport_written_clear is None,
    {
        LifecycleAuthority {
            authority_epoch,
            lifecycle_generation: LifecycleGeneration::initial(),
            dirty_generation: None,
            lifecycle_evidence: LifecycleEvidenceSnapshot {
                committed_transitions: 0,
                admitted_members: 0,
                removed_members: 0,
                retry_clears: 0,
                replacement_removals: 0,
                expiry_removals: 0,
                pressure_removals: 0,
                block_confirmation_removals: 0,
                block_conflict_removals: 0,
                reorg_removals: 0,
            },
            checkpoint_evidence: CheckpointAuthorityState::new(),
            peer_sessions: Vec::new(),
            peer_effect_ledger: PeerEffectLedger::new(),
            snapshot_effect_ledger: SnapshotEffectLedger::new(),
            unbroadcast_members: Vec::new(),
            maybe_last_transport_written_clear: None,
        }
    }

    fn session_index(&self, peer_id: PeerId) -> (r: Option<usize>)
        requires
            peers_distinct(self.peer_sessions@),
        ensures
            r matches Some(i) ==> i < self.peer_sessions@.len() && self.peer_sessions@[i as int].peer_id == peer_id
                && session_of(self.peer_sessions@, peer_id) == self.peer_sessions@[i as int].generation,
            r is None ==> (forall|j: int| 0 <= j < self.peer_sessions@.len() ==> (#[trigger] self.peer_sessions@[j]).peer_id
                != peer_id) && session_of(self.peer_sessions@, peer_id) == PeerSessionGeneration(0),
    {
        let mut i: usize = 0;
        while i < self.peer_sessions.len()
            invariant
                i <= self.peer_sessions@.len(),
                peers_distinct(self.peer_sessions@),
                forall|j: int| 0 <= j < i ==> (#[trigger] self.peer_sessions@[j]).peer_id != peer_id,
            decreases self.peer_sessions@.len() - i,
        {
            if self.peer_sessions[i].peer_id == peer_id {
                proof {
                    let s = self.peer_sessions@;
                    let k = choose|k: int| 0 <= k < s.len() && (#[trigger] s[k]).peer_id == peer_id;
                    assert(k == i as int);
                }
                return Some(i);
            }
            i = i + 1;
        }
        None
    }

    /// The session generation of `peer_id`.
    pub fn peer_session_generation(&self, peer_id: PeerId) -> (r: PeerSessionGeneration)
        requires
            self.wf(),
        ensures
            r == session_of(self.peer_sessions@, peer_id),
    {
        match self.session_index(peer_id) {
            Some(i) => self.peer_sessions[i].generation,
            None => PeerSessionGeneration::initial(),
        }
    }

    /// Starts a new session of `peer_id`: its generation advances, so effects
    /// prepared for the previous session become stale.
    pub fn begin_peer_session(&mut self, peer_id: PeerId) -> (r: Result<PeerSessionGeneration, EffectPreparationError>)
        requires
            old(self).wf(),
        ensures
            final(self).wf(),
            session_of(old(self).peer_sessions@, peer_id).0 == u64::MAX ==> r == Err::<
                PeerSessionGeneration,
                EffectPreparationError,
            >(EffectPreparationError::EffectIdentityExhausted) && final(self).peer_sessions@ == old(self).peer_sessions@,
            session_of(old(self).peer_sessions@, peer_id).0 < u64::MAX ==> r == Ok::<
                PeerSessionGeneration,
                EffectPreparationError,
            >(PeerSessionGeneration((session_of(old(self).peer_sessions@, peer_id).0 + 1) as u64)),
            r matches Ok(g) ==> session_of(final(self).peer_sessions@, peer_id) == g,
            forall|p: PeerId| p != peer_id ==> session_of(final(self).peer_sessions@, p) == session_of(
                old(self).peer_sessions@,
                p,
            ),
            final(self).peer_effect_ledger == old(self).peer_effect_ledger,
            final(self).snapshot_effect_ledger == old(self).snapshot_effect_ledger,
            final(self).authority_epoch == old(self).authority_epoch,
            final(self).lifecycle_generation == old(self).lifecycle_generation,
            final(self).dirty_generation == old(self).dirty_generation,
            final(self).lifecycle_evidence == old(self).lifecycle_evidence,
            final(self).checkpoint_evidence == old(self).checkpoint_evidence,
            final(self).unbroadcast_members@ == old(self).unbroadcast_members@,
            final(self).maybe_last_transport_written_clear == old(self).maybe_last_transport_written_clear,
    {
        let current = self.peer_session_generation(peer_id);
        let next = match current.checked_next() {
            Ok(next) => next,
            Err(e) => return Err(e),
        };
        let ghost before = self.peer_sessions@;
        match self.session_index(peer_id) {
            Some(i) => {
                self.peer_sessions.set(i, PeerSessionEntry { peer_id, generation: next });
                proof {
                    let s = self.peer_sessions@;
                    assert forall|a: int, b: int| 0 <= a < s.len() && 0 <= b < s.len() && a != b implies (#[trigger] s[a]).peer_id
                        != (#[trigger] s[b]).peer_id by {
                        assert(s[a].peer_id == before[a].peer_id);
                        assert(s[b].peer_id == before[b].peer_id);
                    }
                    assert(s[i as int].peer_id == peer_id);
                    let k = choose|k: int| 0 <= k < s.len() && (#[trigger] s[k]).peer_id == peer_id;
                    assert(k == i as int);
                    assert forall|p: PeerId| p != peer_id implies session_of(s, p) == session_of(before, p) by {
                        if exists|j: int| 0 <= j < before.len() && (#[trigger] before[j]).peer_id == p {
                            let j = choose|j: int| 0 <= j < before.len() && (#[trigger] before[j]).peer_id == p;
                            assert(s[j].peer_id == p);
                            let j2 = choose|j2: int| 0 <= j2 < s.len() && (#[trigger] s[j2]).peer_id == p;
                            assert(before[j2].peer_id == p);
                        } else {
                            assert forall|j: int| 0 <= j < s.len() implies (#[trigger] s[j]).peer_id != p by {
                                assert(s[j].peer_id == before[j].peer_id);
                            }
                        }
                    }
                }
            },
            None => {
                self.peer_sessions.push(PeerSessionEntry { peer_id, generation: next });
                proof {
                    let s = self.peer_sessions@;
                    assert forall|a: int, b: int| 0 <= a < s.len() && 0 <= b < s.len() && a != b implies (#[trigger] s[a]).peer_id
                        != (#[trigger] s[b]).peer_id by {
                        if a < before.len() && b < before.len() {
                            assert(s[a] == before[a]);
                            assert(s[b] == before[b]);
                        } else if a < before.len() {
                            assert(s[a] == before[a]);
                        } else if b < before.len() {
                            assert(s[b] == before[b]);
                        }
                    }
                    assert(s[before.len() as int].peer_id == peer_id);
                    assert forall|p: PeerId| p != peer_id implies session_of(s, p) == session_of(before, p) by {
                        if exists|j: int| 0 <= j < before.len() && (#[trigger] before[j]).peer_id == p {
                            let j = choose|j: int| 0 <= j < before.len() && (#[trigger] before[j]).peer_id == p;
                            assert(s[j].peer_id == p);
                            let j2 = choose|j2: int| 0 <= j2 < s.len() && (#[trigger] s[j2]).peer_id == p;
                            assert(j2 < before.len());
                            assert(before[j2].peer_id == p);
                        } else {
                            assert forall|j: int| 0 <= j < s.len() implies (#[trigger] s[j]).peer_id != p by {
                                if j < before.len() {
                                    assert(s[j] == before[j]);
                                }
                            }
                        }
                    }
                }
            },
        }
        Ok(next)
    }

    /// Drops the session record of `peer_id` when no effect for it is pending.
    pub fn maybe_forget_peer_session_generation(&mut self, peer_id: PeerId)
        requires
            old(self).wf(),
        ensures
            final(self).wf(),
            old(self).peer_effect_ledger.has_pending_for_peer_spec(peer_id) ==> final(self).peer_sessions@ == old(self).peer_sessions@,
            !old(self).peer_effect_ledger.has_pending_for_peer_spec(peer_id) ==> session_of(final(self).peer_sessions@, peer_id)
                == PeerSessionGeneration(0),
            forall|p: PeerId| p != peer_id ==> session_of(final(self).peer_sessions@, p) == session_of(
                old(self).peer_sessions@,
                p,
            ),
            final(self).peer_effect_ledger == old(self).peer_effect_ledger,
            final(self).snapshot_effect_ledger == old(self).snapshot_effect_ledger,
            final(self).authority_epoch == old(self).authority_epoch,
            final(self).lifecycle_generation == old(self).lifecycle_generation,
            final(self).dirty_generation == old(self).dirty_generation,
            final(self).lifecycle_evidence == old(self).lifecycle_evidence,
            final(self).checkpoint_evidence == old(self).checkpoint_evidence,
            final(self).unbroadcast_members@ == old(self).unbroadcast_members@,
            final(self).maybe_last_transport_written_clear == old(self).maybe_last_transport_written_clear,
    {
        if self.peer_effect_ledger.has_pending_for_peer(peer_id) {
            return;
        }
        let ghost before = self.peer_sessions@;
        match self.session_index(peer_id) {
            None => {},
            Some(i) => {
                self.peer_sessions.remove(i);
                proof {
                    let s = self.peer_sessions@;
                    assert forall|j: int| 0 <= j < s.len() implies #[trigger] s[j] == before[if j < i { j } else { j + 1 }] by {}
                    assert forall|a: int, b: int| 0 <= a < s.len() && 0 <= b < s.len() && a != b implies (#[trigger] s[a]).peer_id
                        != (#[trigger] s[b]).peer_id by {
                        let aa = if a < i { a } else { a + 1 };
                        let bb = if b < i { b } else { b + 1 };
                        assert(s[a] == before[aa]);
                        assert(s[b] == before[bb]);
                    }
                    assert forall|j: int| 0 <= j < s.len() implies (#[trigger] s[j]).peer_id != peer_id by {
                        let jj = if j < i { j } else { j + 1 };
                        assert(s[j] == before[jj]);
                        assert(jj != i as int);
                    }
                    assert forall|p: PeerId| p != peer_id implies session_of(s, p) == session_of(before, p) by {
                        if exists|j: int| 0 <= j < before.len() && (#[trigger] before[j]).peer_id == p {
                            let j = choose|j: int| 0 <= j < before.len() && (#[trigger] before[j]).peer_id == p;
                            assert(j != i as int);
                            let jn = if j < i { j } else { j - 1 };
                            assert(s[jn] == before[j]);
                            let j2 = choose|j2: int| 0 <= j2 < s.len() && (#[trigger] s[j2]).peer_id == p;
                            let jj2 = if j2 < i { j2 } else { j2 + 1 };
                            assert(s[j2] == before[jj2]);
                        } else {
                            assert forall|j: int| 0 <= j < s.len() implies (#[trigger] s[j]).peer_id != p by {
                                let jj = if j < i { j } else { j + 1 };
                                assert(s[j] == before[jj]);
                            }
                        }
                    }
                }
            },
        }
    }

    /// Captures one snapshot write bound to the current epoch and generation.
    /// A mempool of `entry_count` entries, more than the `max_live_entries`
    /// its capacity allows, is refused before anything is reserved.
    pub fn prepare_snapshot<T>(
        &mut self,
        captured_at: PolicyTime,
        trigger: CheckpointTrigger,
        snapshot: T,
        entry_count: usize,
        max_live_entries: usize,
    ) -> (r: Result<PreparedSnapshotWrite<T>, LifecycleProjectionError>)
        requires
            old(self).wf(),
        ensures
            entry_count > max_live_entries ==> r == Err::<PreparedSnapshotWrite<T>, LifecycleProjectionError>(
                LifecycleProjectionError::MempoolSnapshot(MempoolSnapshotError::ResourceBoundExceeded),
            ) && *final(self) == *old(self),
            final(self).wf(),
            final(self).authority_epoch == old(self).authority_epoch,
            final(self).lifecycle_generation == old(self).lifecycle_generation,
            final(self).dirty_generation == old(self).dirty_generation,
            final(self).lifecycle_evidence == old(self).lifecycle_evidence,
            final(self).peer_effect_ledger == old(self).peer_effect_ledger,
            final(self).peer_sessions@ == old(self).peer_sessions@,
            final(self).unbroadcast_members@ == old(self).unbroadcast_members@,
            final(self).maybe_last_transport_written_clear == old(self).maybe_last_transport_written_clear,
            final(self).snapshot_effect_ledger.core.completed@ == old(self).snapshot_effect_ledger.core.completed@,
            r is Ok <==> entry_count <= max_live_entries && old(self).snapshot_effect_ledger.next_id < u64::MAX
                && old(self).snapshot_effect_ledger.core.pending@.len() == 0,
            r is Err ==> final(self).snapshot_effect_ledger.core.pending@ == old(self).snapshot_effect_ledger.core.pending@
                && final(self).checkpoint_evidence == old(self).checkpoint_evidence,
            r matches Ok(p) ==> {
                &&& p.snapshot == snapshot
                &&& p.capability.authority_epoch == old(self).authority_epoch
                &&& p.capability.persistence_generation == old(self).lifecycle_generation
                &&& p.capability.captured_at == captured_at
                &&& p.capability.trigger == trigger
                &&& final(self).snapshot_effect_ledger.core.pending@ == seq![p.capability.key()]
                &&& final(self).checkpoint_evidence.maybe_in_flight == Some(
                    crate::checkpoint_evidence::CheckpointAttempt {
                        generation: old(self).lifecycle_generation,
                        captured_at,
                        trigger,
                    },
                )
                &&& final(self).checkpoint_evidence.outcome == crate::checkpoint_evidence::CheckpointOutcome::Pending
                &&& final(self).checkpoint_evidence.maybe_last_durable == old(self).checkpoint_evidence.maybe_last_durable
            },
            entry_count <= max_live_entries ==> (r matches Err(e) ==> e matches LifecycleProjectionError::EffectPreparation(
                _,
            )),
    {
        if entry_count > max_live_entries {
            return Err(LifecycleProjectionError::MempoolSnapshot(MempoolSnapshotError::ResourceBoundExceeded));
        }
        let reserved = self.snapshot_effect_ledger.reserve_next(
            self.authority_epoch,
            self.lifecycle_generation,
            captured_at,
            trigger,
            snapshot,
        );
        match reserved {
            Ok(prepared) => {
                self.checkpoint_evidence.note_prepared(self.lifecycle_generation, captured_at, trigger);
                proof {
                    assert(self.snapshot_effect_ledger.core.pending@ =~= seq![prepared.capability.key()]);
                }
                Ok(prepared)
            },
            Err(e) => Err(LifecycleProjectionError::EffectPreparation(e)),
        }
    }

    /// Reserves one peer-bound write bound to the current epoch, generation and session.
    pub fn prepare_relay(&mut self, peer_id: PeerId) -> (r: Result<PeerEffectCapability, LifecycleProjectionError>)
        requires
            old(self).wf(),
        ensures
            final(self).wf(),
            final(self).authority_epoch == old(self).authority_epoch,
            final(self).lifecycle_generation == old(self).lifecycle_generation,
            final(self).dirty_generation == old(self).dirty_generation,
            final(self).lifecycle_evidence == old(self).lifecycle_evidence,
            final(self).checkpoint_evidence == old(self).checkpoint_evidence,
            final(self).snapshot_effect_ledger == old(self).snapshot_effect_ledger,
            final(self).peer_sessions@ == old(self).peer_sessions@,
            final(self).unbroadcast_members@ == old(self).unbroadcast_members@,
            final(self).maybe_last_transport_written_clear == old(self).maybe_last_transport_written_clear,
            final(self).peer_effect_ledger.core.completed@ == old(self).peer_effect_ledger.core.completed@,
            r is Ok <==> old(self).peer_effect_ledger.next_id < u64::MAX && old(self).peer_effect_ledger.core.pending@.len()
                < crate::effects::MAX_PENDING_PEER_EFFECTS,
            r is Err ==> final(self).peer_effect_ledger.core.pending@ == old(self).peer_effect_ledger.core.pending@,
            r matches Ok(cap) ==> {
                &&& cap.authority_epoch == old(self).authority_epoch
                &&& cap.lifecycle_generation == old(self).lifecycle_generation
                &&& cap.peer_id == peer_id
                &&& cap.peer_session_generation == session_of(old(self).peer_sessions@, peer_id)
                &&& final(self).peer_effect_ledger.core.pending@ == old(self).peer_effect_ledger.core.pending@.push(cap.key())
            },
            r matches Err(e) ==> e matches LifecycleProjectionError::EffectPreparation(_),
    {
        let session = self.peer_session_generation(peer_id);
        match self.peer_effect_ledger.reserve_next(self.authority_epoch, self.lifecycle_generation, peer_id, session) {
            Ok(capability) => Ok(capability),
            Err(e) => Err(LifecycleProjectionError::EffectPreparation(e)),
        }
    }

    /// Releases one exact peer reservation when no outside write was achieved.
    pub fn abort_peer_effect(&mut self, capability: PeerEffectCapability) -> (r: EffectAbort)
        requires
            old(self).wf(),
        ensures
            final(self).wf(),
            r == peer_abort_outcome(*old(self), capability),
            final(self).authority_epoch == old(self).authority_epoch,
            final(self).lifecycle_generation == old(self).lifecycle_generation,
            final(self).dirty_generation == old(self).dirty_generation,
            final(self).lifecycle_evidence == old(self).lifecycle_evidence,
            final(self).checkpoint_evidence == old(self).checkpoint_evidence,
            final(self).snapshot_effect_ledger == old(self).snapshot_effect_ledger,
            final(self).unbroadcast_members@ == old(self).unbroadcast_members@,
            final(self).peer_effect_ledger.core.completed@ == old(self).peer_effect_ledger.core.completed@,
            capability.authority_epoch != old(self).authority_epoch ==> r == EffectAbort::NotPending
                && final(self).peer_effect_ledger == old(self).peer_effect_ledger && final(self).peer_sessions@ == old(
                self,
            ).peer_sessions@,
            capability.authority_epoch == old(self).authority_epoch ==> {
                &&& old(self).peer_effect_ledger.core.completed@.contains(capability.key()) ==> r == EffectAbort::AlreadyCompleted
                &&& !old(self).peer_effect_ledger.core.completed@.contains(capability.key())
                    && old(self).peer_effect_ledger.core.pending@.contains(capability.key()) ==> r == EffectAbort::Aborted
                &&& !old(self).peer_effect_ledger.core.completed@.contains(capability.key())
                    && !old(self).peer_effect_ledger.core.pending@.contains(capability.key()) ==> r == EffectAbort::NotPending
            },
            r != EffectAbort::Aborted ==> final(self).peer_effect_ledger.core.pending@ == old(
                self,
            ).peer_effect_ledger.core.pending@ && final(self).peer_sessions@ == old(self).peer_sessions@,
            r == EffectAbort::Aborted ==> final(self).peer_effect_ledger.core.pending@.to_set() == old(
                self,
            ).peer_effect_ledger.core.pending@.to_set().remove(capability.key()),
    {
        if capability.authority_epoch != self.authority_epoch {
            return EffectAbort::NotPending;
        }
        let peer_id = capability.peer_id();
        let abort = self.peer_effect_ledger.abort_exact(&capability);
        if abort == EffectAbort::Aborted {
            self.maybe_forget_peer_session_generation(peer_id);
        }
        abort
    }

    /// Releases one exact snapshot reservation and records the failure.
    pub fn abort_snapshot_write(&mut self, abort_request: &SnapshotWriteAbort) -> (r: EffectAbort)
        requires
            old(self).wf(),
        ensures
            final(self).wf(),
            r == snapshot_abort_outcome(*old(self), *abort_request),
            final(self).authority_epoch == old(self).authority_epoch,
            final(self).lifecycle_generation == old(self).lifecycle_generation,
            final(self).dirty_generation == old(self).dirty_generation,
            final(self).lifecycle_evidence == old(self).lifecycle_evidence,
            final(self).peer_effect_ledger == old(self).peer_effect_ledger,
            final(self).peer_sessions@ == old(self).peer_sessions@,
            final(self).unbroadcast_members@ == old(self).unbroadcast_members@,
            final(self).snapshot_effect_ledger.core.completed@ == old(self).snapshot_effect_ledger.core.completed@,
            old(self).snapshot_effect_ledger.core.completed@.contains(abort_request.capability.key()) ==> r
                == EffectAbort::AlreadyCompleted,
            !old(self).snapshot_effect_ledger.core.completed@.contains(abort_request.capability.key())
                && old(self).snapshot_effect_ledger.core.pending@.contains(abort_request.capability.key()) ==> r
                == EffectAbort::Aborted,
            !old(self).snapshot_effect_ledger.core.completed@.contains(abort_request.capability.key())
                && !old(self).snapshot_effect_ledger.core.pending@.contains(abort_request.capability.key()) ==> r
                == EffectAbort::NotPending,
            r != EffectAbort::Aborted ==> final(self).checkpoint_evidence == old(self).checkpoint_evidence
                && final(self).snapshot_effect_ledger.core.pending@ == old(self).snapshot_effect_ledger.core.pending@,
            r == EffectAbort::Aborted ==> {
                &&& final(self).snapshot_effect_ledger.core.pending@.to_set() == old(
                    self,
                ).snapshot_effect_ledger.core.pending@.to_set().remove(abort_request.capability.key())
                &&& final(self).checkpoint_evidence.outcome == crate::checkpoint_evidence::CheckpointOutcome::Failed
                &&& final(self).checkpoint_evidence.maybe_failure == Some(abort_request.failure)
                &&& final(self).checkpoint_evidence.maybe_failed_at == Some(abort_request.failed_at)
                &&& final(self).checkpoint_evidence.maybe_last_durable == old(self).checkpoint_evidence.maybe_last_durable
            },
    {
        let generation = abort_request.capability.persistence_generation();
        let abort = self.snapshot_effect_ledger.abort_exact(&abort_request.capability);
        if abort == EffectAbort::Aborted {
            self.checkpoint_evidence.note_aborted(generation, abort_request.failed_at(), abort_request.failure());
        }
        abort
    }

    /// Classifies one achieved snapshot write. A receipt of the current epoch
    /// and generation is applied and clears the matching dirty generation; an
    /// older one is achieved but stale; a repeated one is already applied.
    pub fn complete_snapshot_write(&mut self, receipt: &SnapshotWriteReceipt) -> (r: Result<
        EffectCompletion,
        LifecycleProjectionError,
    >)
        requires
            old(self).wf(),
        ensures
            final(self).wf(),
            r == snapshot_completion_outcome(*old(self), *receipt),
            snapshot_completion_step(*old(self), *receipt, *final(self), r),
            final(self).authority_epoch == old(self).authority_epoch,
            final(self).lifecycle_generation == old(self).lifecycle_generation,
            final(self).lifecycle_evidence == old(self).lifecycle_evidence,
            final(self).peer_effect_ledger == old(self).peer_effect_ledger,
            final(self).peer_sessions@ == old(self).peer_sessions@,
            final(self).unbroadcast_members@ == old(self).unbroadcast_members@,
            (receipt.maybe_completed_at is None || receipt.maybe_strength is None) ==> r == Err::<
                EffectCompletion,
                LifecycleProjectionError,
            >(LifecycleProjectionError::InvalidEffectReceipt(ReceiptFamily::TypedSnapshot)),
            receipt.maybe_completed_at is Some && receipt.maybe_strength is Some ==> {
                &&& old(self).snapshot_effect_ledger.core.completed@.contains(receipt.key()) ==> r == Ok::<
                    EffectCompletion,
                    LifecycleProjectionError,
                >(EffectCompletion::AlreadyApplied)
                &&& !old(self).snapshot_effect_ledger.core.completed@.contains(receipt.key())
                    && !old(self).snapshot_effect_ledger.core.pending@.contains(receipt.key()) ==> r == Err::<
                    EffectCompletion,
                    LifecycleProjectionError,
                >(LifecycleProjectionError::InvalidEffectReceipt(ReceiptFamily::TypedSnapshot))
                &&& old(self).snapshot_effect_ledger.core.pending@.contains(receipt.key()) ==> {
                    &&& r == Ok::<EffectCompletion, LifecycleProjectionError>(
                        if snapshot_receipt_is_fresh(*old(self), *receipt) {
                            EffectCompletion::Applied
                        } else {
                            EffectCompletion::AchievedButStale
                        },
                    )
                    &&& final(self).dirty_generation == if snapshot_receipt_is_fresh(*old(self), *receipt)
                        && old(self).dirty_generation == Some(receipt.persistence_generation) {
                        None
                    } else {
                        old(self).dirty_generation
                    }
                    &&& final(self).snapshot_effect_ledger.core.pending@.to_set() == old(
                        self,
                    ).snapshot_effect_ledger.core.pending@.to_set().remove(receipt.key())
                    &&& final(self).snapshot_effect_ledger.core.completed@.contains(receipt.key())
                    &&& final(self).checkpoint_evidence.outcome == crate::checkpoint_evidence::CheckpointOutcome::Succeeded
                }
            },
            !(old(self).snapshot_effect_ledger.core.pending@.contains(receipt.key()) && receipt.maybe_completed_at is Some
                && receipt.maybe_strength is Some) ==> final(self).dirty_generation == old(self).dirty_generation
                && final(self).checkpoint_evidence == old(self).checkpoint_evidence
                && final(self).snapshot_effect_ledger.core.pending@ == old(self).snapshot_effect_ledger.core.pending@
                && final(self).snapshot_effect_ledger.core.completed@ == old(self).snapshot_effect_ledger.core.completed@,
    {
        if receipt.completed_at().is_none() || receipt.persistence_strength().is_none() {
            return Err(LifecycleProjectionError::InvalidEffectReceipt(ReceiptFamily::TypedSnapshot));
        }
        let key = receipt.exact_key();
        if self.snapshot_effect_ledger.is_completed(key) {
            return Ok(EffectCompletion::AlreadyApplied);
        }
        let exact = self.snapshot_effect_ledger.complete_exact(receipt);
        if exact != ExactEffectLedgerCompletion::Recorded {
            return Err(LifecycleProjectionError::InvalidEffectReceipt(ReceiptFamily::TypedSnapshot));
        }
        self.checkpoint_evidence.note_completed(receipt);
        let is_fresh = receipt.authority_epoch == self.authority_epoch && receipt.persistence_generation
            == self.lifecycle_generation;
        if is_fresh && self.dirty_generation == Some(receipt.persistence_generation) {
            self.dirty_generation = None;
        }
        proof {
            let s = old(self).snapshot_effect_ledger.core.completed@.push(key);
            assert(s.last() == key);
            if s.len() > crate::effects::MAX_COMPLETED_SNAPSHOT_EFFECTS {
                assert(s.drop_first().last() == key);
                assert(s.drop_first()[s.drop_first().len() - 1] == key);
            } else {
                assert(s[s.len() - 1] == key);
            }
        }
        if is_fresh {
            Ok(EffectCompletion::Applied)
        } else {
            Ok(EffectCompletion::AchievedButStale)
        }
    }

    /// Classifies one achieved peer write. A fresh transaction response
    /// clears its member from the unbroadcast set.
    pub fn complete_peer_effect(&mut self, receipt: PeerEffectReceipt, maybe_tx_response_member: Option<MemberIdentity>) -> (r:
        Result<EffectCompletion, LifecycleProjectionError>)
        requires
            old(self).wf(),
        ensures
            final(self).wf(),
            final(self).authority_epoch == old(self).authority_epoch,
            final(self).lifecycle_generation == old(self).lifecycle_generation,
            final(self).dirty_generation == old(self).dirty_generation,
            final(self).checkpoint_evidence == old(self).checkpoint_evidence,
            final(self).snapshot_effect_ledger == old(self).snapshot_effect_ledger,
            old(self).peer_effect_ledger.core.completed@.contains(receipt.key()) ==> r == Ok::<
                EffectCompletion,
                LifecycleProjectionError,
            >(EffectCompletion::AlreadyApplied),
            !old(self).peer_effect_ledger.core.completed@.contains(receipt.key())
                && !old(self).peer_effect_ledger.core.pending@.contains(receipt.key()) ==> r == Err::<
                EffectCompletion,
                LifecycleProjectionError,
            >(LifecycleProjectionError::InvalidEffectReceipt(ReceiptFamily::Peer)),
            !old(self).peer_effect_ledger.core.pending@.contains(receipt.key()) ==> final(self).peer_effect_ledger.core.pending@
                == old(self).peer_effect_ledger.core.pending@ && final(self).peer_effect_ledger.core.completed@
                == old(self).peer_effect_ledger.core.completed@ && final(self).unbroadcast_members@ == old(self).unbroadcast_members@
                && final(self).lifecycle_evidence == old(self).lifecycle_evidence && final(self).peer_sessions@ == old(
                self,
            ).peer_sessions@,
            old(self).peer_effect_ledger.core.pending@.contains(receipt.key()) ==> {
                let fresh = peer_receipt_is_fresh(*old(self), receipt);
                &&& r == Ok::<EffectCompletion, LifecycleProjectionError>(
                    if fresh {
                        EffectCompletion::Applied
                    } else {
                        EffectCompletion::AchievedButStale
                    },
                )
                &&& final(self).peer_effect_ledger.core.pending@.to_set() == old(
                    self,
                ).peer_effect_ledger.core.pending@.to_set().remove(receipt.key())
                &&& final(self).peer_effect_ledger.core.completed@.contains(receipt.key())
                &&& (fresh && maybe_tx_response_member is Some) ==> {
                    &&& final(self).unbroadcast_members@.to_set() == old(self).unbroadcast_members@.to_set().remove(
                        maybe_tx_response_member.unwrap(),
                    )
                    &&& final(self).lifecycle_evidence.retry_clears == sat_add(old(self).lifecycle_evidence.retry_clears, 1)
                    &&& final(self).maybe_last_transport_written_clear == maybe_tx_response_member
                }
                &&& !(fresh && maybe_tx_response_member is Some) ==> final(self).unbroadcast_members@ == old(
                    self,
                ).unbroadcast_members@ && final(self).lifecycle_evidence == old(self).lifecycle_evidence
            },
    {
        let key = receipt.exact_key();
        if self.peer_effect_ledger.is_completed(key) {
            return Ok(EffectCompletion::AlreadyApplied);
        }
        if !self.peer_effect_ledger.is_pending(&receipt) {
            return Err(LifecycleProjectionError::InvalidEffectReceipt(ReceiptFamily::Peer));
        }
        let peer_id = receipt.peer_id();
        let session = self.peer_session_generation(peer_id);
        let is_fresh = receipt.authority_epoch == self.authority_epoch && receipt.lifecycle_generation
            == self.lifecycle_generation && receipt.peer_session_generation == session;
        let exact = self.peer_effect_ledger.complete_exact(&receipt);
        if exact != ExactEffectLedgerCompletion::Recorded {
            return Err(LifecycleProjectionError::InvalidEffectReceipt(ReceiptFamily::Peer));
        }
        proof {
            let s = old(self).peer_effect_ledger.core.completed@.push(key);
            if s.len() > crate::effects::MAX_COMPLETED_PEER_EFFECTS {
                assert(s.drop_first()[s.drop_first().len() - 1] == key);
            } else {
                assert(s[s.len() - 1] == key);
            }
        }
        self.maybe_forget_peer_session_generation(peer_id);
        if is_fresh {
            if let Some(member) = maybe_tx_response_member {
                remove_member(&mut self.unbroadcast_members, member);
                self.lifecycle_evidence.retry_clears = saturating_add_u64(self.lifecycle_evidence.retry_clears, 1);
                self.maybe_last_transport_written_clear = Some(member);
            }
            Ok(EffectCompletion::Applied)
        } else {
            Ok(EffectCompletion::AchievedButStale)
        }
    }

    /// Commits a prepared persistence projection.
    pub fn apply_prepared_persistence(&mut self, prepared: PreparedPersistenceProjection)
        ensures
            final(self).lifecycle_generation == prepared.lifecycle_generation,
            final(self).dirty_generation == prepared.dirty_generation,
            final(self).authority_epoch == old(self).authority_epoch,
            final(self).lifecycle_evidence == old(self).lifecycle_evidence,
            final(self).checkpoint_evidence == old(self).checkpoint_evidence,
            final(self).peer_effect_ledger == old(self).peer_effect_ledger,
            final(self).snapshot_effect_ledger == old(self).snapshot_effect_ledger,
            final(self).peer_sessions == old(self).peer_sessions,
            final(self).unbroadcast_members == old(self).unbroadcast_members,
            final(self).maybe_last_transport_written_clear == old(self).maybe_last_transport_written_clear,
    {
        self.lifecycle_generation = prepared.lifecycle_generation;
        self.dirty_generation = prepared.dirty_generation;
    }

    /// Commits prepared lifecycle evidence.
    pub fn apply_prepared_evidence(&mut self, replacement: LifecycleEvidenceSnapshot)
        ensures
            final(self).lifecycle_evidence == replacement,
            final(self).lifecycle_generation == old(self).lifecycle_generation,
            final(self).dirty_generation == old(self).dirty_generation,
            final(self).authority_epoch == old(self).authority_epoch,
            final(self).checkpoint_evidence == old(self).checkpoint_evidence,
            final(self).peer_effect_ledger == old(self).peer_effect_ledger,
            final(self).snapshot_effect_ledger == old(self).snapshot_effect_ledger,
            final(self).peer_sessions == old(self).peer_sessions,
            final(self).unbroadcast_members == old(self).unbroadcast_members,
            final(self).maybe_last_transport_written_clear == old(self).maybe_last_transport_written_clear,
    {
        self.lifecycle_evidence = replacement;
    }

    /// The bounded checkpoint evidence at `now`.
    pub fn checkpoint_evidence(&self, now: PolicyTime, periodic_interval_seconds: u64) -> (r: CheckpointEvidenceSnapshot)
        ensures
            r == evidence_of(
                self.checkpoint_evidence,
                self.lifecycle_generation,
                self.dirty_generation,
                now,
                periodic_interval_seconds,
            ),
    {
        self.checkpoint_evidence.snapshot(self.lifecycle_generation, self.dirty_generation, now, periodic_interval_seconds)
    }
}

} // verus!
