//! What transaction fan-out remembers beside its queue: the wtxid of each
//! transaction it announced, and the relay ids each peer sent that were
//! rejected, so that they are not announced back to that peer.
use vstd::prelude::*;
use crate::identity::{hash_lt, PeerId, Txid, Wtxid};
use crate::keyed::KeyedList;
use crate::relay_serving::TxRelayId;
use crate::relay_evidence::TxFanoutCleanupReason;
use crate::admission_bridge::{MempoolOutcome, OutcomeView};

verus! {

/// How an admitted transaction entered the mempool.
#[derive(Debug, Clone, Copy, PartialEq, Eq, Structural, Hash)]
pub enum TxFanoutAdmissionOutcome {
    Accepted,
    Replaced,
}

/// A transaction to enqueue for fan-out.
#[derive(Debug, Clone, Copy, PartialEq, Eq, Structural)]
pub struct TxFanoutAdmission {
    pub txid: Txid,
    pub wtxid: Wtxid,
    pub outcome: TxFanoutAdmissionOutcome,
}

/// The fan-out admission of an outcome: accepted and replaced transactions only.
pub open spec fn admission_spec(o: OutcomeView) -> Option<TxFanoutAdmission> {
    match o {
        OutcomeView::Accepted { txid, wtxid, .. } => Some(
            TxFanoutAdmission { txid, wtxid, outcome: TxFanoutAdmissionOutcome::Accepted },
        ),
        OutcomeView::Replaced { txid, wtxid, .. } => Some(
            TxFanoutAdmission { txid, wtxid, outcome: TxFanoutAdmissionOutcome::Replaced },
        ),
        _ => None,
    }
}

/// The fan-out admission of an outcome.
pub fn tx_fanout_admission_from_outcome(outcome: &MempoolOutcome) -> (r: Option<TxFanoutAdmission>)
    ensures
        r == admission_spec(outcome@),
{
    match outcome {
        MempoolOutcome::Accepted { txid, wtxid, .. } => Some(
            TxFanoutAdmission { txid: *txid, wtxid: *wtxid, outcome: TxFanoutAdmissionOutcome::Accepted },
        ),
        MempoolOutcome::Replaced { txid, wtxid, .. } => Some(
            TxFanoutAdmission { txid: *txid, wtxid: *wtxid, outcome: TxFanoutAdmissionOutcome::Replaced },
        ),
        _ => None,
    }
}

/// The queue cleanup a forgotten transaction calls for.
#[derive(Debug, Clone, Copy, PartialEq, Eq, Structural)]
pub enum QueueCleanup {
    /// The transaction's wtxid was known: clean up both of its relay ids.
    Transaction { txid: Txid, wtxid: Wtxid, reason: TxFanoutCleanupReason },
    /// Only the txid is known: clean up that relay id.
    RelayId { relay_id: TxRelayId, reason: TxFanoutCleanupReason },
}

/// What fan-out does with a mempool outcome.
#[derive(Debug, Clone, PartialEq, Eq)]
pub enum FanoutStep {
    /// Enqueue the admitted transaction for the peers.
    Enqueue(TxFanoutAdmission),
    /// Clean up the queue as listed.
    Cleanup(Vec<QueueCleanup>),
    Nothing,
}

/// The remembered wtxids and the set of (peer, relay id) rejections.
pub struct FanoutMemoryView {
    pub wtxids_by_txid: Map<Txid, Wtxid>,
    pub recent_rejects: Set<(PeerId, TxRelayId)>,
}

/// Fan-out memory beside its queue.
pub struct RelayFanoutMemory {
    wtxids_by_txid: KeyedList<Wtxid>,
    recent_rejects: Vec<(PeerId, TxRelayId)>,
}

/// The rejections after a relay id is forgotten for every peer.
pub open spec fn without_relay_id(s: Set<(PeerId, TxRelayId)>, id: TxRelayId) -> Set<(PeerId, TxRelayId)> {
    s.filter(|p: (PeerId, TxRelayId)| p.1 != id)
}

/// The memory after one transaction is forgotten: its wtxid and every
/// rejection of its relay ids, the wtxid's only where it was known.
pub open spec fn after_forget(v: FanoutMemoryView, txid: Txid) -> FanoutMemoryView {
    let rejects = without_relay_id(v.recent_rejects, TxRelayId::Txid(txid));
    FanoutMemoryView {
        wtxids_by_txid: v.wtxids_by_txid.remove(txid),
        recent_rejects: if v.wtxids_by_txid.dom().contains(txid) {
            without_relay_id(rejects, TxRelayId::Wtxid(v.wtxids_by_txid[txid]))
        } else {
            rejects
        },
    }
}

/// The cleanup one transaction calls for.
pub open spec fn cleanup_of(v: FanoutMemoryView, txid: Txid, reason: TxFanoutCleanupReason) -> QueueCleanup {
    if v.wtxids_by_txid.dom().contains(txid) {
        QueueCleanup::Transaction { txid, wtxid: v.wtxids_by_txid[txid], reason }
    } else {
        QueueCleanup::RelayId { relay_id: TxRelayId::Txid(txid), reason }
    }
}

/// The memory after each of `txids` is forgotten, in order.
pub open spec fn after_forgets(v: FanoutMemoryView, txids: Seq<Txid>) -> FanoutMemoryView
    decreases txids.len(),
{
    if txids.len() == 0 {
        v
    } else {
        after_forget(after_forgets(v, txids.drop_last()), txids.last())
    }
}

/// The cleanups of `txids`, each read from the memory as it was when that
/// transaction was forgotten.
pub open spec fn cleanups_of(v: FanoutMemoryView, txids: Seq<Txid>, reason: TxFanoutCleanupReason) -> Seq<QueueCleanup>
    decreases txids.len(),
{
    if txids.len() == 0 {
        Seq::empty()
    } else {
        cleanups_of(v, txids.drop_last(), reason).push(
            cleanup_of(after_forgets(v, txids.drop_last()), txids.last(), reason),
        )
    }
}

impl View for RelayFanoutMemory {
    type V = FanoutMemoryView;

    closed spec fn view(&self) -> FanoutMemoryView {
        FanoutMemoryView { wtxids_by_txid: self.wtxids_by_txid@, recent_rejects: self.recent_rejects@.to_set() }
    }
}

impl RelayFanoutMemory {
    pub closed spec fn wf(&self) -> bool {
        self.wtxids_by_txid.wf()
    }

    /// Memory that holds nothing.
    pub fn new() -> (r: Self)
        ensures
            r.wf(),
            r@.wtxids_by_txid == Map::<Txid, Wtxid>::empty(),
            r@.recent_rejects == Set::<(PeerId, TxRelayId)>::empty(),
    {
        let r = RelayFanoutMemory { wtxids_by_txid: KeyedList::new(), recent_rejects: Vec::new() };
        assert(r@.recent_rejects =~= Set::<(PeerId, TxRelayId)>::empty());
        r
    }

    /// Remembers the wtxid of a transaction, as recovery does for survivors.
    pub fn seed_recovered_transaction(&mut self, txid: Txid, wtxid: Wtxid)
        requires
            old(self).wf(),
        ensures
            final(self).wf(),
            final(self)@.wtxids_by_txid == old(self)@.wtxids_by_txid.insert(txid, wtxid),
            final(self)@.recent_rejects == old(self)@.recent_rejects,
    {
        self.wtxids_by_txid.insert(txid, wtxid);
    }

    /// Whether `peer_id` sent `relay_id` and it was rejected.
    pub fn is_recent_reject(&self, peer_id: PeerId, relay_id: TxRelayId) -> (r: bool)
        ensures
            r == self@.recent_rejects.contains((peer_id, relay_id)),
    {
        let mut i: usize = 0;
        while i < self.recent_rejects.len()
            invariant
                i <= self.recent_rejects@.len(),
                forall|j: int| 0 <= j < i ==> self.recent_rejects@[j] != (peer_id, relay_id),
            decreases self.recent_rejects@.len() - i,
        {
            let (p, id) = self.recent_rejects[i];
            if p == peer_id && id == relay_id {
                assert(self.recent_rejects@[i as int] == (peer_id, relay_id));
                return true;
            }
            i = i + 1;
        }
        false
    }

    fn add_reject(&mut self, peer_id: PeerId, relay_id: TxRelayId)
        ensures
            final(self).wtxids_by_txid == old(self).wtxids_by_txid,
            final(self)@.recent_rejects == old(self)@.recent_rejects.insert((peer_id, relay_id)),
    {
        if !self.is_recent_reject(peer_id, relay_id) {
            self.recent_rejects.push((peer_id, relay_id));
            proof {
                self.recent_rejects@.drop_last().lemma_push_to_set_commute((peer_id, relay_id));
                assert(self.recent_rejects@.drop_last() =~= old(self).recent_rejects@);
            }
        } else {
            assert(old(self)@.recent_rejects.insert((peer_id, relay_id)) =~= old(self)@.recent_rejects);
        }
    }

    /// Forgets `relay_id` for every peer.
    fn remove_recent_reject(&mut self, relay_id: TxRelayId)
        ensures
            final(self).wtxids_by_txid == old(self).wtxids_by_txid,
            final(self)@.recent_rejects == without_relay_id(old(self)@.recent_rejects, relay_id),
    {
        let ghost s = self.recent_rejects@;
        let mut kept: Vec<(PeerId, TxRelayId)> = Vec::new();
        let mut i: usize = 0;
        while i < self.recent_rejects.len()
            invariant
                s == self.recent_rejects@,
                i <= s.len(),
                kept@.to_set() == without_relay_id(s.take(i as int).to_set(), relay_id),
            decreases s.len() - i,
        {
            let item = self.recent_rejects[i];
            proof {
                assert(s.take(i as int + 1) =~= s.take(i as int).push(item));
                s.take(i as int).lemma_push_to_set_commute(item);
            }
            let ghost prev = kept@;
            let ghost a = s.take(i as int).to_set();
            if item.1 != relay_id {
                kept.push(item);
                proof {
                    prev.lemma_push_to_set_commute(item);
                    assert(kept@ =~= prev.push(item));
                    assert(without_relay_id(a.insert(item), relay_id) =~= without_relay_id(a, relay_id).insert(item));
                }
            } else {
                proof {
                    assert(without_relay_id(a.insert(item), relay_id) =~= without_relay_id(a, relay_id));
                }
            }
            i = i + 1;
        }
        assert(s.take(s.len() as int) =~= s);
        self.recent_rejects = kept;
    }

    /// Forgets one transaction and gives the queue cleanup it calls for.
    pub fn forget_transaction(&mut self, txid: Txid, reason: TxFanoutCleanupReason) -> (r: QueueCleanup)
        requires
            old(self).wf(),
        ensures
            final(self).wf(),
            final(self)@ == after_forget(old(self)@, txid),
            r == cleanup_of(old(self)@, txid, reason),
    {
        match self.wtxids_by_txid.remove(&txid) {
            None => {
                self.remove_recent_reject(TxRelayId::Txid(txid));
                QueueCleanup::RelayId { relay_id: TxRelayId::Txid(txid), reason }
            },
            Some(wtxid) => {
                self.remove_recent_reject(TxRelayId::Txid(txid));
                self.remove_recent_reject(TxRelayId::Wtxid(wtxid));
                QueueCleanup::Transaction { txid, wtxid, reason }
            },
        }
    }

    /// Forgets each of `txids`, in order, giving the queue cleanups.
    pub fn cleanup_transactions(&mut self, txids: &Vec<Txid>, reason: TxFanoutCleanupReason) -> (r: Vec<QueueCleanup>)
        requires
            old(self).wf(),
        ensures
            final(self).wf(),
            final(self)@ == after_forgets(old(self)@, txids@),
            r@ == cleanups_of(old(self)@, txids@, reason),
    {
        let ghost v0 = self@;
        let mut out: Vec<QueueCleanup> = Vec::new();
        let mut i: usize = 0;
        while i < txids.len()
            invariant
                i <= txids@.len(),
                self.wf(),
                self@ == after_forgets(v0, txids@.take(i as int)),
                out@ == cleanups_of(v0, txids@.take(i as int), reason),
            decreases txids@.len() - i,
        {
            let c = self.forget_transaction(txids[i], reason);
            out.push(c);
            proof {
                assert(txids@.take(i as int + 1).drop_last() =~= txids@.take(i as int));
            }
            i = i + 1;
        }
        assert(txids@.take(txids@.len() as int) =~= txids@);
        out
    }

    /// Forgets every rejection of `peer_id`.
    pub fn cleanup_peer(&mut self, peer_id: PeerId)
        requires
            old(self).wf(),
        ensures
            final(self).wf(),
            final(self)@.wtxids_by_txid == old(self)@.wtxids_by_txid,
            final(self)@.recent_rejects == old(self)@.recent_rejects.filter(|p: (PeerId, TxRelayId)| p.0 != peer_id),
    {
        let ghost s = self.recent_rejects@;
        let ghost keep = |p: (PeerId, TxRelayId)| p.0 != peer_id;
        let mut kept: Vec<(PeerId, TxRelayId)> = Vec::new();
        let mut i: usize = 0;
        while i < self.recent_rejects.len()
            invariant
                s == self.recent_rejects@,
                keep == (|p: (PeerId, TxRelayId)| p.0 != peer_id),
                i <= s.len(),
                kept@.to_set() == s.take(i as int).to_set().filter(keep),
            decreases s.len() - i,
        {
            let item = self.recent_rejects[i];
            proof {
                assert(s.take(i as int + 1) =~= s.take(i as int).push(item));
                s.take(i as int).lemma_push_to_set_commute(item);
            }
            let ghost prev = kept@;
            let ghost a = s.take(i as int).to_set();
            if item.0 != peer_id {
                kept.push(item);
                proof {
                    prev.lemma_push_to_set_commute(item);
                    assert(kept@ =~= prev.push(item));
                    assert(a.insert(item).filter(keep) =~= a.filter(keep).insert(item));
                }
            } else {
                proof {
                    assert(a.insert(item).filter(keep) =~= a.filter(keep));
                }
            }
            i = i + 1;
        }
        assert(s.take(s.len() as int) =~= s);
        self.recent_rejects = kept;
    }

    /// The remembered wtxid of `txid`.
    pub fn wtxid_for_txid(&self, txid: Txid) -> (r: Option<Wtxid>)
        requires
            self.wf(),
        ensures
            r == (if self@.wtxids_by_txid.dom().contains(txid) {
                Some(self@.wtxids_by_txid[txid])
            } else {
                None
            }),
    {
        match self.wtxids_by_txid.get(&txid) {
            Some(w) => Some(*w),
            None => None,
        }
    }

    /// The least txid whose remembered wtxid is `wtxid`.
    pub fn txid_for_wtxid(&self, wtxid: Wtxid) -> (r: Option<Txid>)
        requires
            self.wf(),
        ensures
            match r {
                Some(t) => self@.wtxids_by_txid.dom().contains(t) && self@.wtxids_by_txid[t] == wtxid && forall|o: Txid|
                    #![trigger self@.wtxids_by_txid.dom().contains(o)]
                    self@.wtxids_by_txid.dom().contains(o) && self@.wtxids_by_txid[o] == wtxid ==> !hash_lt(o, t),
                None => forall|o: Txid|
                    #![trigger self@.wtxids_by_txid.dom().contains(o)]
                    self@.wtxids_by_txid.dom().contains(o) ==> self@.wtxids_by_txid[o] != wtxid,
            },
    {
        self.wtxids_by_txid.least_key_with_value(wtxid)
    }

    /// The number of transactions whose wtxid is remembered.
    pub fn known_transactions(&self) -> (r: usize)
        requires
            self.wf(),
        ensures
            r == self@.wtxids_by_txid.dom().len(),
    {
        self.wtxids_by_txid.len()
    }

    /// Takes in a peer transaction's outcome: an admitted transaction is
    /// remembered and enqueued; a rejection is remembered against the peer
    /// that sent it, by txid and by wtxid; an evicted or expired transaction
    /// is forgotten and its queue entries cleaned up; nothing else changes.
    pub fn record_admission_outcome(&mut self, origin_peer: Option<PeerId>, outcome: &MempoolOutcome) -> (r: FanoutStep)
        requires
            old(self).wf(),
        ensures
            final(self).wf(),
            match outcome@ {
                OutcomeView::Accepted { txid, wtxid, .. } => {
                    &&& final(self)@.wtxids_by_txid == old(self)@.wtxids_by_txid.insert(txid, wtxid)
                    &&& final(self)@.recent_rejects == old(self)@.recent_rejects
                    &&& r == FanoutStep::Enqueue(
                        TxFanoutAdmission { txid, wtxid, outcome: TxFanoutAdmissionOutcome::Accepted },
                    )
                },
                OutcomeView::Replaced { txid, wtxid, .. } => {
                    &&& final(self)@.wtxids_by_txid == old(self)@.wtxids_by_txid.insert(txid, wtxid)
                    &&& final(self)@.recent_rejects == old(self)@.recent_rejects
                    &&& r == FanoutStep::Enqueue(
                        TxFanoutAdmission { txid, wtxid, outcome: TxFanoutAdmissionOutcome::Replaced },
                    )
                },
                OutcomeView::Rejected { txid, wtxid, .. } => {
                    &&& final(self)@.wtxids_by_txid == old(self)@.wtxids_by_txid
                    &&& final(self)@.recent_rejects == match origin_peer {
                        Some(p) => old(self)@.recent_rejects.insert((p, TxRelayId::Txid(txid))).insert(
                            (p, TxRelayId::Wtxid(wtxid)),
                        ),
                        None => old(self)@.recent_rejects,
                    }
                    &&& r == FanoutStep::Nothing
                },
                OutcomeView::Evicted { txid, .. } => {
                    &&& final(self)@ == after_forget(old(self)@, txid)
                    &&& r matches FanoutStep::Cleanup(cs) && cs@ == seq![cleanup_of(old(self)@, txid, TxFanoutCleanupReason::Evicted)]
                },
                OutcomeView::Expired { txid, .. } => {
                    &&& final(self)@ == after_forget(old(self)@, txid)
                    &&& r matches FanoutStep::Cleanup(cs) && cs@ == seq![cleanup_of(old(self)@, txid, TxFanoutCleanupReason::Expired)]
                },
                _ => final(self)@ == old(self)@ && r == FanoutStep::Nothing,
            },
    {
        match outcome {
            MempoolOutcome::Accepted { txid, wtxid, .. } => {
                self.wtxids_by_txid.insert(*txid, *wtxid);
                FanoutStep::Enqueue(TxFanoutAdmission { txid: *txid, wtxid: *wtxid, outcome: TxFanoutAdmissionOutcome::Accepted })
            },
            MempoolOutcome::Replaced { txid, wtxid, .. } => {
                self.wtxids_by_txid.insert(*txid, *wtxid);
                FanoutStep::Enqueue(TxFanoutAdmission { txid: *txid, wtxid: *wtxid, outcome: TxFanoutAdmissionOutcome::Replaced })
            },
            MempoolOutcome::Rejected { txid, wtxid, .. } => {
                if let Some(peer_id) = origin_peer {
                    self.add_reject(peer_id, TxRelayId::Txid(*txid));
                    self.add_reject(peer_id, TxRelayId::Wtxid(*wtxid));
                }
                FanoutStep::Nothing
            },
            MempoolOutcome::Evicted { txid, .. } => {
                let c = self.forget_transaction(*txid, TxFanoutCleanupReason::Evicted);
                let mut cs: Vec<QueueCleanup> = Vec::new();
                cs.push(c);
                assert(cs@ =~= seq![c]);
                FanoutStep::Cleanup(cs)
            },
            MempoolOutcome::Expired { txid, .. } => {
                let c = self.forget_transaction(*txid, TxFanoutCleanupReason::Expired);
                let mut cs: Vec<QueueCleanup> = Vec::new();
                cs.push(c);
                assert(cs@ =~= seq![c]);
                FanoutStep::Cleanup(cs)
            },
            _ => FanoutStep::Nothing,
        }
    }
}

} // verus!
