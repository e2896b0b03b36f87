//! The relay-serving cache: the transactions that may be served to peers,
//! the serving status of every transaction seen, and the outcomes of the
//! latest serve requests.
use vstd::prelude::*;
use crate::identity::{copy_vec, hash_lt, Hash32, Txid, Wtxid};
use crate::keyed::KeyedList;
use crate::relay_evidence::{ManagedRelayServingInfo, ManagedTxServeOutcome, TxServeOutcomeLabel, TxServingRecordStatus};

verus! {

/// A transaction relay identifier: by txid or by wtxid.
#[derive(Debug, Clone, Copy, PartialEq, Eq, Structural, Hash)]
pub enum TxRelayId {
    Txid(Txid),
    Wtxid(Wtxid),
}

/// A serveable transaction with its identities.
#[derive(Debug, Clone, PartialEq, Eq)]
pub struct RelayServingRecord<T> {
    pub txid: Txid,
    pub wtxid: Wtxid,
    pub transaction: T,
}

/// What the cache holds: the serveable records by txid, the txid of each
/// serveable wtxid, and the serving status by txid and by wtxid.
pub struct ServingView<T> {
    pub records: Map<Txid, RelayServingRecord<T>>,
    pub txid_by_wtxid: Map<Wtxid, Txid>,
    pub status_by_txid: Map<Txid, TxServingRecordStatus>,
    pub status_by_wtxid: Map<Wtxid, TxServingRecordStatus>,
}

/// The decision on one transaction serve request.
#[derive(Debug)]
pub struct ManagedTxServeDecision<T> {
    pub label: TxServeOutcomeLabel,
    pub maybe_transaction: Option<T>,
}

/// The cache after a transaction is accepted: serveable, and accepted by
/// txid and by wtxid.
pub open spec fn after_accept<T>(v: ServingView<T>, txid: Txid, wtxid: Wtxid, transaction: T) -> ServingView<T> {
    ServingView {
        records: v.records.insert(txid, RelayServingRecord { txid, wtxid, transaction }),
        txid_by_wtxid: v.txid_by_wtxid.insert(wtxid, txid),
        status_by_txid: v.status_by_txid.insert(txid, TxServingRecordStatus::Accepted),
        status_by_wtxid: v.status_by_wtxid.insert(wtxid, TxServingRecordStatus::Accepted),
    }
}

/// The cache after `txid` takes `status`: no longer serveable, the record's
/// wtxid forgotten, and the status kept by txid and by the given wtxid, or
/// else the record's.
pub open spec fn after_status<T>(
    v: ServingView<T>,
    txid: Txid,
    maybe_wtxid: Option<Wtxid>,
    status: TxServingRecordStatus,
) -> ServingView<T> {
    let had_record = v.records.dom().contains(txid);
    let status_wtxid = match maybe_wtxid {
        Some(w) => Some(w),
        None => if had_record {
            Some(v.records[txid].wtxid)
        } else {
            None
        },
    };
    ServingView {
        records: v.records.remove(txid),
        txid_by_wtxid: if had_record {
            v.txid_by_wtxid.remove(v.records[txid].wtxid)
        } else {
            v.txid_by_wtxid
        },
        status_by_txid: v.status_by_txid.insert(txid, status),
        status_by_wtxid: match status_wtxid {
            Some(w) => v.status_by_wtxid.insert(w, status),
            None => v.status_by_wtxid,
        },
    }
}

/// `w` is the least wtxid that `m` maps to `txid`.
pub open spec fn is_least_wtxid_for(m: Map<Wtxid, Txid>, txid: Txid, w: Wtxid) -> bool {
    &&& m.dom().contains(w)
    &&& m[w] == txid
    &&& forall|o: Wtxid| #![trigger m.dom().contains(o)] m.dom().contains(o) && m[o] == txid ==> !hash_lt(o, w)
}

/// The least wtxid that `m` maps to `txid`, if any.
pub open spec fn least_wtxid_for(m: Map<Wtxid, Txid>, txid: Txid) -> Option<Wtxid> {
    if exists|w: Wtxid| is_least_wtxid_for(m, txid, w) {
        Some(choose|w: Wtxid| is_least_wtxid_for(m, txid, w))
    } else {
        None
    }
}

/// The cache after `txid` is removed with `status`: its wtxid is the
/// record's, or else the least wtxid still mapped to it.
pub open spec fn after_removal<T>(v: ServingView<T>, txid: Txid, status: TxServingRecordStatus) -> ServingView<T> {
    let maybe_wtxid = if v.records.dom().contains(txid) {
        Some(v.records[txid].wtxid)
    } else {
        least_wtxid_for(v.txid_by_wtxid, txid)
    };
    after_status(v, txid, maybe_wtxid, status)
}

/// The cache after each of `txids` is removed with `status`, in order.
pub open spec fn after_removals<T>(v: ServingView<T>, txids: Seq<Txid>, status: TxServingRecordStatus) -> ServingView<T>
    decreases txids.len(),
{
    if txids.len() == 0 {
        v
    } else {
        after_removal(after_removals(v, txids.drop_last(), status), txids.last(), status)
    }
}

/// Hashes neither of which is below the other are equal.
pub proof fn lemma_hash_order_total(a: Hash32, b: Hash32)
    requires
        !hash_lt(a, b),
        !hash_lt(b, a),
    ensures
        a == b,
{
}

/// The relay-serving cache.
pub struct RelayServingCache<T> {
    records_by_txid: KeyedList<RelayServingRecord<T>>,
    txid_by_wtxid: KeyedList<Txid>,
    status_by_txid: KeyedList<TxServingRecordStatus>,
    status_by_wtxid: KeyedList<TxServingRecordStatus>,
    latest_outcomes: Vec<ManagedTxServeOutcome>,
}

impl<T> View for RelayServingCache<T> {
    type V = ServingView<T>;

    closed spec fn view(&self) -> ServingView<T> {
        ServingView {
            records: self.records_by_txid@,
            txid_by_wtxid: self.txid_by_wtxid@,
            status_by_txid: self.status_by_txid@,
            status_by_wtxid: self.status_by_wtxid@,
        }
    }
}

impl<T> RelayServingCache<T> {
    /// Each of the cache's maps holds a key once.
    pub closed spec fn wf(&self) -> bool {
        &&& self.records_by_txid.wf()
        &&& self.txid_by_wtxid.wf()
        &&& self.status_by_txid.wf()
        &&& self.status_by_wtxid.wf()
    }

    /// The outcomes of the serve requests since the last clearing, in order.
    pub closed spec fn outcomes(&self) -> Seq<ManagedTxServeOutcome> {
        self.latest_outcomes@
    }

    /// The empty cache.
    pub fn new() -> (r: Self)
        ensures
            r.wf(),
            r@.records == Map::<Txid, RelayServingRecord<T>>::empty(),
            r@.txid_by_wtxid == Map::<Wtxid, Txid>::empty(),
            r@.status_by_txid == Map::<Txid, TxServingRecordStatus>::empty(),
            r@.status_by_wtxid == Map::<Wtxid, TxServingRecordStatus>::empty(),
            r.outcomes().len() == 0,
    {
        RelayServingCache {
            records_by_txid: KeyedList::new(),
            txid_by_wtxid: KeyedList::new(),
            status_by_txid: KeyedList::new(),
            status_by_wtxid: KeyedList::new(),
            latest_outcomes: Vec::new(),
        }
    }

    /// Makes a transaction serveable and marks it accepted.
    pub fn record_accepted(&mut self, txid: Txid, wtxid: Wtxid, transaction: T)
        requires
            old(self).wf(),
        ensures
            final(self).wf(),
            final(self)@ == after_accept(old(self)@, txid, wtxid, transaction),
            final(self).outcomes() == old(self).outcomes(),
    {
        self.txid_by_wtxid.insert(wtxid, txid);
        self.status_by_txid.insert(txid, TxServingRecordStatus::Accepted);
        self.status_by_wtxid.insert(wtxid, TxServingRecordStatus::Accepted);
        self.records_by_txid.insert(txid, RelayServingRecord { txid, wtxid, transaction });
    }

    /// Records that `txid` took `status`; `maybe_wtxid` names its wtxid where
    /// the caller knows it.
    pub fn record_status(&mut self, txid: Txid, maybe_wtxid: Option<Wtxid>, status: TxServingRecordStatus)
        requires
            old(self).wf(),
        ensures
            final(self).wf(),
            final(self)@ == after_status(old(self)@, txid, maybe_wtxid, status),
            final(self).outcomes() == old(self).outcomes(),
    {
        let ghost v = self@;
        let maybe_record = self.records_by_txid.remove(&txid);
        let maybe_record_wtxid = match &maybe_record {
            Some(record) => Some(record.wtxid),
            None => None,
        };
        let maybe_status_wtxid = match maybe_wtxid {
            Some(w) => Some(w),
            None => maybe_record_wtxid,
        };
        if let Some(w) = maybe_record_wtxid {
            let _ = self.txid_by_wtxid.remove(&w);
        }
        self.status_by_txid.insert(txid, status);
        if let Some(w) = maybe_status_wtxid {
            self.status_by_wtxid.insert(w, status);
        }
        assert(self@.records == after_status(v, txid, maybe_wtxid, status).records);
    }

    /// The least wtxid still mapped to `txid`.
    fn status_wtxid_for_txid(&self, txid: Txid) -> (r: Option<Wtxid>)
        requires
            self.wf(),
        ensures
            r == least_wtxid_for(self@.txid_by_wtxid, txid),
    {
        let r = self.txid_by_wtxid.least_key_with_value(txid);
        proof {
            let m = self@.txid_by_wtxid;
            match r {
                Some(k) => {
                    assert(is_least_wtxid_for(m, txid, k));
                    let c = choose|w: Wtxid| is_least_wtxid_for(m, txid, w);
                    assert(is_least_wtxid_for(m, txid, c));
                    assert(!hash_lt(c, k));
                    assert(!hash_lt(k, c));
                    lemma_hash_order_total(c, k);
                },
                None => {
                    assert(!exists|w: Wtxid| is_least_wtxid_for(m, txid, w));
                },
            }
        }
        r
    }

    /// Removes each of `txids` with `status`, in order.
    pub fn remove_transactions(&mut self, txids: &Vec<Txid>, status: TxServingRecordStatus)
        requires
            old(self).wf(),
        ensures
            final(self).wf(),
            final(self)@ == after_removals(old(self)@, txids@, status),
            final(self).outcomes() == old(self).outcomes(),
    {
        let ghost v0 = self@;
        let ghost o0 = self.outcomes();
        let mut i: usize = 0;
        while i < txids.len()
            invariant
                i <= txids@.len(),
                self.wf(),
                self@ == after_removals(v0, txids@.take(i as int), status),
                self.outcomes() == o0,
            decreases txids@.len() - i,
        {
            let txid = txids[i];
            let maybe_wtxid = match self.records_by_txid.get(&txid) {
                Some(record) => Some(record.wtxid),
                None => self.status_wtxid_for_txid(txid),
            };
            self.record_status(txid, maybe_wtxid, status);
            proof {
                assert(txids@.take(i as int + 1).drop_last() =~= txids@.take(i as int));
            }
            i = i + 1;
        }
        assert(txids@.take(txids@.len() as int) =~= txids@);
    }

    /// Records that a transaction replaced `replaced`: those are removed as
    /// replaced, then the new one is accepted.
    pub fn record_replaced(&mut self, txid: Txid, wtxid: Wtxid, transaction: T, replaced: &Vec<Txid>)
        requires
            old(self).wf(),
        ensures
            final(self).wf(),
            final(self)@ == after_accept(
                after_removals(old(self)@, replaced@, TxServingRecordStatus::Replaced),
                txid,
                wtxid,
                transaction,
            ),
            final(self).outcomes() == old(self).outcomes(),
    {
        self.remove_transactions(replaced, TxServingRecordStatus::Replaced);
        self.record_accepted(txid, wtxid, transaction);
    }

    /// Forgets the outcomes of earlier serve requests.
    pub fn clear_latest_outcomes(&mut self)
        requires
            old(self).wf(),
        ensures
            final(self).wf(),
            final(self)@ == old(self)@,
            final(self).outcomes().len() == 0,
    {
        self.latest_outcomes.clear();
    }

    /// The serving status known for a relay id: by txid or by wtxid.
    pub fn status_for_relay_id(&self, relay_id: TxRelayId) -> (r: Option<TxServingRecordStatus>)
        requires
            self.wf(),
        ensures
            match relay_id {
                TxRelayId::Txid(t) => r == (if self@.status_by_txid.dom().contains(t) {
                    Some(self@.status_by_txid[t])
                } else {
                    None
                }),
                TxRelayId::Wtxid(w) => r == (if self@.status_by_wtxid.dom().contains(w) {
                    Some(self@.status_by_wtxid[w])
                } else {
                    None
                }),
            },
    {
        match relay_id {
            TxRelayId::Txid(t) => match self.status_by_txid.get(&t) {
                Some(s) => Some(*s),
                None => None,
            },
            TxRelayId::Wtxid(w) => match self.status_by_wtxid.get(&w) {
                Some(s) => Some(*s),
                None => None,
            },
        }
    }
}

/// The serveable record a relay id reaches: by txid directly, by wtxid
/// through the txid it maps to.
pub open spec fn record_for<T>(v: ServingView<T>, relay_id: TxRelayId) -> Option<RelayServingRecord<T>> {
    match relay_id {
        TxRelayId::Txid(t) => if v.records.dom().contains(t) {
            Some(v.records[t])
        } else {
            None
        },
        TxRelayId::Wtxid(w) => if v.txid_by_wtxid.dom().contains(w) && v.records.dom().contains(v.txid_by_wtxid[w]) {
            Some(v.records[v.txid_by_wtxid[w]])
        } else {
            None
        },
    }
}

/// The label a serve decision reports: a serve that finds no transaction is stale.
pub open spec fn served_label(outcome: TxServeOutcomeLabel, found: bool) -> TxServeOutcomeLabel {
    if outcome == TxServeOutcomeLabel::Served && !found {
        TxServeOutcomeLabel::Stale
    } else {
        outcome
    }
}

impl<T: Clone> RelayServingCache<T> {
    /// A copy of the serveable transaction a relay id reaches.
    pub fn transaction_for_relay_id(&self, relay_id: TxRelayId) -> (r: Option<T>)
        requires
            self.wf(),
        ensures
            (r is Some) == (record_for(self@, relay_id) is Some),
            r matches Some(tx) ==> cloned(record_for(self@, relay_id)->0.transaction, tx),
    {
        let txid = match relay_id {
            TxRelayId::Txid(t) => t,
            TxRelayId::Wtxid(w) => match self.txid_by_wtxid.get(&w) {
                Some(t) => *t,
                None => return None,
            },
        };
        match self.records_by_txid.get(&txid) {
            Some(record) => Some(record.transaction.clone()),
            None => None,
        }
    }

    /// Completes a serve request whose outcome the serving policy decided:
    /// a served request carries the transaction its relay id reaches, and is
    /// reported stale where none is found; the label joins the latest outcomes.
    pub fn classify_request(&mut self, outcome: TxServeOutcomeLabel, maybe_relay_id: Option<TxRelayId>) -> (r: ManagedTxServeDecision<T>)
        requires
            old(self).wf(),
        ensures
            final(self).wf(),
            final(self)@ == old(self)@,
            ({
                let found = outcome == TxServeOutcomeLabel::Served && (maybe_relay_id matches Some(id) && record_for(
                    old(self)@,
                    id,
                ) is Some);
                &&& (r.maybe_transaction is Some) == found
                &&& r.maybe_transaction matches Some(tx) ==> cloned(record_for(old(self)@, maybe_relay_id->0)->0.transaction, tx)
                &&& r.label == served_label(outcome, found)
                &&& final(self).outcomes() == old(self).outcomes().push(ManagedTxServeOutcome { label: r.label })
            }),
    {
        let maybe_transaction = if outcome == TxServeOutcomeLabel::Served {
            match maybe_relay_id {
                Some(id) => self.transaction_for_relay_id(id),
                None => None,
            }
        } else {
            None
        };
        let label = if outcome == TxServeOutcomeLabel::Served && maybe_transaction.is_none() {
            TxServeOutcomeLabel::Stale
        } else {
            outcome
        };
        self.latest_outcomes.push(ManagedTxServeOutcome { label });
        ManagedTxServeDecision { label, maybe_transaction }
    }
}

impl<T> RelayServingCache<T> {
    /// The cache's evidence: serveable transactions, transactions with a
    /// known status, and the latest serve outcomes.
    pub fn info(&self) -> (r: ManagedRelayServingInfo)
        requires
            self.wf(),
        ensures
            r.serveable_transactions == self@.records.dom().len(),
            r.known_status_transactions == self@.status_by_txid.dom().len(),
            r.latest_outcomes@ == self.outcomes(),
    {
        let latest = copy_vec(&self.latest_outcomes);
        ManagedRelayServingInfo {
            serveable_transactions: self.records_by_txid.len(),
            known_status_transactions: self.status_by_txid.len(),
            latest_outcomes: latest,
        }
    }
}

} // verus!
