//! A bounded exact-identity ledger: pending reservations plus a bounded,
//! oldest-first record of completed identities.
use vstd::prelude::*;

verus! {

/// Keys that can be compared for exact identity.
pub trait ExactKey: Copy + Sized {
    fn same_key(&self, other: &Self) -> (r: bool)
        ensures
            r == (*self == *other),
    ;
}

/// Why a key could not be reserved.
#[derive(Debug, Clone, Copy, PartialEq, Eq, Structural)]
pub enum ReserveRefusal {
    AtCapacity,
    Collision,
}

/// Classification of one exact completion against the ledger.
#[derive(Debug, Clone, Copy, PartialEq, Eq, Structural)]
pub enum ExactEffectLedgerCompletion {
    Recorded,
    AlreadyRecorded,
    NotPending,
}

/// Classification for a known pre-achievement effect termination.
#[derive(Debug, Clone, Copy, PartialEq, Eq, Structural)]
pub enum EffectAbort {
    /// The exact pending reservation was released.
    Aborted,
    /// The exact effect was already recorded as achieved.
    AlreadyCompleted,
    /// No pending reservation matched the complete immutable binding.
    NotPending,
}

/// `s` with `k` appended, dropping the oldest entry once `cap` is exceeded.
pub open spec fn bounded_push<K>(s: Seq<K>, k: K, cap: nat) -> Seq<K> {
    if s.len() + 1 > cap {
        s.push(k).drop_first()
    } else {
        s.push(k)
    }
}

/// The ledger. `pending` and `completed` never share a key and never hold a
/// key twice; `completed` is ordered oldest first.
#[derive(Debug)]
pub struct ExactEffectLedger<K> {
    pub pending: Vec<K>,
    pub completed: Vec<K>,
    pub max_pending: usize,
    pub max_completed: usize,
}

/// Index of `k` in `v`, if any.
pub fn position_of<K: ExactKey>(v: &Vec<K>, k: &K) -> (r: Option<usize>)
    ensures
        r matches Some(i) ==> i < v@.len() && v@[i as int] == *k,
        r is None <==> !v@.contains(*k),
{
    let mut i: usize = 0;
    while i < v.len()
        invariant
            i <= v.len(),
            forall|j: int| 0 <= j < i ==> v@[j] != *k,
        decreases v.len() - i,
    {
        if v[i].same_key(k) {
            return Some(i);
        }
        i = i + 1;
    }
    None
}

impl<K: ExactKey> ExactEffectLedger<K> {
    pub open spec fn wf(&self) -> bool {
        &&& self.pending@.no_duplicates()
        &&& self.completed@.no_duplicates()
        &&& self.pending@.disjoint(self.completed@)
        &&& self.pending@.len() <= self.max_pending
        &&& self.completed@.len() <= self.max_completed
        &&& self.max_completed >= 1
    }

    /// An empty ledger with the given bounds.
    pub fn new(max_pending: usize, max_completed: usize) -> (r: Self)
        requires
            max_completed >= 1,
        ensures
            r.wf(),
            r.pending@ == Seq::<K>::empty(),
            r.completed@ == Seq::<K>::empty(),
            r.max_pending == max_pending,
            r.max_completed == max_completed,
    {
        ExactEffectLedger { pending: Vec::new(), completed: Vec::new(), max_pending, max_completed }
    }

    pub fn has_pending(&self) -> (r: bool)
        ensures
            r == (self.pending@.len() > 0),
    {
        self.pending.len() > 0
    }

    pub fn is_pending(&self, key: &K) -> (r: bool)
        ensures
            r == self.pending@.contains(*key),
    {
        position_of(&self.pending, key).is_some()
    }

    pub fn is_completed(&self, key: &K) -> (r: bool)
        ensures
            r == self.completed@.contains(*key),
    {
        position_of(&self.completed, key).is_some()
    }

    pub fn pending_len(&self) -> (r: usize)
        ensures
            r == self.pending@.len(),
    {
        self.pending.len()
    }

    pub fn completed_len(&self) -> (r: usize)
        ensures
            r == self.completed@.len(),
    {
        self.completed.len()
    }

    /// Reserves `key` as pending unless the pending bound is reached or the
    /// key is already pending or completed.
    pub fn try_reserve_key(&mut self, key: K) -> (r: Result<(), ReserveRefusal>)
        requires
            old(self).wf(),
        ensures
            final(self).wf(),
            final(self).max_pending == old(self).max_pending,
            final(self).max_completed == old(self).max_completed,
            final(self).completed@ == old(self).completed@,
            old(self).pending@.len() >= old(self).max_pending ==> r == Err::<(), ReserveRefusal>(ReserveRefusal::AtCapacity),
            old(self).pending@.len() < old(self).max_pending && (old(self).pending@.contains(key)
                || old(self).completed@.contains(key)) ==> r == Err::<(), ReserveRefusal>(ReserveRefusal::Collision),
            r is Err ==> final(self).pending@ == old(self).pending@,
            r is Ok <==> (old(self).pending@.len() < old(self).max_pending
                && !old(self).pending@.contains(key) && !old(self).completed@.contains(key)),
            r is Ok ==> final(self).pending@ == old(self).pending@.push(key),
    {
        if self.pending.len() >= self.max_pending {
            return Err(ReserveRefusal::AtCapacity);
        }
        if position_of(&self.pending, &key).is_some() || position_of(&self.completed, &key).is_some() {
            return Err(ReserveRefusal::Collision);
        }
        self.pending.push(key);
        proof {
            assert forall|i: int, j: int|
                0 <= i < self.pending@.len() && 0 <= j < self.completed@.len() implies
                self.pending@[i] != self.completed@[j] by {
                if i == self.pending@.len() - 1 {
                    assert(self.completed@.contains(self.completed@[j]));
                } else {
                    assert(self.pending@[i] == old(self).pending@[i]);
                }
            }
            assert forall|i: int, j: int|
                0 <= i < self.pending@.len() && 0 <= j < self.pending@.len() && i != j implies
                self.pending@[i] != self.pending@[j] by {
                if i == self.pending@.len() - 1 {
                    assert(old(self).pending@.contains(self.pending@[j]));
                } else if j == self.pending@.len() - 1 {
                    assert(old(self).pending@.contains(self.pending@[i]));
                }
            }
        }
        Ok(())
    }

    /// Appends `key` to the completed record, evicting the oldest entry once
    /// the bound is exceeded. A key already recorded is left as it is.
    pub fn record_completed_key(&mut self, key: K)
        requires
            old(self).wf(),
            !old(self).pending@.contains(key),
        ensures
            final(self).wf(),
            final(self).pending@ == old(self).pending@,
            final(self).max_pending == old(self).max_pending,
            final(self).max_completed == old(self).max_completed,
            old(self).completed@.contains(key) ==> final(self).completed@ == old(self).completed@,
            !old(self).completed@.contains(key) ==> final(self).completed@ == bounded_push(
                old(self).completed@,
                key,
                old(self).max_completed as nat,
            ),
    {
        if position_of(&self.completed, &key).is_some() {
            return;
        }
        let ghost before = self.completed@;
        self.completed.push(key);
        proof {
            assert forall|i: int, j: int|
                0 <= i < self.completed@.len() && 0 <= j < self.completed@.len() && i != j implies
                self.completed@[i] != self.completed@[j] by {
                if i == self.completed@.len() - 1 {
                    assert(before.contains(self.completed@[j]));
                } else if j == self.completed@.len() - 1 {
                    assert(before.contains(self.completed@[i]));
                }
            }
            assert forall|i: int, j: int|
                0 <= i < self.pending@.len() && 0 <= j < self.completed@.len() implies
                self.pending@[i] != self.completed@[j] by {
                if j == self.completed@.len() - 1 {
                    assert(self.pending@.contains(self.pending@[i]));
                } else {
                    assert(self.completed@[j] == before[j]);
                }
            }
        }
        if self.completed.len() > self.max_completed {
            self.completed.remove(0);
            proof {
                assert(self.completed@ =~= before.push(key).drop_first());
                assert forall|i: int, j: int|
                    0 <= i < self.pending@.len() && 0 <= j < self.completed@.len() implies
                    self.pending@[i] != self.completed@[j] by {
                    assert(self.completed@[j] == before.push(key)[j + 1]);
                }
            }
        } else {
            proof {
                assert(self.completed@ =~= before.push(key));
            }
        }
    }

    /// Completes the exact pending `key`: already-recorded keys are reported
    /// as such, unknown keys as not pending, and a pending key moves to the
    /// completed record.
    pub fn complete_exact(&mut self, key: K) -> (r: ExactEffectLedgerCompletion)
        requires
            old(self).wf(),
        ensures
            final(self).wf(),
            final(self).max_pending == old(self).max_pending,
            final(self).max_completed == old(self).max_completed,
            old(self).completed@.contains(key) ==> r == ExactEffectLedgerCompletion::AlreadyRecorded,
            !old(self).completed@.contains(key) && !old(self).pending@.contains(key) ==> r
                == ExactEffectLedgerCompletion::NotPending,
            r != ExactEffectLedgerCompletion::Recorded ==> final(self).pending@ == old(self).pending@
                && final(self).completed@ == old(self).completed@,
            r == ExactEffectLedgerCompletion::Recorded <==> old(self).pending@.contains(key),
            r == ExactEffectLedgerCompletion::Recorded ==> {
                &&& final(self).pending@.to_set() == old(self).pending@.to_set().remove(key)
                &&& final(self).pending@.len() + 1 == old(self).pending@.len()
                &&& final(self).completed@ == bounded_push(
                    old(self).completed@,
                    key,
                    old(self).max_completed as nat,
                )
            },
    {
        if position_of(&self.completed, &key).is_some() {
            proof {
                assert(!old(self).pending@.contains(key)) by {
                    if old(self).pending@.contains(key) {
                        let i = choose|i: int| 0 <= i < old(self).pending@.len() && old(self).pending@[i] == key;
                        let j = choose|j: int| 0 <= j < old(self).completed@.len() && old(self).completed@[j] == key;
                        assert(old(self).pending@[i] != old(self).completed@[j]);
                    }
                }
            }
            return ExactEffectLedgerCompletion::AlreadyRecorded;
        }
        let maybe_index = position_of(&self.pending, &key);
        match maybe_index {
            None => ExactEffectLedgerCompletion::NotPending,
            Some(index) => {
                let ghost before = self.pending@;
                self.pending.remove(index);
                proof {
                    assert(!self.pending@.contains(key)) by {
                        if self.pending@.contains(key) {
                            let j = choose|j: int| 0 <= j < self.pending@.len() && self.pending@[j] == key;
                            if j < index {
                                assert(before[j] == key);
                            } else {
                                assert(before[j + 1] == key);
                            }
                        }
                    }
                    assert forall|x: K| self.pending@.to_set().contains(x) == before.to_set().remove(key).contains(x) by {
                        if self.pending@.contains(x) {
                            let j = choose|j: int| 0 <= j < self.pending@.len() && self.pending@[j] == x;
                            if j < index {
                                assert(before[j] == x);
                            } else {
                                assert(before[j + 1] == x);
                            }
                        }
                        if before.contains(x) && x != key {
                            let j = choose|j: int| 0 <= j < before.len() && before[j] == x;
                            if j < index {
                                assert(self.pending@[j] == x);
                            } else {
                                assert(j != index);
                                assert(self.pending@[j - 1] == x);
                            }
                        }
                    }
                    assert(self.pending@.to_set() =~= before.to_set().remove(key));
                    assert forall|i: int, j: int|
                        0 <= i < self.pending@.len() && 0 <= j < self.pending@.len() && i != j implies
                        self.pending@[i] != self.pending@[j] by {
                        let ii = if i < index { i } else { i + 1 };
                        let jj = if j < index { j } else { j + 1 };
                        assert(self.pending@[i] == before[ii]);
                        assert(self.pending@[j] == before[jj]);
                    }
                    assert forall|i: int, j: int|
                        0 <= i < self.pending@.len() && 0 <= j < self.completed@.len() implies
                        self.pending@[i] != self.completed@[j] by {
                        let ii = if i < index { i } else { i + 1 };
                        assert(self.pending@[i] == before[ii]);
                    }
                }
                self.record_completed_key(key);
                ExactEffectLedgerCompletion::Recorded
            },
        }
    }

    /// Releases the exact pending `key`, unless it was already completed.
    pub fn abort_exact(&mut self, key: K) -> (r: EffectAbort)
        requires
            old(self).wf(),
        ensures
            final(self).wf(),
            final(self).max_pending == old(self).max_pending,
            final(self).max_completed == old(self).max_completed,
            final(self).completed@ == old(self).completed@,
            old(self).completed@.contains(key) ==> r == EffectAbort::AlreadyCompleted,
            !old(self).completed@.contains(key) && old(self).pending@.contains(key) ==> r == EffectAbort::Aborted,
            !old(self).completed@.contains(key) && !old(self).pending@.contains(key) ==> r == EffectAbort::NotPending,
            r != EffectAbort::Aborted ==> final(self).pending@ == old(self).pending@,
            r == EffectAbort::Aborted ==> {
                &&& final(self).pending@.to_set() == old(self).pending@.to_set().remove(key)
                &&& final(self).pending@.len() + 1 == old(self).pending@.len()
            },
    {
        if position_of(&self.completed, &key).is_some() {
            return EffectAbort::AlreadyCompleted;
        }
        let maybe_index = position_of(&self.pending, &key);
        match maybe_index {
            None => EffectAbort::NotPending,
            Some(index) => {
                let ghost before = self.pending@;
                self.pending.remove(index);
                proof {
                    assert forall|x: K| self.pending@.to_set().contains(x) == before.to_set().remove(key).contains(x) by {
                        if self.pending@.contains(x) {
                            let j = choose|j: int| 0 <= j < self.pending@.len() && self.pending@[j] == x;
                            if j < index {
                                assert(before[j] == x);
                            } else {
                                assert(before[j + 1] == x);
                            }
                        }
                        if before.contains(x) && x != key {
                            let j = choose|j: int| 0 <= j < before.len() && before[j] == x;
                            if j < index {
                                assert(self.pending@[j] == x);
                            } else {
                                assert(j != index);
                                assert(self.pending@[j - 1] == x);
                            }
                        }
                    }
                    assert(self.pending@.to_set() =~= before.to_set().remove(key));
                    assert forall|i: int, j: int|
                        0 <= i < self.pending@.len() && 0 <= j < self.pending@.len() && i != j implies
                        self.pending@[i] != self.pending@[j] by {
                        let ii = if i < index { i } else { i + 1 };
                        let jj = if j < index { j } else { j + 1 };
                        assert(self.pending@[i] == before[ii]);
                        assert(self.pending@[j] == before[jj]);
                    }
                    assert forall|i: int, j: int|
                        0 <= i < self.pending@.len() && 0 <= j < self.completed@.len() implies
                        self.pending@[i] != self.completed@[j] by {
                        let ii = if i < index { i } else { i + 1 };
                        assert(self.pending@[i] == before[ii]);
                    }
                }
                EffectAbort::Aborted
            },
        }
    }
}

} // verus!
