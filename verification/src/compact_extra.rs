//! The ring buffer of extra transactions kept for compact-block
//! reconstruction, with a slot limit, an aggregate byte budget and a
//! per-transaction size limit.
use vstd::prelude::*;
use crate::identity::Wtxid;

verus! {

/// Default number of extra-transaction slots.
pub const DEFAULT_BLOCK_RECONSTRUCTION_EXTRA_TXN: usize = 32768;

/// Default aggregate byte budget of the extra transactions.
pub const DEFAULT_BLOCK_RECONSTRUCTION_EXTRA_TXN_SIZE: usize = 10000000;

/// Default largest transaction kept as an extra.
pub const BLOCK_RECONSTRUCTION_EXTRA_TXN_PER_TXN_SIZE_LIMIT: usize = 100000;

/// One occupied slot: the wtxid, the transaction, and its approximate size.
pub struct ExtraTxnSlot<T> {
    pub wtxid: Wtxid,
    pub transaction: T,
    pub approximate_bytes: usize,
}

/// The approximate bytes held by `slots`.
pub open spec fn slot_bytes<T>(slots: Seq<Option<ExtraTxnSlot<T>>>) -> nat
    decreases slots.len(),
{
    if slots.len() == 0 {
        0
    } else {
        slot_bytes(slots.drop_last()) + match slots.last() {
            Some(slot) => slot.approximate_bytes as nat,
            None => 0nat,
        }
    }
}

/// The bytes of one slot.
pub open spec fn bytes_of<T>(slot: Option<ExtraTxnSlot<T>>) -> nat {
    match slot {
        Some(s) => s.approximate_bytes as nat,
        None => 0nat,
    }
}

proof fn lemma_slot_bytes_update<T>(slots: Seq<Option<ExtraTxnSlot<T>>>, i: int, v: Option<ExtraTxnSlot<T>>)
    requires
        0 <= i < slots.len(),
    ensures
        slot_bytes(slots.update(i, v)) + bytes_of(slots[i]) == slot_bytes(slots) + bytes_of(v),
    decreases slots.len(),
{
    if i == slots.len() - 1 {
        assert(slots.update(i, v).drop_last() =~= slots.drop_last());
    } else {
        lemma_slot_bytes_update(slots.drop_last(), i, v);
        assert(slots.update(i, v).drop_last() =~= slots.drop_last().update(i, v));
    }
}

proof fn lemma_slot_bytes_all_none<T>(slots: Seq<Option<ExtraTxnSlot<T>>>)
    requires
        forall|i: int| 0 <= i < slots.len() ==> slots[i] is None,
    ensures
        slot_bytes(slots) == 0,
    decreases slots.len(),
{
    if slots.len() > 0 {
        lemma_slot_bytes_all_none(slots.drop_last());
    }
}

/// Position `x` of a ring of `n` slots, for `0 <= x < 2 * n`.
pub open spec fn ring(x: int, n: int) -> int {
    if x >= n {
        x - n
    } else {
        x
    }
}

/// `slots` with the `k` slots from `start` onwards, around the ring, emptied.
pub open spec fn clear_run<T>(slots: Seq<Option<ExtraTxnSlot<T>>>, start: int, k: int) -> Seq<Option<ExtraTxnSlot<T>>>
    decreases k,
{
    if k <= 0 {
        slots
    } else {
        clear_run(slots, start, k - 1).update(ring(start + k - 1, slots.len() as int), None)
    }
}

proof fn lemma_clear_run_len<T>(slots: Seq<Option<ExtraTxnSlot<T>>>, start: int, k: int)
    requires
        slots.len() > 0,
        0 <= start < slots.len(),
        k <= slots.len(),
    ensures
        clear_run(slots, start, k).len() == slots.len(),
    decreases k,
{
    if k > 0 {
        lemma_clear_run_len(slots, start, k - 1);
    }
}

proof fn lemma_clear_run_full<T>(slots: Seq<Option<ExtraTxnSlot<T>>>, start: int, k: int)
    requires
        slots.len() > 0,
        0 <= start < slots.len(),
        0 <= k <= slots.len(),
    ensures
        forall|t: int| 0 <= t < k ==> (#[trigger] clear_run(slots, start, k)[ring(start + t, slots.len() as int)]) is None,
    decreases k,
{
    if k > 0 {
        lemma_clear_run_full(slots, start, k - 1);
        lemma_clear_run_len(slots, start, k - 1);
    }
}

/// The ring buffer of compact-block reconstruction extras.
pub struct CompactExtraTxnBuffer<T> {
    pub slots: Vec<Option<ExtraTxnSlot<T>>>,
    pub write_cursor: usize,
    pub approximate_bytes: usize,
    pub max_slots: usize,
    pub max_bytes: usize,
    pub per_tx_size_limit: usize,
}

impl<T> CompactExtraTxnBuffer<T> {
    /// The buffer's invariant: no slots before the first push, then exactly
    /// `max_slots`; the cursor inside the ring; the byte count is the sum of
    /// the occupied slots' sizes and within the budget.
    pub open spec fn wf(&self) -> bool {
        &&& self.slots@.len() == 0 || self.slots@.len() == self.max_slots
        &&& self.slots@.len() == 0 ==> self.write_cursor == 0
        &&& self.slots@.len() > 0 ==> self.write_cursor < self.max_slots
        &&& self.approximate_bytes == slot_bytes(self.slots@)
        &&& self.approximate_bytes <= self.max_bytes
    }

    /// An empty buffer with the given limits.
    pub fn new(max_slots: usize, max_bytes: usize, per_tx_size_limit: usize) -> (r: Self)
        ensures
            r.wf(),
            r.slots@.len() == 0,
            r.approximate_bytes == 0,
            r.max_slots == max_slots,
            r.max_bytes == max_bytes,
            r.per_tx_size_limit == per_tx_size_limit,
    {
        CompactExtraTxnBuffer {
            slots: Vec::new(),
            write_cursor: 0,
            approximate_bytes: 0,
            max_slots,
            max_bytes,
            per_tx_size_limit,
        }
    }

    /// An empty buffer with the default limits.
    pub fn with_defaults() -> (r: Self)
        ensures
            r.wf(),
            r.slots@.len() == 0,
            r.approximate_bytes == 0,
            r.max_slots == DEFAULT_BLOCK_RECONSTRUCTION_EXTRA_TXN,
            r.max_bytes == DEFAULT_BLOCK_RECONSTRUCTION_EXTRA_TXN_SIZE,
            r.per_tx_size_limit == BLOCK_RECONSTRUCTION_EXTRA_TXN_PER_TXN_SIZE_LIMIT,
    {
        Self::new(
            DEFAULT_BLOCK_RECONSTRUCTION_EXTRA_TXN,
            DEFAULT_BLOCK_RECONSTRUCTION_EXTRA_TXN_SIZE,
            BLOCK_RECONSTRUCTION_EXTRA_TXN_PER_TXN_SIZE_LIMIT,
        )
    }

    pub fn approximate_bytes(&self) -> (r: usize)
        ensures
            r == self.approximate_bytes,
    {
        self.approximate_bytes
    }

    pub fn max_slots(&self) -> (r: usize)
        ensures
            r == self.max_slots,
    {
        self.max_slots
    }

    pub fn max_bytes(&self) -> (r: usize)
        ensures
            r == self.max_bytes,
    {
        self.max_bytes
    }

    pub fn per_tx_size_limit(&self) -> (r: usize)
        ensures
            r == self.per_tx_size_limit,
    {
        self.per_tx_size_limit
    }

    /// The ring right after writing `slot` at the cursor, before the byte
    /// budget is enforced.
    pub open spec fn written(&self, slot: ExtraTxnSlot<T>) -> Seq<Option<ExtraTxnSlot<T>>> {
        let base = if self.slots@.len() == 0 {
            Seq::new(self.max_slots as nat, |i: int| None::<ExtraTxnSlot<T>>)
        } else {
            self.slots@
        };
        base.update(self.write_cursor as int, Some(slot))
    }

    /// Writes the transaction at the cursor, overwriting the oldest slot,
    /// then empties the following slots in ring order until the byte budget
    /// holds again. A buffer with no slots keeps nothing.
    pub fn push(&mut self, wtxid: Wtxid, transaction: T, tx_bytes: usize)
        requires
            old(self).wf(),
            old(self).approximate_bytes + tx_bytes <= usize::MAX,
        ensures
            final(self).wf(),
            final(self).max_slots == old(self).max_slots,
            final(self).max_bytes == old(self).max_bytes,
            final(self).per_tx_size_limit == old(self).per_tx_size_limit,
            old(self).max_slots == 0 ==> final(self).slots@ == old(self).slots@,
            old(self).max_slots > 0 ==> exists|k: int|
                #![trigger clear_run(
                    old(self).written(ExtraTxnSlot { wtxid, transaction, approximate_bytes: tx_bytes }),
                    ring(old(self).write_cursor + 1, old(self).max_slots as int),
                    k,
                )]
                {
                    let w = old(self).written(ExtraTxnSlot { wtxid, transaction, approximate_bytes: tx_bytes });
                    let n = old(self).max_slots as int;
                    let start = ring(old(self).write_cursor + 1, n);
                    &&& 0 <= k <= n
                    &&& final(self).slots@ == clear_run(w, start, k)
                    &&& final(self).write_cursor == ring(start + k, n)
                    &&& forall|t: int| 0 <= t < k ==> slot_bytes(#[trigger] clear_run(w, start, t)) > old(self).max_bytes
                },
    {
        if self.max_slots == 0 {
            return ;
        }
        let n = self.max_slots;
        if self.slots.len() == 0 {
            let mut fresh: Vec<Option<ExtraTxnSlot<T>>> = Vec::new();
            let mut i: usize = 0;
            while i < n
                invariant
                    i <= n,
                    fresh@.len() == i,
                    forall|x: int| 0 <= x < i ==> fresh@[x] is None,
                decreases n - i,
            {
                fresh.push(None);
                i = i + 1;
            }
            proof {
                lemma_slot_bytes_all_none(fresh@);
                assert(fresh@ =~= Seq::new(n as nat, |i: int| None::<ExtraTxnSlot<T>>));
            }
            self.slots = fresh;
        }
        let ghost w = old(self).written(ExtraTxnSlot { wtxid, transaction, approximate_bytes: tx_bytes });
        let cursor = self.write_cursor;
        let cleared = match &self.slots[cursor] {
            Some(slot) => slot.approximate_bytes,
            None => 0,
        };
        proof {
            lemma_slot_bytes_update(self.slots@, cursor as int, None);
            lemma_slot_bytes_update(
                self.slots@,
                cursor as int,
                Some(ExtraTxnSlot { wtxid, transaction, approximate_bytes: tx_bytes }),
            );
        }
        self.slots.set(cursor, Some(ExtraTxnSlot { wtxid, transaction, approximate_bytes: tx_bytes }));
        self.approximate_bytes = self.approximate_bytes - cleared + tx_bytes;
        self.write_cursor = if cursor + 1 == n {
            0
        } else {
            cursor + 1
        };
        assert(self.slots@ == w);
        let ghost start = ring(cursor + 1, n as int);
        let mut k: usize = 0;
        while self.approximate_bytes > self.max_bytes
            invariant
                n == self.max_slots,
                n > 0,
                self.max_bytes == old(self).max_bytes,
                self.per_tx_size_limit == old(self).per_tx_size_limit,
                self.slots@.len() == n,
                0 <= start < n,
                w.len() == n,
                k <= n,
                self.slots@ == clear_run(w, start, k as int),
                self.write_cursor == ring(start + k, n as int),
                self.approximate_bytes == slot_bytes(self.slots@),
                forall|t: int| 0 <= t < k ==> slot_bytes(#[trigger] clear_run(w, start, t)) > self.max_bytes,
            decreases n - k,
        {
            proof {
                lemma_clear_run_len(w, start, k as int);
                if k == n {
                    lemma_clear_run_full(w, start, k as int);
                    assert forall|x: int| 0 <= x < n implies self.slots@[x] is None by {
                        let t = if x >= start {
                            x - start
                        } else {
                            x + n - start
                        };
                        assert(ring(start + t, n as int) == x);
                        assert(clear_run(w, start, k as int)[ring(start + t, n as int)] is None);
                    }
                    lemma_slot_bytes_all_none(self.slots@);
                }
            }
            let at = self.write_cursor;
            let freed = match &self.slots[at] {
                Some(slot) => slot.approximate_bytes,
                None => 0,
            };
            proof {
                lemma_slot_bytes_update(self.slots@, at as int, None);
            }
            self.slots.set(at, None);
            self.approximate_bytes = self.approximate_bytes - freed;
            self.write_cursor = if at + 1 == n {
                0
            } else {
                at + 1
            };
            k = k + 1;
        }
        proof {
            lemma_clear_run_len(w, start, k as int);
        }
    }

    /// Pushes the transaction only when it is within the per-transaction
    /// size limit; says whether it did.
    pub fn push_gated(&mut self, wtxid: Wtxid, transaction: T, tx_bytes: usize) -> (r: bool)
        requires
            old(self).wf(),
            old(self).approximate_bytes + tx_bytes <= usize::MAX,
        ensures
            final(self).wf(),
            r == (tx_bytes <= old(self).per_tx_size_limit),
            !r ==> final(self).slots@ == old(self).slots@ && final(self).approximate_bytes
                == old(self).approximate_bytes && final(self).write_cursor == old(self).write_cursor,
            final(self).max_slots == old(self).max_slots,
            final(self).max_bytes == old(self).max_bytes,
            final(self).per_tx_size_limit == old(self).per_tx_size_limit,
    {
        if tx_bytes > self.per_tx_size_limit {
            return false;
        }
        self.push(wtxid, transaction, tx_bytes);
        true
    }
}

/// The occupied slots of `slots`, in slot order.
pub open spec fn occupied<T>(slots: Seq<Option<ExtraTxnSlot<T>>>) -> Seq<ExtraTxnSlot<T>>
    decreases slots.len(),
{
    if slots.len() == 0 {
        Seq::empty()
    } else {
        match slots.last() {
            Some(slot) => occupied(slots.drop_last()).push(slot),
            None => occupied(slots.drop_last()),
        }
    }
}

impl<T: Clone> CompactExtraTxnBuffer<T> {
    /// Copies out the occupied slots, in slot order, as `(wtxid, transaction)`.
    pub fn to_owned_pairs(&self) -> (r: Vec<(Wtxid, T)>)
        ensures
            r@.len() == occupied(self.slots@).len(),
            forall|i: int|
                0 <= i < r@.len() ==> (#[trigger] r@[i]).0 == occupied(self.slots@)[i].wtxid && cloned(
                    occupied(self.slots@)[i].transaction,
                    r@[i].1,
                ),
    {
        let mut r: Vec<(Wtxid, T)> = Vec::new();
        let mut i: usize = 0;
        while i < self.slots.len()
            invariant
                i <= self.slots@.len(),
                r@.len() == occupied(self.slots@.take(i as int)).len(),
                forall|j: int|
                    0 <= j < r@.len() ==> (#[trigger] r@[j]).0 == occupied(self.slots@.take(i as int))[j].wtxid
                        && cloned(occupied(self.slots@.take(i as int))[j].transaction, r@[j].1),
            decreases self.slots@.len() - i,
        {
            proof {
                assert(self.slots@.take(i + 1).drop_last() =~= self.slots@.take(i as int));
            }
            match &self.slots[i] {
                Some(slot) => {
                    r.push((slot.wtxid, slot.transaction.clone()));
                },
                None => {},
            }
            i = i + 1;
        }
        assert(self.slots@.take(self.slots@.len() as int) =~= self.slots@);
        r
    }
}

/// The occupied slots of `buffer` as owned `(wtxid, transaction)` pairs.
pub fn compact_extra_owned<T: Clone>(buffer: &CompactExtraTxnBuffer<T>) -> (r: Vec<(Wtxid, T)>)
    ensures
        r@.len() == occupied(buffer.slots@).len(),
        forall|i: int|
            0 <= i < r@.len() ==> (#[trigger] r@[i]).0 == occupied(buffer.slots@)[i].wtxid && cloned(
                occupied(buffer.slots@)[i].transaction,
                r@[i].1,
            ),
{
    buffer.to_owned_pairs()
}

/// The size a transaction is accounted at: its virtual size where the weight
/// computation succeeded, zero where it failed.
pub fn approximate_tx_bytes(maybe_virtual_size: Option<usize>) -> (r: usize)
    ensures
        r == match maybe_virtual_size {
            Some(v) => v,
            None => 0,
        },
{
    match maybe_virtual_size {
        Some(v) => v,
        None => 0,
    }
}

} // verus!
