//! The initial-broadcast retry tick for the local unbroadcast set: whether a
//! tick runs, where the next walk resumes, and which member a drained
//! transaction inventory stands for.
use vstd::prelude::*;
use crate::identity::{member_lt, Hash32, MemberIdentity, Txid, Wtxid};
use crate::block_serving::{InventoryKind, InventoryVector};
use crate::handle::MaintenanceTickError;
use crate::relay_fanout::RelayFanoutMemory;

verus! {

/// What a retry tick does.
#[derive(Debug, Clone, Copy, PartialEq, Eq, Structural)]
pub enum RetryTickPlan {
    /// The current cycle is not due yet: report its due time and do nothing.
    NotDue { due_at: i64 },
    /// Walk the unbroadcast set and schedule the next cycle at `next_due`.
    Run { next_due: i64 },
}

/// Plans one tick. `maybe_next_due` is the next due time the retry policy
/// computed (none where it overflowed), `maybe_due_at` the due time of the
/// current cycle, and `cycle_due` whether the policy finds that cycle due.
pub fn plan_retry_tick(
    maybe_next_due: Option<i64>,
    maybe_due_at: Option<i64>,
    cycle_due: bool,
) -> (r: Result<RetryTickPlan, MaintenanceTickError>)
    ensures
        match maybe_next_due {
            None => r == Err::<RetryTickPlan, MaintenanceTickError>(MaintenanceTickError::DueTimeOverflow),
            Some(next_due) => match maybe_due_at {
                Some(due_at) => if cycle_due {
                    r == Ok::<RetryTickPlan, MaintenanceTickError>(RetryTickPlan::Run { next_due })
                } else {
                    r == Ok::<RetryTickPlan, MaintenanceTickError>(RetryTickPlan::NotDue { due_at })
                },
                None => r == Ok::<RetryTickPlan, MaintenanceTickError>(RetryTickPlan::Run { next_due }),
            },
        },
{
    let next_due = match maybe_next_due {
        Some(next_due) => next_due,
        None => return Err(MaintenanceTickError::DueTimeOverflow),
    };
    match maybe_due_at {
        Some(due_at) => if !cycle_due {
            return Ok(RetryTickPlan::NotDue { due_at });
        },
        None => {},
    }
    Ok(RetryTickPlan::Run { next_due })
}

/// Where the next walk of the unbroadcast set resumes: after the last member
/// prepared in this tick, or else where the walk's selection left off.
pub fn next_walk_cursor(prepared: &Vec<MemberIdentity>, maybe_next_after: Option<MemberIdentity>) -> (r: Option<MemberIdentity>)
    ensures
        r == (if prepared@.len() > 0 {
            Some(prepared@.last())
        } else {
            maybe_next_after
        }),
{
    if prepared.len() > 0 {
        Some(prepared[prepared.len() - 1])
    } else {
        maybe_next_after
    }
}

/// The outcome of one maintenance tick.
#[derive(Debug)]
pub struct MaintenanceTickOutcome<E> {
    pub inspected_count: usize,
    pub prepared_count: usize,
    pub leftover_unattempted_count: usize,
    pub maybe_next_due_unix_seconds: Option<i64>,
    pub emissions: Vec<E>,
}

/// The outcome of a tick whose cycle was not due: nothing inspected or
/// prepared, and the cycle's due time.
pub fn not_due_outcome<E>(due_at: i64) -> (r: MaintenanceTickOutcome<E>)
    ensures
        r.inspected_count == 0,
        r.prepared_count == 0,
        r.leftover_unattempted_count == 0,
        r.maybe_next_due_unix_seconds == Some(due_at),
        r.emissions@.len() == 0,
{
    MaintenanceTickOutcome {
        inspected_count: 0,
        prepared_count: 0,
        leftover_unattempted_count: 0,
        maybe_next_due_unix_seconds: Some(due_at),
        emissions: Vec::new(),
    }
}

/// Members neither of which is below the other are equal.
pub proof fn lemma_member_order_total(a: MemberIdentity, b: MemberIdentity)
    requires
        !member_lt(a, b),
        !member_lt(b, a),
    ensures
        a == b,
{
}

/// `m` is the least member of `s` that `key` picks.
pub open spec fn is_least_member(s: Seq<MemberIdentity>, m: MemberIdentity, by_txid: bool, key: Hash32) -> bool {
    &&& s.contains(m)
    &&& (if by_txid { m.txid == key } else { m.wtxid == key })
    &&& forall|o: MemberIdentity|
        #![trigger s.contains(o)]
        s.contains(o) && (if by_txid { o.txid == key } else { o.wtxid == key }) ==> !member_lt(o, m)
}

/// The least member of `s` with txid (or wtxid) `key`, if any.
pub open spec fn least_member(s: Seq<MemberIdentity>, by_txid: bool, key: Hash32) -> Option<MemberIdentity> {
    if exists|m: MemberIdentity| is_least_member(s, m, by_txid, key) {
        Some(choose|m: MemberIdentity| is_least_member(s, m, by_txid, key))
    } else {
        None
    }
}

fn find_least_member(s: &Vec<MemberIdentity>, by_txid: bool, key: Hash32) -> (r: Option<MemberIdentity>)
    ensures
        r == least_member(s@, by_txid, key),
{
    let mut best: Option<MemberIdentity> = None;
    let mut i: usize = 0;
    while i < s.len()
        invariant
            i <= s@.len(),
            match best {
                Some(b) => s@.contains(b) && (if by_txid { b.txid == key } else { b.wtxid == key }),
                None => true,
            },
            forall|j: int|
                #![trigger s@[j]]
                0 <= j < i && (if by_txid { s@[j].txid == key } else { s@[j].wtxid == key }) ==> (best matches Some(b)
                    && !member_lt(s@[j], b)),
        decreases s@.len() - i,
    {
        let m = s[i];
        let picked = if by_txid { m.txid == key } else { m.wtxid == key };
        if picked {
            let replace = match best {
                Some(b) => m.less_than(&b),
                None => true,
            };
            if replace {
                best = Some(m);
            }
            assert(s@[i as int] == m);
        }
        i = i + 1;
    }
    proof {
        match best {
            Some(b) => {
                assert forall|o: MemberIdentity| #![trigger s@.contains(o)] s@.contains(o) && (if by_txid { o.txid == key } else { o.wtxid == key }) implies !member_lt(o, b) by {
                    let j = choose|j: int| 0 <= j < s@.len() && s@[j] == o;
                }
                assert(is_least_member(s@, b, by_txid, key));
                let c = choose|c: MemberIdentity| is_least_member(s@, c, by_txid, key);
                assert(is_least_member(s@, c, by_txid, key));
                assert(!member_lt(c, b));
                assert(!member_lt(b, c));
                lemma_member_order_total(b, c);
            },
            None => {
                assert forall|m: MemberIdentity| !is_least_member(s@, m, by_txid, key) by {
                    if s@.contains(m) && (if by_txid { m.txid == key } else { m.wtxid == key }) {
                        let j = choose|j: int| 0 <= j < s@.len() && s@[j] == m;
                    }
                }
            },
        }
    }
    best
}

/// The member a drained transaction inventory item stands for: the least
/// unbroadcast member with its txid (or wtxid), or else the identity the
/// fan-out memory remembers for it; none for other inventory kinds.
pub fn member_for_inventory(
    unbroadcast: &Vec<MemberIdentity>,
    memory: &RelayFanoutMemory,
    item: InventoryVector,
) -> (r: Option<MemberIdentity>)
    requires
        memory.wf(),
    ensures
        match item.inventory_type {
            InventoryKind::Transaction => match least_member(unbroadcast@, true, item.object_hash) {
                Some(m) => r == Some(m),
                None => r == (if memory@.wtxids_by_txid.dom().contains(item.object_hash) {
                    Some(MemberIdentity { txid: item.object_hash, wtxid: memory@.wtxids_by_txid[item.object_hash] })
                } else {
                    None
                }),
            },
            InventoryKind::WitnessTransaction => match least_member(unbroadcast@, false, item.object_hash) {
                Some(m) => r == Some(m),
                None => match r {
                    Some(m) => m.wtxid == item.object_hash && memory@.wtxids_by_txid.dom().contains(m.txid)
                        && memory@.wtxids_by_txid[m.txid] == item.object_hash,
                    None => forall|o: Txid|
                        #![trigger memory@.wtxids_by_txid.dom().contains(o)]
                        memory@.wtxids_by_txid.dom().contains(o) ==> memory@.wtxids_by_txid[o] != item.object_hash,
                },
            },
            _ => r is None,
        },
{
    match item.inventory_type {
        InventoryKind::Transaction => {
            let txid: Txid = item.object_hash;
            match find_least_member(unbroadcast, true, txid) {
                Some(m) => Some(m),
                None => match memory.wtxid_for_txid(txid) {
                    Some(wtxid) => Some(MemberIdentity { txid, wtxid }),
                    None => None,
                },
            }
        },
        InventoryKind::WitnessTransaction => {
            let wtxid: Wtxid = item.object_hash;
            match find_least_member(unbroadcast, false, wtxid) {
                Some(m) => Some(m),
                None => match memory.txid_for_wtxid(wtxid) {
                    Some(txid) => Some(MemberIdentity { txid, wtxid }),
                    None => None,
                },
            }
        },
        _ => None,
    }
}

} // verus!
