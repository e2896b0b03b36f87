//! Mempool recovery: per-transaction recovery statuses, the recovery summary,
//! and the classification and ordering of recovered records.
use vstd::prelude::*;
use crate::identity::{Hash32, MemberIdentity, Txid, hash_lt, members_contain};
use crate::relay_evidence::{RelayRecoveryCounters, count_where, lemma_count_where_bounded, lemma_count_where_take};

verus! {

/// What became of one snapshot transaction during recovery.
#[derive(Debug, Clone, Copy, PartialEq, Eq, Structural, Hash)]
pub enum MempoolRecoveryStatus {
    Recovered,
    DroppedConfirmed,
    DroppedDuplicate,
    DroppedMissingParent,
    DroppedPolicyIncompatible,
    DroppedExpired,
    DroppedEvicted,
}

/// The recovery status of one snapshot transaction.
#[derive(Debug, Clone, Copy, PartialEq, Eq, Structural)]
pub struct MempoolRecoveryRecord {
    pub txid: Txid,
    pub status: MempoolRecoveryStatus,
}

/// Why recovery evidence could not be read.
#[derive(Debug, Clone, Copy, PartialEq, Eq, Structural, Hash)]
pub enum SyncRecoveryCategory {
    Storage,
    Corruption,
    Unavailable,
}

/// The sort rank of a status among records of one txid.
pub open spec fn rank_spec(status: MempoolRecoveryStatus) -> u8 {
    match status {
        MempoolRecoveryStatus::Recovered => 0,
        MempoolRecoveryStatus::DroppedConfirmed => 1,
        MempoolRecoveryStatus::DroppedDuplicate => 2,
        MempoolRecoveryStatus::DroppedMissingParent => 3,
        MempoolRecoveryStatus::DroppedPolicyIncompatible => 4,
        MempoolRecoveryStatus::DroppedExpired => 5,
        MempoolRecoveryStatus::DroppedEvicted => 6,
    }
}

/// The sort rank of a status among records of one txid.
pub fn status_rank(status: MempoolRecoveryStatus) -> (r: u8)
    ensures
        r == rank_spec(status),
{
    match status {
        MempoolRecoveryStatus::Recovered => 0,
        MempoolRecoveryStatus::DroppedConfirmed => 1,
        MempoolRecoveryStatus::DroppedDuplicate => 2,
        MempoolRecoveryStatus::DroppedMissingParent => 3,
        MempoolRecoveryStatus::DroppedPolicyIncompatible => 4,
        MempoolRecoveryStatus::DroppedExpired => 5,
        MempoolRecoveryStatus::DroppedEvicted => 6,
    }
}

/// The predicate "has status `s`".
pub open spec fn status_is(s: MempoolRecoveryStatus) -> spec_fn(MempoolRecoveryRecord) -> bool {
    |r: MempoolRecoveryRecord| r.status == s
}

/// Per-status counts of one recovery, with its records.
#[derive(Debug, Clone, PartialEq, Eq)]
pub struct ManagedMempoolRecoverySummary {
    pub recovered_count: u64,
    pub dropped_confirmed_count: u64,
    pub dropped_duplicate_count: u64,
    pub dropped_missing_parent_count: u64,
    pub dropped_policy_incompatible_count: u64,
    pub dropped_expired_count: u64,
    pub dropped_evicted_count: u64,
    pub records: Vec<MempoolRecoveryRecord>,
}

impl ManagedMempoolRecoverySummary {
    /// Whether each count is the number of records with its status.
    pub open spec fn counts_match(&self, records: Seq<MempoolRecoveryRecord>) -> bool {
        &&& self.recovered_count == count_where(records, status_is(MempoolRecoveryStatus::Recovered))
        &&& self.dropped_confirmed_count == count_where(records, status_is(MempoolRecoveryStatus::DroppedConfirmed))
        &&& self.dropped_duplicate_count == count_where(records, status_is(MempoolRecoveryStatus::DroppedDuplicate))
        &&& self.dropped_missing_parent_count == count_where(
            records,
            status_is(MempoolRecoveryStatus::DroppedMissingParent),
        )
        &&& self.dropped_policy_incompatible_count == count_where(
            records,
            status_is(MempoolRecoveryStatus::DroppedPolicyIncompatible),
        )
        &&& self.dropped_expired_count == count_where(records, status_is(MempoolRecoveryStatus::DroppedExpired))
        &&& self.dropped_evicted_count == count_where(records, status_is(MempoolRecoveryStatus::DroppedEvicted))
    }

    /// The sum of the seven counts.
    pub open spec fn total(&self) -> int {
        self.recovered_count + self.dropped_confirmed_count + self.dropped_duplicate_count
            + self.dropped_missing_parent_count + self.dropped_policy_incompatible_count
            + self.dropped_expired_count + self.dropped_evicted_count
    }

    /// Counts the records by status and keeps them.
    pub fn from_records(records: Vec<MempoolRecoveryRecord>) -> (r: Self)
        ensures
            r.records@ == records@,
            r.counts_match(records@),
    {
        let mut r = ManagedMempoolRecoverySummary {
            recovered_count: 0,
            dropped_confirmed_count: 0,
            dropped_duplicate_count: 0,
            dropped_missing_parent_count: 0,
            dropped_policy_incompatible_count: 0,
            dropped_expired_count: 0,
            dropped_evicted_count: 0,
            records: Vec::new(),
        };
        let mut i: usize = 0;
        while i < records.len()
            invariant
                i <= records@.len(),
                r.records@.len() == 0,
                r.counts_match(records@.take(i as int)),
            decreases records@.len() - i,
        {
            proof {
                lemma_count_where_take(records@, status_is(MempoolRecoveryStatus::Recovered), i as int);
                lemma_count_where_take(records@, status_is(MempoolRecoveryStatus::DroppedConfirmed), i as int);
                lemma_count_where_take(records@, status_is(MempoolRecoveryStatus::DroppedDuplicate), i as int);
                lemma_count_where_take(records@, status_is(MempoolRecoveryStatus::DroppedMissingParent), i as int);
                lemma_count_where_take(
                    records@,
                    status_is(MempoolRecoveryStatus::DroppedPolicyIncompatible),
                    i as int,
                );
                lemma_count_where_take(records@, status_is(MempoolRecoveryStatus::DroppedExpired), i as int);
                lemma_count_where_take(records@, status_is(MempoolRecoveryStatus::DroppedEvicted), i as int);
                lemma_count_where_bounded(records@.take(i as int), status_is(MempoolRecoveryStatus::Recovered));
                lemma_count_where_bounded(
                    records@.take(i as int),
                    status_is(MempoolRecoveryStatus::DroppedConfirmed),
                );
                lemma_count_where_bounded(
                    records@.take(i as int),
                    status_is(MempoolRecoveryStatus::DroppedDuplicate),
                );
                lemma_count_where_bounded(
                    records@.take(i as int),
                    status_is(MempoolRecoveryStatus::DroppedMissingParent),
                );
                lemma_count_where_bounded(
                    records@.take(i as int),
                    status_is(MempoolRecoveryStatus::DroppedPolicyIncompatible),
                );
                lemma_count_where_bounded(records@.take(i as int), status_is(MempoolRecoveryStatus::DroppedExpired));
                lemma_count_where_bounded(records@.take(i as int), status_is(MempoolRecoveryStatus::DroppedEvicted));
            }
            match records[i].status {
                MempoolRecoveryStatus::Recovered => r.recovered_count = r.recovered_count + 1,
                MempoolRecoveryStatus::DroppedConfirmed => r.dropped_confirmed_count = r.dropped_confirmed_count + 1,
                MempoolRecoveryStatus::DroppedDuplicate => r.dropped_duplicate_count = r.dropped_duplicate_count + 1,
                MempoolRecoveryStatus::DroppedMissingParent => {
                    r.dropped_missing_parent_count = r.dropped_missing_parent_count + 1;
                },
                MempoolRecoveryStatus::DroppedPolicyIncompatible => {
                    r.dropped_policy_incompatible_count = r.dropped_policy_incompatible_count + 1;
                },
                MempoolRecoveryStatus::DroppedExpired => r.dropped_expired_count = r.dropped_expired_count + 1,
                MempoolRecoveryStatus::DroppedEvicted => r.dropped_evicted_count = r.dropped_evicted_count + 1,
            }
            i = i + 1;
        }
        assert(records@.take(records@.len() as int) =~= records@);
        r.records = records;
        r
    }

    /// The relay recovery counters copied from this summary.
    pub fn relay_recovery_counters(&self) -> (r: RelayRecoveryCounters)
        ensures
            r.recovered_count == self.recovered_count,
            r.dropped_confirmed_count == self.dropped_confirmed_count,
            r.dropped_duplicate_count == self.dropped_duplicate_count,
            r.dropped_missing_parent_count == self.dropped_missing_parent_count,
            r.dropped_policy_incompatible_count == self.dropped_policy_incompatible_count,
            r.dropped_expired_count == self.dropped_expired_count,
            r.dropped_evicted_count == self.dropped_evicted_count,
    {
        RelayRecoveryCounters {
            recovered_count: self.recovered_count,
            dropped_confirmed_count: self.dropped_confirmed_count,
            dropped_duplicate_count: self.dropped_duplicate_count,
            dropped_missing_parent_count: self.dropped_missing_parent_count,
            dropped_policy_incompatible_count: self.dropped_policy_incompatible_count,
            dropped_expired_count: self.dropped_expired_count,
            dropped_evicted_count: self.dropped_evicted_count,
        }
    }
}

/// The seven per-status counts add up to the number of records.
pub proof fn lemma_status_counts_sum(records: Seq<MempoolRecoveryRecord>)
    ensures
        count_where(records, status_is(MempoolRecoveryStatus::Recovered)) + count_where(
            records,
            status_is(MempoolRecoveryStatus::DroppedConfirmed),
        ) + count_where(records, status_is(MempoolRecoveryStatus::DroppedDuplicate)) + count_where(
            records,
            status_is(MempoolRecoveryStatus::DroppedMissingParent),
        ) + count_where(records, status_is(MempoolRecoveryStatus::DroppedPolicyIncompatible)) + count_where(
            records,
            status_is(MempoolRecoveryStatus::DroppedExpired),
        ) + count_where(records, status_is(MempoolRecoveryStatus::DroppedEvicted)) == records.len(),
    decreases records.len(),
{
    if records.len() > 0 {
        lemma_status_counts_sum(records.drop_last());
    }
}

/// Law: a summary built from records accounts for every record exactly once:
/// its seven counts sum to the number of records.
pub proof fn law_summary_counts_every_record(summary: ManagedMempoolRecoverySummary, records: Seq<MempoolRecoveryRecord>)
    requires
        summary.counts_match(records),
    ensures
        summary.total() == records.len(),
{
    lemma_status_counts_sum(records);
}

/// Records ordered by txid, then by status rank.
pub open spec fn record_le(a: MempoolRecoveryRecord, b: MempoolRecoveryRecord) -> bool {
    hash_lt(a.txid, b.txid) || (a.txid == b.txid && rank_spec(a.status) <= rank_spec(b.status))
}

/// Whether `s` is sorted by `record_le`.
pub open spec fn records_sorted(s: Seq<MempoolRecoveryRecord>) -> bool {
    forall|i: int, j: int| 0 <= i < j < s.len() ==> record_le(#[trigger] s[i], #[trigger] s[j])
}

fn record_le_exec(a: &MempoolRecoveryRecord, b: &MempoolRecoveryRecord) -> (r: bool)
    ensures
        r == record_le(*a, *b),
{
    a.txid.less_than(&b.txid) || (a.txid == b.txid && status_rank(a.status) <= status_rank(b.status))
}

/// Sorts `records` by txid, then by status rank.
pub fn sort_recovery_records(records: Vec<MempoolRecoveryRecord>) -> (r: Vec<MempoolRecoveryRecord>)
    ensures
        records_sorted(r@),
        r@.to_multiset() == records@.to_multiset(),
{
    broadcast use vstd::seq_lib::to_multiset_insert;
    broadcast use vstd::seq_lib::group_to_multiset_ensures;

    let mut out: Vec<MempoolRecoveryRecord> = Vec::new();
    let mut i: usize = 0;
    proof {
        assert(records@.take(0) =~= Seq::<MempoolRecoveryRecord>::empty());
        assert(out@ =~= Seq::<MempoolRecoveryRecord>::empty());
        assert(out@.to_multiset() =~= records@.take(0).to_multiset());
    }
    while i < records.len()
        invariant
            i <= records@.len(),
            records_sorted(out@),
            out@.to_multiset() == records@.take(i as int).to_multiset(),
        decreases records@.len() - i,
    {
        let x = records[i];
        let mut pos: usize = 0;
        while pos < out.len() && record_le_exec(&out[pos], &x)
            invariant
                pos <= out@.len(),
                records_sorted(out@),
                forall|j: int| 0 <= j < pos ==> record_le(#[trigger] out@[j], x),
            decreases out@.len() - pos,
        {
            pos = pos + 1;
        }
        proof {
            assert forall|j: int| pos <= j < out@.len() implies record_le(x, #[trigger] out@[j]) by {
                assert(!record_le(out@[pos as int], x));
                if j > pos {
                    assert(record_le(out@[pos as int], out@[j]));
                }
            }
        }
        let ghost old_out = out@;
        out.insert(pos, x);
        proof {
            assert(records@.take(i + 1) =~= records@.take(i as int).push(x));
            vstd::seq_lib::to_multiset_build(records@.take(i as int), x);
            vstd::seq_lib::to_multiset_insert(old_out, pos as int, x);
            assert(out@.to_multiset() =~= records@.take(i + 1).to_multiset());
            assert forall|a: int, b: int| 0 <= a < b < out@.len() implies record_le(
                #[trigger] out@[a],
                #[trigger] out@[b],
            ) by {
                if a < pos && b > pos {
                    assert(out@[a] == old_out[a]);
                    assert(out@[b] == old_out[b - 1]);
                } else if a < pos && b == pos {
                    assert(out@[a] == old_out[a]);
                } else if a == pos && b > pos {
                    assert(out@[b] == old_out[b - 1]);
                } else if a < pos {
                    assert(out@[a] == old_out[a]);
                    assert(out@[b] == old_out[b]);
                } else {
                    assert(out@[a] == old_out[a - 1]);
                    assert(out@[b] == old_out[b - 1]);
                }
            }
        }
        i = i + 1;
    }
    assert(records@.take(records@.len() as int) =~= records@);
    out
}

/// How one topologically ordered record fared when replayed into a fresh
/// mempool: already confirmed, or the mempool's outcome.
#[derive(Debug, Clone, Copy, PartialEq, Eq, Structural, Hash)]
pub enum RecoveryReplayOutcome {
    Confirmed,
    Accepted,
    Replaced,
    Duplicate,
    Orphaned,
    Rejected,
    Evicted,
    Expired,
}

/// The status of a replayed record, given whether it expired at startup and
/// whether it is in the final mempool.
pub open spec fn replay_status(outcome: RecoveryReplayOutcome, expired: bool, in_final: bool) -> MempoolRecoveryStatus {
    match outcome {
        RecoveryReplayOutcome::Confirmed => MempoolRecoveryStatus::DroppedConfirmed,
        RecoveryReplayOutcome::Duplicate => MempoolRecoveryStatus::DroppedDuplicate,
        RecoveryReplayOutcome::Orphaned => MempoolRecoveryStatus::DroppedMissingParent,
        RecoveryReplayOutcome::Rejected => MempoolRecoveryStatus::DroppedPolicyIncompatible,
        RecoveryReplayOutcome::Evicted => MempoolRecoveryStatus::DroppedEvicted,
        RecoveryReplayOutcome::Expired => MempoolRecoveryStatus::DroppedExpired,
        _ => if expired {
            MempoolRecoveryStatus::DroppedExpired
        } else if in_final {
            MempoolRecoveryStatus::Recovered
        } else {
            MempoolRecoveryStatus::DroppedEvicted
        },
    }
}

fn replay_status_exec(outcome: RecoveryReplayOutcome, expired: bool, in_final: bool) -> (r: MempoolRecoveryStatus)
    ensures
        r == replay_status(outcome, expired, in_final),
{
    match outcome {
        RecoveryReplayOutcome::Confirmed => MempoolRecoveryStatus::DroppedConfirmed,
        RecoveryReplayOutcome::Duplicate => MempoolRecoveryStatus::DroppedDuplicate,
        RecoveryReplayOutcome::Orphaned => MempoolRecoveryStatus::DroppedMissingParent,
        RecoveryReplayOutcome::Rejected => MempoolRecoveryStatus::DroppedPolicyIncompatible,
        RecoveryReplayOutcome::Evicted => MempoolRecoveryStatus::DroppedEvicted,
        RecoveryReplayOutcome::Expired => MempoolRecoveryStatus::DroppedExpired,
        RecoveryReplayOutcome::Accepted | RecoveryReplayOutcome::Replaced => if expired {
            MempoolRecoveryStatus::DroppedExpired
        } else if in_final {
            MempoolRecoveryStatus::Recovered
        } else {
            MempoolRecoveryStatus::DroppedEvicted
        },
    }
}

/// Whether some member of `members` has txid `t`.
pub open spec fn has_txid(members: Seq<MemberIdentity>, t: Txid) -> bool {
    exists|i: int| 0 <= i < members.len() && (#[trigger] members[i]).txid == t
}

pub(crate) fn members_have_txid(members: &Vec<MemberIdentity>, t: Txid) -> (r: bool)
    ensures
        r == has_txid(members@, t),
{
    let mut i: usize = 0;
    while i < members.len()
        invariant
            i <= members@.len(),
            forall|j: int| 0 <= j < i ==> (#[trigger] members@[j]).txid != t,
        decreases members@.len() - i,
    {
        if members[i].txid == t {
            return true;
        }
        i = i + 1;
    }
    false
}

fn txids_have(v: &Vec<Txid>, t: Txid) -> (r: bool)
    ensures
        r == v@.contains(t),
{
    let mut i: usize = 0;
    while i < v.len()
        invariant
            i <= v@.len(),
            forall|j: int| 0 <= j < i ==> v@[j] != t,
        decreases v@.len() - i,
    {
        if v[i] == t {
            return true;
        }
        i = i + 1;
    }
    false
}

/// The recovered outcome: every record's status, sorted; the unbroadcast
/// members that survived; and the survivors in replay order.
#[derive(Debug, Clone, PartialEq, Eq)]
pub struct RecoveryClassification {
    pub recovery_records: Vec<MempoolRecoveryRecord>,
    pub unbroadcast_members: Vec<MemberIdentity>,
    pub ordered_survivors: Vec<MemberIdentity>,
}

/// The status records of the replayed members, in replay order.
pub open spec fn replay_records(
    ordered: Seq<MemberIdentity>,
    outcomes: Seq<RecoveryReplayOutcome>,
    expired: Seq<Txid>,
    final_members: Seq<MemberIdentity>,
) -> Seq<MempoolRecoveryRecord> {
    Seq::new(
        ordered.len(),
        |i: int|
            MempoolRecoveryRecord {
                txid: ordered[i].txid,
                status: replay_status(
                    outcomes[i],
                    expired.contains(ordered[i].txid),
                    has_txid(final_members, ordered[i].txid),
                ),
            },
    )
}

/// Classifies a replayed recovery: each replayed member's status from its
/// replay outcome, startup expiry and final membership, appended to the
/// topology's statuses and sorted by txid and status rank; the persisted
/// unbroadcast members still in the final mempool; and the replayed members
/// whose txid is in the final mempool, in replay order.
pub fn classify_recovery(
    topology_statuses: Vec<MempoolRecoveryRecord>,
    ordered: &Vec<MemberIdentity>,
    outcomes: &Vec<RecoveryReplayOutcome>,
    expired: &Vec<Txid>,
    final_members: &Vec<MemberIdentity>,
    persisted_unbroadcast: &Vec<MemberIdentity>,
) -> (r: RecoveryClassification)
    requires
        outcomes@.len() == ordered@.len(),
    ensures
        records_sorted(r.recovery_records@),
        r.recovery_records@.to_multiset() == (topology_statuses@ + replay_records(
            ordered@,
            outcomes@,
            expired@,
            final_members@,
        )).to_multiset(),
        r.unbroadcast_members@ == persisted_unbroadcast@.filter(|m: MemberIdentity| final_members@.contains(m)),
        r.ordered_survivors@ == ordered@.filter(|m: MemberIdentity| has_txid(final_members@, m.txid)),
        forall|i: int|
            0 <= i < ordered@.len() ==> r.recovery_records@.contains(
                #[trigger] replay_records(ordered@, outcomes@, expired@, final_members@)[i],
            ),
{
    let mut all = topology_statuses;
    let ghost base = all@;
    let mut i: usize = 0;
    while i < ordered.len()
        invariant
            i <= ordered@.len(),
            outcomes@.len() == ordered@.len(),
            all@ == base + replay_records(ordered@, outcomes@, expired@, final_members@).take(i as int),
        decreases ordered@.len() - i,
    {
        let txid = ordered[i].txid;
        let status = replay_status_exec(outcomes[i], txids_have(expired, txid), members_have_txid(final_members, txid));
        all.push(MempoolRecoveryRecord { txid, status });
        proof {
            assert(replay_records(ordered@, outcomes@, expired@, final_members@).take(i + 1) =~= replay_records(
                ordered@,
                outcomes@,
                expired@,
                final_members@,
            ).take(i as int).push(MempoolRecoveryRecord { txid, status }));
        }
        i = i + 1;
    }
    assert(replay_records(ordered@, outcomes@, expired@, final_members@).take(ordered@.len() as int) =~= replay_records(
        ordered@,
        outcomes@,
        expired@,
        final_members@,
    ));
    let ghost all_seq = all@;
    let recovery_records = sort_recovery_records(all);
    proof {
        broadcast use vstd::seq_lib::group_to_multiset_ensures;

        let rr = replay_records(ordered@, outcomes@, expired@, final_members@);
        assert forall|i: int| 0 <= i < ordered@.len() implies recovery_records@.contains(#[trigger] rr[i]) by {
            assert(all_seq[base.len() + i] == rr[i]);
            assert(all_seq.contains(rr[i]));
            assert(all_seq.to_multiset().contains(rr[i]));
            assert(recovery_records@.to_multiset().contains(rr[i]));
        }
    }
    let ghost fu = |m: MemberIdentity| final_members@.contains(m);
    let mut unbroadcast_members: Vec<MemberIdentity> = Vec::new();
    let mut j: usize = 0;
    while j < persisted_unbroadcast.len()
        invariant
            j <= persisted_unbroadcast@.len(),
            fu == (|m: MemberIdentity| final_members@.contains(m)),
            unbroadcast_members@ == persisted_unbroadcast@.take(j as int).filter(fu),
        decreases persisted_unbroadcast@.len() - j,
    {
        let m = persisted_unbroadcast[j];
        proof {
            assert(persisted_unbroadcast@.take(j + 1).drop_last() =~= persisted_unbroadcast@.take(j as int));
            persisted_unbroadcast@.take(j as int).lemma_filter_push(m, fu);
            assert(persisted_unbroadcast@.take(j + 1) =~= persisted_unbroadcast@.take(j as int).push(m));
        }
        if members_contain(final_members, m) {
            unbroadcast_members.push(m);
        }
        j = j + 1;
    }
    assert(persisted_unbroadcast@.take(persisted_unbroadcast@.len() as int) =~= persisted_unbroadcast@);
    let ghost fs = |m: MemberIdentity| has_txid(final_members@, m.txid);
    let mut ordered_survivors: Vec<MemberIdentity> = Vec::new();
    let mut k: usize = 0;
    while k < ordered.len()
        invariant
            k <= ordered@.len(),
            fs == (|m: MemberIdentity| has_txid(final_members@, m.txid)),
            ordered_survivors@ == ordered@.take(k as int).filter(fs),
        decreases ordered@.len() - k,
    {
        let m = ordered[k];
        proof {
            ordered@.take(k as int).lemma_filter_push(m, fs);
            assert(ordered@.take(k + 1) =~= ordered@.take(k as int).push(m));
        }
        if members_have_txid(final_members, m.txid) {
            ordered_survivors.push(m);
        }
        k = k + 1;
    }
    assert(ordered@.take(ordered@.len() as int) =~= ordered@);
    RecoveryClassification { recovery_records, unbroadcast_members, ordered_survivors }
}

/// Where a recovered mempool entry is said to come from.
#[derive(Debug, Clone, Copy, PartialEq, Eq, Structural, Hash)]
pub enum MempoolOrigin {
    Local,
    RecoveryUnknown,
}

/// Whether relay of a recovered entry was requested.
#[derive(Debug, Clone, Copy, PartialEq, Eq, Structural, Hash)]
pub enum RelayIntent {
    Requested,
    NotRequested,
}

/// The origin and relay intent of a recovered entry: a member persisted as
/// unbroadcast was a local submission whose relay was requested; any other
/// is of unknown origin and not requested for relay.
pub fn recovery_metadata(local_requested: bool) -> (r: (MempoolOrigin, RelayIntent))
    ensures
        r == (if local_requested {
            (MempoolOrigin::Local, RelayIntent::Requested)
        } else {
            (MempoolOrigin::RecoveryUnknown, RelayIntent::NotRequested)
        }),
{
    if local_requested {
        (MempoolOrigin::Local, RelayIntent::Requested)
    } else {
        (MempoolOrigin::RecoveryUnknown, RelayIntent::NotRequested)
    }
}

} // verus!
