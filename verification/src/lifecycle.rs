//! Pure projections of one prepared mempool lifecycle transition: its shape,
//! the evidence counters, the persistence generation, the unbroadcast set,
//! and the read-only reconciliation report.
use vstd::prelude::*;
use crate::generation::{LifecycleGeneration, LifecyclePreparationError};
use crate::identity::{members_contain, Hash32, MemberIdentity};

verus! {

/// The most members the unbroadcast set may hold.
pub const MAX_UNBROADCAST_MEMBERS: usize = 5000;

/// Why a member left the mempool.
#[derive(Debug, Clone, Copy, PartialEq, Eq, Structural, Hash)]
pub enum MempoolRemovalCause {
    Replacement,
    Expiry,
    Pressure,
    BlockConfirmation,
    BlockConflict,
    Reorg,
}

/// A member present after the transition, with its retry eligibility.
#[derive(Debug, Clone, Copy, PartialEq, Eq, Structural)]
pub struct FinalPresentMember {
    pub member: MemberIdentity,
    pub retry_eligible: bool,
}

/// A member removed by the transition, with the cause.
#[derive(Debug, Clone, Copy, PartialEq, Eq, Structural)]
pub struct RemovedMember {
    pub member: MemberIdentity,
    pub cause: MempoolRemovalCause,
}

/// The facts of one prepared lifecycle transition that the projections read.
#[derive(Debug, Clone)]
pub struct LifecycleFacts {
    pub final_present: Vec<FinalPresentMember>,
    pub admitted_order_len: usize,
    pub removed: Vec<RemovedMember>,
    pub teardown_order: Vec<MemberIdentity>,
    pub retry_clears: Vec<MemberIdentity>,
    pub delta_is_empty: bool,
}

/// Fixed low-cardinality lifecycle evidence.
#[derive(Debug, Clone, Copy, PartialEq, Eq, Structural, Default)]
pub struct LifecycleEvidenceSnapshot {
    pub committed_transitions: u64,
    pub admitted_members: u64,
    pub removed_members: u64,
    pub retry_clears: u64,
    pub replacement_removals: u64,
    pub expiry_removals: u64,
    pub pressure_removals: u64,
    pub block_confirmation_removals: u64,
    pub block_conflict_removals: u64,
    pub reorg_removals: u64,
}

pub open spec fn zero_evidence() -> LifecycleEvidenceSnapshot {
    LifecycleEvidenceSnapshot {
        committed_transitions: 0,
        admitted_members: 0,
        removed_members: 0,
        retry_clears: 0,
        replacement_removals: 0,
        expiry_removals: 0,
        pressure_removals: 0,
        block_confirmation_removals: 0,
        block_conflict_removals: 0,
        reorg_removals: 0,
    }
}

/// `a + b`, clamped at `u64::MAX`.
pub open spec fn sat_add(a: u64, b: int) -> u64 {
    if a + b > u64::MAX {
        u64::MAX
    } else {
        (a + b) as u64
    }
}

/// Saturating `a + b` on counters.
pub fn saturating_add_u64(a: u64, b: u64) -> (r: u64)
    ensures
        r == sat_add(a, b as int),
{
    if a > u64::MAX - b {
        u64::MAX
    } else {
        a + b
    }
}

/// The number of removals in `removed` with the given cause.
pub open spec fn cause_count(removed: Seq<RemovedMember>, cause: MempoolRemovalCause) -> nat
    decreases removed.len(),
{
    if removed.len() == 0 {
        0
    } else {
        cause_count(removed.drop_last(), cause) + if removed.last().cause == cause {
            1nat
        } else {
            0nat
        }
    }
}

/// A counter advanced by `n` saturating single steps.
pub open spec fn sat_steps(a: u64, n: nat) -> u64 {
    sat_add(a, n as int)
}

/// The evidence after one transition with the given facts.
pub open spec fn evidence_after(e: LifecycleEvidenceSnapshot, facts: LifecycleFacts) -> LifecycleEvidenceSnapshot {
    if facts.delta_is_empty {
        e
    } else {
        let removed = facts.removed@;
        LifecycleEvidenceSnapshot {
            committed_transitions: sat_add(e.committed_transitions, 1),
            admitted_members: sat_add(e.admitted_members, facts.final_present@.len() as int),
            removed_members: sat_add(e.removed_members, removed.len() as int),
            retry_clears: sat_add(e.retry_clears, facts.retry_clears@.len() as int),
            replacement_removals: sat_steps(e.replacement_removals, cause_count(removed, MempoolRemovalCause::Replacement)),
            expiry_removals: sat_steps(e.expiry_removals, cause_count(removed, MempoolRemovalCause::Expiry)),
            pressure_removals: sat_steps(e.pressure_removals, cause_count(removed, MempoolRemovalCause::Pressure)),
            block_confirmation_removals: sat_steps(
                e.block_confirmation_removals,
                cause_count(removed, MempoolRemovalCause::BlockConfirmation),
            ),
            block_conflict_removals: sat_steps(
                e.block_conflict_removals,
                cause_count(removed, MempoolRemovalCause::BlockConflict),
            ),
            reorg_removals: sat_steps(e.reorg_removals, cause_count(removed, MempoolRemovalCause::Reorg)),
        }
    }
}

proof fn lemma_sat_step(a: u64, n: nat)
    ensures
        sat_add(sat_steps(a, n), 1) == sat_steps(a, n + 1),
{
}

/// The evidence projection of one prepared transition.
pub fn prepare_lifecycle_evidence(current: LifecycleEvidenceSnapshot, facts: &LifecycleFacts) -> (r:
    LifecycleEvidenceSnapshot)
    ensures
        r == evidence_after(current, *facts),
{
    if facts.delta_is_empty {
        return current;
    }
    let mut e = current;
    e.committed_transitions = saturating_add_u64(e.committed_transitions, 1);
    e.admitted_members = saturating_add_u64(e.admitted_members, facts.final_present.len() as u64);
    e.removed_members = saturating_add_u64(e.removed_members, facts.removed.len() as u64);
    e.retry_clears = saturating_add_u64(e.retry_clears, facts.retry_clears.len() as u64);
    let mut i: usize = 0;
    while i < facts.removed.len()
        invariant
            i <= facts.removed@.len(),
            e.committed_transitions == sat_add(current.committed_transitions, 1),
            e.admitted_members == sat_add(current.admitted_members, facts.final_present@.len() as int),
            e.removed_members == sat_add(current.removed_members, facts.removed@.len() as int),
            e.retry_clears == sat_add(current.retry_clears, facts.retry_clears@.len() as int),
            e.replacement_removals == sat_steps(current.replacement_removals, cause_count(facts.removed@.take(i as int), MempoolRemovalCause::Replacement)),
            e.expiry_removals == sat_steps(current.expiry_removals, cause_count(facts.removed@.take(i as int), MempoolRemovalCause::Expiry)),
            e.pressure_removals == sat_steps(current.pressure_removals, cause_count(facts.removed@.take(i as int), MempoolRemovalCause::Pressure)),
            e.block_confirmation_removals == sat_steps(current.block_confirmation_removals, cause_count(facts.removed@.take(i as int), MempoolRemovalCause::BlockConfirmation)),
            e.block_conflict_removals == sat_steps(current.block_conflict_removals, cause_count(facts.removed@.take(i as int), MempoolRemovalCause::BlockConflict)),
            e.reorg_removals == sat_steps(current.reorg_removals, cause_count(facts.removed@.take(i as int), MempoolRemovalCause::Reorg)),
        decreases facts.removed@.len() - i,
    {
        let ghost prefix = facts.removed@.take(i as int);
        let ghost next = facts.removed@.take(i + 1);
        proof {
            assert(next.drop_last() =~= prefix);
            assert(next.last() == facts.removed@[i as int]);
        }
        let cause = facts.removed[i].cause;
        proof {
            lemma_sat_step(current.replacement_removals, cause_count(prefix, MempoolRemovalCause::Replacement));
            lemma_sat_step(current.expiry_removals, cause_count(prefix, MempoolRemovalCause::Expiry));
            lemma_sat_step(current.pressure_removals, cause_count(prefix, MempoolRemovalCause::Pressure));
            lemma_sat_step(current.block_confirmation_removals, cause_count(prefix, MempoolRemovalCause::BlockConfirmation));
            lemma_sat_step(current.block_conflict_removals, cause_count(prefix, MempoolRemovalCause::BlockConflict));
            lemma_sat_step(current.reorg_removals, cause_count(prefix, MempoolRemovalCause::Reorg));
        }
        match cause {
            MempoolRemovalCause::Replacement => {
                e.replacement_removals = saturating_add_u64(e.replacement_removals, 1);
            },
            MempoolRemovalCause::Expiry => {
                e.expiry_removals = saturating_add_u64(e.expiry_removals, 1);
            },
            MempoolRemovalCause::Pressure => {
                e.pressure_removals = saturating_add_u64(e.pressure_removals, 1);
            },
            MempoolRemovalCause::BlockConfirmation => {
                e.block_confirmation_removals = saturating_add_u64(e.block_confirmation_removals, 1);
            },
            MempoolRemovalCause::BlockConflict => {
                e.block_conflict_removals = saturating_add_u64(e.block_conflict_removals, 1);
            },
            MempoolRemovalCause::Reorg => {
                e.reorg_removals = saturating_add_u64(e.reorg_removals, 1);
            },
        }
        i = i + 1;
    }
    proof {
        assert(facts.removed@.take(facts.removed@.len() as int) =~= facts.removed@);
    }
    e
}

/// The shape check: final-present members must match the admitted order,
/// then removed members the teardown order.
pub open spec fn shape_spec(facts: LifecycleFacts) -> Result<ProjectionShape, LifecyclePreparationError> {
    if facts.final_present@.len() != facts.admitted_order_len {
        Err(
            LifecyclePreparationError::FinalPresentOrderMismatch {
                final_present: facts.final_present@.len() as usize,
                admitted_order: facts.admitted_order_len,
            },
        )
    } else if facts.removed@.len() != facts.teardown_order@.len() {
        Err(
            LifecyclePreparationError::TeardownOrderMismatch {
                removed: facts.removed@.len() as usize,
                teardown_order: facts.teardown_order@.len() as usize,
            },
        )
    } else {
        Ok(
            ProjectionShape {
                admitted: facts.admitted_order_len,
                removed: facts.teardown_order@.len() as usize,
                retry_clears: facts.retry_clears@.len() as usize,
            },
        )
    }
}

/// The counts of one coherent transition.
#[derive(Debug, Clone, Copy, PartialEq, Eq, Structural)]
pub struct ProjectionShape {
    pub admitted: usize,
    pub removed: usize,
    pub retry_clears: usize,
}

impl ProjectionShape {
    /// Checks that final-present members match the admitted order and removed
    /// members match the teardown order.
    pub fn checked_from_counts(
        final_present: usize,
        admitted_order: usize,
        removed: usize,
        teardown_order: usize,
        retry_clears: usize,
    ) -> (r: Result<ProjectionShape, LifecyclePreparationError>)
        ensures
            final_present != admitted_order ==> r == Err::<ProjectionShape, LifecyclePreparationError>(
                LifecyclePreparationError::FinalPresentOrderMismatch { final_present, admitted_order }),
            final_present == admitted_order && removed != teardown_order ==> r == Err::<
                ProjectionShape,
                LifecyclePreparationError,
            >(LifecyclePreparationError::TeardownOrderMismatch { removed, teardown_order }),
            final_present == admitted_order && removed == teardown_order ==> r == Ok::<
                ProjectionShape,
                LifecyclePreparationError,
            >(ProjectionShape { admitted: admitted_order, removed: teardown_order, retry_clears }),
    {
        if final_present != admitted_order {
            return Err(LifecyclePreparationError::FinalPresentOrderMismatch { final_present, admitted_order });
        }
        if removed != teardown_order {
            return Err(LifecyclePreparationError::TeardownOrderMismatch { removed, teardown_order });
        }
        Ok(ProjectionShape { admitted: admitted_order, removed: teardown_order, retry_clears })
    }

    /// The shape of the given facts, or the first mismatch.
    pub fn prepare(facts: &LifecycleFacts) -> (r: Result<ProjectionShape, LifecyclePreparationError>)
        ensures
            r == shape_spec(*facts),
    {
        ProjectionShape::checked_from_counts(
            facts.final_present.len(),
            facts.admitted_order_len,
            facts.removed.len(),
            facts.teardown_order.len(),
            facts.retry_clears.len(),
        )
    }
}

/// The persistence view that a transition commits: unchanged for an empty
/// delta, otherwise the next generation, which also becomes dirty.
#[derive(Debug, Clone, Copy, PartialEq, Eq, Structural)]
pub struct PreparedPersistenceProjection {
    pub lifecycle_generation: LifecycleGeneration,
    pub dirty_generation: Option<LifecycleGeneration>,
}

pub fn prepare_persistence_projection(
    generation: LifecycleGeneration,
    dirty: Option<LifecycleGeneration>,
    delta_is_empty: bool,
) -> (r: Result<PreparedPersistenceProjection, LifecyclePreparationError>)
    ensures
        delta_is_empty ==> r == Ok::<PreparedPersistenceProjection, LifecyclePreparationError>(
            PreparedPersistenceProjection { lifecycle_generation: generation, dirty_generation: dirty }),
        !delta_is_empty && generation.0 == u64::MAX ==> r == Err::<
            PreparedPersistenceProjection,
            LifecyclePreparationError,
        >(LifecyclePreparationError::LifecycleGenerationExhausted),
        !delta_is_empty && generation.0 < u64::MAX ==> r == Ok::<
            PreparedPersistenceProjection,
            LifecyclePreparationError,
        >(
            PreparedPersistenceProjection {
                lifecycle_generation: LifecycleGeneration((generation.0 + 1) as u64),
                dirty_generation: Some(LifecycleGeneration((generation.0 + 1) as u64)),
            },
        ),
{
    if delta_is_empty {
        return Ok(PreparedPersistenceProjection { lifecycle_generation: generation, dirty_generation: dirty });
    }
    match generation.checked_next() {
        Ok(next) => Ok(PreparedPersistenceProjection { lifecycle_generation: next, dirty_generation: Some(next) }),
        Err(e) => Err(e),
    }
}

/// The unbroadcast set after a transition: current members plus the
/// retry-eligible final-present members, minus torn-down and retry-cleared ones.
pub open spec fn unbroadcast_after(current: Set<MemberIdentity>, facts: LifecycleFacts) -> Set<MemberIdentity> {
    current.union(Set::new(|m: MemberIdentity| exists|i: int| 0 <= i < facts.final_present@.len()
        && facts.final_present@[i].member == m && facts.final_present@[i].retry_eligible))
        .difference(facts.teardown_order@.to_set())
        .difference(facts.retry_clears@.to_set())
}

/// Removes `m` from the duplicate-free `v`.
pub fn remove_member(v: &mut Vec<MemberIdentity>, m: MemberIdentity)
    requires
        old(v)@.no_duplicates(),
    ensures
        final(v)@.no_duplicates(),
        final(v)@.to_set() == old(v)@.to_set().remove(m),
        final(v)@.len() <= old(v)@.len(),
{
    let mut i: usize = 0;
    while i < v.len()
        invariant
            i <= v@.len(),
            v@ == old(v)@,
            v@.no_duplicates(),
            forall|j: int| 0 <= j < i ==> v@[j] != m,
        decreases v@.len() - i,
    {
        if v[i] == m {
            let ghost before = v@;
            v.remove(i);
            proof {
                assert forall|x: MemberIdentity| v@.to_set().contains(x) == before.to_set().remove(m).contains(x) by {
                    if v@.contains(x) {
                        let j = choose|j: int| 0 <= j < v@.len() && v@[j] == x;
                        if j < i {
                            assert(before[j] == x);
                        } else {
                            assert(before[j + 1] == x);
                            assert(j + 1 != i as int);
                        }
                    }
                    if before.contains(x) && x != m {
                        let j = choose|j: int| 0 <= j < before.len() && before[j] == x;
                        if j < i {
                            assert(v@[j] == x);
                        } else {
                            assert(j != i as int);
                            assert(v@[j - 1] == x);
                        }
                    }
                }
                assert(v@.to_set() =~= before.to_set().remove(m));
                assert forall|a: int, b: int| 0 <= a < v@.len() && 0 <= b < v@.len() && a != b implies v@[a] != v@[b] by {
                    let aa = if a < i { a } else { a + 1 };
                    let bb = if b < i { b } else { b + 1 };
                    assert(v@[a] == before[aa]);
                    assert(v@[b] == before[bb]);
                }
            }
            return;
        }
        i = i + 1;
    }
    proof {
        assert(!v@.contains(m));
        assert(v@.to_set() =~= v@.to_set().remove(m));
    }
}

/// Adds `m` to the duplicate-free `v` unless present.
pub fn insert_member(v: &mut Vec<MemberIdentity>, m: MemberIdentity)
    requires
        old(v)@.no_duplicates(),
    ensures
        final(v)@.no_duplicates(),
        final(v)@.to_set() == old(v)@.to_set().insert(m),
{
    if members_contain(v, m) {
        proof {
            assert(v@.to_set() =~= v@.to_set().insert(m));
        }
        return;
    }
    let ghost before = v@;
    v.push(m);
    proof {
        assert(v@.to_set() =~= before.to_set().insert(m)) by {
            assert forall|x: MemberIdentity| v@.contains(x) == before.to_set().insert(m).contains(x) by {
                if v@.contains(x) {
                    let j = choose|j: int| 0 <= j < v@.len() && v@[j] == x;
                    if j < before.len() {
                        assert(before[j] == x);
                    }
                }
                if before.contains(x) {
                    let j = choose|j: int| 0 <= j < before.len() && before[j] == x;
                    assert(v@[j] == x);
                }
                if x == m {
                    assert(v@[before.len() as int] == m);
                }
            }
        }
        assert forall|a: int, b: int| 0 <= a < v@.len() && 0 <= b < v@.len() && a != b implies v@[a] != v@[b] by {
            if a == before.len() {
                assert(before.contains(v@[b]));
            } else if b == before.len() {
                assert(before.contains(v@[a]));
            }
        }
    }
}

/// Taking one more element adds exactly that element to the set.
pub proof fn lemma_take_next_to_set<A>(s: Seq<A>, t: int)
    requires
        0 <= t < s.len(),
    ensures
        s.take(t + 1).to_set() == s.take(t).to_set().insert(s[t]),
{
    assert(s.take(t + 1) =~= s.take(t).push(s[t]));
    assert forall|x: A| s.take(t + 1).to_set().contains(x) == s.take(t).to_set().insert(s[t]).contains(x) by {
        if s.take(t + 1).contains(x) {
            let k = choose|k: int| 0 <= k < t + 1 && #[trigger] s.take(t + 1)[k] == x;
            if k < t {
                assert(s.take(t)[k] == x);
            }
        }
        if s.take(t).contains(x) {
            let k = choose|k: int| 0 <= k < t && #[trigger] s.take(t)[k] == x;
            assert(s.take(t + 1)[k] == x);
        }
        if x == s[t] {
            assert(s.take(t + 1)[t] == x);
        }
    }
    assert(s.take(t + 1).to_set() =~= s.take(t).to_set().insert(s[t]));
}

/// The unbroadcast projection of a transition, refused beyond the capacity.
pub fn prepare_unbroadcast_projection(current: &Vec<MemberIdentity>, facts: &LifecycleFacts) -> (r: Result<
    Vec<MemberIdentity>,
    LifecyclePreparationError,
>)
    requires
        current@.no_duplicates(),
    ensures
        r matches Ok(v) ==> v@.no_duplicates() && v@.to_set() == unbroadcast_after(current@.to_set(), *facts) && v@.len()
            <= MAX_UNBROADCAST_MEMBERS,
        r matches Err(e) ==> e matches LifecyclePreparationError::UnbroadcastCapacity { attempted, capacity } && capacity
            == MAX_UNBROADCAST_MEMBERS && attempted > MAX_UNBROADCAST_MEMBERS && unbroadcast_after(
            current@.to_set(),
            *facts,
        ).len() == attempted,
{
    let mut replacement = current.clone();
    proof {
        assert(replacement@ =~= current@);
    }
    let ghost eligible = Set::new(|m: MemberIdentity| exists|i: int| 0 <= i < facts.final_present@.len()
        && facts.final_present@[i].member == m && facts.final_present@[i].retry_eligible);
    let mut i: usize = 0;
    while i < facts.final_present.len()
        invariant
            i <= facts.final_present@.len(),
            replacement@.no_duplicates(),
            replacement@.to_set() == current@.to_set().union(Set::new(|m: MemberIdentity| exists|j: int| 0 <= j < i
                && facts.final_present@[j].member == m && facts.final_present@[j].retry_eligible)),
        decreases facts.final_present@.len() - i,
    {
        let ghost before = replacement@.to_set();
        let entry = facts.final_present[i];
        if entry.retry_eligible {
            insert_member(&mut replacement, entry.member);
        }
        proof {
            assert(replacement@.to_set() =~= current@.to_set().union(Set::new(|m: MemberIdentity| exists|j: int| 0 <= j < i + 1
                && facts.final_present@[j].member == m && facts.final_present@[j].retry_eligible))) by {
                assert forall|m: MemberIdentity| (exists|j: int| 0 <= j < i + 1
                    && facts.final_present@[j].member == m && facts.final_present@[j].retry_eligible) implies
                    replacement@.to_set().contains(m) by {
                    let j = choose|j: int| 0 <= j < i + 1 && facts.final_present@[j].member == m && facts.final_present@[j].retry_eligible;
                    if j < i {
                        assert(before.contains(m));
                    }
                }
            }
        }
        i = i + 1;
    }
    proof {
        assert(replacement@.to_set() =~= current@.to_set().union(eligible));
    }
    let mut t: usize = 0;
    while t < facts.teardown_order.len()
        invariant
            t <= facts.teardown_order@.len(),
            replacement@.no_duplicates(),
            replacement@.to_set() == current@.to_set().union(eligible).difference(facts.teardown_order@.take(t as int).to_set()),
        decreases facts.teardown_order@.len() - t,
    {
        remove_member(&mut replacement, facts.teardown_order[t]);
        proof {
            lemma_take_next_to_set(facts.teardown_order@, t as int);
            assert(replacement@.to_set() =~= current@.to_set().union(eligible).difference(facts.teardown_order@.take(t + 1).to_set()));
        }
        t = t + 1;
    }
    proof {
        assert(facts.teardown_order@.take(facts.teardown_order@.len() as int) =~= facts.teardown_order@);
    }
    let mut c: usize = 0;
    while c < facts.retry_clears.len()
        invariant
            c <= facts.retry_clears@.len(),
            replacement@.no_duplicates(),
            replacement@.to_set() == current@.to_set().union(eligible).difference(facts.teardown_order@.to_set()).difference(
                facts.retry_clears@.take(c as int).to_set()),
        decreases facts.retry_clears@.len() - c,
    {
        remove_member(&mut replacement, facts.retry_clears[c]);
        proof {
            lemma_take_next_to_set(facts.retry_clears@, c as int);
            assert(replacement@.to_set() =~= current@.to_set().union(eligible).difference(facts.teardown_order@.to_set()).difference(facts.retry_clears@.take(c + 1).to_set()));
        }
        c = c + 1;
    }
    proof {
        assert(facts.retry_clears@.take(facts.retry_clears@.len() as int) =~= facts.retry_clears@);
        replacement@.unique_seq_to_set();
    }
    if replacement.len() > MAX_UNBROADCAST_MEMBERS {
        return Err(
            LifecyclePreparationError::UnbroadcastCapacity {
                attempted: replacement.len(),
                capacity: MAX_UNBROADCAST_MEMBERS,
            },
        );
    }
    Ok(replacement)
}

/// A package the peer manager remembers as accepted: its fingerprint and members.
#[derive(Debug, Clone, PartialEq, Eq)]
pub struct AcceptedPackageFingerprint {
    pub fingerprint: Hash32,
    pub members: Vec<MemberIdentity>,
}

/// What the peer manager's lifecycle projection is prepared from.
#[derive(Debug, Clone, PartialEq, Eq)]
pub struct PeerLifecycleInput {
    pub admissions: Vec<MemberIdentity>,
    pub teardowns: Vec<MemberIdentity>,
    pub accepted_packages: Vec<AcceptedPackageFingerprint>,
}

/// The members of `final_present`, in order.
pub open spec fn present_members(final_present: Seq<FinalPresentMember>) -> Seq<MemberIdentity> {
    final_present.map_values(|m: FinalPresentMember| m.member)
}

/// The peer manager's input for a transition: the finally present members
/// are admitted, the teardown order is torn down, and a package report
/// records one accepted package over the admitted members, where there are any.
pub fn peer_projection_input(facts: &LifecycleFacts, maybe_package_fingerprint: Option<Hash32>) -> (r: PeerLifecycleInput)
    ensures
        r.admissions@ == present_members(facts.final_present@),
        r.teardowns@ == facts.teardown_order@,
        match maybe_package_fingerprint {
            Some(f) => if facts.final_present@.len() > 0 {
                r.accepted_packages@.len() == 1 && r.accepted_packages@[0].fingerprint == f
                    && r.accepted_packages@[0].members@ == present_members(facts.final_present@)
            } else {
                r.accepted_packages@.len() == 0
            },
            None => r.accepted_packages@.len() == 0,
        },
{
    let mut admissions: Vec<MemberIdentity> = Vec::new();
    let mut i: usize = 0;
    while i < facts.final_present.len()
        invariant
            i <= facts.final_present@.len(),
            admissions@ == present_members(facts.final_present@.take(i as int)),
        decreases facts.final_present@.len() - i,
    {
        admissions.push(facts.final_present[i].member);
        proof {
            assert(present_members(facts.final_present@.take(i as int + 1)) =~= present_members(
                facts.final_present@.take(i as int),
            ).push(facts.final_present@[i as int].member));
        }
        i = i + 1;
    }
    assert(facts.final_present@.take(facts.final_present@.len() as int) =~= facts.final_present@);
    let teardowns = crate::identity::copy_vec(&facts.teardown_order);
    let mut accepted_packages: Vec<AcceptedPackageFingerprint> = Vec::new();
    match maybe_package_fingerprint {
        Some(fingerprint) => if admissions.len() > 0 {
            let members = crate::identity::copy_vec(&admissions);
            accepted_packages.push(AcceptedPackageFingerprint { fingerprint, members });
        },
        None => {},
    }
    PeerLifecycleInput { admissions, teardowns, accepted_packages }
}

/// Fixed low-cardinality reconciliation result over seven projection targets.
#[derive(Debug, Clone, Copy)]
pub struct LifecycleReconciliationReport {
    pub counts: [usize; 7],
}

pub const RECONCILIATION_TARGET_COUNT: usize = 7;

pub const MAX_MISMATCH_COUNT: usize = 10000;

impl LifecycleReconciliationReport {
    /// A report whose counts are the given ones, each clamped at the maximum.
    pub fn new(counts: [usize; 7]) -> (r: LifecycleReconciliationReport)
        ensures
            forall|i: int| 0 <= i < 7 ==> r.counts@[i] == if counts@[i] <= MAX_MISMATCH_COUNT {
                counts@[i]
            } else {
                MAX_MISMATCH_COUNT
            },
    {
        let mut clamped = counts;
        let mut i: usize = 0;
        while i < 7
            invariant
                i <= 7,
                clamped@.len() == 7,
                forall|j: int| 0 <= j < i ==> clamped@[j] == if counts@[j] <= MAX_MISMATCH_COUNT {
                    counts@[j]
                } else {
                    MAX_MISMATCH_COUNT
                },
                forall|j: int| i <= j < 7 ==> clamped@[j] == counts@[j],
            decreases 7 - i,
        {
            if clamped[i] > MAX_MISMATCH_COUNT {
                clamped[i] = MAX_MISMATCH_COUNT;
            }
            i = i + 1;
        }
        LifecycleReconciliationReport { counts: clamped }
    }

    /// The fixed labels of the seven targets, in count order.
    pub fn labels(&self) -> (r: [&'static str; 7])
        ensures
            r == (["serving", "fanout", "peer", "compact", "unbroadcast", "persistence", "evidence"]),
    {
        ["serving", "fanout", "peer", "compact", "unbroadcast", "persistence", "evidence"]
    }

    pub fn counts(&self) -> (r: [usize; 7])
        ensures
            r == self.counts,
    {
        self.counts
    }

    /// Whether every target reconciles.
    pub fn is_clean(&self) -> (r: bool)
        ensures
            r == forall|i: int| 0 <= i < 7 ==> self.counts@[i] == 0,
    {
        let mut i: usize = 0;
        while i < 7
            invariant
                i <= 7,
                forall|j: int| 0 <= j < i ==> self.counts@[j] == 0,
            decreases 7 - i,
        {
            if self.counts[i] != 0 {
                return false;
            }
            i = i + 1;
        }
        true
    }
}

/// One mismatch when a dirty generation differs from the current one.
pub fn persistence_mismatch_count(generation: LifecycleGeneration, dirty: Option<LifecycleGeneration>) -> (r: usize)
    ensures
        r == if (dirty matches Some(d) && d != generation) {
            1usize
        } else {
            0usize
        },
{
    match dirty {
        Some(d) => if d != generation {
            1
        } else {
            0
        },
        None => 0,
    }
}

/// The distance between committed transitions and the generation.
pub fn evidence_mismatch_count(committed_transitions: u64, generation: LifecycleGeneration) -> (r: usize)
    ensures
        r == if committed_transitions >= generation.0 {
            if committed_transitions - generation.0 <= usize::MAX {
                (committed_transitions - generation.0) as usize
            } else {
                usize::MAX
            }
        } else {
            if generation.0 - committed_transitions <= usize::MAX {
                (generation.0 - committed_transitions) as usize
            } else {
                usize::MAX
            }
        },
{
    let diff: u64 = if committed_transitions >= generation.0 {
        committed_transitions - generation.0
    } else {
        generation.0 - committed_transitions
    };
    if diff as u128 <= usize::MAX as u128 {
        diff as usize
    } else {
        usize::MAX
    }
}

} // verus!
