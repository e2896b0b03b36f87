//! The mismatch counts of the read-only lifecycle reconciliation: how far
//! each projection's members differ from the mempool's canonical members.
use vstd::prelude::*;
use crate::identity::{Hash32, MemberIdentity, Txid, Wtxid};
use crate::relay_evidence::{count_where, lemma_count_where_bounded, lemma_count_where_take};

verus! {

/// The predicate "not in `other`".
pub open spec fn not_in<T>(other: Seq<T>) -> spec_fn(T) -> bool {
    |x: T| !other.contains(x)
}

/// `x + y`, saturating at `usize::MAX`.
pub open spec fn saturating_sum(x: int, y: int) -> int {
    if x + y > usize::MAX {
        usize::MAX as int
    } else {
        x + y
    }
}

fn hashes_contain(v: &Vec<Hash32>, x: Hash32) -> (r: bool)
    ensures
        r == v@.contains(x),
{
    let mut j: usize = 0;
    while j < v.len()
        invariant
            j <= v@.len(),
            forall|k: int| 0 <= k < j ==> v@[k] != x,
        decreases v@.len() - j,
    {
        if v[j] == x {
            assert(v@[j as int] == x);
            return true;
        }
        j = j + 1;
    }
    false
}

fn members_contain(v: &Vec<MemberIdentity>, x: MemberIdentity) -> (r: bool)
    ensures
        r == v@.contains(x),
{
    let mut j: usize = 0;
    while j < v.len()
        invariant
            j <= v@.len(),
            forall|k: int| 0 <= k < j ==> v@[k] != x,
        decreases v@.len() - j,
    {
        if v[j] == x {
            assert(v@[j as int] == x);
            return true;
        }
        j = j + 1;
    }
    false
}

/// The hashes of `a` that `b` lacks.
fn hashes_missing_from(a: &Vec<Hash32>, b: &Vec<Hash32>) -> (r: usize)
    ensures
        r == count_where(a@, not_in(b@)),
{
    let ghost f = not_in(b@);
    let mut n: usize = 0;
    let mut i: usize = 0;
    while i < a.len()
        invariant
            i <= a@.len(),
            f == not_in(b@),
            n == count_where(a@.take(i as int), f),
        decreases a@.len() - i,
    {
        proof {
            lemma_count_where_take(a@, f, i as int);
            lemma_count_where_bounded(a@.take(i as int), f);
        }
        if !hashes_contain(b, a[i]) {
            n = n + 1;
        }
        i = i + 1;
    }
    assert(a@.take(a@.len() as int) =~= a@);
    n
}

/// The members of `a` that `b` lacks.
fn members_missing_from(a: &Vec<MemberIdentity>, b: &Vec<MemberIdentity>) -> (r: usize)
    ensures
        r == count_where(a@, not_in(b@)),
{
    let ghost f = not_in(b@);
    let mut n: usize = 0;
    let mut i: usize = 0;
    while i < a.len()
        invariant
            i <= a@.len(),
            f == not_in(b@),
            n == count_where(a@.take(i as int), f),
        decreases a@.len() - i,
    {
        proof {
            lemma_count_where_take(a@, f, i as int);
            lemma_count_where_bounded(a@.take(i as int), f);
        }
        if !members_contain(b, a[i]) {
            n = n + 1;
        }
        i = i + 1;
    }
    assert(a@.take(a@.len() as int) =~= a@);
    n
}

fn saturating_add_usize(x: usize, y: usize) -> (r: usize)
    ensures
        r == saturating_sum(x as int, y as int),
{
    match x.checked_add(y) {
        Some(z) => z,
        None => usize::MAX,
    }
}

/// How far two hash lists differ, saturating at `usize::MAX`.
pub fn hash_symmetric_difference_count(a: &Vec<Hash32>, b: &Vec<Hash32>) -> (r: usize)
    ensures
        r == saturating_sum(count_where(a@, not_in(b@)) as int, count_where(b@, not_in(a@)) as int),
{
    let x = hashes_missing_from(a, b);
    let y = hashes_missing_from(b, a);
    saturating_add_usize(x, y)
}

/// How far two member lists differ, saturating at `usize::MAX`.
pub fn member_symmetric_difference_count(a: &Vec<MemberIdentity>, b: &Vec<MemberIdentity>) -> (r: usize)
    ensures
        r == saturating_sum(count_where(a@, not_in(b@)) as int, count_where(b@, not_in(a@)) as int),
{
    let x = members_missing_from(a, b);
    let y = members_missing_from(b, a);
    saturating_add_usize(x, y)
}

/// The serving target's mismatches: the serving cache's own count, then the
/// stored transactions by txid and by wtxid against the canonical ones,
/// added with saturation.
pub fn serving_mismatch_count(
    relay_serving_mismatches: usize,
    stored_txids: &Vec<Txid>,
    canonical_txids: &Vec<Txid>,
    stored_wtxids: &Vec<Wtxid>,
    canonical_wtxids: &Vec<Wtxid>,
) -> (r: usize)
    ensures
        r == saturating_sum(
            saturating_sum(
                relay_serving_mismatches as int,
                saturating_sum(
                    count_where(stored_txids@, not_in(canonical_txids@)) as int,
                    count_where(canonical_txids@, not_in(stored_txids@)) as int,
                ),
            ),
            saturating_sum(
                count_where(stored_wtxids@, not_in(canonical_wtxids@)) as int,
                count_where(canonical_wtxids@, not_in(stored_wtxids@)) as int,
            ),
        ),
{
    let by_txid = hash_symmetric_difference_count(stored_txids, canonical_txids);
    let by_wtxid = hash_symmetric_difference_count(stored_wtxids, canonical_wtxids);
    saturating_add_usize(saturating_add_usize(relay_serving_mismatches, by_txid), by_wtxid)
}

/// A canonical member and whether the mempool deems it eligible for
/// initial-broadcast retry (its entry matching the member's wtxid).
#[derive(Debug, Clone, Copy, PartialEq, Eq, Structural)]
pub struct CanonicalMemberFacts {
    pub member: MemberIdentity,
    pub retry_eligible: bool,
}

/// The retry-eligible canonical members, in order.
pub open spec fn expected_unbroadcast_spec(canonical: Seq<CanonicalMemberFacts>) -> Seq<MemberIdentity>
    decreases canonical.len(),
{
    if canonical.len() == 0 {
        Seq::empty()
    } else {
        let rest = expected_unbroadcast_spec(canonical.drop_last());
        if canonical.last().retry_eligible {
            rest.push(canonical.last().member)
        } else {
            rest
        }
    }
}

/// The members the unbroadcast set should hold: the retry-eligible canonical ones.
pub fn expected_unbroadcast_members(canonical: &Vec<CanonicalMemberFacts>) -> (r: Vec<MemberIdentity>)
    ensures
        r@ == expected_unbroadcast_spec(canonical@),
{
    let mut out: Vec<MemberIdentity> = Vec::new();
    let mut i: usize = 0;
    while i < canonical.len()
        invariant
            i <= canonical@.len(),
            out@ == expected_unbroadcast_spec(canonical@.take(i as int)),
        decreases canonical@.len() - i,
    {
        proof {
            assert(canonical@.take(i as int + 1).drop_last() =~= canonical@.take(i as int));
        }
        if canonical[i].retry_eligible {
            out.push(canonical[i].member);
        }
        i = i + 1;
    }
    assert(canonical@.take(canonical@.len() as int) =~= canonical@);
    out
}

/// The unbroadcast target's mismatches: how far the unbroadcast set differs
/// from the retry-eligible canonical members.
pub fn unbroadcast_mismatch_count(unbroadcast: &Vec<MemberIdentity>, canonical: &Vec<CanonicalMemberFacts>) -> (r: usize)
    ensures
        r == saturating_sum(
            count_where(unbroadcast@, not_in(expected_unbroadcast_spec(canonical@))) as int,
            count_where(expected_unbroadcast_spec(canonical@), not_in(unbroadcast@)) as int,
        ),
{
    let expected = expected_unbroadcast_members(canonical);
    member_symmetric_difference_count(unbroadcast, &expected)
}

/// One body held by the compact extra buffer: the wtxid it was stored under
/// and, where its ids can be computed, its txid and actual wtxid.
#[derive(Debug, Clone, Copy, PartialEq, Eq, Structural)]
pub struct CompactBodyFacts {
    pub stored_wtxid: Wtxid,
    pub maybe_ids: Option<MemberIdentity>,
}

/// A compact body mismatches when its ids cannot be computed, when it was
/// stored under another wtxid, or when it is a canonical mempool member
/// (a member's body does not belong in the extra buffer).
pub open spec fn compact_body_mismatches(canonical: Seq<MemberIdentity>) -> spec_fn(CompactBodyFacts) -> bool {
    |body: CompactBodyFacts| match body.maybe_ids {
        None => true,
        Some(ids) => body.stored_wtxid != ids.wtxid || canonical.contains(ids),
    }
}

/// The compact target's mismatches.
pub fn compact_mismatch_count(bodies: &Vec<CompactBodyFacts>, canonical: &Vec<MemberIdentity>) -> (r: usize)
    ensures
        r == count_where(bodies@, compact_body_mismatches(canonical@)),
{
    let ghost f = compact_body_mismatches(canonical@);
    let mut n: usize = 0;
    let mut i: usize = 0;
    while i < bodies.len()
        invariant
            i <= bodies@.len(),
            f == compact_body_mismatches(canonical@),
            n == count_where(bodies@.take(i as int), f),
        decreases bodies@.len() - i,
    {
        proof {
            lemma_count_where_take(bodies@, f, i as int);
            lemma_count_where_bounded(bodies@.take(i as int), f);
        }
        let body = bodies[i];
        let mismatched = match body.maybe_ids {
            None => true,
            Some(ids) => body.stored_wtxid != ids.wtxid || members_contain(canonical, ids),
        };
        if mismatched {
            n = n + 1;
        }
        i = i + 1;
    }
    assert(bodies@.take(bodies@.len() as int) =~= bodies@);
    n
}

} // verus!
