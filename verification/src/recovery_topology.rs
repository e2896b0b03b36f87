//! Dependency analysis of a mempool snapshot before recovery: duplicates,
//! parent limits, the edge budget, and a deterministic parent-first order.
use vstd::prelude::*;
use crate::identity::{Hash32, Txid, Wtxid, hash_lt};
use crate::recovery::{MempoolRecoveryRecord, MempoolRecoveryStatus};
use crate::relay_evidence::{count_where, lemma_count_where_bounded, lemma_count_where_take};

verus! {

/// One snapshot transaction as the topology reads it: its identity and the
/// txids its inputs spend.
#[derive(Debug, Clone, PartialEq, Eq)]
pub struct TopologyInput {
    pub txid: Txid,
    pub wtxid: Wtxid,
    pub parent_txids: Vec<Txid>,
}

/// Bounds on the recovery graph.
#[derive(Debug, Clone, Copy, PartialEq, Eq, Structural)]
pub struct RecoveryTopologyLimits {
    pub max_vertices: usize,
    pub max_edges: usize,
    pub max_parent_edges_per_record: usize,
}

impl RecoveryTopologyLimits {
    /// Limits with an edge budget of `max_vertices * max_parent_edges_per_record`,
    /// clamped at `usize::MAX`.
    pub fn new(max_vertices: usize, max_parent_edges_per_record: usize) -> (r: Self)
        ensures
            r.max_vertices == max_vertices,
            r.max_parent_edges_per_record == max_parent_edges_per_record,
            r.max_edges == if max_vertices * max_parent_edges_per_record > usize::MAX {
                usize::MAX as int
            } else {
                max_vertices * max_parent_edges_per_record
            },
    {
        let max_edges = match max_vertices.checked_mul(max_parent_edges_per_record) {
            Some(product) => product,
            None => usize::MAX,
        };
        RecoveryTopologyLimits { max_vertices, max_edges, max_parent_edges_per_record }
    }

    /// Limits from the mempool's capacity bounds: as many vertices as live
    /// entries, and as many edges in all, and per record, as live input edges.
    pub fn from_policy(max_live_entries: usize, max_live_input_edges: usize) -> (r: Self)
        ensures
            r.max_vertices == max_live_entries,
            r.max_edges == max_live_input_edges,
            r.max_parent_edges_per_record == max_live_input_edges,
    {
        RecoveryTopologyLimits {
            max_vertices: max_live_entries,
            max_edges: max_live_input_edges,
            max_parent_edges_per_record: max_live_input_edges,
        }
    }
}

/// Why the topology could not be prepared.
#[derive(Debug, Clone, Copy, PartialEq, Eq, Structural, Hash)]
pub enum RecoveryTopologyError {
    ResourceBoundExceeded,
}

/// The parent-first order of recoverable records (indices into the input)
/// and the statuses of every other record, in input order.
#[derive(Debug, Clone, PartialEq, Eq)]
pub struct PreparedRecoveryTopology {
    pub ordered: Vec<usize>,
    pub statuses: Vec<MempoolRecoveryRecord>,
}

/// The strict order of records `a` and `b`: by txid, wtxid, then position.
pub open spec fn key_lt(s: Seq<TopologyInput>, a: int, b: int) -> bool {
    ||| hash_lt(s[a].txid, s[b].txid)
    ||| (s[a].txid == s[b].txid && hash_lt(s[a].wtxid, s[b].wtxid))
    ||| (s[a].txid == s[b].txid && s[a].wtxid == s[b].wtxid && a < b)
}

/// Whether record `i` is the first, by key, of the records sharing its txid.
pub open spec fn is_primary(s: Seq<TopologyInput>, i: int) -> bool {
    forall|j: int| 0 <= j < s.len() && j != i && #[trigger] s[j].txid == s[i].txid ==> key_lt(s, i, j)
}

/// Whether record `j` is a parent of record `i`: the primary record of a
/// txid that an input of `i` spends.
pub open spec fn is_parent(s: Seq<TopologyInput>, j: int, i: int) -> bool {
    0 <= j < s.len() && is_primary(s, j) && s[i].parent_txids@.contains(s[j].txid)
}

/// The positions `0..n`.
pub open spec fn index_range(n: nat) -> Seq<int> {
    Seq::new(n, |j: int| j)
}

/// The predicate "is a parent of record `i`".
pub open spec fn parent_of(s: Seq<TopologyInput>, i: int) -> spec_fn(int) -> bool {
    |j: int| is_parent(s, j, i)
}

/// The number of distinct parents of record `i`.
pub open spec fn parent_count(s: Seq<TopologyInput>, i: int) -> nat {
    count_where(index_range(s.len()), parent_of(s, i))
}

/// Whether record `i` may be recovered on its own: it is primary and within
/// the per-record parent limit.
pub open spec fn eligible(s: Seq<TopologyInput>, limits: RecoveryTopologyLimits, i: int) -> bool {
    is_primary(s, i) && parent_count(s, i) <= limits.max_parent_edges_per_record
}

/// The parent edges of the eligible records among the first `k`.
pub open spec fn edge_sum(s: Seq<TopologyInput>, limits: RecoveryTopologyLimits, k: int) -> nat
    decreases k,
{
    if k <= 0 {
        0
    } else {
        edge_sum(s, limits, k - 1) + if eligible(s, limits, k - 1) {
            parent_count(s, k - 1)
        } else {
            0nat
        }
    }
}

/// Whether record `i` may come next after `prefix`: eligible, not yet
/// ordered, and every parent already ordered.
pub open spec fn is_candidate(s: Seq<TopologyInput>, limits: RecoveryTopologyLimits, prefix: Seq<usize>, i: int) -> bool {
    &&& 0 <= i < s.len()
    &&& eligible(s, limits, i)
    &&& !prefix.contains(i as usize)
    &&& forall|j: int| #[trigger] is_parent(s, j, i) ==> prefix.contains(j as usize)
}

/// Whether `ordered` takes, at each step, the smallest candidate by key.
pub open spec fn greedy_order(s: Seq<TopologyInput>, limits: RecoveryTopologyLimits, ordered: Seq<usize>) -> bool {
    forall|k: int|
        0 <= k < ordered.len() ==> {
            &&& is_candidate(s, limits, ordered.take(k), #[trigger] ordered[k] as int)
            &&& forall|c: int|
                is_candidate(s, limits, ordered.take(k), c) ==> !key_lt(s, c, ordered[k] as int)
        }
}

/// The status of a record that is not ordered.
pub open spec fn dropped_status(s: Seq<TopologyInput>, i: int) -> MempoolRecoveryStatus {
    if is_primary(s, i) {
        MempoolRecoveryStatus::DroppedMissingParent
    } else {
        MempoolRecoveryStatus::DroppedDuplicate
    }
}

/// The statuses of the records among the first `k` that are not ordered
/// and are duplicates (`duplicates`) or not, in input order.
pub open spec fn dropped_of_kind(s: Seq<TopologyInput>, ordered: Seq<usize>, k: int, duplicates: bool) -> Seq<
    MempoolRecoveryRecord,
>
    decreases k,
{
    if k <= 0 {
        Seq::empty()
    } else if ordered.contains((k - 1) as usize) || is_primary(s, k - 1) == duplicates {
        dropped_of_kind(s, ordered, k - 1, duplicates)
    } else {
        dropped_of_kind(s, ordered, k - 1, duplicates).push(
            MempoolRecoveryRecord { txid: s[k - 1].txid, status: dropped_status(s, k - 1) },
        )
    }
}

/// The statuses of the records that are not ordered: the duplicates first,
/// then the records missing a parent.
pub open spec fn dropped_statuses(s: Seq<TopologyInput>, ordered: Seq<usize>) -> Seq<MempoolRecoveryRecord> {
    dropped_of_kind(s, ordered, s.len() as int, true) + dropped_of_kind(s, ordered, s.len() as int, false)
}

proof fn lemma_edge_sum_monotone(s: Seq<TopologyInput>, limits: RecoveryTopologyLimits, a: int, b: int)
    requires
        0 <= a <= b,
    ensures
        edge_sum(s, limits, a) <= edge_sum(s, limits, b),
    decreases b - a,
{
    if a < b {
        lemma_edge_sum_monotone(s, limits, a, b - 1);
    }
}

proof fn lemma_key_lt_order(s: Seq<TopologyInput>, a: int, b: int, c: int)
    ensures
        !key_lt(s, a, a),
        key_lt(s, a, b) ==> !key_lt(s, b, a),
        key_lt(s, a, b) && key_lt(s, b, c) ==> key_lt(s, a, c),
        a != b ==> key_lt(s, a, b) || key_lt(s, b, a),
{
}

/// Whether `v` holds `t`.
fn txids_contain(v: &Vec<Txid>, t: Txid) -> (r: bool)
    ensures
        r == v@.contains(t),
{
    let mut i: usize = 0;
    while i < v.len()
        invariant
            i <= v@.len(),
            forall|j: int| 0 <= j < i ==> v@[j] != t,
        decreases v@.len() - i,
    {
        if v[i] == t {
            return true;
        }
        i = i + 1;
    }
    false
}

/// `key_lt` on positions of `records`.
fn key_less(records: &Vec<TopologyInput>, a: usize, b: usize) -> (r: bool)
    requires
        a < records@.len(),
        b < records@.len(),
    ensures
        r == key_lt(records@, a as int, b as int),
{
    let ra = &records[a];
    let rb = &records[b];
    ra.txid.less_than(&rb.txid) || (ra.txid == rb.txid && ra.wtxid.less_than(&rb.wtxid)) || (ra.txid == rb.txid
        && ra.wtxid == rb.wtxid && a < b)
}

/// Which records are primary.
fn primaries(records: &Vec<TopologyInput>) -> (r: Vec<bool>)
    ensures
        r@.len() == records@.len(),
        forall|i: int| 0 <= i < records@.len() ==> r@[i] == is_primary(records@, i),
{
    let n = records.len();
    let mut r: Vec<bool> = Vec::new();
    let mut i: usize = 0;
    while i < n
        invariant
            n == records@.len(),
            i <= n,
            r@.len() == i,
            forall|x: int| 0 <= x < i ==> r@[x] == is_primary(records@, x),
        decreases n - i,
    {
        let mut primary = true;
        let mut j: usize = 0;
        while j < n
            invariant
                n == records@.len(),
                i < n,
                j <= n,
                primary == forall|y: int|
                    0 <= y < j && y != i && #[trigger] records@[y].txid == records@[i as int].txid ==> key_lt(
                        records@,
                        i as int,
                        y,
                    ),
            decreases n - j,
        {
            if j != i && records[j].txid == records[i].txid && !key_less(records, i, j) {
                primary = false;
            }
            j = j + 1;
        }
        r.push(primary);
        i = i + 1;
    }
    r
}

/// The parents of record `i`, as positions, without repeats.
fn parents_of(records: &Vec<TopologyInput>, primary: &Vec<bool>, i: usize) -> (r: Vec<usize>)
    requires
        i < records@.len(),
        primary@.len() == records@.len(),
        forall|x: int| 0 <= x < records@.len() ==> primary@[x] == is_primary(records@, x),
    ensures
        r@.len() == parent_count(records@, i as int),
        forall|x: int| 0 <= x < r@.len() ==> #[trigger] r@[x] < records@.len(),
        forall|j: int| 0 <= j < records@.len() ==> (r@.contains(j as usize) <==> is_parent(records@, j, i as int)),
{
    let n = records.len();
    let ghost range = index_range(n as nat);
    let ghost pred = parent_of(records@, i as int);
    let mut r: Vec<usize> = Vec::new();
    let mut j: usize = 0;
    while j < n
        invariant
            n == records@.len(),
            i < n,
            j <= n,
            primary@.len() == n,
            forall|x: int| 0 <= x < n ==> primary@[x] == is_primary(records@, x),
            range == index_range(n as nat),
            pred == parent_of(records@, i as int),
            r@.len() == count_where(range.take(j as int), pred),
            forall|x: int| 0 <= x < r@.len() ==> #[trigger] r@[x] < j,
            forall|y: int| 0 <= y < n ==> (r@.contains(y as usize) <==> (y < j && is_parent(records@, y, i as int))),
        decreases n - j,
    {
        proof {
            lemma_count_where_take(range, pred, j as int);
            lemma_count_where_bounded(range.take(j as int), pred);
        }
        if primary[j] && txids_contain(&records[i].parent_txids, records[j].txid) {
            let ghost old_r = r@;
            r.push(j);
            proof {
                assert forall|y: int| 0 <= y < n implies (r@.contains(y as usize) <==> (y < j + 1 && is_parent(
                    records@,
                    y,
                    i as int,
                ))) by {
                    if y == j {
                        assert(r@[r@.len() - 1] == j);
                    } else {
                        assert(r@ == old_r.push(j));
                        if r@.contains(y as usize) {
                            let k = choose|k: int| 0 <= k < r@.len() && r@[k] == y as usize;
                            if k == r@.len() - 1 {
                                assert(r@[k] == j);
                            } else {
                                assert(old_r[k] == y as usize);
                            }
                        }
                        if y < j && is_parent(records@, y, i as int) {
                            assert(old_r.contains(y as usize));
                            let k = choose|k: int| 0 <= k < old_r.len() && old_r[k] == y as usize;
                            assert(r@[k] == y as usize);
                        }
                    }
                }
            }
        } else {
            proof {
                assert(!is_parent(records@, j as int, i as int));
            }
        }
        j = j + 1;
    }
    proof {
        assert(range.take(n as int) =~= range);
    }
    r
}

/// The predicate "is not yet ordered".
pub open spec fn unordered() -> spec_fn(bool) -> bool {
    |b: bool| !b
}

proof fn lemma_count_unordered_update(s: Seq<bool>, i: int)
    requires
        0 <= i < s.len(),
        !s[i],
    ensures
        count_where(s.update(i, true), unordered()) + 1 == count_where(s, unordered()),
    decreases s.len(),
{
    if i == s.len() - 1 {
        assert(s.update(i, true).drop_last() =~= s.drop_last());
    } else {
        lemma_count_unordered_update(s.drop_last(), i);
        assert(s.update(i, true).drop_last() =~= s.drop_last().update(i, true));
    }
}

/// Whether every position in `p` is marked in `in_prefix`.
fn all_marked(p: &Vec<usize>, in_prefix: &Vec<bool>) -> (r: bool)
    requires
        forall|x: int| 0 <= x < p@.len() ==> #[trigger] p@[x] < in_prefix@.len(),
    ensures
        r == forall|x: int| 0 <= x < p@.len() ==> in_prefix@[#[trigger] p@[x] as int],
{
    let mut i: usize = 0;
    while i < p.len()
        invariant
            i <= p@.len(),
            forall|x: int| 0 <= x < p@.len() ==> #[trigger] p@[x] < in_prefix@.len(),
            forall|x: int| 0 <= x < i ==> in_prefix@[#[trigger] p@[x] as int],
        decreases p@.len() - i,
    {
        if !in_prefix[p[i]] {
            return false;
        }
        i = i + 1;
    }
    true
}

/// The status records of the unordered records that are duplicates
/// (`duplicates`) or not, in input order.
fn dropped_records(
    records: &Vec<TopologyInput>,
    primary: &Vec<bool>,
    in_prefix: &Vec<bool>,
    ordered: &Vec<usize>,
    duplicates: bool,
) -> (r: Vec<MempoolRecoveryRecord>)
    requires
        primary@.len() == records@.len(),
        in_prefix@.len() == records@.len(),
        forall|x: int| 0 <= x < records@.len() ==> primary@[x] == is_primary(records@, x),
        forall|x: int| 0 <= x < records@.len() ==> (#[trigger] in_prefix@[x] <==> ordered@.contains(x as usize)),
    ensures
        r@ == dropped_of_kind(records@, ordered@, records@.len() as int, duplicates),
{
    let n = records.len();
    let mut statuses: Vec<MempoolRecoveryRecord> = Vec::new();
    let mut k: usize = 0;
    while k < n
        invariant
            n == records@.len(),
            k <= n,
            primary@.len() == n,
            forall|x: int| 0 <= x < n ==> primary@[x] == is_primary(records@, x),
            in_prefix@.len() == n,
            forall|x: int| 0 <= x < n ==> (#[trigger] in_prefix@[x] <==> ordered@.contains(x as usize)),
            statuses@ == dropped_of_kind(records@, ordered@, k as int, duplicates),
        decreases n - k,
    {
        if !in_prefix[k] && primary[k] != duplicates {
            let status = if primary[k] {
                MempoolRecoveryStatus::DroppedMissingParent
            } else {
                MempoolRecoveryStatus::DroppedDuplicate
            };
            statuses.push(MempoolRecoveryRecord { txid: records[k].txid, status });
        }
        k = k + 1;
    }
    statuses
}

/// Analyses the snapshot's dependency graph.
///
/// Fails when there are more records than `max_vertices`, or when the parent
/// edges of the eligible records exceed `max_edges`. Otherwise a record is
/// eligible when it is the first of its txid by `(txid, wtxid, position)` and
/// has no more distinct parents than the per-record limit; `ordered` takes,
/// step by step, the smallest eligible record whose parents are all already
/// ordered, until none is left; every other record is reported, the
/// duplicates first and then those missing a parent, each in input order.
pub fn prepare_recovery_topology(records: &Vec<TopologyInput>, limits: RecoveryTopologyLimits) -> (r: Result<
    PreparedRecoveryTopology,
    RecoveryTopologyError,
>)
    ensures
        r is Err <==> (records@.len() > limits.max_vertices || edge_sum(records@, limits, records@.len() as int)
            > limits.max_edges),
        r matches Ok(t) ==> {
            &&& forall|k: int| 0 <= k < t.ordered@.len() ==> #[trigger] t.ordered@[k] < records@.len()
            &&& greedy_order(records@, limits, t.ordered@)
            &&& forall|c: int| !is_candidate(records@, limits, t.ordered@, c)
            &&& t.statuses@ == dropped_statuses(records@, t.ordered@)
        },
{
    let n = records.len();
    if n > limits.max_vertices {
        return Err(RecoveryTopologyError::ResourceBoundExceeded);
    }
    let primary = primaries(records);
    let mut parents: Vec<Vec<usize>> = Vec::new();
    let mut elig: Vec<bool> = Vec::new();
    let mut edges: usize = 0;
    let mut i: usize = 0;
    while i < n
        invariant
            n == records@.len(),
            i <= n,
            primary@.len() == n,
            forall|x: int| 0 <= x < n ==> primary@[x] == is_primary(records@, x),
            edges == edge_sum(records@, limits, i as int),
            edges <= limits.max_edges,
            parents@.len() == i,
            elig@.len() == i,
            forall|x: int| 0 <= x < i ==> #[trigger] elig@[x] == eligible(records@, limits, x),
            forall|x: int, y: int|
                0 <= x < i && 0 <= y < parents@[x]@.len() ==> #[trigger] parents@[x]@[y] < n,
            forall|x: int, j: int|
                0 <= x < i && 0 <= j < n ==> (#[trigger] parents@[x]@.contains(j as usize) <==> is_parent(
                    records@,
                    j,
                    x,
                )),
        decreases n - i,
    {
        let p = parents_of(records, &primary, i);
        let e = primary[i] && p.len() <= limits.max_parent_edges_per_record;
        if e {
            if p.len() > limits.max_edges - edges {
                proof {
                    lemma_edge_sum_monotone(records@, limits, i + 1, n as int);
                }
                return Err(RecoveryTopologyError::ResourceBoundExceeded);
            }
            edges = edges + p.len();
        }
        parents.push(p);
        elig.push(e);
        i = i + 1;
    }
    let mut in_prefix: Vec<bool> = Vec::new();
    let mut z: usize = 0;
    while z < n
        invariant
            z <= n,
            in_prefix@.len() == z,
            forall|x: int| 0 <= x < z ==> !in_prefix@[x],
        decreases n - z,
    {
        in_prefix.push(false);
        z = z + 1;
    }
    let mut ordered: Vec<usize> = Vec::new();
    let mut done = false;
    while !done
        invariant
            n == records@.len(),
            n <= limits.max_vertices,
            edge_sum(records@, limits, n as int) <= limits.max_edges,
            primary@.len() == n,
            forall|x: int| 0 <= x < n ==> primary@[x] == is_primary(records@, x),
            parents@.len() == n,
            elig@.len() == n,
            forall|x: int| 0 <= x < n ==> #[trigger] elig@[x] == eligible(records@, limits, x),
            forall|x: int, y: int|
                0 <= x < n && 0 <= y < parents@[x]@.len() ==> #[trigger] parents@[x]@[y] < n,
            forall|x: int, j: int|
                0 <= x < n && 0 <= j < n ==> (#[trigger] parents@[x]@.contains(j as usize) <==> is_parent(
                    records@,
                    j,
                    x,
                )),
            in_prefix@.len() == n,
            forall|x: int| 0 <= x < n ==> (#[trigger] in_prefix@[x] <==> ordered@.contains(x as usize)),
            forall|k: int| 0 <= k < ordered@.len() ==> #[trigger] ordered@[k] < n,
            greedy_order(records@, limits, ordered@),
            done ==> forall|c: int| !is_candidate(records@, limits, ordered@, c),
        decreases count_where(in_prefix@, unordered()) + if done {
            0int
        } else {
            1int
        },
    {
        let mut best: Option<usize> = None;
        let mut c: usize = 0;
        while c < n
            invariant
                n == records@.len(),
                c <= n,
                elig@.len() == n,
                parents@.len() == n,
                in_prefix@.len() == n,
                forall|x: int| 0 <= x < n ==> #[trigger] elig@[x] == eligible(records@, limits, x),
                forall|x: int, y: int|
                    0 <= x < n && 0 <= y < parents@[x]@.len() ==> #[trigger] parents@[x]@[y] < n,
                forall|x: int, j: int|
                    0 <= x < n && 0 <= j < n ==> (#[trigger] parents@[x]@.contains(j as usize) <==> is_parent(
                        records@,
                        j,
                        x,
                    )),
                forall|x: int| 0 <= x < n ==> (#[trigger] in_prefix@[x] <==> ordered@.contains(x as usize)),
                best is None ==> forall|y: int| 0 <= y < c ==> !is_candidate(records@, limits, ordered@, y),
                best matches Some(b) ==> {
                    &&& b < c
                    &&& is_candidate(records@, limits, ordered@, b as int)
                    &&& forall|y: int|
                        0 <= y < c && is_candidate(records@, limits, ordered@, y) ==> !key_lt(records@, y, b as int)
                },
            decreases n - c,
        {
            let ghost pc = parents@[c as int]@;
            let marked = all_marked(&parents[c], &in_prefix);
            let cand = elig[c] && !in_prefix[c] && marked;
            proof {
                if marked {
                    assert forall|j: int| #[trigger] is_parent(records@, j, c as int) implies ordered@.contains(
                        j as usize,
                    ) by {
                        assert(parents@[c as int]@.contains(j as usize));
                        let y = choose|y: int| 0 <= y < pc.len() && pc[y] == j as usize;
                        assert(in_prefix@[pc[y] as int]);
                    }
                } else {
                    let y = choose|y: int| 0 <= y < pc.len() && !in_prefix@[#[trigger] pc[y] as int];
                    assert(parents@[c as int]@.contains(pc[y]));
                    assert(is_parent(records@, pc[y] as int, c as int));
                }
                assert(cand == is_candidate(records@, limits, ordered@, c as int));
            }
            if cand {
                match best {
                    None => {
                        best = Some(c);
                    },
                    Some(b) => {
                        if key_less(records, c, b) {
                            proof {
                                assert forall|y: int|
                                    0 <= y < c + 1 && is_candidate(records@, limits, ordered@, y) implies !key_lt(
                                    records@,
                                    y,
                                    c as int,
                                ) by {
                                    lemma_key_lt_order(records@, y, c as int, b as int);
                                }
                            }
                            best = Some(c);
                        }
                    },
                }
            }
            c = c + 1;
        }
        match best {
            None => {
                done = true;
            },
            Some(b) => {
                let ghost old_ordered = ordered@;
                let ghost old_prefix = in_prefix@;
                ordered.push(b);
                in_prefix.set(b, true);
                proof {
                    lemma_count_unordered_update(old_prefix, b as int);
                    assert forall|k: int| 0 <= k < old_ordered.len() implies ordered@.take(k) =~= old_ordered.take(k) by {}
                    assert(ordered@.take(old_ordered.len() as int) =~= old_ordered);
                    assert forall|k: int| 0 <= k < ordered@.len() implies {
                        &&& is_candidate(records@, limits, ordered@.take(k), #[trigger] ordered@[k] as int)
                        &&& forall|y: int|
                            is_candidate(records@, limits, ordered@.take(k), y) ==> !key_lt(
                                records@,
                                y,
                                ordered@[k] as int,
                            )
                    } by {
                        if k < old_ordered.len() {
                            assert(ordered@.take(k) =~= old_ordered.take(k));
                            assert(ordered@[k] == old_ordered[k]);
                        }
                    }
                    assert forall|x: int| 0 <= x < n implies (#[trigger] in_prefix@[x] <==> ordered@.contains(
                        x as usize,
                    )) by {
                        if x != b {
                            if ordered@.contains(x as usize) {
                                let k = choose|k: int| 0 <= k < ordered@.len() && ordered@[k] == x as usize;
                                assert(old_ordered[k] == x as usize);
                            }
                            if old_ordered.contains(x as usize) {
                                let k = choose|k: int| 0 <= k < old_ordered.len() && old_ordered[k] == x as usize;
                                assert(ordered@[k] == x as usize);
                            }
                        } else {
                            assert(ordered@[old_ordered.len() as int] == b);
                        }
                    }
                }
            },
        }
    }
    let mut statuses = dropped_records(records, &primary, &in_prefix, &ordered, true);
    let mut missing_parent = dropped_records(records, &primary, &in_prefix, &ordered, false);
    statuses.append(&mut missing_parent);
    Ok(PreparedRecoveryTopology { ordered, statuses })
}

} // verus!
