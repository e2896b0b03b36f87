//! Plain-value identities: 256-bit hashes, mempool member identities and peers.
use vstd::prelude::*;

verus! {

/// A peer session identifier.
pub type PeerId = u64;

/// A 256-bit hash held as its big-endian high and low halves, so that the
/// integer order of `(hi, lo)` is the byte-wise order of the hash.
#[derive(Debug, Clone, Copy, PartialEq, Eq, Structural, PartialOrd, Ord, Hash)]
pub struct Hash32 {
    pub hi: u128,
    pub lo: u128,
}

/// A transaction id.
pub type Txid = Hash32;

/// A witness transaction id.
pub type Wtxid = Hash32;

/// Strict byte-wise order of two hashes.
pub open spec fn hash_lt(a: Hash32, b: Hash32) -> bool {
    a.hi < b.hi || (a.hi == b.hi && a.lo < b.lo)
}

impl Hash32 {
    /// The hash whose halves are the given integers.
    pub fn from_halves(hi: u128, lo: u128) -> (r: Hash32)
        ensures
            r.hi == hi,
            r.lo == lo,
    {
        Hash32 { hi, lo }
    }

    /// Byte-wise `<` on hashes.
    pub fn less_than(&self, other: &Hash32) -> (r: bool)
        ensures
            r == hash_lt(*self, *other),
    {
        self.hi < other.hi || (self.hi == other.hi && self.lo < other.lo)
    }
}

/// The exact mempool identity of one member: its txid and its wtxid.
#[derive(Debug, Clone, Copy, PartialEq, Eq, Structural, PartialOrd, Ord, Hash)]
pub struct MemberIdentity {
    pub txid: Txid,
    pub wtxid: Wtxid,
}

/// Strict order of member identities: by txid, then by wtxid.
pub open spec fn member_lt(a: MemberIdentity, b: MemberIdentity) -> bool {
    hash_lt(a.txid, b.txid) || (a.txid == b.txid && hash_lt(a.wtxid, b.wtxid))
}

impl MemberIdentity {
    /// Order of member identities by `(txid, wtxid)`.
    pub fn less_than(&self, other: &MemberIdentity) -> (r: bool)
        ensures
            r == member_lt(*self, *other),
    {
        self.txid.less_than(&other.txid) || (self.txid == other.txid
            && self.wtxid.less_than(&other.wtxid))
    }
}

/// Whether `v` holds `m`.
pub fn members_contain(v: &Vec<MemberIdentity>, m: MemberIdentity) -> (r: bool)
    ensures
        r == v@.contains(m),
{
    let mut i: usize = 0;
    while i < v.len()
        invariant
            i <= v.len(),
            forall|j: int| 0 <= j < i ==> v@[j] != m,
        decreases v.len() - i,
    {
        if v[i] == m {
            return true;
        }
        i = i + 1;
    }
    false
}

/// A copy of `v`.
pub fn copy_vec<T: Copy>(v: &Vec<T>) -> (r: Vec<T>)
    ensures
        r@ == v@,
{
    let mut r: Vec<T> = Vec::new();
    let mut i: usize = 0;
    while i < v.len()
        invariant
            i <= v@.len(),
            r@ == v@.take(i as int),
        decreases v@.len() - i,
    {
        r.push(v[i]);
        proof {
            assert(v@.take(i + 1) =~= v@.take(i as int).push(v@[i as int]));
        }
        i = i + 1;
    }
    assert(v@.take(v@.len() as int) =~= v@);
    r
}

} // verus!
