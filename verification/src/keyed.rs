//! A map keyed by 256-bit hashes, held in a `BTreeMap` keyed by the hash's
//! two halves and seen through its `Map` view.
use vstd::prelude::*;
use std::collections::BTreeMap;
use vstd::std_specs::iter::IteratorSpec;
use crate::identity::{hash_lt, Hash32};

verus! {

broadcast use vstd::std_specs::btree::group_btree_axioms;

/// The ordered key a hash is stored under.
pub open spec fn key_of(k: Hash32) -> (u128, u128) {
    (k.hi, k.lo)
}

/// The hash stored under an ordered key.
pub open spec fn hash_of(t: (u128, u128)) -> Hash32 {
    Hash32 { hi: t.0, lo: t.1 }
}

/// A map keyed by hashes.
#[derive(Debug)]
pub struct KeyedList<V> {
    map: BTreeMap<(u128, u128), V>,
}

impl<V> View for KeyedList<V> {
    type V = Map<Hash32, V>;

    closed spec fn view(&self) -> Map<Hash32, V> {
        Map::new(|k: Hash32| self.map@.contains_key(key_of(k)), |k: Hash32| self.map@[key_of(k)])
    }
}

impl<V> KeyedList<V> {
    /// Every `KeyedList` is well formed; the predicate is kept for callers.
    pub closed spec fn wf(&self) -> bool {
        true
    }

    proof fn lemma_view_dom(&self)
        ensures
            self@.dom() == self.map@.dom().map(|t: (u128, u128)| hash_of(t)),
            self@.dom().finite(),
            self@.dom().len() == self.map@.dom().len(),
    {
        let f = |t: (u128, u128)| hash_of(t);
        assert(self@.dom() =~= self.map@.dom().map(f)) by {
            assert forall|k: Hash32| self@.dom().contains(k) implies self.map@.dom().map(f).contains(k) by {
                assert(f(key_of(k)) == k);
            }
        }
        assert(vstd::relations::injective_on(f, self.map@.dom())) by {
            assert forall|a: (u128, u128), b: (u128, u128)|
                self.map@.dom().contains(a) && self.map@.dom().contains(b) && #[trigger] f(a) == #[trigger] f(b) implies a
                == b by {
                assert(key_of(f(a)) == a && key_of(f(b)) == b);
            }
        }
        vstd::set_lib::lemma_map_size(self.map@.dom(), self@.dom(), f);
    }

    /// The empty map.
    pub fn new() -> (r: Self)
        ensures
            r.wf(),
            r@ == Map::<Hash32, V>::empty(),
    {
        let r = KeyedList { map: BTreeMap::new() };
        assert(r@ =~= Map::<Hash32, V>::empty());
        r
    }

    /// The value of key `k`, if held.
    pub fn get(&self, k: &Hash32) -> (r: Option<&V>)
        requires
            self.wf(),
        ensures
            (r is Some) == self@.dom().contains(*k),
            r matches Some(v) ==> *v == self@[*k],
    {
        self.map.get(&(k.hi, k.lo))
    }

    /// Whether key `k` is held.
    pub fn contains_key(&self, k: &Hash32) -> (r: bool)
        requires
            self.wf(),
        ensures
            r == self@.dom().contains(*k),
    {
        self.map.contains_key(&(k.hi, k.lo))
    }

    /// The number of keys held.
    pub fn len(&self) -> (r: usize)
        requires
            self.wf(),
        ensures
            r == self@.dom().len(),
            self@.dom().finite(),
    {
        proof {
            self.lemma_view_dom();
        }
        self.map.len()
    }

    /// Sets the value of `k` to `v`.
    pub fn insert(&mut self, k: Hash32, v: V)
        requires
            old(self).wf(),
        ensures
            final(self).wf(),
            final(self)@ == old(self)@.insert(k, v),
    {
        self.map.insert((k.hi, k.lo), v);
        proof {
            assert forall|key: Hash32| #[trigger] final(self)@.dom().contains(key) == old(self)@.insert(k, v).dom().contains(
                key,
            ) by {
                if key_of(key) == key_of(k) {
                    assert(key == k);
                }
            }
            assert(final(self)@ =~= old(self)@.insert(k, v));
        }
    }

    /// Removes key `k`, giving back its value if it was held.
    pub fn remove(&mut self, k: &Hash32) -> (r: Option<V>)
        requires
            old(self).wf(),
        ensures
            final(self).wf(),
            final(self)@ == old(self)@.remove(*k),
            (r is Some) == old(self)@.dom().contains(*k),
            r matches Some(v) ==> v == old(self)@[*k],
    {
        let r = self.map.remove(&(k.hi, k.lo));
        proof {
            assert forall|key: Hash32| #[trigger] final(self)@.dom().contains(key) == old(self)@.remove(*k).dom().contains(
                key,
            ) by {
                if key_of(key) == key_of(*k) {
                    assert(key == *k);
                }
            }
            assert(final(self)@ =~= old(self)@.remove(*k));
        }
        r
    }
}

impl KeyedList<Hash32> {
    /// The least key whose value is `value`, if any.
    pub fn least_key_with_value(&self, value: Hash32) -> (r: Option<Hash32>)
        requires
            self.wf(),
        ensures
            match r {
                Some(k) => self@.dom().contains(k) && self@[k] == value && forall|other: Hash32|
                    #![trigger self@.dom().contains(other)]
                    self@.dom().contains(other) && self@[other] == value ==> !hash_lt(other, k),
                None => forall|other: Hash32|
                    #![trigger self@.dom().contains(other)]
                    self@.dom().contains(other) ==> self@[other] != value,
            },
    {
        let mut best: Option<Hash32> = None;
        for entry in it: self.map.iter()
            invariant
                it.seq() == vstd::std_specs::btree::spec_btree_map_iter(&self.map).remaining(),
                match best {
                    Some(b) => self@.dom().contains(b) && self@[b] == value,
                    None => true,
                },
                forall|j: int|
                    #![trigger it.seq()[j]]
                    0 <= j < it.index() && *it.seq()[j].1 == value ==> (best matches Some(b) && !hash_lt(
                        hash_of(*it.seq()[j].0),
                        b,
                    )),
        {
            let (key, v) = entry;
            if *v == value {
                let candidate = Hash32 { hi: key.0, lo: key.1 };
                assert(key_of(candidate) == *key);
                let replace = match best {
                    Some(b) => candidate.less_than(&b),
                    None => true,
                };
                if replace {
                    best = Some(candidate);
                }
            }
        }
        proof {
            let s = vstd::std_specs::btree::spec_btree_map_iter(&self.map).remaining();
            assert forall|other: Hash32| #![trigger self@.dom().contains(other)] self@.dom().contains(other)
                && self@[other] == value implies (best matches Some(b) && !hash_lt(other, b)) by {
                assert(self.map@.contains_key(key_of(other)));
                assert(s.contains((&key_of(other), &self.map@[key_of(other)])));
                let j = choose|j: int| 0 <= j < s.len() && s[j] == (&key_of(other), &self.map@[key_of(other)]);
                assert(hash_of(*s[j].0) == other);
            }
        }
        best
    }
}

} // verus!
