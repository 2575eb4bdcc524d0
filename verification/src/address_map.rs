//! A finite map keyed by addresses, kept as a list of entries in which no
//! address occurs twice.
//!
//! It holds what the contracts keep in ledger maps keyed by address (vendor
//! entries, scores, updater flags). The ledger's own map type is a handle
//! into host memory: creating, reading or writing one is a host call that
//! needs a live host environment, and its keys are host address objects, not
//! plain values. It is therefore part of the host edge, like storage itself:
//! the code that talks to the host turns such a map into this one and back.
use vstd::prelude::*;

use crate::address::Address;

verus! {

/// A map from addresses to values.
#[verifier::reject_recursive_types(V)]
pub struct AddressMap<V> {
    entries: Vec<(Address, V)>,
}

impl<V: View> View for AddressMap<V> {
    type V = Map<Address, V::V>;

    closed spec fn view(&self) -> Map<Address, V::V> {
        Map::new(
            |k: Address| self.key_seq().contains(k),
            |k: Address| self.entries@[self.key_seq().index_of(k)].1@,
        )
    }
}

impl<V> AddressMap<V> {
    /// The keys of the entries, in order.
    closed spec fn key_seq(&self) -> Seq<Address> {
        self.entries@.map_values(|e: (Address, V)| e.0)
    }

    /// No address occurs in two entries.
    #[verifier::type_invariant]
    closed spec fn keys_distinct(&self) -> bool {
        forall|i: int, j: int|
            0 <= i < self.entries@.len() && 0 <= j < self.entries@.len() && i != j
                ==> #[trigger] self.entries@[i].0 != #[trigger] self.entries@[j].0
    }
}

impl<V: View> AddressMap<V> {
    /// Each entry is in the map, with its value.
    proof fn lemma_entry(&self, i: int)
        requires
            self.keys_distinct(),
            0 <= i < self.entries@.len(),
        ensures
            self@.contains_key(self.entries@[i].0),
            self@[self.entries@[i].0] == self.entries@[i].1@,
    {
        let k = self.entries@[i].0;
        assert(self.key_seq()[i] == k);
        assert(self.key_seq().contains(k));
        let j = self.key_seq().index_of(k);
        assert(self.key_seq()[j] == k);
        assert(self.entries@[j].0 == k);
    }

    /// Each address in the map has an entry holding its value.
    proof fn lemma_key(&self, k: Address) -> (j: int)
        requires
            self@.contains_key(k),
        ensures
            0 <= j < self.entries@.len(),
            self.entries@[j].0 == k,
            self@[k] == self.entries@[j].1@,
    {
        let j = self.key_seq().index_of(k);
        assert(self.key_seq()[j] == k);
        j
    }

    /// An address with no entry is not in the map.
    proof fn lemma_absent(&self, k: Address)
        requires
            forall|i: int| 0 <= i < self.entries@.len() ==> self.entries@[i].0 != k,
        ensures
            !self@.contains_key(k),
    {
        if self.key_seq().contains(k) {
            let j = self.key_seq().index_of(k);
            assert(self.entries@[j].0 == k);
        }
    }

    /// The domain of the map is finite.
    pub proof fn lemma_finite(&self)
        ensures
            self@.dom().finite(),
    {
        assert(self@.dom() =~= self.key_seq().to_set());
        vstd::seq_lib::seq_to_set_is_finite(self.key_seq());
    }

    /// The empty map.
    pub fn new() -> (r: Self)
        ensures
            r@ == Map::<Address, V::V>::empty(),
    {
        let r = AddressMap { entries: Vec::new() };
        assert(r@ =~= Map::<Address, V::V>::empty());
        r
    }

    fn find(&self, k: &Address) -> (r: Option<usize>)
        ensures
            match r {
                Some(i) => i < self.entries@.len() && self.entries@[i as int].0 == *k,
                None => forall|i: int| 0 <= i < self.entries@.len() ==> self.entries@[i].0 != *k,
            },
    {
        let mut i: usize = 0;
        while i < self.entries.len()
            invariant
                i <= self.entries@.len(),
                forall|j: int| 0 <= j < i ==> self.entries@[j].0 != *k,
            decreases self.entries@.len() - i,
        {
            if self.entries[i].0.same_as(k) {
                return Some(i);
            }
            i = i + 1;
        }
        None
    }

    /// Whether the map holds a value for `k`.
    pub fn contains_key(&self, k: &Address) -> (r: bool)
        ensures
            r == self@.contains_key(*k),
    {
        proof { use_type_invariant(self); }
        match self.find(k) {
            Some(i) => {
                proof { self.lemma_entry(i as int); }
                true
            },
            None => {
                proof { self.lemma_absent(*k); }
                false
            },
        }
    }

    /// The value held for `k`, if any.
    pub fn get(&self, k: &Address) -> (r: Option<&V>)
        ensures
            match r {
                Some(v) => self@.contains_key(*k) && v@ == self@[*k],
                None => !self@.contains_key(*k),
            },
    {
        proof { use_type_invariant(self); }
        match self.find(k) {
            Some(i) => {
                proof { self.lemma_entry(i as int); }
                Some(&self.entries[i].1)
            },
            None => {
                proof { self.lemma_absent(*k); }
                None
            },
        }
    }

    /// The addresses the map holds values for, each once.
    pub fn addresses(&self) -> (r: Vec<Address>)
        ensures
            forall|k: Address| r@.contains(k) <==> self@.contains_key(k),
            r@.no_duplicates(),
    {
        proof { use_type_invariant(self); }
        let mut r: Vec<Address> = Vec::new();
        let mut i: usize = 0;
        while i < self.entries.len()
            invariant
                self.keys_distinct(),
                i <= self.entries@.len(),
                r@ == self.key_seq().take(i as int),
            decreases self.entries@.len() - i,
        {
            r.push(self.entries[i].0);
            proof {
                assert(self.key_seq().take(i + 1) =~= self.key_seq().take(i as int).push(self.entries@[i as int].0));
            }
            i = i + 1;
        }
        proof {
            assert(self.key_seq().take(i as int) =~= self.key_seq());
            assert forall|k: Address| r@.contains(k) implies self@.contains_key(k) by {
                let j = choose|j: int| 0 <= j < r@.len() && r@[j] == k;
                self.lemma_entry(j);
            }
            assert forall|k: Address| self@.contains_key(k) implies r@.contains(k) by {
                let j = self.lemma_key(k);
                assert(r@[j] == k);
            }
            assert forall|a: int, b: int| 0 <= a < r@.len() && 0 <= b < r@.len() && a != b implies r@[a] != r@[b] by {
                assert(r@[a] == self.entries@[a].0);
                assert(r@[b] == self.entries@[b].0);
            }
        }
        r
    }

    /// Sets the value held for `k` to `v`, adding `k` if it is not held yet.
    pub fn insert(&mut self, k: Address, v: V)
        ensures
            final(self)@ == old(self)@.insert(k, v@),
    {
        proof { use_type_invariant(&*self); }
        let ghost pre = *self;
        let ghost vv = v@;
        match self.find(&k) {
            Some(i) => {
                let mut entries: Vec<(Address, V)> = Vec::new();
                std::mem::swap(&mut entries, &mut self.entries);
                entries[i] = (k, v);
                self.entries = entries;
                proof {
                    use_type_invariant(&*self);
                    assert forall|k2: Address| #[trigger] self@.contains_key(k2) implies pre@.insert(
                        k,
                        vv,
                    ).contains_key(k2) && self@[k2] == pre@.insert(k, vv)[k2] by {
                        let j = self.lemma_key(k2);
                        if j != i {
                            pre.lemma_entry(j);
                        }
                    }
                    assert forall|k2: Address| #[trigger] pre@.insert(k, vv).contains_key(
                        k2,
                    ) implies self@.contains_key(k2) by {
                        if k2 == k {
                            self.lemma_entry(i as int);
                        } else {
                            let j = pre.lemma_key(k2);
                            self.lemma_entry(j);
                        }
                    }
                    assert(self@ =~= pre@.insert(k, vv));
                }
            },
            None => {
                let mut entries: Vec<(Address, V)> = Vec::new();
                std::mem::swap(&mut entries, &mut self.entries);
                entries.push((k, v));
                self.entries = entries;
                proof {
                    use_type_invariant(&*self);
                    let n = pre.entries@.len() as int;
                    assert forall|k2: Address| #[trigger] self@.contains_key(k2) implies pre@.insert(
                        k,
                        vv,
                    ).contains_key(k2) && self@[k2] == pre@.insert(k, vv)[k2] by {
                        let j = self.lemma_key(k2);
                        if j != n {
                            pre.lemma_entry(j);
                        }
                    }
                    assert forall|k2: Address| #[trigger] pre@.insert(k, vv).contains_key(
                        k2,
                    ) implies self@.contains_key(k2) by {
                        if k2 == k {
                            self.lemma_entry(n);
                        } else {
                            let j = pre.lemma_key(k2);
                            self.lemma_entry(j);
                        }
                    }
                    assert(self@ =~= pre@.insert(k, vv));
                }
            },
        }
    }

    /// Drops the value held for `k`, if any.
    pub fn remove(&mut self, k: &Address)
        ensures
            final(self)@ == old(self)@.remove(*k),
    {
        proof { use_type_invariant(&*self); }
        let ghost pre = *self;
        match self.find(k) {
            Some(i) => {
                let mut entries: Vec<(Address, V)> = Vec::new();
                std::mem::swap(&mut entries, &mut self.entries);
                let _ = entries.remove(i);
                self.entries = entries;
                proof {
                    use_type_invariant(&*self);
                    assert forall|k2: Address| #[trigger] self@.contains_key(k2) implies pre@.remove(
                        *k,
                    ).contains_key(k2) && self@[k2] == pre@.remove(*k)[k2] by {
                        let j = self.lemma_key(k2);
                        if j < i {
                            pre.lemma_entry(j);
                        } else {
                            pre.lemma_entry(j + 1);
                        }
                    }
                    assert forall|k2: Address| #[trigger] pre@.remove(*k).contains_key(
                        k2,
                    ) implies self@.contains_key(k2) by {
                        let j = pre.lemma_key(k2);
                        if j < i {
                            self.lemma_entry(j);
                        } else {
                            self.lemma_entry(j - 1);
                        }
                    }
                    assert(self@ =~= pre@.remove(*k));
                }
            },
            None => {
                proof {
                    self.lemma_absent(*k);
                    assert(self@ =~= pre@.remove(*k));
                }
            },
        }
    }
}

} // verus!
