//! An in-memory store of values keyed by strings, with at most one value per
//! key. The server keeps pending OAuth requests (keyed by their `state`) and
//! active sessions (keyed by DID) in such stores.

use vstd::prelude::*;

verus! {

/// A map from string keys to values, kept as a list of distinct keys.
pub struct KeyedStore<V> {
    entries: Vec<(String, V)>,
}

impl<V> KeyedStore<V> {
    /// The keys, in the order in which the entries are held.
    pub closed spec fn keys(&self) -> Seq<Seq<char>> {
        self.entries@.map_values(|e: (String, V)| e.0@)
    }

    #[verifier::type_invariant]
    closed spec fn keys_distinct(&self) -> bool {
        self.keys().no_duplicates()
    }
}

impl<V> View for KeyedStore<V> {
    type V = Map<Seq<char>, V>;

    closed spec fn view(&self) -> Map<Seq<char>, V> {
        Map::new(
            |k: Seq<char>| self.keys().contains(k),
            |k: Seq<char>| self.entries@[self.keys().index_of(k)].1,
        )
    }
}

impl<V> KeyedStore<V> {
    /// The value at position `i` is what the store holds for the key there.
    proof fn lemma_entry(&self, i: int)
        requires
            0 <= i < self.entries@.len(),
            self.keys_distinct(),
        ensures
            self@.contains_key(self.entries@[i].0@),
            self@[self.entries@[i].0@] == self.entries@[i].1,
    {
        let k = self.entries@[i].0@;
        assert(self.keys()[i] == k);
        assert(self.keys().contains(k));
        let j = self.keys().index_of(k);
        assert(self.keys()[j] == k);
    }

    /// An empty store.
    pub fn new() -> (store: Self)
        ensures
            store@ == Map::<Seq<char>, V>::empty(),
    {
        let store = KeyedStore { entries: Vec::new() };
        assert(store@ =~= Map::<Seq<char>, V>::empty());
        store
    }

    /// The position of `key` among the entries, if the store holds it.
    fn find(&self, key: &String) -> (pos: Option<usize>)
        ensures
            match pos {
                Some(i) => i < self.entries@.len() && self.entries@[i as int].0@ == key@,
                None => !self@.contains_key(key@),
            },
    {
        let n = self.entries.len();
        let mut i: usize = 0;
        while i < n
            invariant
                n == self.entries@.len(),
                i <= n,
                forall|j: int| 0 <= j < i ==> self.keys()[j] != key@,
            decreases n - i,
        {
            if self.entries[i].0 == *key {
                return Some(i);
            }
            assert(self.keys()[i as int] == self.entries@[i as int].0@);
            i = i + 1;
        }
        proof {
            if self.keys().contains(key@) {
                let j = choose|j: int| 0 <= j < self.keys().len() && self.keys()[j] == key@;
                assert(self.keys()[j] == key@);
            }
        }
        None
    }

    /// Whether the store holds a value for `key`.
    pub fn contains(&self, key: &String) -> (found: bool)
        ensures
            found == self@.contains_key(key@),
    {
        proof {
            use_type_invariant(self);
        }
        match self.find(key) {
            Some(i) => {
                proof {
                    self.lemma_entry(i as int);
                }
                true
            },
            None => false,
        }
    }

    /// The value the store holds for `key`, if any.
    pub fn get(&self, key: &String) -> (value: Option<&V>)
        ensures
            match value {
                Some(v) => self@.contains_key(key@) && *v == self@[key@],
                None => !self@.contains_key(key@),
            },
    {
        proof {
            use_type_invariant(self);
        }
        match self.find(key) {
            Some(i) => {
                proof {
                    self.lemma_entry(i as int);
                }
                Some(&self.entries[i].1)
            },
            None => None,
        }
    }

    /// Removes the value held for `key` and hands it back; afterwards the
    /// store holds nothing for `key`.
    pub fn take(&mut self, key: &String) -> (value: Option<V>)
        ensures
            final(self)@ == old(self)@.remove(key@),
            match value {
                Some(v) => old(self)@.contains_key(key@) && v == old(self)@[key@],
                None => !old(self)@.contains_key(key@),
            },
    {
        proof {
            use_type_invariant(&*self);
        }
        match self.find(key) {
            Some(i) => {
                proof {
                    self.lemma_entry(i as int);
                }
                let ghost before = *self;
                let ghost old_keys = self.keys();
                let mut entries: Vec<(String, V)> = Vec::new();
                std::mem::swap(&mut entries, &mut self.entries);
                let entry = entries.remove(i);
                proof {
                    assert(old_keys[i as int] == key@);
                    assert(entries@.map_values(|e: (String, V)| e.0@) =~= old_keys.remove(i as int));
                }
                self.entries = entries;
                proof {
                    assert(self.keys() =~= old_keys.remove(i as int));
                    assert forall|a: int, b: int|
                        0 <= a < self.keys().len() && 0 <= b < self.keys().len() && a != b
                        implies self.keys()[a] != self.keys()[b] by {
                        let a0 = if a < i { a } else { a + 1 };
                        let b0 = if b < i { b } else { b + 1 };
                        assert(self.keys()[a] == old_keys[a0]);
                        assert(self.keys()[b] == old_keys[b0]);
                    }
                    assert forall|k: Seq<char>| #[trigger] self@.contains_key(k) <==> before@.remove(key@).contains_key(k) by {
                        if self.keys().contains(k) {
                            let a = choose|a: int| 0 <= a < self.keys().len() && self.keys()[a] == k;
                            let a0 = if a < i { a } else { a + 1 };
                            assert(old_keys[a0] == k);
                            assert(a0 != i);
                            assert(old_keys.contains(k));
                            assert(k != key@);
                        }
                        if before.keys().contains(k) && k != key@ {
                            let a0 = choose|a: int| 0 <= a < old_keys.len() && old_keys[a] == k;
                            assert(a0 != i);
                            let a = if a0 < i { a0 } else { a0 - 1 };
                            assert(self.keys()[a] == k);
                        }
                    }
                    assert forall|k: Seq<char>| #[trigger] self@.contains_key(k) implies self@[k] == before@[k] by {
                        let a = self.keys().index_of(k);
                        assert(self.keys()[a] == k);
                        let a0 = if a < i { a } else { a + 1 };
                        assert(self.entries@[a] == before.entries@[a0]);
                        before.lemma_entry(a0);
                    }
                    assert(self@ =~= before@.remove(key@));
                }
                Some(entry.1)
            },
            None => {
                assert(self@ =~= old(self)@.remove(key@));
                None
            },
        }
    }

    /// Stores `value` for `key`, replacing any value held for it before.
    pub fn insert(&mut self, key: String, value: V)
        ensures
            final(self)@ == old(self)@.insert(key@, value),
    {
        let _ = self.take(&key);
        let ghost before = *self;
        let ghost old_keys = self.keys();
        proof {
            use_type_invariant(&*self);
        }
        let ghost k0 = key@;
        assert(!self@.contains_key(k0));
        assert(!self.keys().contains(k0));
        let mut entries: Vec<(String, V)> = Vec::new();
        std::mem::swap(&mut entries, &mut self.entries);
        entries.push((key, value));
        proof {
            let n = old_keys.len() as int;
            let ks = entries@.map_values(|e: (String, V)| e.0@);
            assert(ks =~= old_keys.push(k0));
            assert(!old_keys.contains(k0));
            assert forall|a: int, b: int|
                0 <= a < ks.len() && 0 <= b < ks.len() && a != b
                implies ks[a] != ks[b] by {
                if a < n && b < n {
                    assert(ks[a] == old_keys[a]);
                    assert(ks[b] == old_keys[b]);
                } else if a == n {
                    assert(ks[b] == old_keys[b]);
                } else {
                    assert(ks[a] == old_keys[a]);
                }
            }
        }
        self.entries = entries;
        proof {
            let n = old_keys.len() as int;
            assert(self.keys() =~= old_keys.push(k0));
            self.lemma_entry(n);
            assert forall|k: Seq<char>| #[trigger] self@.contains_key(k) <==> before@.insert(k0, value).contains_key(k) by {
                if self.keys().contains(k) && k != k0 {
                    let a = choose|a: int| 0 <= a < self.keys().len() && self.keys()[a] == k;
                    assert(a != n);
                    assert(old_keys[a] == k);
                }
                if before.keys().contains(k) {
                    let a = choose|a: int| 0 <= a < old_keys.len() && old_keys[a] == k;
                    assert(self.keys()[a] == k);
                }
            }
            assert forall|k: Seq<char>| #[trigger] self@.contains_key(k) && k != k0 implies self@[k] == before@[k] by {
                let a = self.keys().index_of(k);
                assert(self.keys()[a] == k);
                assert(a != n);
                assert(self.entries@[a] == before.entries@[a]);
                before.lemma_entry(a);
            }
            assert(self@ =~= before@.insert(k0, value));
        }
    }
}


/// A value stored under a key is what a lookup of that key finds, and what
/// taking that key hands back; taking it leaves nothing under the key, so
/// a second take finds nothing; other keys are untouched.
pub proof fn law_store_insert_then_take<V>(m: Map<Seq<char>, V>, key: Seq<char>, value: V, other: Seq<char>)
    requires
        other != key,
    ensures
        m.insert(key, value).contains_key(key),
        m.insert(key, value)[key] == value,
        !m.insert(key, value).remove(key).contains_key(key),
        m.insert(key, value).remove(key).contains_key(other) == m.contains_key(other),
        m.contains_key(other) ==> m.insert(key, value).remove(key)[other] == m[other],
{
}

} // verus!
