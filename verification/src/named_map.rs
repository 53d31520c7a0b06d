//! A map keyed by text in which no key occurs twice.

use crate::text::str_eq;
use vstd::prelude::*;

verus! {

/// Entries keyed by a string, each key present once, kept in insertion order.
pub struct NamedMap<V> {
    entries: Vec<(String, V)>,
}

impl<V> View for NamedMap<V> {
    type V = Map<Seq<char>, V>;

    closed spec fn view(&self) -> Map<Seq<char>, V> {
        Map::new(
            |k: Seq<char>| exists|i: int| 0 <= i < self.entries@.len() && self.entries@[i].0@ == k,
            |k: Seq<char>|
                self.entries@[choose|i: int| 0 <= i < self.entries@.len() && self.entries@[i].0@ == k].1,
        )
    }
}

impl<V> NamedMap<V> {
    /// The keys in storage order.
    pub closed spec fn keys(&self) -> Seq<Seq<char>> {
        self.entries@.map_values(|e: (String, V)| e.0@)
    }

    #[verifier::type_invariant]
    spec fn unique(self) -> bool {
        forall|i: int, j: int|
            0 <= i < j < self.entries@.len() ==> self.entries@[i].0@ != self.entries@[j].0@
    }

    proof fn lemma_entry(&self, i: int)
        requires
            self.unique(),
            0 <= i < self.entries@.len(),
        ensures
            self@.contains_key(self.entries@[i].0@),
            self@[self.entries@[i].0@] == self.entries@[i].1,
    {
        let k = self.entries@[i].0@;
        assert(exists|m: int| 0 <= m < self.entries@.len() && self.entries@[m].0@ == k);
        let c = choose|m: int| 0 <= m < self.entries@.len() && self.entries@[m].0@ == k;
        assert(c == i);
    }

    proof fn lemma_keys(&self)
        requires
            self.unique(),
        ensures
            self.keys().len() == self.entries@.len(),
            forall|i: int| 0 <= i < self.entries@.len() ==> #[trigger] self.keys()[i] == self.entries@[i].0@,
            forall|k: Seq<char>| self@.contains_key(k) <==> self.keys().contains(k),
            forall|i: int, j: int| 0 <= i < j < self.keys().len() ==> self.keys()[i] != self.keys()[j],
    {
        assert forall|k: Seq<char>| self@.contains_key(k) <==> self.keys().contains(k) by {
            if self@.contains_key(k) {
                let i = choose|i: int| 0 <= i < self.entries@.len() && self.entries@[i].0@ == k;
                assert(self.keys()[i] == k);
            }
            if self.keys().contains(k) {
                let i = choose|i: int| 0 <= i < self.keys().len() && self.keys()[i] == k;
                assert(self.entries@[i].0@ == k);
            }
        }
    }

    pub fn new() -> (map: Self)
        ensures
            map@ == Map::<Seq<char>, V>::empty(),
            map.keys().len() == 0,
    {
        let map = NamedMap { entries: Vec::new() };
        assert(map@ =~= Map::<Seq<char>, V>::empty());
        assert(map.keys() =~= Seq::<Seq<char>>::empty());
        map
    }

    pub fn len(&self) -> (n: usize)
        ensures
            n == self.keys().len(),
            n == self@.dom().len(),
            self@.dom().finite(),
    {
        proof {
            use_type_invariant(self);
            self.lemma_keys();
            let ks = self.keys();
            ks.unique_seq_to_set();
            assert(self@.dom() =~= ks.to_set());
        }
        self.entries.len()
    }

    /// The keys in storage order are exactly the keys of the map.
    pub proof fn lemma_keys_are_the_domain(&self)
        ensures
            forall|k: Seq<char>| #[trigger] self.keys().contains(k) <==> self@.contains_key(k),
    {
        assert forall|k: Seq<char>| #[trigger] self.keys().contains(k) <==> self@.contains_key(k) by {
            if self@.contains_key(k) {
                let i = choose|i: int| 0 <= i < self.entries@.len() && self.entries@[i].0@ == k;
                assert(self.keys()[i] == k);
            }
            if self.keys().contains(k) {
                let i = choose|i: int| 0 <= i < self.keys().len() && self.keys()[i] == k;
                assert(self.entries@[i].0@ == k);
            }
        }
    }

    /// Properties of the keys every map has.
    pub fn key_facts(&self)
        ensures
            forall|k: Seq<char>| self@.contains_key(k) <==> self.keys().contains(k),
            forall|i: int, j: int| 0 <= i < j < self.keys().len() ==> self.keys()[i] != self.keys()[j],
    {
        proof {
            use_type_invariant(self);
            self.lemma_keys();
        }
    }

    /// The key and value stored at position `index`.
    pub fn entry(&self, index: usize) -> (entry: (&String, &V))
        requires
            index < self.keys().len(),
        ensures
            entry.0@ == self.keys()[index as int],
            self@.contains_key(entry.0@),
            self@[entry.0@] == *entry.1,
    {
        proof {
            use_type_invariant(self);
            self.lemma_keys();
            self.lemma_entry(index as int);
        }
        let e = &self.entries[index];
        (&e.0, &e.1)
    }

    fn position(&self, key: &str) -> (found: Option<usize>)
        ensures
            match found {
                Some(i) => i < self.entries@.len() && self.entries@[i as int].0@ == key@,
                None => !self@.contains_key(key@),
            },
    {
        let mut i: usize = 0;
        while i < self.entries.len()
            invariant
                i <= self.entries@.len(),
                forall|k: int| 0 <= k < i ==> self.entries@[k].0@ != key@,
            decreases self.entries@.len() - i,
        {
            if str_eq(self.entries[i].0.as_str(), key) {
                return Some(i);
            }
            i = i + 1;
        }
        None
    }

    pub fn contains_key(&self, key: &str) -> (present: bool)
        ensures
            present == self@.contains_key(key@),
    {
        match self.position(key) {
            Some(i) => {
                proof {
                    use_type_invariant(self);
                    self.lemma_entry(i as int);
                }
                true
            },
            None => false,
        }
    }

    pub fn get(&self, key: &str) -> (found: Option<&V>)
        ensures
            match found {
                Some(v) => self@.contains_key(key@) && self@[key@] == *v,
                None => !self@.contains_key(key@),
            },
    {
        match self.position(key) {
            Some(i) => {
                proof {
                    use_type_invariant(self);
                    self.lemma_entry(i as int);
                }
                Some(&self.entries[i].1)
            },
            None => None,
        }
    }

    /// Stores `value` under `key`, replacing any previous value.
    pub fn insert(&mut self, key: String, value: V)
        ensures
            final(self)@ == old(self)@.insert(key@, value),
    {
        proof {
            use_type_invariant(&*self);
        }
        let ghost k = key@;
        let ghost before = self@;
        let ghost old_entries = self.entries@;
        proof {
            assert forall|j: int| 0 <= j < old_entries.len() implies before.contains_key(#[trigger] old_entries[j].0@)
                && before[old_entries[j].0@] == old_entries[j].1 by {
                self.lemma_entry(j);
            }
        }
        let found = self.position(key.as_str());
        let mut entries: Vec<(String, V)> = Vec::new();
        std::mem::swap(&mut entries, &mut self.entries);
        match found {
            Some(i) => {
                entries.set(i, (key, value));
                proof {
                    assert forall|a: int, b: int| 0 <= a < b < entries@.len() implies entries@[a].0@ != entries@[b].0@ by {
                        assert(entries@[a].0@ == old_entries[a].0@);
                        assert(entries@[b].0@ == old_entries[b].0@);
                    }
                }
            },
            None => {
                entries.push((key, value));
                proof {
                    assert forall|a: int, b: int| 0 <= a < b < entries@.len() implies entries@[a].0@ != entries@[b].0@ by {
                        if b == old_entries.len() {
                            assert(old_entries[a].0@ != k);
                        }
                    }
                }
            },
        }
        let map = NamedMap { entries };
        proof {
            assert forall|q: Seq<char>| map@.contains_key(q) <==> before.insert(k, value).contains_key(q) by {
                if q != k && before.contains_key(q) {
                    let j = choose|j: int| 0 <= j < old_entries.len() && old_entries[j].0@ == q;
                    assert(map.entries@[j].0@ == q);
                }
                if q == k {
                    match found {
                        Some(i) => assert(map.entries@[i as int].0@ == k),
                        None => assert(map.entries@[old_entries.len() as int].0@ == k),
                    }
                }
                if map@.contains_key(q) && q != k {
                    let j = choose|j: int| 0 <= j < map.entries@.len() && map.entries@[j].0@ == q;
                    assert(old_entries[j].0@ == q);
                }
            }
            assert forall|q: Seq<char>| #[trigger] map@.contains_key(q) implies map@[q] == before.insert(k, value)[q] by {
                let j = choose|j: int| 0 <= j < map.entries@.len() && map.entries@[j].0@ == q;
                map.lemma_entry(j);
                if q != k {
                    assert(map.entries@[j] == old_entries[j]);
                }
            }
            assert(map@ =~= before.insert(k, value));
        }
        *self = map;
    }

    /// Removes `key`, returning its value if it was present.
    pub fn remove(&mut self, key: &str) -> (removed: Option<V>)
        ensures
            final(self)@ == old(self)@.remove(key@),
            match removed {
                Some(v) => old(self)@.contains_key(key@) && old(self)@[key@] == v,
                None => !old(self)@.contains_key(key@),
            },
    {
        proof {
            use_type_invariant(&*self);
        }
        let ghost k = key@;
        let ghost before = self@;
        let ghost old_entries = self.entries@;
        proof {
            assert forall|j: int| 0 <= j < old_entries.len() implies before.contains_key(#[trigger] old_entries[j].0@)
                && before[old_entries[j].0@] == old_entries[j].1 by {
                self.lemma_entry(j);
            }
        }
        match self.position(key) {
            None => {
                assert(self@ =~= before.remove(k));
                None
            },
            Some(i) => {
                let mut entries: Vec<(String, V)> = Vec::new();
                std::mem::swap(&mut entries, &mut self.entries);
                let (_, value) = entries.remove(i);
                proof {
                    assert forall|a: int, b: int| 0 <= a < b < entries@.len() implies entries@[a].0@ != entries@[b].0@ by {
                        let oa = if a < i { a } else { a + 1 };
                        let ob = if b < i { b } else { b + 1 };
                        assert(entries@[a] == old_entries[oa]);
                        assert(entries@[b] == old_entries[ob]);
                    }
                }
                let map = NamedMap { entries };
                proof {
                    assert forall|q: Seq<char>| map@.contains_key(q) <==> before.remove(k).contains_key(q) by {
                        if q != k && before.contains_key(q) {
                            let j = choose|j: int| 0 <= j < old_entries.len() && old_entries[j].0@ == q;
                            assert(j != i);
                            let nj = if j < i { j } else { j - 1 };
                            assert(map.entries@[nj] == old_entries[j]);
                        }
                        if map@.contains_key(q) {
                            let j = choose|j: int| 0 <= j < map.entries@.len() && map.entries@[j].0@ == q;
                            let oj = if j < i { j } else { j + 1 };
                            assert(map.entries@[j] == old_entries[oj]);
                        }
                    }
                    assert forall|q: Seq<char>| #[trigger] map@.contains_key(q) implies map@[q] == before.remove(k)[q] by {
                        let j = choose|j: int| 0 <= j < map.entries@.len() && map.entries@[j].0@ == q;
                        map.lemma_entry(j);
                        let oj = if j < i { j } else { j + 1 };
                        assert(map.entries@[j] == old_entries[oj]);
                    }
                    assert(map@ =~= before.remove(k));
                }
                *self = map;
                Some(value)
            },
        }
    }

    /// Replaces the value stored at position `index`, returning the old one.
    pub fn replace_at(&mut self, index: usize, value: V) -> (previous: V)
        requires
            index < old(self).keys().len(),
        ensures
            final(self).keys() == old(self).keys(),
            final(self)@ == old(self)@.insert(old(self).keys()[index as int], value),
            old(self)@[old(self).keys()[index as int]] == previous,
    {
        proof {
            use_type_invariant(&*self);
            self.lemma_entry(index as int);
        }
        let ghost before = self@;
        let ghost old_entries = self.entries@;
        let ghost k = old_entries[index as int].0@;
        proof {
            assert forall|j: int| 0 <= j < old_entries.len() implies before.contains_key(#[trigger] old_entries[j].0@)
                && before[old_entries[j].0@] == old_entries[j].1 by {
                self.lemma_entry(j);
            }
        }
        let mut entries: Vec<(String, V)> = Vec::new();
        std::mem::swap(&mut entries, &mut self.entries);
        let (key, previous) = entries.remove(index);
        entries.insert(index, (key, value));
        proof {
            assert forall|a: int| 0 <= a < entries@.len() implies #[trigger] entries@[a].0@ == old_entries[a].0@ by {
                if a != index {
                    assert(entries@[a] == old_entries[a]);
                }
            }
            assert forall|a: int, b: int| 0 <= a < b < entries@.len() implies entries@[a].0@ != entries@[b].0@ by {
                assert(entries@[a].0@ == old_entries[a].0@);
                assert(entries@[b].0@ == old_entries[b].0@);
            }
        }
        let map = NamedMap { entries };
        proof {
            assert(map.keys() =~= old_entries.map_values(|e: (String, V)| e.0@));
            assert forall|q: Seq<char>| map@.contains_key(q) <==> before.insert(k, value).contains_key(q) by {
                if before.contains_key(q) {
                    let j = choose|j: int| 0 <= j < old_entries.len() && old_entries[j].0@ == q;
                    assert(map.entries@[j].0@ == q);
                }
                if map@.contains_key(q) {
                    let j = choose|j: int| 0 <= j < map.entries@.len() && map.entries@[j].0@ == q;
                    assert(old_entries[j].0@ == q);
                }
            }
            assert forall|q: Seq<char>| #[trigger] map@.contains_key(q) implies map@[q] == before.insert(k, value)[q] by {
                let j = choose|j: int| 0 <= j < map.entries@.len() && map.entries@[j].0@ == q;
                map.lemma_entry(j);
                if j != index {
                    assert(map.entries@[j] == old_entries[j]);
                }
            }
            assert(map@ =~= before.insert(k, value));
        }
        *self = map;
        previous
    }
}

} // verus!
