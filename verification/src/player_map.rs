//! A map keyed by SA-MP player ID.

use std::collections::HashMap;
use vstd::prelude::*;
use vstd::std_specs::iter::IteratorSpec;

verus! {

/// Values keyed by a player ID.
pub struct PlayerMap<V> {
    entries: HashMap<u16, V>,
}

impl<V> View for PlayerMap<V> {
    type V = Map<u16, V>;

    closed spec fn view(&self) -> Map<u16, V> {
        self.entries@
    }
}

impl<V> PlayerMap<V> {
    pub fn new() -> (map: Self)
        ensures
            map@ == Map::<u16, V>::empty(),
    {
        PlayerMap { entries: HashMap::new() }
    }

    pub fn len(&self) -> (n: usize)
        ensures
            n == self@.dom().len(),
            self@.dom().finite(),
    {
        self.entries.len()
    }

    /// Every key once, in the order the map is walked.
    pub fn key_list(&self) -> (keys: Vec<u16>)
        ensures
            keys@.no_duplicates(),
            forall|k: u16| #[trigger] keys@.contains(k) <==> self@.contains_key(k),
    {
        let ghost walk = vstd::std_specs::hash::spec_keys_iter(&self.entries).remaining();
        let mut keys: Vec<u16> = Vec::new();
        for k in it: self.entries.keys()
            invariant
                it.seq() == walk,
                keys@ == walk.take(it.index()).map_values(|r: &u16| *r),
        {
            keys.push(*k);
            assert(walk.take(it.index() + 1) == walk.take(it.index()).push(k));
        }
        proof {
            assert(keys@.len() == walk.len());
            assert(keys@ == walk.map_values(|r: &u16| *r));
            assert(walk.unref() == walk.map_values(|r: &u16| *r));
        }
        keys
    }

    pub fn contains_key(&self, key: u16) -> (present: bool)
        ensures
            present == self@.contains_key(key),
    {
        self.entries.contains_key(&key)
    }

    pub fn get(&self, key: u16) -> (found: Option<&V>)
        ensures
            match found {
                Some(v) => self@.contains_key(key) && self@[key] == *v,
                None => !self@.contains_key(key),
            },
    {
        self.entries.get(&key)
    }

    /// Stores `value` under `key`, replacing any previous value.
    pub fn insert(&mut self, key: u16, value: V)
        ensures
            final(self)@ == old(self)@.insert(key, value),
    {
        self.entries.insert(key, value);
    }

    /// Removes `key`, returning its value if it was present.
    pub fn remove(&mut self, key: u16) -> (removed: Option<V>)
        ensures
            final(self)@ == old(self)@.remove(key),
            match removed {
                Some(v) => old(self)@.contains_key(key) && old(self)@[key] == v,
                None => !old(self)@.contains_key(key),
            },
    {
        self.entries.remove(&key)
    }

    /// Removes every listed key.
    pub fn remove_all(&mut self, keys: &Vec<u16>)
        ensures
            final(self)@ == old(self)@.remove_keys(keys@.to_set()),
    {
        let ghost before = self@;
        let mut i: usize = 0;
        while i < keys.len()
            invariant
                i <= keys@.len(),
                self@ == before.remove_keys(keys@.take(i as int).to_set()),
            decreases keys@.len() - i,
        {
            self.remove(keys[i]);
            proof {
                crate::seq_facts::lemma_take_to_set_push(keys@, i as int);
                assert(self@ =~= before.remove_keys(keys@.take(i + 1).to_set()));
            }
            i = i + 1;
        }
        assert(keys@.take(keys@.len() as int) =~= keys@);
    }
}

} // verus!
