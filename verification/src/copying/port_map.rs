//! Maps that are keyed by pairs of ports.

use std::collections::HashMap;

use vstd::prelude::*;

verus! {

broadcast use vstd::std_specs::hash::group_hash_axioms;

/// The integer that stands for a pair of ports.
spec fn raw(key: (u32, u32)) -> u64 {
    (key.0 * 0x1_0000_0000 + key.1) as u64
}

fn to_raw(key: (u32, u32)) -> (ret: u64)
    ensures
        ret == raw(key),
{
    key.0 as u64 * 0x1_0000_0000 + key.1 as u64
}

/// Different pairs of ports have different integers stand for them.
proof fn lemma_raw(key: (u32, u32))
    ensures
        forall|k: (u32, u32)| #[trigger] raw(k) == raw(key) ==> k == key,
{
}

/// A map from pairs of ports.
pub struct PortMap<V> {
    map: HashMap<u64, V>,
}

impl<V> View for PortMap<V> {
    type V = Map<(u32, u32), V>;

    closed spec fn view(&self) -> Map<(u32, u32), V> {
        Map::new(
            |key: (u32, u32)| self.map@.contains_key(raw(key)),
            |key: (u32, u32)| self.map@[raw(key)],
        )
    }
}

impl<V> PortMap<V> {
    /// Create an empty map.
    pub fn new() -> (ret: PortMap<V>)
        ensures
            ret@ == Map::<(u32, u32), V>::empty(),
    {
        let ret = PortMap { map: HashMap::new() };
        assert(ret@ =~= Map::<(u32, u32), V>::empty());
        ret
    }

    /// Check if there is a value for the given ports.
    pub fn contains_key(&self, key: (u32, u32)) -> (ret: bool)
        ensures
            ret == self@.contains_key(key),
    {
        self.map.contains_key(&to_raw(key))
    }

    /// Get the value for the given ports.
    pub fn get(&self, key: (u32, u32)) -> (ret: Option<&V>)
        ensures
            ret is Some <==> self@.contains_key(key),
            ret is Some ==> *ret->0 == self@[key],
    {
        self.map.get(&to_raw(key))
    }

    /// Put a value in the map, and get the one that it replaces.
    pub fn insert(&mut self, key: (u32, u32), value: V) -> (ret: Option<V>)
        ensures
            final(self)@ == old(self)@.insert(key, value),
            ret == (if old(self)@.contains_key(key) {
                Some(old(self)@[key])
            } else {
                None
            }),
    {
        let ghost before = self@;
        let ret = self.map.insert(to_raw(key), value);
        proof {
            lemma_raw(key);
            assert(self@ =~= before.insert(key, value));
        }
        ret
    }

    /// Take a value out of the map.
    pub fn remove(&mut self, key: (u32, u32)) -> (ret: Option<V>)
        ensures
            final(self)@ == old(self)@.remove(key),
            ret == (if old(self)@.contains_key(key) {
                Some(old(self)@[key])
            } else {
                None
            }),
    {
        let ghost before = self@;
        let ret = self.map.remove(&to_raw(key));
        proof {
            lemma_raw(key);
            assert(self@ =~= before.remove(key));
        }
        ret
    }
}

} // verus!
