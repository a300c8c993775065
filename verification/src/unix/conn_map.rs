//! The connection pool: connections by their ports.

use std::collections::HashMap;

use vstd::prelude::*;

use crate::unix::conn_model::ConnView;
use crate::unix::connection::VsockConnection;

verus! {

broadcast use vstd::std_specs::hash::group_hash_axioms;

/// What identifies a connection.
#[derive(Clone, Copy, Debug, PartialEq, Eq, Structural)]
pub struct ConnMapKey {
    /// Our port.
    pub local_port: u32,
    /// The guest's port.
    pub peer_port: u32,
}

impl ConnMapKey {
    /// The integer that stands for the key.
    spec fn raw(self) -> u64 {
        (self.local_port * 0x1_0000_0000 + self.peer_port) as u64
    }

    fn to_raw(self) -> (ret: u64)
        ensures
            ret == self.raw(),
    {
        self.local_port as u64 * 0x1_0000_0000 + self.peer_port as u64
    }

    fn from_raw(raw: u64) -> (ret: ConnMapKey)
        ensures
            ret.raw() == raw,
    {
        ConnMapKey {
            local_port: (raw / 0x1_0000_0000) as u32,
            peer_port: (raw % 0x1_0000_0000) as u32,
        }
    }
}

/// The key that `raw` stands for.
spec fn key_of(raw: u64) -> ConnMapKey {
    ConnMapKey {
        local_port: (raw / 0x1_0000_0000) as u32,
        peer_port: (raw % 0x1_0000_0000) as u32,
    }
}

/// The connection pool.
pub struct ConnMap {
    map: HashMap<u64, VsockConnection>,
}

impl View for ConnMap {
    type V = Map<ConnMapKey, ConnView>;

    closed spec fn view(&self) -> Map<ConnMapKey, ConnView> {
        Map::new(
            |key: ConnMapKey| self.map@.contains_key(key.raw()),
            |key: ConnMapKey| self.map@[key.raw()]@,
        )
    }
}

impl ConnMap {
    /// All connections are well formed.
    pub closed spec fn wf(self) -> bool {
        forall|raw: u64| #[trigger] self.map@.contains_key(raw) ==> self.map@[raw].wf()
    }

    /// A pool is finite, and as large as the map behind it.
    proof fn lemma_size(self)
        ensures
            self@.dom().finite(),
            self@.dom().len() == self.map@.dom().len(),
    {
        let f = |raw: u64| key_of(raw);
        assert forall|raw: u64| #[trigger] key_of(raw).raw() == raw by {}
        assert forall|key: ConnMapKey| #[trigger] key_of(key.raw()) == key by {}
        assert(self.map@.dom().map(f) =~= self@.dom()) by {
            assert forall|key: ConnMapKey| self@.dom().contains(key) implies self.map@.dom().map(
                f,
            ).contains(key) by {
                assert(f(key.raw()) == key);
            }
        }
        vstd::set_lib::lemma_map_size(self.map@.dom(), self@.dom(), f);
    }

    /// A pool is finite.
    pub proof fn lemma_finite(self)
        ensures
            self@.dom().finite(),
    {
        self.lemma_size();
    }

    /// Create an empty pool.
    pub fn new() -> (ret: ConnMap)
        ensures
            ret.wf(),
            ret@ == Map::<ConnMapKey, ConnView>::empty(),
    {
        let ret = ConnMap { map: HashMap::with_capacity(crate::unix::defs::MAX_CONNECTIONS) };
        assert(ret@ =~= Map::<ConnMapKey, ConnView>::empty());
        ret
    }

    /// Get the number of connections.
    pub fn len(&self) -> (ret: usize)
        ensures
            ret == self@.dom().len(),
    {
        proof {
            self.lemma_size();
        }
        self.map.len()
    }

    /// Check if there is a connection with the given key.
    pub fn contains_key(&self, key: ConnMapKey) -> (ret: bool)
        ensures
            ret == self@.contains_key(key),
    {
        self.map.contains_key(&key.to_raw())
    }

    /// Get the connection with the given key.
    pub fn get(&self, key: ConnMapKey) -> (ret: Option<&VsockConnection>)
        requires
            self.wf(),
        ensures
            ret is Some <==> self@.contains_key(key),
            ret is Some ==> ret->0.wf() && ret->0@ == self@[key],
    {
        self.map.get(&key.to_raw())
    }

    /// Put a connection in the pool, and get the one that had its key before.
    pub fn insert(&mut self, key: ConnMapKey, conn: VsockConnection) -> (ret: Option<
        VsockConnection,
    >)
        requires
            old(self).wf(),
            conn.wf(),
        ensures
            final(self).wf(),
            final(self)@ == old(self)@.insert(key, conn@),
            ret is Some <==> old(self)@.contains_key(key),
            ret is Some ==> ret->0.wf() && ret->0@ == old(self)@[key],
    {
        let ghost before = *self;
        let ret = self.map.insert(key.to_raw(), conn);
        proof {
            assert forall|k: ConnMapKey| #[trigger] k.raw() == key.raw() implies k == key by {}
            assert(self@ =~= before@.insert(key, conn@));
        }
        ret
    }

    /// Take a connection out of the pool.
    pub fn remove(&mut self, key: ConnMapKey) -> (ret: Option<VsockConnection>)
        requires
            old(self).wf(),
        ensures
            final(self).wf(),
            final(self)@ == old(self)@.remove(key),
            ret is Some <==> old(self)@.contains_key(key),
            ret is Some ==> ret->0.wf() && ret->0@ == old(self)@[key],
    {
        let ghost before = *self;
        let ret = self.map.remove(&key.to_raw());
        proof {
            assert forall|k: ConnMapKey| #[trigger] k.raw() == key.raw() implies k == key by {}
            assert(self@ =~= before@.remove(key));
        }
        ret
    }

    /// Get the keys of all connections, in no particular order.
    pub fn keys(&self) -> (ret: Vec<ConnMapKey>)
        ensures
            ret@.no_duplicates(),
            forall|key: ConnMapKey| ret@.contains(key) <==> #[trigger] self@.contains_key(key),
    {
        let mut ret: Vec<ConnMapKey> = Vec::new();
        let keys = self.map.keys();
        let ghost raws = vstd::std_specs::iter::IteratorSpec::remaining(&keys).unref();
        for raw in it: keys
            invariant
                it.seq().unref() == raws,
                ret@.len() == it.index(),
                forall|i: int| 0 <= i < ret@.len() ==> (#[trigger] ret@[i]).raw() == *it.seq()[i],
        {
            ret.push(ConnMapKey::from_raw(*raw));
        }
        proof {
            assert(raws.to_set() == self.map@.dom());
            assert forall|key: ConnMapKey| ret@.contains(key) <==> #[trigger] self@.contains_key(
                key,
            ) by {
                if ret@.contains(key) {
                    let i = ret@.index_of(key);
                    assert(raws[i] == key.raw());
                    assert(raws.contains(key.raw()));
                }
                if self@.contains_key(key) {
                    assert(raws.to_set().contains(key.raw()));
                    let i = raws.index_of(key.raw());
                    assert(ret@[i].raw() == key.raw());
                    assert(ret@[i] == key);
                }
            }
        }
        ret
    }
}

} // verus!
