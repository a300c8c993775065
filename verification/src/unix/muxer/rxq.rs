//! The RX queue of `VsockMuxer`: a plain FIFO of RX packets to be built.

use std::collections::VecDeque;

use vstd::prelude::*;

use crate::unix::conn_map::{ConnMap, ConnMapKey};
use crate::unix::conn_model::ConnView;
use crate::unix::defs::MUXER_RXQ_SIZE;
use crate::unix::error::Error;
use crate::unix::muxer_rx::{MuxerRx, RxQView};

verus! {

/// The muxer's note on a connection that is in the RX queue.
pub const MCF_RXQ: u16 = 1;

/// The keys of the connections that have pending RX, but are not known to be in the RX queue.
pub open spec fn unqueued_pending(conns: Map<ConnMapKey, ConnView>) -> Set<ConnMapKey> {
    conns.dom().filter(
        |key: ConnMapKey| conns[key].has_pending() && !conns[key].flagged(MCF_RXQ),
    )
}

/// The connection pool, with `flag` set on the connections that have one of the given keys.
pub open spec fn flagged_at(
    conns: Map<ConnMapKey, ConnView>,
    keys: Seq<ConnMapKey>,
    flag: u16,
) -> Map<ConnMapKey, ConnView> {
    Map::new(
        |key: ConnMapKey| conns.contains_key(key),
        |key: ConnMapKey|
            if keys.contains(key) {
                conns[key].with_flag(flag)
            } else {
                conns[key]
            },
    )
}

/// What synchronizing an RX queue with a connection pool does, if it adds the connections with the
/// given keys: all that have pending RX and are not in the queue yet, or as many as there is room
/// for.
pub open spec fn rx_synced_with(
    rxq: RxQView,
    conns: Map<ConnMapKey, ConnView>,
    rxq_after: RxQView,
    conns_after: Map<ConnMapKey, ConnView>,
    keys: Seq<ConnMapKey>,
) -> bool {
    &&& keys.no_duplicates()
    &&& forall|key: ConnMapKey| #[trigger]
        keys.contains(key) ==> unqueued_pending(conns).contains(key)
    &&& rxq_after.q == rxq.q + crate::unix::muxer_rx::conn_items(keys)
    &&& conns_after == flagged_at(conns, keys, MCF_RXQ)
    &&& rxq_after.synced == (rxq.q.len() + unqueued_pending(conns).len() <= MUXER_RXQ_SIZE)
    &&& rxq_after.synced ==> forall|key: ConnMapKey| #[trigger]
        unqueued_pending(conns).contains(key) ==> keys.contains(key)
    &&& !rxq_after.synced ==> rxq_after.q.len() == MUXER_RXQ_SIZE
}

/// What synchronizing an RX queue with a connection pool does.
pub open spec fn rx_synced(
    rxq: RxQView,
    conns: Map<ConnMapKey, ConnView>,
    rxq_after: RxQView,
    conns_after: Map<ConnMapKey, ConnView>,
) -> bool {
    exists|keys: Seq<ConnMapKey>| #[trigger]
        rx_synced_with(rxq, conns, rxq_after, conns_after, keys)
}

impl RxQView {
    /// Whether there is room for another item.
    pub open spec fn has_room(self) -> bool {
        self.q.len() < MUXER_RXQ_SIZE
    }

    /// The queue after `rx` was appended, if there is room for it. A connection that is left out
    /// desynchronizes the queue.
    pub open spec fn appended(self, rx: MuxerRx) -> RxQView {
        if self.has_room() {
            RxQView { q: self.q.push(rx), ..self }
        } else {
            RxQView { synced: self.synced && rx is RstPkt, ..self }
        }
    }
}

/// The muxer RX queue.
pub struct MuxerRxQ {
    q: VecDeque<MuxerRx>,
    synced: bool,
}

impl View for MuxerRxQ {
    type V = RxQView;

    closed spec fn view(&self) -> RxQView {
        RxQView { q: self.q@, synced: self.synced }
    }
}

impl MuxerRxQ {
    /// There are no more items than there is room for.
    pub open spec fn wf(self) -> bool {
        self@.q.len() <= MUXER_RXQ_SIZE
    }

    /// Create an empty RX queue.
    pub fn new() -> (ret: MuxerRxQ)
        ensures
            ret.wf(),
            ret@ == (RxQView { q: Seq::empty(), synced: true }),
    {
        MuxerRxQ { q: VecDeque::with_capacity(MUXER_RXQ_SIZE), synced: true }
    }

    /// Append an item to the queue.
    ///
    /// This fails if there is no room left. If the item is a connection, the queue is out-of-sync
    /// from then on.
    pub fn push(&mut self, rx: MuxerRx) -> (ret: Result<(), Error>)
        requires
            old(self).wf(),
        ensures
            final(self).wf(),
            final(self)@ == old(self)@.appended(rx),
            ret == (if old(self)@.has_room() {
                Ok::<(), Error>(())
            } else {
                Err::<(), Error>(Error::QueueFull)
            }),
    {
        if self.q.len() < MUXER_RXQ_SIZE {
            self.q.push_back(rx);
            return Ok(());
        }
        if let MuxerRx::ConnRx(_) = rx {
            self.synced = false;
        }
        Err(Error::QueueFull)
    }

    /// Pop the item at the front of the queue.
    pub fn pop(&mut self) -> (ret: Option<MuxerRx>)
        requires
            old(self).wf(),
        ensures
            final(self).wf(),
            old(self)@.q.len() == 0 ==> ret is None && final(self)@ == old(self)@,
            old(self)@.q.len() > 0 ==> ret == Some(old(self)@.q[0]) && final(self)@ == (RxQView {
                q: old(self)@.q.skip(1),
                ..old(self)@
            }),
    {
        let ghost before = self.q@;
        let ret = self.q.pop_front();
        if ret.is_some() {
            assert(self.q@ =~= before.skip(1));
        }
        ret
    }

    /// Append all connections that have pending RX, but are not in the queue yet.
    ///
    /// This fails if there is not enough room for all of them.
    pub fn sync(&mut self, conn_map: &mut ConnMap) -> (ret: Result<(), Error>)
        requires
            old(self).wf(),
            old(conn_map).wf(),
        ensures
            final(self).wf(),
            final(conn_map).wf(),
            rx_synced(old(self)@, old(conn_map)@, final(self)@, final(conn_map)@),
            ret == (if final(self)@.synced {
                Ok::<(), Error>(())
            } else {
                Err::<(), Error>(Error::QueueFull)
            }),
    {
        let keys = conn_map.keys();
        let ghost conns = conn_map@;
        let ghost all = unqueued_pending(conns);
        let ghost before = self@;
        let ghost mut added: Seq<ConnMapKey> = Seq::empty();
        let mut i: usize = 0;
        proof {
            conn_map.lemma_finite();
            assert(before.q + crate::unix::muxer_rx::conn_items(added) =~= before.q);
            assert(conns =~= flagged_at(conns, added, MCF_RXQ));
        }
        while i < keys.len()
            invariant
                i <= keys@.len(),
                conn_map.wf(),
                all == unqueued_pending(conns),
                all.finite(),
                keys@.no_duplicates(),
                forall|key: ConnMapKey| keys@.contains(key) <==> #[trigger] conns.contains_key(key),
                self.wf(),
                before == old(self)@,
                conns == old(conn_map)@,
                self@.q == before.q + crate::unix::muxer_rx::conn_items(added),
                conn_map@ == flagged_at(conns, added, MCF_RXQ),
                added.no_duplicates(),
                forall|key: ConnMapKey| #[trigger] added.contains(key) ==> all.contains(key),
                forall|j: int| i <= j < keys@.len() ==> !added.contains(#[trigger] keys@[j]),
                forall|j: int|
                    0 <= j < i && all.contains(keys@[j]) ==> added.contains(#[trigger] keys@[j]),
            decreases keys@.len() - i,
        {
            let key = keys[i];
            assert(keys@.contains(key));
            assert(!added.contains(keys@[i as int]));
            let unqueued = match conn_map.get(key) {
                Some(conn) => conn.has_pending_rx() && !conn.get_muxer_flag(MCF_RXQ),
                None => false,
            };
            if unqueued {
                assert(all.contains(key));
                if self.push(MuxerRx::ConnRx(key)).is_err() {
                    proof {
                        crate::unix::walk::lemma_left_over(added, all, key);
                        assert(self@.q.len() == before.q.len() + added.len());
                        assert(rx_synced_with(before, conns, self@, conn_map@, added));
                    }
                    return Err(Error::QueueFull);
                }
                if let Some(mut conn) = conn_map.remove(key) {
                    conn.set_muxer_flag(MCF_RXQ);
                    conn_map.insert(key, conn);
                }
                proof {
                    let grown = added.push(key);
                    crate::unix::muxer_rx::lemma_conn_items_push(added, key);
                    assert(self@.q =~= before.q + crate::unix::muxer_rx::conn_items(grown));
                    crate::unix::walk::lemma_grown(keys@, i as int, all, added);
                    assert(conn_map@ =~= flagged_at(conns, grown, MCF_RXQ)) by {
                        assert forall|k: ConnMapKey| grown.contains(k) <==> added.contains(k) || k
                            == key by {
                            crate::unix::walk::lemma_push_contains(added, key, k);
                        }
                    }
                    added = grown;
                }
            }
            i = i + 1;
        }
        self.synced = true;
        proof {
            assert forall|key: ConnMapKey| #[trigger] all.contains(key) implies added.contains(
                key,
            ) by {
                assert(conns.contains_key(key));
                let j = keys@.index_of(key);
                assert(added.contains(keys@[j]));
            }
            crate::unix::walk::lemma_exhausted(added, all);
            assert(self@.q.len() == before.q.len() + added.len());
            assert(rx_synced_with(before, conns, self@, conn_map@, added));
        }
        Ok(())
    }

    /// Check if the queue is synchronized with the connection pool.
    pub fn is_synced(&self) -> (ret: bool)
        ensures
            ret == self@.synced,
    {
        self.synced
    }

    /// Get the number of items in the queue.
    pub fn len(&self) -> (ret: usize)
        ensures
            ret == self@.q.len(),
    {
        self.q.len()
    }

    /// Check if the queue is full.
    pub fn is_full(&self) -> (ret: bool)
        ensures
            ret == (self@.q.len() == MUXER_RXQ_SIZE),
    {
        self.len() == MUXER_RXQ_SIZE
    }
}

} // verus!
