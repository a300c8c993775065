//! A queue of RX (host -> guest) packets, or rather of instructions on how to build them.
//!
//! Under ideal operation, every connection that has pending RX data is present in the RX queue.
//! However, since the RX queue is smaller than the connection pool, it may become full, meaning
//! that it can no longer account for all the connections that can yield RX data. When that happens,
//! it is no longer "synchronized" with the connection pool. A desynchronized RX queue still holds
//! valid data, and packets continue to be popped from it. However, when it is drained, additional
//! data may still be available, which only a more costly walk of the entire connection pool finds.
//! That walk is the resynchronization procedure: inspect all connections, and add every connection
//! that has pending RX data to the RX queue.

use std::collections::VecDeque;

use vstd::prelude::*;

use crate::unix::conn_map::{ConnMap, ConnMapKey};
use crate::unix::conn_model::ConnView;
use crate::unix::defs::MUXER_RXQ_SIZE;
use crate::unix::error::Error;
use crate::unix::muxer_rx::{MuxerRx, RxQView};

verus! {

/// The index of the last item that asks a connection, or -1.
pub open spec fn last_conn(q: Seq<MuxerRx>) -> int
    decreases q.len(),
{
    if q.len() == 0 {
        -1
    } else if q.last() is ConnRx {
        q.len() - 1
    } else {
        last_conn(q.drop_last())
    }
}

/// `last_conn` is what its name says.
pub proof fn lemma_last_conn(q: Seq<MuxerRx>)
    ensures
        -1 <= last_conn(q) < q.len(),
        last_conn(q) >= 0 ==> q[last_conn(q)] is ConnRx,
        forall|i: int| last_conn(q) < i < q.len() ==> (#[trigger] q[i]) is RstPkt,
    decreases q.len(),
{
    if q.len() > 0 && !(q.last() is ConnRx) {
        let rest = q.drop_last();
        lemma_last_conn(rest);
        assert forall|i: int| last_conn(q) < i < q.len() implies (#[trigger] q[i]) is RstPkt by {
            if i < q.len() - 1 {
                assert(q[i] == rest[i]);
            }
        }
    }
}

/// The keys of the connections that have pending RX.
pub open spec fn pending_keys(conns: Map<ConnMapKey, ConnView>) -> Set<ConnMapKey> {
    conns.dom().filter(|key: ConnMapKey| conns[key].has_pending())
}

impl RxQView {
    /// Whether there is no room left.
    pub open spec fn full(self) -> bool {
        self.q.len() == MUXER_RXQ_SIZE
    }

    /// Whether a push of `rx` succeeds.
    pub open spec fn accepts(self, rx: MuxerRx) -> bool {
        match rx {
            MuxerRx::ConnRx(_) => self.synced && !self.full(),
            MuxerRx::RstPkt { .. } => !self.full() || last_conn(self.q) >= 0,
        }
    }

    /// The queue after a push of `rx`.
    pub open spec fn pushed(self, rx: MuxerRx) -> RxQView {
        if self.synced && !self.full() {
            RxQView { q: self.q.push(rx), ..self }
        } else {
            match rx {
                MuxerRx::ConnRx(_) => RxQView { synced: false, ..self },
                MuxerRx::RstPkt { .. } => if last_conn(self.q) >= 0 {
                    RxQView { q: self.q.update(last_conn(self.q), rx), synced: false }
                } else if !self.full() {
                    RxQView { q: self.q.push(rx), ..self }
                } else {
                    self
                },
            }
        }
    }
}

/// The muxer RX queue.
pub struct MuxerRxQ {
    q: VecDeque<MuxerRx>,
    synced: bool,
}

impl View for MuxerRxQ {
    type V = RxQView;

    closed spec fn view(&self) -> RxQView {
        RxQView { q: self.q@, synced: self.synced }
    }
}

impl MuxerRxQ {
    /// There are no more items than there is room for.
    pub open spec fn wf(self) -> bool {
        self@.q.len() <= MUXER_RXQ_SIZE
    }

    /// Create an empty RX queue.
    pub fn new() -> (ret: MuxerRxQ)
        ensures
            ret.wf(),
            ret@ == (RxQView { q: Seq::empty(), synced: true }),
    {
        MuxerRxQ { q: VecDeque::with_capacity(MUXER_RXQ_SIZE), synced: true }
    }

    /// Push a new RX item to the queue.
    ///
    /// A push will fail when:
    /// - trying to push a connection key onto an out-of-sync, or full queue; or
    /// - trying to push an RST onto a queue already full of RSTs.
    ///
    /// RSTs take precedence over connections, because connections can always be queried for
    /// pending RX data later. Aside from this queue, there is no other storage for RSTs, so,
    /// failing to push one means that the packet has to be dropped.
    pub fn push(&mut self, rx: MuxerRx) -> (ret: Result<(), Error>)
        requires
            old(self).wf(),
        ensures
            final(self).wf(),
            final(self)@ == old(self)@.pushed(rx),
            ret is Ok <==> old(self)@.accepts(rx),
            ret is Err ==> ret->Err_0 == Error::QueueFull,
    {
        // Pushing to a non-full, synchronized queue will always succeed.
        if self.is_synced() && !self.is_full() {
            self.q.push_back(rx);
            return Ok(());
        }
        match rx {
            MuxerRx::RstPkt { .. } => {
                // Look through the queue for a connection key to evict. This way, the queue does
                // lose sync, but no packet is dropped.
                proof {
                    lemma_last_conn(self.q@);
                }
                let mut i: usize = self.q.len();
                while i > 0
                    invariant
                        i <= self.q@.len(),
                        *self == *old(self),
                        old(self).wf(),
                        !(old(self)@.synced && !old(self)@.full()),
                        rx is RstPkt,
                        last_conn(self.q@) < i,
                        forall|j: int|
                            last_conn(self.q@) < j < self.q@.len()
                                ==> (#[trigger] self.q@[j]) is RstPkt,
                        last_conn(self.q@) >= 0 ==> self.q@[last_conn(self.q@)] is ConnRx,
                        last_conn(self.q@) >= -1,
                    decreases i,
                {
                    i = i - 1;
                    if let MuxerRx::ConnRx(_) = self.q[i] {
                        let ghost before = self.q@;
                        self.q.remove(i);
                        self.q.insert(i, rx);
                        self.synced = false;
                        assert(self.q@ =~= before.update(i as int, rx));
                        return Ok(());
                    }
                }
                if !self.is_full() {
                    self.q.push_back(rx);
                    return Ok(());
                }
            },
            MuxerRx::ConnRx(_) => {
                self.synced = false;
            },
        }
        Err(Error::QueueFull)
    }

    /// Pop an RX item from the front of the queue.
    pub fn pop(&mut self) -> (ret: Option<MuxerRx>)
        requires
            old(self).wf(),
        ensures
            final(self).wf(),
            old(self)@.q.len() == 0 ==> ret is None && final(self)@ == old(self)@,
            old(self)@.q.len() > 0 ==> ret == Some(old(self)@.q[0]) && final(self)@ == (RxQView {
                q: old(self)@.q.skip(1),
                ..old(self)@
            }),
    {
        let ghost before = self.q@;
        let ret = self.q.pop_front();
        if ret.is_some() {
            assert(self.q@ =~= before.skip(1));
        }
        ret
    }

    /// Attempt to synchronize the RX queue with the connection pool.
    ///
    /// Returns:
    /// - true, if the queue has been synced (i.e. all connections, that have some RX pending, have
    ///   been added to the queue); or
    /// - false, if the queue is still out-of-sync.
    pub fn try_sync(&mut self, conn_map: &ConnMap) -> (ret: bool)
        requires
            old(self).wf(),
            conn_map.wf(),
        ensures
            final(self).wf(),
            final(self)@.synced == ret,
            ret == (old(self)@.q.len() + pending_keys(conn_map@).len() <= MUXER_RXQ_SIZE),
            !ret ==> final(self)@.full(),
            ret ==> forall|key: ConnMapKey| #[trigger]
                pending_keys(conn_map@).contains(key) ==> final(self)@.q.contains(
                    MuxerRx::ConnRx(key),
                ),
            exists|keys: Seq<ConnMapKey>|
                {
                    &&& keys.no_duplicates()
                    &&& final(self)@.q == old(self)@.q + crate::unix::muxer_rx::conn_items(keys)
                    &&& forall|key: ConnMapKey| #[trigger]
                        keys.contains(key) ==> pending_keys(conn_map@).contains(key)
                    &&& ret ==> forall|key: ConnMapKey| #[trigger]
                        pending_keys(conn_map@).contains(key) ==> keys.contains(key)
                },
    {
        let keys = conn_map.keys();
        let ghost all = pending_keys(conn_map@);
        let ghost before = self@;
        let ghost mut added: Seq<ConnMapKey> = Seq::empty();
        let mut i: usize = 0;
        proof {
            conn_map.lemma_finite();
            assert(before.q + crate::unix::muxer_rx::conn_items(added) =~= before.q);
        }
        while i < keys.len()
            invariant
                i <= keys@.len(),
                conn_map.wf(),
                all == pending_keys(conn_map@),
                all.finite(),
                keys@.no_duplicates(),
                forall|key: ConnMapKey|
                    keys@.contains(key) <==> #[trigger] conn_map@.contains_key(key),
                self.wf(),
                before == old(self)@,
                self@.q == before.q + crate::unix::muxer_rx::conn_items(added),
                added.no_duplicates(),
                forall|key: ConnMapKey| #[trigger] added.contains(key) ==> all.contains(key),
                forall|j: int| i <= j < keys@.len() ==> !added.contains(#[trigger] keys@[j]),
                forall|j: int|
                    0 <= j < i && all.contains(keys@[j]) ==> added.contains(#[trigger] keys@[j]),
            decreases keys@.len() - i,
        {
            let key = keys[i];
            assert(keys@.contains(key));
            let pending = match conn_map.get(key) {
                Some(conn) => conn.has_pending_rx(),
                None => false,
            };
            if pending {
                assert(all.contains(key));
                if self.is_full() {
                    self.synced = false;
                    proof {
                        crate::unix::walk::lemma_left_over(added, all, key);
                        assert(self@.q.len() == before.q.len() + added.len());
                    }
                    return false;
                }
                self.q.push_back(MuxerRx::ConnRx(key));
                proof {
                    let grown = added.push(key);
                    crate::unix::muxer_rx::lemma_conn_items_push(added, key);
                    assert(self@.q =~= before.q + crate::unix::muxer_rx::conn_items(grown));
                    crate::unix::walk::lemma_grown(keys@, i as int, all, added);
                    added = grown;
                }
            }
            i = i + 1;
        }
        proof {
            assert forall|key: ConnMapKey| #[trigger] all.contains(key) implies added.contains(
                key,
            ) by {
                assert(conn_map@.contains_key(key));
                let j = keys@.index_of(key);
                assert(added.contains(keys@[j]));
            }
            crate::unix::walk::lemma_exhausted(added, all);
            assert(self@.q.len() == before.q.len() + added.len());
            assert forall|key: ConnMapKey| #[trigger] all.contains(key) implies self@.q.contains(
                MuxerRx::ConnRx(key),
            ) by {
                let j = added.index_of(key);
                assert(self@.q[before.q.len() + j] == MuxerRx::ConnRx(key));
            }
        }
        self.synced = true;
        true
    }

    /// Check if the RX queue is synchronized with the connection pool.
    pub fn is_synced(&self) -> (ret: bool)
        ensures
            ret == self@.synced,
    {
        self.synced
    }

    /// Get the total number of items in the queue.
    pub fn len(&self) -> (ret: usize)
        ensures
            ret == self@.q.len(),
    {
        self.q.len()
    }

    /// Check if the queue is empty.
    pub fn is_empty(&self) -> (ret: bool)
        ensures
            ret == (self@.q.len() == 0),
    {
        self.len() == 0
    }

    /// Check if the queue is full.
    pub fn is_full(&self) -> (ret: bool)
        ensures
            ret == self@.full(),
    {
        self.len() == MUXER_RXQ_SIZE
    }
}

/// A push fails only for a connection key on an out-of-sync or full queue, or for an RST on a queue
/// full of RSTs.
pub proof fn push_fails_only_without_room(rxq: RxQView, rx: MuxerRx)
    requires
        rxq.q.len() <= MUXER_RXQ_SIZE,
    ensures
        !rxq.accepts(rx) <==> {
            ||| rx is ConnRx && (!rxq.synced || rxq.full())
            ||| rx is RstPkt && rxq.full() && forall|i: int|
                0 <= i < rxq.q.len() ==> (#[trigger] rxq.q[i]) is RstPkt
        },
{
    lemma_last_conn(rxq.q);
}

/// A queued RST is never lost to a push: it keeps its place.
pub proof fn push_keeps_rsts(rxq: RxQView, rx: MuxerRx)
    ensures
        rxq.pushed(rx).q.len() >= rxq.q.len(),
        forall|i: int|
            0 <= i < rxq.q.len() && (#[trigger] rxq.q[i]) is RstPkt ==> rxq.pushed(rx).q[i]
                == rxq.q[i],
{
    lemma_last_conn(rxq.q);
}

/// An item that was accepted is in the queue.
pub proof fn accepted_means_queued(rxq: RxQView, rx: MuxerRx)
    requires
        rxq.accepts(rx),
    ensures
        rxq.pushed(rx).q.contains(rx),
{
    lemma_last_conn(rxq.q);
    let after = rxq.pushed(rx).q;
    if rxq.synced && !rxq.full() || last_conn(rxq.q) < 0 {
        assert(after[rxq.q.len() as int] == rx);
    } else {
        assert(after[last_conn(rxq.q)] == rx);
    }
}

/// A connection key is left out of the queue only at the price of the queue's synchronization.
pub proof fn lost_key_means_desync(rxq: RxQView, rx: MuxerRx, key: ConnMapKey)
    requires
        rxq.pushed(rx).synced,
    ensures
        rxq.synced,
        rxq.q.contains(MuxerRx::ConnRx(key)) ==> rxq.pushed(rx).q.contains(MuxerRx::ConnRx(key)),
        rx == MuxerRx::ConnRx(key) ==> rxq.pushed(rx).q.contains(rx),
{
    let after = rxq.pushed(rx).q;
    lemma_last_conn(rxq.q);
    if rxq.q.contains(MuxerRx::ConnRx(key)) {
        let i = rxq.q.index_of(MuxerRx::ConnRx(key));
        assert(after[i] == rxq.q[i]);
    }
    if rx == MuxerRx::ConnRx(key) {
        assert(after[rxq.q.len() as int] == rx);
    }
}

/// The queue holds up to 256 items. An item joins its end, as long as the queue has room and is
/// synchronized. An RST that comes later takes the place of the last connection in the queue, which
/// is then out of sync. Without such a connection, it still joins the end, if there is room.
pub proof fn pushing_joins_the_end(rxq: RxQView, rx: MuxerRx, i: int)
    requires
        0 <= i < rxq.q.len(),
    ensures
        rxq.full() <==> rxq.q.len() == 256,
        rxq.synced && rxq.q.len() != 256 ==> {
            &&& rxq.pushed(rx).q == rxq.q.push(rx)
            &&& rxq.pushed(rx).synced
        },
        !(rxq.synced && rxq.q.len() != 256) && rx is ConnRx ==> {
            &&& rxq.pushed(rx).q == rxq.q
            &&& !rxq.pushed(rx).synced
        },
        !(rxq.synced && rxq.q.len() != 256) && rx is RstPkt && rxq.q[i] is ConnRx && (forall|j: int|
            i < j < rxq.q.len() ==> (#[trigger] rxq.q[j]) is RstPkt) ==> {
            &&& rxq.pushed(rx).q == rxq.q.update(i, rx)
            &&& !rxq.pushed(rx).synced
        },
        !(rxq.synced && rxq.q.len() != 256) && rx is RstPkt && (forall|j: int|
            0 <= j < rxq.q.len() ==> (#[trigger] rxq.q[j]) is RstPkt) ==> {
            &&& rxq.pushed(rx).q == (if rxq.q.len() == 256 {
                rxq.q
            } else {
                rxq.q.push(rx)
            })
            &&& rxq.pushed(rx).synced == rxq.synced
        },
{
    lemma_last_conn(rxq.q);
    if rxq.q[i] is ConnRx && (forall|j: int|
        i < j < rxq.q.len() ==> (#[trigger] rxq.q[j]) is RstPkt) {
        assert(last_conn(rxq.q) == i);
    }
}

/// What a walk of the pool adds are the connections that owe the guest a packet.
pub proof fn walk_adds_what_is_pending(
    conns: Map<ConnMapKey, ConnView>,
    keys: Seq<ConnMapKey>,
    key: ConnMapKey,
)
    ensures
        pending_keys(conns).contains(key) <==> conns.contains_key(key) && conns[key].has_pending(),
        crate::unix::muxer_rx::conn_items(keys).len() == keys.len(),
        forall|i: int|
            0 <= i < keys.len() ==> #[trigger] crate::unix::muxer_rx::conn_items(keys)[i]
                == MuxerRx::ConnRx(keys[i]),
{
}

} // verus!
