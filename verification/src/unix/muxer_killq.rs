//! A queue of connections that are scheduled for forced termination.
//!
//! After one peer issues a clean shutdown request, the concerned connection is queued for
//! termination in the near future. A subsequent pop succeeds if and only if the first connection in
//! the queue is ready to be terminated, that is, if its kill timer has expired.
//!
//! The queue is smaller than the connection pool, so that it may become full at times. It is called
//! "synchronized" if all connections that are awaiting termination are certain to be present in it.
//! When it becomes full, connections that should be terminated are left out, and it is not
//! synchronized any more. It is then to be drained, and synchronized again by a walk of the
//! connection pool.

use std::collections::VecDeque;

use vstd::prelude::*;

use crate::unix::conn_map::{ConnMap, ConnMapKey};
use crate::unix::conn_model::ConnView;
use crate::unix::defs::{CONN_SHUTDOWN_TIMEOUT_MS, MUXER_KILLQ_SIZE, NANOS_PER_MILLI};

verus! {

/// A kill queue item: a connection key, and the time at which it was scheduled for termination, in
/// nanoseconds.
#[derive(Clone, Copy, Debug, PartialEq, Eq, Structural)]
pub struct MuxerKillQItem {
    pub key: ConnMapKey,
    pub sched_time: u64,
}

/// What a kill queue holds.
#[verifier::ext_equal]
pub struct KillQView {
    /// The items, oldest first.
    pub q: Seq<MuxerKillQItem>,
    /// Whether all connections that await termination are in the queue.
    pub synced: bool,
}

/// The items that schedule the connections with the given keys, all at the time `now`.
pub open spec fn kill_items(keys: Seq<ConnMapKey>, now: u64) -> Seq<MuxerKillQItem> {
    keys.map_values(|key: ConnMapKey| MuxerKillQItem { key, sched_time: now })
}

/// Whether a queue holds the connection with the given key.
pub open spec fn queued(q: Seq<MuxerKillQItem>, key: ConnMapKey) -> bool {
    exists|i: int| 0 <= i < q.len() && (#[trigger] q[i]).key == key
}

/// The keys of the connections that are shutting down, but are not in the queue.
pub open spec fn unqueued_keys(
    q: Seq<MuxerKillQItem>,
    conns: Map<ConnMapKey, ConnView>,
) -> Set<ConnMapKey> {
    conns.dom().filter(|key: ConnMapKey| conns[key].shutting_down() && !queued(q, key))
}

impl MuxerKillQItem {
    /// Whether the kill timer has expired by the time `now`.
    pub open spec fn expired(self, now: u64) -> bool {
        now > self.sched_time + CONN_SHUTDOWN_TIMEOUT_MS * NANOS_PER_MILLI
    }
}

impl KillQView {
    /// Whether there is no room left.
    pub open spec fn full(self) -> bool {
        self.q.len() == MUXER_KILLQ_SIZE
    }

    /// The queue after a push of `key` at the time `now`.
    pub open spec fn pushed(self, key: ConnMapKey, now: u64) -> KillQView {
        if self.synced && !self.full() {
            KillQView { q: self.q.push(MuxerKillQItem { key, sched_time: now }), ..self }
        } else {
            KillQView { synced: false, ..self }
        }
    }

    /// The key that a pop at the time `now` gives.
    pub open spec fn due(self, now: u64) -> Option<ConnMapKey> {
        if self.q.len() > 0 && self.q[0].expired(now) {
            Some(self.q[0].key)
        } else {
            None
        }
    }

    /// The queue after a pop at the time `now`.
    pub open spec fn popped(self, now: u64) -> KillQView {
        if self.due(now) is Some {
            KillQView { q: self.q.skip(1), ..self }
        } else {
            self
        }
    }
}

/// The connection kill queue: a FIFO structure, storing the connections that are scheduled for
/// termination.
pub struct MuxerKillQ {
    q: VecDeque<MuxerKillQItem>,
    synced: bool,
}

impl View for MuxerKillQ {
    type V = KillQView;

    closed spec fn view(&self) -> KillQView {
        KillQView { q: self.q@, synced: self.synced }
    }
}

impl MuxerKillQ {
    /// There are no more items than there is room for.
    pub open spec fn wf(self) -> bool {
        self@.q.len() <= MUXER_KILLQ_SIZE
    }

    /// Create an empty kill queue.
    pub fn new() -> (ret: MuxerKillQ)
        ensures
            ret.wf(),
            ret@ == (KillQView { q: Seq::empty(), synced: true }),
    {
        MuxerKillQ { q: VecDeque::with_capacity(MUXER_KILLQ_SIZE), synced: true }
    }

    /// Push a connection key to the queue, scheduling it for termination at
    /// `CONN_SHUTDOWN_TIMEOUT_MS` from now (the push time).
    ///
    /// When there is no room left, the key is left out, and the queue is out-of-sync.
    pub fn push(&mut self, key: ConnMapKey, now: u64)
        requires
            old(self).wf(),
        ensures
            final(self).wf(),
            final(self)@ == old(self)@.pushed(key, now),
    {
        if !self.is_synced() || self.is_full() {
            self.synced = false;
            return;
        }
        self.q.push_back(MuxerKillQItem { key, sched_time: now });
    }

    /// Attempt to pop an expired connection from the kill queue.
    ///
    /// This will succeed and return a connection key, only if the connection at the front of the
    /// queue has expired. Otherwise, `None` is returned.
    pub fn pop(&mut self, now: u64) -> (ret: Option<ConnMapKey>)
        requires
            old(self).wf(),
        ensures
            final(self).wf(),
            ret == old(self)@.due(now),
            final(self)@ == old(self)@.popped(now),
    {
        if self.q.len() > 0 {
            let item = self.q[0];
            if now > item.sched_time && now - item.sched_time > CONN_SHUTDOWN_TIMEOUT_MS
                * NANOS_PER_MILLI {
                let ghost before = self.q@;
                self.q.pop_front();
                assert(self.q@ =~= before.skip(1));
                return Some(item.key);
            }
        }
        None
    }

    /// Attempt to synchronize the kill queue.
    ///
    /// This will walk the connection pool, looking for connections that should be scheduled for
    /// termination, but are not present in the queue.
    /// Returns:
    /// - true, if the queue was successfully synchronized; or
    /// - false, if the queue is still out-of-sync.
    pub fn try_sync(&mut self, conn_map: &ConnMap, now: u64) -> (ret: bool)
        requires
            old(self).wf(),
            conn_map.wf(),
        ensures
            final(self).wf(),
            final(self)@.synced == ret,
            ret == (old(self)@.q.len() + unqueued_keys(old(self)@.q, conn_map@).len()
                <= MUXER_KILLQ_SIZE),
            !ret ==> final(self)@.full(),
            ret ==> forall|key: ConnMapKey| #[trigger]
                conn_map@.contains_key(key) && conn_map@[key].shutting_down() ==> queued(
                    final(self)@.q,
                    key,
                ),
            exists|keys: Seq<ConnMapKey>|
                {
                    &&& keys.no_duplicates()
                    &&& final(self)@.q == old(self)@.q + kill_items(keys, now)
                    &&& forall|key: ConnMapKey| #[trigger]
                        keys.contains(key) ==> unqueued_keys(old(self)@.q, conn_map@).contains(key)
                    &&& ret ==> forall|key: ConnMapKey| #[trigger]
                        unqueued_keys(old(self)@.q, conn_map@).contains(key) ==> keys.contains(key)
                },
    {
        // Note: blindly walking the connection pool does mangle the kill order. However, there is
        // no contract to provide a strict termination timeout, and desynchronization of the kill
        // queue should not happen that often in practice.
        let keys = conn_map.keys();
        let ghost all = unqueued_keys(self@.q, conn_map@);
        let ghost before = self@;
        let ghost mut added: Seq<ConnMapKey> = Seq::empty();
        let mut i: usize = 0;
        proof {
            conn_map.lemma_finite();
            assert(before.q + kill_items(added, now) =~= before.q);
        }
        while i < keys.len()
            invariant
                i <= keys@.len(),
                conn_map.wf(),
                all == unqueued_keys(before.q, conn_map@),
                all.finite(),
                keys@.no_duplicates(),
                forall|key: ConnMapKey|
                    keys@.contains(key) <==> #[trigger] conn_map@.contains_key(key),
                self.wf(),
                before == old(self)@,
                self@.q == before.q + kill_items(added, now),
                added.no_duplicates(),
                forall|key: ConnMapKey| #[trigger] added.contains(key) ==> all.contains(key),
                forall|j: int| i <= j < keys@.len() ==> !added.contains(#[trigger] keys@[j]),
                forall|j: int|
                    0 <= j < i && all.contains(keys@[j]) ==> added.contains(#[trigger] keys@[j]),
            decreases keys@.len() - i,
        {
            let key = keys[i];
            assert(keys@.contains(key));
            let dying = match conn_map.get(key) {
                Some(conn) => conn.is_shutting_down(),
                None => false,
            };
            proof {
                lemma_queued_extended(before.q, added, now, key);
                assert(!added.contains(keys@[i as int]));
            }
            if dying && !self.contains(key) {
                if self.is_full() {
                    self.synced = false;
                    proof {
                        crate::unix::walk::lemma_left_over(added, all, key);
                        assert(self@.q.len() == before.q.len() + added.len());
                    }
                    return false;
                }
                self.q.push_back(MuxerKillQItem { key, sched_time: now });
                proof {
                    let grown = added.push(key);
                    assert(self@.q =~= before.q + kill_items(grown, now));
                    crate::unix::walk::lemma_grown(keys@, i as int, all, added);
                    added = grown;
                }
            }
            i = i + 1;
        }
        proof {
            assert forall|key: ConnMapKey| #[trigger] all.contains(key) implies added.contains(
                key,
            ) by {
                assert(conn_map@.contains_key(key));
                let j = keys@.index_of(key);
                assert(added.contains(keys@[j]));
            }
            crate::unix::walk::lemma_exhausted(added, all);
            assert(self@.q.len() == before.q.len() + added.len());
            assert forall|key: ConnMapKey| #[trigger]
                conn_map@.contains_key(key) && conn_map@[key].shutting_down() implies queued(
                self@.q,
                key,
            ) by {
                lemma_queued_extended(before.q, added, now, key);
                if !queued(before.q, key) {
                    assert(all.contains(key));
                }
            }
        }
        self.synced = true;
        true
    }

    /// Check if the queue holds the connection with the given key.
    fn contains(&self, key: ConnMapKey) -> (ret: bool)
        ensures
            ret == queued(self@.q, key),
    {
        let mut i: usize = 0;
        while i < self.q.len()
            invariant
                i <= self.q@.len(),
                forall|j: int| 0 <= j < i ==> (#[trigger] self.q@[j]).key != key,
            decreases self.q@.len() - i,
        {
            if self.q[i].key == key {
                return true;
            }
            i = i + 1;
        }
        false
    }

    /// Check if the kill queue is synchronized with the connection pool.
    pub fn is_synced(&self) -> (ret: bool)
        ensures
            ret == self@.synced,
    {
        self.synced
    }

    /// Check if the kill queue is empty.
    pub fn is_empty(&self) -> (ret: bool)
        ensures
            ret == (self@.q.len() == 0),
    {
        self.q.len() == 0
    }

    /// Check if the kill queue is full.
    pub fn is_full(&self) -> (ret: bool)
        ensures
            ret == self@.full(),
    {
        self.q.len() == MUXER_KILLQ_SIZE
    }
}

/// What a queue holds after some keys were scheduled.
proof fn lemma_queued_extended(
    q: Seq<MuxerKillQItem>,
    keys: Seq<ConnMapKey>,
    now: u64,
    key: ConnMapKey,
)
    ensures
        queued(q + kill_items(keys, now), key) <==> queued(q, key) || keys.contains(key),
{
    let longer = q + kill_items(keys, now);
    if queued(q, key) {
        let i = choose|i: int| 0 <= i < q.len() && (#[trigger] q[i]).key == key;
        assert(longer[i].key == key);
    }
    if keys.contains(key) {
        let i = keys.index_of(key);
        assert(longer[q.len() + i].key == key);
    }
    if queued(longer, key) {
        let i = choose|i: int| 0 <= i < longer.len() && (#[trigger] longer[i]).key == key;
        if i < q.len() {
            assert(q[i].key == key);
        } else {
            assert(keys[i - q.len()] == key);
        }
    }
}

/// Connections are terminated in the order in which they were scheduled: a pushed key only ever
/// joins the end of the queue, and only the front of the queue is popped.
pub proof fn killed_in_order(killq: KillQView, key: ConnMapKey, now: u64, later: u64)
    ensures
        killq.q.is_prefix_of(killq.pushed(key, now).q),
        killq.due(later) is Some ==> killq.q =~= seq![killq.q[0]] + killq.popped(later).q
            && killq.due(later)->0 == killq.q[0].key,
        killq.due(later) is None ==> killq.popped(later) == killq,
{
}

/// No connection is terminated before its time: a key that was pushed at `now` onto an empty,
/// synchronized queue is not due until more than `CONN_SHUTDOWN_TIMEOUT_MS` later, and is due from
/// then on.
pub proof fn killed_after_timeout(killq: KillQView, key: ConnMapKey, now: u64, later: u64)
    requires
        killq.synced,
        killq.q.len() == 0,
    ensures
        killq.pushed(key, now).due(later) == (if later > now + CONN_SHUTDOWN_TIMEOUT_MS
            * NANOS_PER_MILLI {
            Some(key)
        } else {
            None
        }),
{
}

/// A synchronized queue holds every key that was pushed and not popped: a push that leaves a key
/// out desynchronizes the queue.
pub proof fn synced_means_scheduled(killq: KillQView, key: ConnMapKey, now: u64)
    requires
        killq.pushed(key, now).synced,
    ensures
        killq.synced,
        queued(killq.pushed(key, now).q, key),
{
    let q = killq.pushed(key, now).q;
    assert(q[killq.q.len() as int].key == key);
}

/// A connection in the queue expires when more than two seconds have passed since it was scheduled.
/// The queue holds up to 128 connections.
pub proof fn kill_timer_runs_for_two_seconds(killq: KillQView, item: MuxerKillQItem, now: u64)
    ensures
        item.expired(now) <==> now - item.sched_time > 2_000_000_000,
        killq.full() <==> killq.q.len() == 128,
        killq.due(now) is Some <==> killq.q.len() > 0 && now - killq.q[0].sched_time
            > 2_000_000_000,
{
}

/// A connection is scheduled, from now on, behind all others, as long as the queue has room and is
/// synchronized. Otherwise, the queue stays as it is, but for being out of sync.
pub proof fn scheduling_joins_the_end(killq: KillQView, key: ConnMapKey, now: u64)
    ensures
        killq.synced && killq.q.len() != 128 ==> killq.pushed(key, now).q == killq.q.push(
            MuxerKillQItem { key, sched_time: now },
        ) && killq.pushed(key, now).synced,
        !(killq.synced && killq.q.len() != 128) ==> killq.pushed(key, now).q == killq.q
            && !killq.pushed(key, now).synced,
{
}

/// What is scheduled by a walk of the pool are the connections that are up for termination, and are
/// not in the queue: all from the time of the walk on.
pub proof fn walk_schedules_what_is_missing(
    q: Seq<MuxerKillQItem>,
    conns: Map<ConnMapKey, ConnView>,
    keys: Seq<ConnMapKey>,
    now: u64,
    key: ConnMapKey,
)
    ensures
        unqueued_keys(q, conns).contains(key) <==> {
            &&& conns.contains_key(key)
            &&& conns[key].shutting_down()
            &&& forall|i: int| 0 <= i < q.len() ==> (#[trigger] q[i]).key != key
        },
        kill_items(keys, now).len() == keys.len(),
        forall|i: int|
            0 <= i < keys.len() ==> {
                &&& (#[trigger] kill_items(keys, now)[i]).key == keys[i]
                &&& kill_items(keys, now)[i].sched_time == now
            },
{
}

} // verus!
