//! The kill queue of `VsockMuxer`.

use std::collections::VecDeque;

use vstd::prelude::*;

use crate::unix::conn_map::{ConnMap, ConnMapKey};
use crate::unix::conn_model::ConnView;
use crate::unix::defs::{CONN_SHUTDOWN_TIMEOUT_MS, MUXER_KILLQ_SIZE, NANOS_PER_MILLI};
use crate::unix::error::Error;
use crate::unix::muxer_killq::{KillQView, MuxerKillQItem};

verus! {

/// The muxer's note on a connection that is in the kill queue.
pub const MCF_KILLQ: u16 = 2;

/// The keys of the connections that are shutting down, but are not known to be in the kill queue.
pub open spec fn unscheduled(conns: Map<ConnMapKey, ConnView>) -> Set<ConnMapKey> {
    conns.dom().filter(
        |key: ConnMapKey| conns[key].shutting_down() && !conns[key].flagged(MCF_KILLQ),
    )
}

/// What synchronizing a kill queue with a connection pool at the time `now` does, if it adds the
/// connections with the given keys: all that are shutting down and not known to be in the queue,
/// or as many as there is room for.
pub open spec fn kill_synced_with(
    killq: KillQView,
    conns: Map<ConnMapKey, ConnView>,
    now: u64,
    after: KillQView,
    keys: Seq<ConnMapKey>,
) -> bool {
    &&& keys.no_duplicates()
    &&& forall|key: ConnMapKey| #[trigger] keys.contains(key) ==> unscheduled(conns).contains(key)
    &&& after.q == killq.q + crate::unix::muxer_killq::kill_items(keys, now)
    &&& after.synced == (killq.q.len() + unscheduled(conns).len() <= MUXER_KILLQ_SIZE)
    &&& after.synced ==> forall|key: ConnMapKey| #[trigger]
        unscheduled(conns).contains(key) ==> keys.contains(key)
    &&& !after.synced ==> after.q.len() == MUXER_KILLQ_SIZE
}

/// What synchronizing a kill queue with a connection pool at the time `now` does.
pub open spec fn kill_synced(
    killq: KillQView,
    conns: Map<ConnMapKey, ConnView>,
    now: u64,
    after: KillQView,
) -> bool {
    exists|keys: Seq<ConnMapKey>| #[trigger] kill_synced_with(killq, conns, now, after, keys)
}

impl MuxerKillQItem {
    /// Whether `CONN_SHUTDOWN_TIMEOUT_MS` have passed from the scheduling by the time `now`.
    pub open spec fn timed_out(self, now: u64) -> bool {
        now >= self.sched_time + CONN_SHUTDOWN_TIMEOUT_MS * NANOS_PER_MILLI
    }
}

impl KillQView {
    /// Whether there is room for another item.
    pub open spec fn has_room(self) -> bool {
        self.q.len() < MUXER_KILLQ_SIZE
    }

    /// The queue after `key` was appended at the time `now`, if there is room for it. A connection
    /// that is left out desynchronizes the queue.
    pub open spec fn appended(self, key: ConnMapKey, now: u64) -> KillQView {
        if self.has_room() {
            KillQView { q: self.q.push(MuxerKillQItem { key, sched_time: now }), ..self }
        } else {
            KillQView { synced: false, ..self }
        }
    }

    /// Whether the item at the front of the queue has timed out by the time `now`.
    pub open spec fn front_timed_out(self, now: u64) -> bool {
        self.q.len() > 0 && self.q[0].timed_out(now)
    }
}

/// The connection kill queue.
pub struct MuxerKillQ {
    q: VecDeque<MuxerKillQItem>,
    synced: bool,
}

impl View for MuxerKillQ {
    type V = KillQView;

    closed spec fn view(&self) -> KillQView {
        KillQView { q: self.q@, synced: self.synced }
    }
}

impl MuxerKillQ {
    /// There are no more items than there is room for.
    pub open spec fn wf(self) -> bool {
        self@.q.len() <= MUXER_KILLQ_SIZE
    }

    /// Create an empty kill queue.
    pub fn new() -> (ret: MuxerKillQ)
        ensures
            ret.wf(),
            ret@ == (KillQView { q: Seq::empty(), synced: true }),
    {
        MuxerKillQ { q: VecDeque::with_capacity(MUXER_KILLQ_SIZE), synced: true }
    }

    /// Schedule a connection for termination, `CONN_SHUTDOWN_TIMEOUT_MS` from now.
    ///
    /// This fails if there is no room left. The queue is out-of-sync from then on.
    pub fn push(&mut self, key: ConnMapKey, now: u64) -> (ret: Result<(), Error>)
        requires
            old(self).wf(),
        ensures
            final(self).wf(),
            final(self)@ == old(self)@.appended(key, now),
            ret == (if old(self)@.has_room() {
                Ok::<(), Error>(())
            } else {
                Err::<(), Error>(Error::QueueFull)
            }),
    {
        if self.q.len() < MUXER_KILLQ_SIZE {
            self.q.push_back(MuxerKillQItem { key, sched_time: now });
            return Ok(());
        }
        self.synced = false;
        Err(Error::QueueFull)
    }

    /// Pop the connection at the front of the queue, if its time has come.
    pub fn pop(&mut self, now: u64) -> (ret: Option<ConnMapKey>)
        requires
            old(self).wf(),
        ensures
            final(self).wf(),
            old(self)@.front_timed_out(now) ==> ret == Some(old(self)@.q[0].key) && final(self)@
                == (KillQView { q: old(self)@.q.skip(1), ..old(self)@ }),
            !old(self)@.front_timed_out(now) ==> ret is None && final(self)@ == old(self)@,
    {
        if self.q.len() > 0 {
            let item = self.q[0];
            if now >= item.sched_time && now - item.sched_time >= CONN_SHUTDOWN_TIMEOUT_MS
                * NANOS_PER_MILLI {
                let ghost before = self.q@;
                self.q.pop_front();
                assert(self.q@ =~= before.skip(1));
                return Some(item.key);
            }
        }
        None
    }

    /// Schedule all connections that are shutting down, but are not known to be in the queue.
    ///
    /// This fails if there is not enough room for all of them.
    pub fn sync(&mut self, conn_map: &ConnMap, now: u64) -> (ret: Result<(), Error>)
        requires
            old(self).wf(),
            conn_map.wf(),
        ensures
            final(self).wf(),
            kill_synced(old(self)@, conn_map@, now, final(self)@),
            ret == (if final(self)@.synced {
                Ok::<(), Error>(())
            } else {
                Err::<(), Error>(Error::QueueFull)
            }),
    {
        let keys = conn_map.keys();
        let ghost all = unscheduled(conn_map@);
        let ghost before = self@;
        let ghost mut added: Seq<ConnMapKey> = Seq::empty();
        let mut i: usize = 0;
        proof {
            conn_map.lemma_finite();
            assert(before.q + crate::unix::muxer_killq::kill_items(added, now) =~= before.q);
        }
        while i < keys.len()
            invariant
                i <= keys@.len(),
                conn_map.wf(),
                all == unscheduled(conn_map@),
                all.finite(),
                keys@.no_duplicates(),
                forall|key: ConnMapKey|
                    keys@.contains(key) <==> #[trigger] conn_map@.contains_key(key),
                self.wf(),
                before == old(self)@,
                self@.q == before.q + crate::unix::muxer_killq::kill_items(added, now),
                added.no_duplicates(),
                forall|key: ConnMapKey| #[trigger] added.contains(key) ==> all.contains(key),
                forall|j: int| i <= j < keys@.len() ==> !added.contains(#[trigger] keys@[j]),
                forall|j: int|
                    0 <= j < i && all.contains(keys@[j]) ==> added.contains(#[trigger] keys@[j]),
            decreases keys@.len() - i,
        {
            let key = keys[i];
            assert(keys@.contains(key));
            assert(!added.contains(keys@[i as int]));
            let unscheduled = match conn_map.get(key) {
                Some(conn) => conn.is_shutting_down() && !conn.get_muxer_flag(MCF_KILLQ),
                None => false,
            };
            if unscheduled {
                assert(all.contains(key));
                if self.push(key, now).is_err() {
                    proof {
                        crate::unix::walk::lemma_left_over(added, all, key);
                        assert(self@.q.len() == before.q.len() + added.len());
                        assert(kill_synced_with(before, conn_map@, now, self@, added));
                    }
                    return Err(Error::QueueFull);
                }
                proof {
                    let grown = added.push(key);
                    assert(self@.q =~= before.q + crate::unix::muxer_killq::kill_items(grown, now));
                    crate::unix::walk::lemma_grown(keys@, i as int, all, added);
                    added = grown;
                }
            }
            i = i + 1;
        }
        self.synced = true;
        proof {
            assert forall|key: ConnMapKey| #[trigger] all.contains(key) implies added.contains(
                key,
            ) by {
                assert(conn_map@.contains_key(key));
                let j = keys@.index_of(key);
                assert(added.contains(keys@[j]));
            }
            crate::unix::walk::lemma_exhausted(added, all);
            assert(self@.q.len() == before.q.len() + added.len());
            assert(kill_synced_with(before, conn_map@, now, self@, added));
        }
        Ok(())
    }

    /// Check if the queue is synchronized with the connection pool.
    pub fn is_synced(&self) -> (ret: bool)
        ensures
            ret == self@.synced,
    {
        self.synced
    }
}

} // verus!
