//! What every operation of the muxer keeps.

use vstd::prelude::*;

use crate::error::IoError;
use crate::packet::PacketView;
use crate::uapi::VSOCK_OP_RST;
use crate::unix::conn_map::ConnMapKey;
use crate::unix::conn_model::{ConnState, ConnView, TxJobView, TxKind};
use crate::unix::defs::{MAX_CONNECTIONS, MUXER_KILLQ_SIZE, MUXER_RXQ_SIZE};
use crate::unix::muxer::killq::MCF_KILLQ;
use crate::unix::muxer::model::{
    ConnStepView, EventStepView, ListenerCtl, MuxerView, NewConnView, PeerRequestView, RecvStep,
    SendStepView, FIRST_LOCAL_PORT,
};
use crate::unix::muxer::rxq::MCF_RXQ;
use crate::unix::muxer_rx::MuxerRx;
use crate::unix::pending::PendingRx;

verus! {

impl MuxerView {
    /// A connection has the ports that it is found by, and the guest's CID.
    pub open spec fn conn_named(self, key: ConnMapKey) -> bool {
        let conn = self.conns[key];
        &&& conn.local_port == key.local_port
        &&& conn.peer_port == key.peer_port
        &&& conn.peer_cid == self.cid
    }

    /// What is noted of a connection is true of it: it is in the queues that it is noted to be in,
    /// unless it is doomed, and a doomed connection owes the guest an RST.
    pub open spec fn conn_noted(self, key: ConnMapKey) -> bool {
        let conn = self.conns[key];
        &&& conn.flagged(MCF_RXQ) ==> self.rxq.q.contains(MuxerRx::ConnRx(key))
        &&& conn.flagged(MCF_KILLQ) ==> crate::unix::muxer_killq::queued(self.killq.q, key)
            || conn.state == ConnState::Killed
        &&& conn.state == ConnState::Killed ==> conn.pending.contains(PendingRx::Rst)
    }

    /// A connection is in the queues that it should be in, as far as they are synchronized: in the
    /// RX queue if it has pending RX, and in the kill queue if it is shutting down.
    pub open spec fn conn_tracked(self, key: ConnMapKey) -> bool {
        let conn = self.conns[key];
        &&& self.rxq.synced && conn.has_pending() ==> conn.flagged(MCF_RXQ)
        &&& self.killq.synced && conn.shutting_down() ==> crate::unix::muxer_killq::queued(
            self.killq.q,
            key,
        )
    }

    /// The muxer's limits are kept.
    pub open spec fn bounded(self) -> bool {
        &&& self.rxq.q.len() <= MUXER_RXQ_SIZE
        &&& self.killq.q.len() <= MUXER_KILLQ_SIZE
        &&& self.conns.dom().finite()
        &&& self.conns.dom().len() <= MAX_CONNECTIONS
        &&& self.last_port >= FIRST_LOCAL_PORT
        &&& forall|port: u32| #[trigger] self.ports.contains(port) ==> port >= FIRST_LOCAL_PORT
    }

    /// The muxer is in order, but for the connection that it is busy with, if any.
    pub open spec fn inv(self, busy: Option<ConnMapKey>) -> bool {
        &&& self.bounded()
        &&& forall|key: ConnMapKey| #[trigger]
            self.conns.contains_key(key) ==> {
                &&& self.conn_named(key)
                &&& Some(key) != busy ==> self.conn_noted(key) && self.conn_tracked(key)
            }
    }

    /// The muxer is in order, but a packet or an event is on its way to a connection.
    pub open spec fn inv_busy(self, key: ConnMapKey) -> bool {
        &&& self.inv(Some(key))
        &&& self.conns.contains_key(key)
        &&& self.conn_noted(key)
    }
}

/// How the muxer's notes combine.
proof fn lemma_flags(conn: ConnView)
    ensures
        conn.with_flag(MCF_RXQ).flagged(MCF_RXQ),
        conn.with_flag(MCF_RXQ).flagged(MCF_KILLQ) == conn.flagged(MCF_KILLQ),
        conn.with_flag(MCF_KILLQ).flagged(MCF_KILLQ),
        conn.with_flag(MCF_KILLQ).flagged(MCF_RXQ) == conn.flagged(MCF_RXQ),
        !conn.without_flag(MCF_RXQ).flagged(MCF_RXQ),
        conn.without_flag(MCF_RXQ).flagged(MCF_KILLQ) == conn.flagged(MCF_KILLQ),
{
    let f = conn.muxer_flags;
    assert((f | 1) & 1 != 0 && (f | 1) & 2 == f & 2 && (f | 2) & 2 != 0 && (f | 2) & 1 == f & 1
        && (f & !1u16) & 1 == 0 && (f & !1u16) & 2 == f & 2) by (bit_vector);
}

/// An item at the end of an RX queue joins those that are there.
proof fn lemma_rx_appended(muxer: MuxerView, rx: MuxerRx)
    ensures
        forall|other: MuxerRx| #[trigger]
            muxer.rxq.q.contains(other) ==> muxer.rxq.appended(rx).q.contains(other),
        muxer.rxq.has_room() ==> muxer.rxq.appended(rx).q.contains(rx),
{
    let after = muxer.rxq.appended(rx).q;
    assert forall|other: MuxerRx| #[trigger] muxer.rxq.q.contains(other) implies after.contains(
        other,
    ) by {
        let i = muxer.rxq.q.index_of(other);
        assert(after[i] == other);
    }
    if muxer.rxq.has_room() {
        assert(after[muxer.rxq.q.len() as int] == rx);
    }
}

/// A connection at the end of a kill queue joins those that are there.
proof fn lemma_kill_appended(muxer: MuxerView, key: ConnMapKey, now: u64)
    ensures
        forall|other: ConnMapKey| #[trigger]
            crate::unix::muxer_killq::queued(muxer.killq.q, other)
                ==> crate::unix::muxer_killq::queued(muxer.killq.appended(key, now).q, other),
        muxer.killq.has_room() ==> crate::unix::muxer_killq::queued(
            muxer.killq.appended(key, now).q,
            key,
        ),
{
    let before = muxer.killq.q;
    let after = muxer.killq.appended(key, now).q;
    assert forall|other: ConnMapKey| #[trigger]
        crate::unix::muxer_killq::queued(before, other) implies crate::unix::muxer_killq::queued(
        after,
        other,
    ) by {
        let i = choose|i: int| 0 <= i < before.len() && (#[trigger] before[i]).key == other;
        assert(after[i].key == other);
    }
    if muxer.killq.has_room() {
        assert(after[before.len() as int].key == key);
    }
}

/// A new muxer is in order.
pub proof fn fresh_in_order(cid: u64, path: Seq<u8>, epoll_fd: i32, host_fd: i32, now: u64)
    ensures
        MuxerView::fresh(cid, path, epoll_fd, host_fd, now).inv(None),
{
}

/// Queuing an RST keeps the muxer in order.
proof fn lemma_with_rst(muxer: MuxerView, key: ConnMapKey, busy: Option<ConnMapKey>)
    requires
        muxer.inv(busy),
    ensures
        muxer.with_rst(key).inv(busy),
{
    let rx = MuxerRx::RstPkt { local_port: key.local_port, peer_port: key.peer_port };
    lemma_rx_appended(muxer, rx);
    let after = muxer.with_rst(key);
    assert forall|k: ConnMapKey| #[trigger] after.conns.contains_key(k) implies {
        &&& after.conn_named(k)
        &&& Some(k) != busy ==> after.conn_noted(k) && after.conn_tracked(k)
    } by {
        assert(muxer.conns.contains_key(k));
        assert(muxer.conn_named(k));
    }
}

/// Removing a connection puts the muxer in order, if it was busy with just that one.
proof fn lemma_without_conn(muxer: MuxerView, key: ConnMapKey, busy: Option<ConnMapKey>)
    requires
        muxer.inv(busy),
        busy is Some ==> busy->0 == key,
    ensures
        muxer.without_conn(key).inv(None),
{
    let after = muxer.without_conn(key);
    assert forall|k: ConnMapKey| #[trigger] after.conns.contains_key(k) implies {
        &&& after.conn_named(k)
        &&& after.conn_noted(k) && after.conn_tracked(k)
    } by {
        assert(muxer.conns.contains_key(k));
        assert(k != key);
        assert(muxer.conn_named(k) && muxer.conn_noted(k) && muxer.conn_tracked(k));
    }
}

/// Terminating a connection puts the muxer in order, if it was busy with just that one.
proof fn lemma_terminated(muxer: MuxerView, key: ConnMapKey, busy: Option<ConnMapKey>)
    requires
        muxer.inv(busy),
        busy is Some ==> busy->0 == key,
        muxer.conns.contains_key(key) ==> (muxer.conns[key].flagged(MCF_RXQ)
            ==> muxer.rxq.q.contains(MuxerRx::ConnRx(key))),
    ensures
        muxer.terminated(key).inv(None),
{
    if muxer.rxq.has_room() {
        lemma_with_rst(muxer, key, busy);
        lemma_without_conn(muxer.with_rst(key), key, busy);
    } else {
        let after = muxer.terminated(key);
        assert(after.conns.dom() =~= muxer.conns.dom());
        assert forall|k: ConnMapKey| #[trigger] after.conns.contains_key(k) implies {
            &&& after.conn_named(k)
            &&& after.conn_noted(k) && after.conn_tracked(k)
        } by {
            assert(muxer.conns.contains_key(k));
            assert(muxer.conn_named(k));
        }
    }
}

/// Settling a connection puts the muxer in order.
proof fn lemma_settled(muxer: MuxerView, key: ConnMapKey, now: u64)
    requires
        muxer.inv_busy(key),
    ensures
        muxer.settled(key, now).0.inv(None),
{
    let one = muxer.rx_noted(key);
    let two = one.kill_noted(key, now);
    let three = two.polled(key).0;
    lemma_rx_appended(muxer, MuxerRx::ConnRx(key));
    lemma_flags(muxer.conns[key]);
    assert(one.conns.dom() =~= muxer.conns.dom());
    assert forall|k: ConnMapKey| #[trigger] one.conns.contains_key(k) implies {
        &&& one.conn_named(k)
        &&& one.conn_noted(k)
        &&& k != key ==> one.conn_tracked(k)
    } by {
        assert(muxer.conns.contains_key(k));
        assert(muxer.conn_named(k));
    }
    assert(one.rxq.synced && one.conns[key].has_pending() ==> one.conns[key].flagged(MCF_RXQ));
    lemma_kill_appended(one, key, now);
    lemma_flags(one.conns[key]);
    assert(two.conns.dom() =~= muxer.conns.dom());
    assert forall|k: ConnMapKey| #[trigger] two.conns.contains_key(k) implies {
        &&& two.conn_named(k)
        &&& two.conn_noted(k)
        &&& two.conn_tracked(k)
    } by {
        assert(one.conns.contains_key(k));
        assert(one.conn_named(k));
        assert(one.conn_noted(k));
    }
    assert(three.conns == two.conns);
    assert forall|k: ConnMapKey| #[trigger] three.conns.contains_key(k) implies {
        &&& three.conn_named(k)
        &&& three.conn_noted(k)
        &&& three.conn_tracked(k)
    } by {
        assert(two.conns.contains_key(k));
        assert(two.conn_named(k));
    }
}

/// Whether a packet or an event may turn one connection into the other, as far as the muxer's notes
/// are concerned.
spec fn mutated(before: ConnView, after: ConnView) -> bool {
    &&& after.local_port == before.local_port
    &&& after.peer_port == before.peer_port
    &&& after.peer_cid == before.peer_cid
    &&& after.muxer_flags == before.muxer_flags
    &&& before.state == ConnState::Killed ==> after.state == ConnState::Killed
    &&& after.state == ConnState::Killed ==> after.pending.contains(PendingRx::Rst)
}

/// The muxer is busy with a connection that a packet or an event went to.
proof fn lemma_mutated(muxer: MuxerView, key: ConnMapKey, conn: ConnView)
    requires
        muxer.inv_busy(key),
        mutated(muxer.conns[key], conn),
    ensures
        muxer.with_conn(key, conn).inv_busy(key),
{
    let after = muxer.with_conn(key, conn);
    assert(after.conns.dom() =~= muxer.conns.dom());
    assert forall|k: ConnMapKey| #[trigger] after.conns.contains_key(k) implies {
        &&& after.conn_named(k)
        &&& k != key ==> after.conn_noted(k) && after.conn_tracked(k)
    } by {
        assert(muxer.conns.contains_key(k));
        assert(muxer.conn_named(k));
    }
    assert(muxer.conn_noted(key));
}

/// Whether a muxer and what is left to be done for a connection are in order: the muxer is busy
/// only as long as there is something to be written.
pub open spec fn conn_step_in_order(muxer: MuxerView, step: ConnStepView) -> bool {
    match step {
        ConnStepView::Write(write) => {
            &&& muxer.inv_busy(write.key)
            &&& write.job.kind == TxKind::Ack ==> muxer.conns[write.key].state
                == ConnState::LocalInit
        },
        _ => muxer.inv(None),
    }
}

/// Going on with a connection keeps the muxer in order.
proof fn lemma_conn_step(muxer: MuxerView, key: ConnMapKey, job: Option<TxJobView>, now: u64)
    requires
        muxer.inv_busy(key),
        job is Some && job->0.kind == TxKind::Ack ==> muxer.conns[key].state
            == ConnState::LocalInit,
    ensures
        ({
            let (after, step) = muxer.conn_step(key, job, now);
            conn_step_in_order(after, step)
        }),
{
    if job is None {
        lemma_settled(muxer, key, now);
    }
}

/// Processing a packet from the guest keeps the muxer in order.
pub proof fn send_in_order(muxer: MuxerView, pkt: PacketView, now: u64)
    requires
        muxer.inv(None),
    ensures
        ({
            let (after, step) = muxer.send(pkt, now);
            match step {
                SendStepView::Conn(step) => conn_step_in_order(after, step),
                _ => after.inv(None),
            }
        }),
{
    let key = crate::unix::muxer::model::tx_key(pkt.hdr);
    lemma_with_rst(muxer, key, None);
    lemma_without_conn(muxer, key, None);
    if muxer.conns.contains_key(key) {
        let (conn, job) = muxer.conns[key].send_start(pkt);
        assert(muxer.inv_busy(key));
        lemma_mutated(muxer, key, conn);
        lemma_conn_step(muxer.with_conn(key, conn), key, job, now);
    }
}

/// Accounting for a write to a host stream keeps the muxer in order.
pub proof fn written_in_order(
    muxer: MuxerView,
    key: ConnMapKey,
    job: TxJobView,
    res: Result<usize, IoError>,
    now: u64,
)
    requires
        muxer.inv_busy(key),
        job.kind == TxKind::Ack ==> muxer.conns[key].state == ConnState::LocalInit,
    ensures
        ({
            let (after, step) = muxer.written(key, job, res, now);
            conn_step_in_order(after, step)
        }),
{
    let (conn, rest) = muxer.conns[key].tx_written(job, res);
    lemma_mutated(muxer, key, conn);
    lemma_conn_step(muxer.with_conn(key, conn), key, rest, now);
}

/// Changing what a host stream is watched for, or failing to, keeps the muxer in order.
pub proof fn ctl_in_order(muxer: MuxerView, ctl: ListenerCtl, ok: bool)
    requires
        muxer.inv(None),
    ensures
        muxer.ctl_done(ctl, ok).inv(None),
{
    if !ok {
        if muxer.conns.contains_key(ctl.key) {
            assert(muxer.conn_noted(ctl.key));
        }
        lemma_terminated(muxer, ctl.key, None);
    } else {
        let after = muxer.ctl_done(ctl, ok);
        assert forall|k: ConnMapKey| #[trigger] after.conns.contains_key(k) implies {
            &&& after.conn_named(k)
            &&& after.conn_noted(k) && after.conn_tracked(k)
        } by {
            assert(muxer.conns.contains_key(k));
            assert(muxer.conn_named(k));
        }
    }
}

/// A muxer that differs from one in order only in what the order does not depend on is in order.
proof fn lemma_same(muxer: MuxerView, after: MuxerView)
    requires
        muxer.inv(None),
        after.cid == muxer.cid,
        after.conns == muxer.conns,
        after.rxq == muxer.rxq,
        after.killq == muxer.killq,
        after.last_port >= FIRST_LOCAL_PORT,
        forall|port: u32| #[trigger] after.ports.contains(port) ==> port >= FIRST_LOCAL_PORT,
    ensures
        after.inv(None),
{
    assert forall|k: ConnMapKey| #[trigger] after.conns.contains_key(k) implies {
        &&& after.conn_named(k)
        &&& after.conn_noted(k) && after.conn_tracked(k)
    } by {
        assert(muxer.conns.contains_key(k));
        assert(muxer.conn_named(k));
    }
}

/// Giving up on a new connection keeps the muxer in order.
proof fn lemma_refused(muxer: MuxerView, new: NewConnView)
    requires
        muxer.inv(None),
    ensures
        muxer.refused(new).inv(None),
{
    lemma_with_rst(muxer, new.key, None);
    lemma_same(muxer, muxer.without_port(new.key.local_port));
    match new.origin {
        crate::unix::muxer::model::Origin::Guest => lemma_same(
            muxer.with_rst(new.key),
            muxer.refused(new),
        ),
        crate::unix::muxer::model::Origin::Host => lemma_same(
            muxer.without_port(new.key.local_port),
            muxer.refused(new),
        ),
    }
}

/// Whether a new connection may join the pool: it is fresh, and it has the ports that it will be
/// found by and the guest's CID.
pub open spec fn may_join(muxer: MuxerView, new: NewConnView) -> bool {
    &&& new.conn.local_port == new.key.local_port
    &&& new.conn.peer_port == new.key.peer_port
    &&& new.conn.peer_cid == muxer.cid
    &&& new.conn.muxer_flags == 0
    &&& !(new.conn.state is Killed)
    &&& !new.conn.shutting_down()
}

/// Going on with a guest's request keeps the muxer in order, and only brings about connections that
/// may join the pool.
pub proof fn connected_in_order(muxer: MuxerView, req: PeerRequestView, res: Result<i32, IoError>)
    requires
        muxer.inv(None),
    ensures
        ({
            let (after, new) = muxer.connected(req, res);
            after.inv(None) && (new is Some ==> may_join(after, new->0))
        }),
{
    let key = ConnMapKey { local_port: req.local_port, peer_port: req.peer_port };
    lemma_with_rst(muxer, key, None);
    if res is Ok {
        let new = NewConnView {
            origin: crate::unix::muxer::model::Origin::Guest,
            key,
            conn: crate::unix::conn_model::new_conn(
                ConnState::PeerInit,
                res->Ok_0,
                muxer.cid,
                req.local_port,
                req.peer_port,
                req.buf_alloc,
                PendingRx::Response,
            ),
        };
        lemma_refused(muxer, new);
    }
}

/// A port that is given away is free, and among those that host-initiated connections are given.
pub proof fn free_port_is_free(taken: Set<u32>, port: u32, tries: nat)
    requires
        port >= FIRST_LOCAL_PORT,
    ensures
        ({
            let free = crate::unix::muxer::model::first_free(taken, port, tries);
            free is Some ==> !taken.contains(free->0) && free->0 >= FIRST_LOCAL_PORT
        }),
    decreases tries,
{
    if tries > 0 && taken.contains(crate::unix::muxer::model::next_port(port)) {
        free_port_is_free(taken, crate::unix::muxer::model::next_port(port), (tries - 1) as nat);
    }
}

/// Going on with a host stream keeps the muxer in order, and only brings about connections that may
/// join the pool.
pub proof fn local_request_in_order(muxer: MuxerView, fd: i32, res: Result<Seq<u8>, IoError>)
    requires
        muxer.inv(None),
    ensures
        ({
            let (after, new) = muxer.local_request(fd, res);
            after.inv(None) && (new is Some ==> may_join(after, new->0))
        }),
{
    lemma_same(
        muxer,
        muxer.with_cmd(crate::unix::muxer::model::HostCmd::Close(fd)),
    );
    free_port_is_free(
        muxer.ports,
        muxer.last_port,
        crate::unix::muxer::model::LOCAL_PORT_COUNT as nat,
    );
    let port = match res {
        Err(_) => None,
        Ok(data) => crate::unix::muxer::port_request::requested_port(data),
    };
    if let (Some(peer_port), Some(local_port)) = (port, muxer.free_port()) {
        let given = muxer.with_port(local_port);
        lemma_same(muxer, given);
        let new = NewConnView {
            origin: crate::unix::muxer::model::Origin::Host,
            key: ConnMapKey { local_port, peer_port },
            conn: crate::unix::conn_model::new_conn(
                ConnState::LocalInit,
                fd,
                muxer.cid,
                local_port,
                peer_port,
                0,
                PendingRx::Request,
            ),
        };
        lemma_refused(given, new);
    }
}

/// Having a new connection join the pool, or giving up on it, keeps the muxer in order. In
/// particular, there never are more connections than there may be, however many of them are offered
/// at a time.
pub proof fn joined_in_order(muxer: MuxerView, new: NewConnView, ok: bool)
    requires
        muxer.inv(None),
        may_join(muxer, new),
    ensures
        muxer.joined(new, ok).inv(None),
{
    if !ok || muxer.conns.dom().len() >= MAX_CONNECTIONS {
        lemma_refused(muxer, new);
    } else {
        let key = new.key;
        let after = muxer.joined(new, ok);
        lemma_rx_appended(muxer, MuxerRx::ConnRx(key));
        lemma_flags(new.conn);
        assert(0u16 & 1 == 0 && 0u16 & 2 == 0) by (bit_vector);
        assert(after.conns.dom() =~= muxer.conns.dom().insert(key));
        assert forall|k: ConnMapKey| #[trigger] after.conns.contains_key(k) implies {
            &&& after.conn_named(k)
            &&& after.conn_noted(k) && after.conn_tracked(k)
        } by {
            if k != key {
                assert(muxer.conns.contains_key(k));
                assert(muxer.conn_named(k));
            }
        }
    }
}

/// Putting a host stream under watch, or failing to, keeps the muxer in order.
pub proof fn local_watched_in_order(muxer: MuxerView, fd: i32, ok: bool)
    requires
        muxer.inv(None),
    ensures
        muxer.local_watched(fd, ok).inv(None),
{
    lemma_same(muxer, muxer.local_watched(fd, ok));
}

/// Terminating the connections whose time has come keeps the muxer in order.
proof fn lemma_reaped(muxer: MuxerView, now: u64)
    requires
        muxer.inv(None),
    ensures
        muxer.reaped(now).inv(None),
    decreases muxer.killq.q.len(),
{
    if muxer.killq.front_timed_out(now) {
        let key = muxer.killq.q[0].key;
        let q = muxer.killq.q.skip(1);
        let popped = MuxerView {
            killq: crate::unix::muxer_killq::KillQView { q, ..muxer.killq },
            ..muxer
        };
        assert forall|k: ConnMapKey| #[trigger]
            crate::unix::muxer_killq::queued(muxer.killq.q, k) && k != key implies
            crate::unix::muxer_killq::queued(q, k) by {
            let i = choose|i: int|
                0 <= i < muxer.killq.q.len() && (#[trigger] muxer.killq.q[i]).key == k;
            assert(q[i - 1].key == k);
        }
        assert forall|k: ConnMapKey| #[trigger] popped.conns.contains_key(k) implies {
            &&& popped.conn_named(k)
            &&& k != key ==> popped.conn_noted(k) && popped.conn_tracked(k)
        } by {
            assert(muxer.conns.contains_key(k));
            assert(muxer.conn_named(k));
        }
        if popped.conns.contains_key(key) {
            assert(muxer.conns.contains_key(key));
            assert(muxer.conn_noted(key));
        }
        lemma_terminated(popped, key, Some(key));
        lemma_reaped(popped.terminated(key), now);
    }
}

/// A sweep of the kill queue keeps the muxer in order.
pub proof fn swept_in_order(muxer: MuxerView, now: u64, after: MuxerView)
    requires
        muxer.inv(None),
        muxer.swept(now, after),
    ensures
        after.inv(None),
{
    let due = MuxerView { last_sweep: now, ..muxer };
    lemma_same(muxer, due);
    lemma_reaped(due, now);
    let reaped = due.reaped(now);
    if reaped.killq.synced {
        lemma_same(reaped, after);
    } else {
        let keys = choose|keys: Seq<ConnMapKey>| #[trigger]
            crate::unix::muxer::killq::kill_synced_with(
                reaped.killq,
                reaped.conns,
                now,
                after.killq,
                keys,
            );
        assert forall|k: ConnMapKey|
            crate::unix::muxer_killq::queued(reaped.killq.q, k) || keys.contains(k) implies
            #[trigger] crate::unix::muxer_killq::queued(after.killq.q, k) by {
            if crate::unix::muxer_killq::queued(reaped.killq.q, k) {
                let i = choose|i: int|
                    0 <= i < reaped.killq.q.len() && (#[trigger] reaped.killq.q[i]).key == k;
                assert(after.killq.q[i].key == k);
            } else {
                let i = keys.index_of(k);
                assert(after.killq.q[reaped.killq.q.len() + i].key == k);
            }
        }
        assert(after.killq.q.len() <= MUXER_KILLQ_SIZE) by {
            let all = crate::unix::muxer::killq::unscheduled(reaped.conns);
            if after.killq.synced {
                crate::unix::walk::lemma_exhausted(keys, all);
            }
        }
        assert forall|k: ConnMapKey| #[trigger] after.conns.contains_key(k) implies {
            &&& after.conn_named(k)
            &&& after.conn_noted(k) && after.conn_tracked(k)
        } by {
            assert(reaped.conns.contains_key(k));
            assert(reaped.conn_named(k) && reaped.conn_noted(k));
            if after.killq.synced && after.conns[k].shutting_down() && !after.conns[k].flagged(
                MCF_KILLQ,
            ) {
                assert(crate::unix::muxer::killq::unscheduled(reaped.conns).contains(k));
            }
        }
    }
}

/// Processing an event keeps the muxer in order.
pub proof fn event_in_order(muxer: MuxerView, fd: i32, now: u64)
    requires
        muxer.inv(None),
    ensures
        ({
            let (after, step) = muxer.event(fd, now);
            match step {
                EventStepView::Conn(step) => conn_step_in_order(after, step),
                _ => after.inv(None),
            }
        }),
{
    lemma_same(muxer, muxer.without_listener(fd));
    if muxer.listeners.contains_key(fd) {
        if let crate::unix::muxer::model::EpollListener::Connection { key, evset } =
            muxer.listeners[fd] {
            if muxer.conns.contains_key(key) {
                assert(muxer.inv_busy(key));
                let (conn, job) = muxer.conns[key].notified(evset);
                lemma_mutated(muxer, key, conn);
                lemma_conn_step(muxer.with_conn(key, conn), key, job, now);
            }
        }
    }
}

/// Synchronizing the RX queue keeps the muxer in order.
pub proof fn refilled_in_order(muxer: MuxerView, after: MuxerView)
    requires
        muxer.inv(None),
        muxer.rx_refilled(after),
    ensures
        after.inv(None),
{
    if !muxer.rxq.synced {
        let keys = choose|keys: Seq<ConnMapKey>| #[trigger]
            crate::unix::muxer::rxq::rx_synced_with(
                muxer.rxq,
                muxer.conns,
                after.rxq,
                after.conns,
                keys,
            );
        let items = crate::unix::muxer_rx::conn_items(keys);
        assert(after.conns.dom() =~= muxer.conns.dom());
        assert(after.rxq.q.len() <= MUXER_RXQ_SIZE) by {
            if after.rxq.synced {
                crate::unix::walk::lemma_exhausted(
                    keys,
                    crate::unix::muxer::rxq::unqueued_pending(muxer.conns),
                );
            }
        }
        assert forall|k: ConnMapKey| #[trigger] after.conns.contains_key(k) implies {
            &&& after.conn_named(k)
            &&& after.conn_noted(k) && after.conn_tracked(k)
        } by {
            assert(muxer.conns.contains_key(k));
            assert(muxer.conn_named(k) && muxer.conn_noted(k));
            lemma_flags(muxer.conns[k]);
            if keys.contains(k) {
                let i = keys.index_of(k);
                assert(after.rxq.q[muxer.rxq.q.len() + i] == MuxerRx::ConnRx(k));
            } else {
                if muxer.rxq.q.contains(MuxerRx::ConnRx(k)) {
                    let i = muxer.rxq.q.index_of(MuxerRx::ConnRx(k));
                    assert(after.rxq.q[i] == MuxerRx::ConnRx(k));
                }
                if after.rxq.synced && muxer.conns[k].has_pending() && !muxer.conns[k].flagged(
                    MCF_RXQ,
                ) {
                    assert(crate::unix::muxer::rxq::unqueued_pending(muxer.conns).contains(k));
                }
            }
        }
    }
}

/// Whether a muxer and what is left to be done to receive a packet are in order. The muxer is busy
/// as long as there is something to be read. It is also busy with a connection that is about to be
/// removed, since the packet that it gave is an RST.
pub open spec fn recv_step_in_order(muxer: MuxerView, pkt: PacketView, step: RecvStep) -> bool {
    match step {
        RecvStep::Read { key, .. } => {
            &&& muxer.inv_busy(key)
            &&& muxer.conns[key].peer_receives()
            &&& crate::unix::muxer::model::rx_key(pkt.hdr) == key
        },
        RecvStep::Ctl { ctl, got } => if got && pkt.hdr.op == VSOCK_OP_RST {
            &&& muxer.inv(Some(ctl.key))
            &&& muxer.conns.contains_key(ctl.key)
            &&& crate::unix::muxer::model::rx_key(pkt.hdr) == ctl.key
        } else {
            muxer.inv(None)
        },
        _ => muxer.inv(None),
    }
}

/// Settling a connection that is about to be removed leaves the muxer in order otherwise.
proof fn lemma_settled_otherwise(muxer: MuxerView, key: ConnMapKey, now: u64)
    requires
        muxer.inv(Some(key)),
        muxer.conns.contains_key(key),
    ensures
        muxer.settled(key, now).0.inv(Some(key)),
        muxer.settled(key, now).0.conns.contains_key(key),
        muxer.settled(key, now).1 is Some ==> muxer.settled(key, now).1->0.key == key,
{
    let one = muxer.rx_noted(key);
    let two = one.kill_noted(key, now);
    let three = two.polled(key).0;
    lemma_rx_appended(muxer, MuxerRx::ConnRx(key));
    lemma_kill_appended(one, key, now);
    assert(one.conns.dom() =~= muxer.conns.dom());
    assert(two.conns.dom() =~= muxer.conns.dom());
    assert(three.conns == two.conns);
    assert forall|k: ConnMapKey| #[trigger] three.conns.contains_key(k) implies {
        &&& three.conn_named(k)
        &&& k != key ==> three.conn_noted(k) && three.conn_tracked(k)
    } by {
        assert(muxer.conns.contains_key(k));
        assert(muxer.conn_named(k));
        if k != key {
            assert(three.conns[k] == muxer.conns[k]);
            assert(muxer.conn_noted(k) && muxer.conn_tracked(k));
        }
    }
}

/// Taking an item off the RX queue leaves the muxer in order, but for the connection that it names.
proof fn lemma_rx_popped(muxer: MuxerView)
    requires
        muxer.inv(None),
        muxer.rxq.q.len() > 0,
    ensures
        muxer.rxq.q[0] is RstPkt ==> muxer.rx_popped().inv(None),
        muxer.rxq.q[0] is ConnRx ==> muxer.rx_popped().inv(Some(muxer.rxq.q[0]->ConnRx_0)),
{
    let after = muxer.rx_popped();
    assert forall|other: MuxerRx| #[trigger]
        muxer.rxq.q.contains(other) && other != muxer.rxq.q[0] implies after.rxq.q.contains(
        other,
    ) by {
        let i = muxer.rxq.q.index_of(other);
        assert(after.rxq.q[i - 1] == other);
    }
    assert forall|k: ConnMapKey| #[trigger] after.conns.contains_key(k) implies {
        &&& after.conn_named(k)
        &&& MuxerRx::ConnRx(k) != muxer.rxq.q[0] ==> after.conn_noted(k) && after.conn_tracked(k)
    } by {
        assert(muxer.conns.contains_key(k));
        assert(muxer.conn_named(k) && muxer.conn_noted(k) && muxer.conn_tracked(k));
    }
}

/// Receiving a packet keeps the muxer in order.
pub proof fn recv_in_order(muxer: MuxerView, pkt: PacketView, now: u64)
    requires
        muxer.inv(None),
    ensures
        ({
            let (after, filled, step) = muxer.recv_next(pkt, now);
            recv_step_in_order(after, filled, step)
        }),
    decreases muxer.rxq.q.len(),
{
    if muxer.rxq.q.len() > 0 {
        lemma_rx_popped(muxer);
        let popped = muxer.rx_popped();
        match muxer.rxq.q[0] {
            MuxerRx::RstPkt { local_port, peer_port } => {
                lemma_without_conn(popped, ConnMapKey { local_port, peer_port }, None);
            },
            MuxerRx::ConnRx(key) => {
                if !muxer.conns.contains_key(key) {
                    assert(popped.inv(None)) by {
                        assert forall|k: ConnMapKey| #[trigger]
                            popped.conns.contains_key(k) implies k != key by {}
                    }
                    recv_in_order(popped, pkt, now);
                } else {
                    let unnoted = muxer.conns[key].without_flag(MCF_RXQ);
                    let (conn, hdr, recv) = unnoted.recv_start(pkt.buf->0.len());
                    let asked = popped.with_conn(key, conn);
                    lemma_flags(muxer.conns[key]);
                    assert(muxer.conn_named(key) && muxer.conn_noted(key));
                    assert(asked.inv(Some(key))) by {
                        assert(asked.conns.dom() =~= muxer.conns.dom());
                        assert forall|k: ConnMapKey| #[trigger]
                            asked.conns.contains_key(k) implies {
                            &&& asked.conn_named(k)
                            &&& k != key ==> asked.conn_noted(k) && asked.conn_tracked(k)
                        } by {
                            assert(popped.conns.contains_key(k));
                            assert(popped.conn_named(k));
                        }
                    }
                    if recv is Ready && hdr.op == VSOCK_OP_RST {
                        lemma_settled_otherwise(asked, key, now);
                        lemma_without_conn(asked.settled(key, now).0, key, Some(key));
                    } else {
                        assert(asked.inv_busy(key));
                        lemma_settled(asked, key, now);
                    }
                }
            },
        }
    }
}

/// Going on with receiving a packet, once a host stream was read, keeps the muxer in order.
pub proof fn recv_read_in_order(
    muxer: MuxerView,
    key: ConnMapKey,
    pkt: PacketView,
    res: Result<Seq<u8>, IoError>,
    now: u64,
)
    requires
        muxer.inv_busy(key),
        muxer.conns[key].peer_receives(),
        crate::unix::muxer::model::rx_key(pkt.hdr) == key,
    ensures
        ({
            let (after, filled, step) = muxer.recv_read(key, pkt, res, now);
            recv_step_in_order(after, filled, step)
        }),
{
    let (conn, filled, ret) = muxer.conns[key].recv_finish(pkt, res);
    let read = muxer.with_conn(key, conn);
    lemma_mutated(muxer, key, conn);
    lemma_settled(read, key, now);
    let (settled, ctl) = read.settled(key, now);
    if ctl is None {
        if ret is Ok {
            lemma_without_conn(settled, key, None);
        } else {
            recv_in_order(settled, filled, now);
        }
    } else if ret is Ok && filled.hdr.op == VSOCK_OP_RST {
        lemma_settled_otherwise(read, key, now);
    }
}

/// Going on with receiving a packet, once a change was made to what a host stream is watched for,
/// or was refused, keeps the muxer in order.
pub proof fn recv_ctl_in_order(
    muxer: MuxerView,
    ctl: ListenerCtl,
    got: bool,
    pkt: PacketView,
    ok: bool,
    now: u64,
)
    requires
        recv_step_in_order(muxer, pkt, RecvStep::Ctl { ctl, got }),
    ensures
        ({
            let (after, filled, step) = muxer.recv_ctl(ctl, got, pkt, ok, now);
            recv_step_in_order(after, filled, step)
        }),
{
    if got && pkt.hdr.op == VSOCK_OP_RST {
        let key = ctl.key;
        let done = muxer.ctl_done(ctl, ok);
        assert(done.inv(Some(key))) by {
            if ok {
                assert forall|k: ConnMapKey| #[trigger] done.conns.contains_key(k) implies {
                    &&& done.conn_named(k)
                    &&& k != key ==> done.conn_noted(k) && done.conn_tracked(k)
                } by {
                    assert(muxer.conns.contains_key(k));
                    assert(muxer.conn_named(k));
                }
            } else if muxer.rxq.has_room() {
                lemma_with_rst(muxer, key, Some(key));
                lemma_without_conn(muxer.with_rst(key), key, Some(key));
            } else {
                assert(done.conns.dom() =~= muxer.conns.dom());
                assert forall|k: ConnMapKey| #[trigger] done.conns.contains_key(k) implies {
                    &&& done.conn_named(k)
                    &&& k != key ==> done.conn_noted(k) && done.conn_tracked(k)
                } by {
                    assert(muxer.conns.contains_key(k));
                    assert(muxer.conn_named(k));
                }
            }
        }
        lemma_without_conn(done, key, Some(key));
    } else {
        ctl_in_order(muxer, ctl, ok);
        if !got {
            recv_in_order(muxer.ctl_done(ctl, ok), pkt, now);
        }
    }
}

} // verus!
