//! What the muxer promises to the guest and to the host.

use vstd::prelude::*;

use crate::error::IoError;
use crate::events::{EventSet, EPOLLIN};
use crate::packet::PacketView;
use crate::uapi::{
    VSOCK_HOST_CID, VSOCK_OP_REQUEST, VSOCK_OP_RESPONSE, VSOCK_OP_RST, VSOCK_TYPE_STREAM,
};
use crate::unix::conn_map::ConnMapKey;
use crate::unix::conn_model::ConnState;
use crate::unix::defs::MAX_CONNECTIONS;
use crate::unix::muxer::model::{
    MuxerView, PeerRequestView, RecvStep, SendStepView, FIRST_LOCAL_PORT, LOCAL_PORT_COUNT,
};
use crate::unix::muxer::rxq::MCF_RXQ;
use crate::unix::muxer_killq::{KillQView, MuxerKillQItem};
use crate::unix::muxer_rx::MuxerRx;
use crate::unix::pending::PendingRx;

verus! {

/// A packet of an unknown type, or that belongs to no connection and does not ask for one, is
/// answered by an RST: one with the packet's ports swapped joins the RX queue, and nothing else
/// changes.
pub proof fn unexpected_packet_is_answered(muxer: MuxerView, pkt: PacketView, now: u64)
    requires
        muxer.rxq.has_room(),
        pkt.hdr.type_ != VSOCK_TYPE_STREAM || pkt.hdr.dst_cid == VSOCK_HOST_CID
            && !muxer.conns.contains_key(crate::unix::muxer::model::tx_key(pkt.hdr)) && pkt.hdr.op
            != VSOCK_OP_REQUEST,
    ensures
        ({
            let (after, step) = muxer.send(pkt, now);
            let rst = MuxerRx::RstPkt { local_port: pkt.hdr.dst_port, peer_port: pkt.hdr.src_port };
            &&& step == SendStepView::Done
            &&& after.rxq.q == muxer.rxq.q.push(rst)
            &&& after == MuxerView { rxq: after.rxq, ..muxer }
        }),
{
}

/// A packet for a CID other than the host's is dropped.
pub proof fn packet_for_other_cid_is_dropped(muxer: MuxerView, pkt: PacketView, now: u64)
    requires
        pkt.hdr.type_ == VSOCK_TYPE_STREAM,
        pkt.hdr.dst_cid != VSOCK_HOST_CID,
    ensures
        muxer.send(pkt, now) == (muxer, SendStepView::Done),
{
}

/// An RST in the RX queue reaches the guest when its turn comes, and the connection that it belongs
/// to is gone by then.
pub proof fn queued_rst_is_delivered(muxer: MuxerView, pkt: PacketView, now: u64)
    requires
        muxer.rxq.q.len() > 0,
        muxer.rxq.q[0] is RstPkt,
    ensures
        ({
            let (after, filled, step) = muxer.recv_next(pkt, now);
            let local_port = muxer.rxq.q[0]->local_port;
            let peer_port = muxer.rxq.q[0]->peer_port;
            &&& step == RecvStep::Done
            &&& filled.hdr == crate::unix::muxer::model::rst_hdr(muxer.cid, local_port, peer_port)
            &&& !after.conns.contains_key(ConnMapKey { local_port, peer_port })
            &&& after.rxq.q == muxer.rxq.q.skip(1)
        }),
{
}

/// An RST from the guest ends the connection, and is not answered.
pub proof fn guest_rst_ends_connection(muxer: MuxerView, pkt: PacketView, now: u64)
    requires
        pkt.hdr.type_ == VSOCK_TYPE_STREAM,
        pkt.hdr.dst_cid == VSOCK_HOST_CID,
        pkt.hdr.op == VSOCK_OP_RST,
        muxer.conns.contains_key(crate::unix::muxer::model::tx_key(pkt.hdr)),
    ensures
        ({
            let (after, step) = muxer.send(pkt, now);
            &&& step == SendStepView::Done
            &&& after.conns == muxer.conns.remove(crate::unix::muxer::model::tx_key(pkt.hdr))
            &&& after.rxq == muxer.rxq
        }),
{
}

/// A guest whose connection request cannot be served is answered by an RST: if the host socket
/// cannot be connected to, if there are too many connections, or if the host stream cannot be put
/// under watch.
pub proof fn refused_request_is_answered(
    muxer: MuxerView,
    req: PeerRequestView,
    res: Result<i32, IoError>,
)
    requires
        muxer.rxq.has_room(),
    ensures
        ({
            let rst = MuxerRx::RstPkt { local_port: req.local_port, peer_port: req.peer_port };
            let (after, new) = muxer.connected(req, res);
            &&& new is None <==> res is Err || muxer.conns.dom().len() >= MAX_CONNECTIONS
            &&& new is None ==> after.rxq.q == muxer.rxq.q.push(rst)
            &&& new is Some ==> after == muxer && muxer.joined(new->0, false).rxq.q
                == muxer.rxq.q.push(rst)
        }),
{
}

/// A connection is never terminated behind the guest's back: either an RST is queued, or, for want
/// of room, the connection owes an RST, and the RX queue is due to be synchronized.
pub proof fn termination_is_reported(muxer: MuxerView, key: ConnMapKey)
    requires
        muxer.conns.contains_key(key),
    ensures
        ({
            let after = muxer.terminated(key);
            let rst = MuxerRx::RstPkt { local_port: key.local_port, peer_port: key.peer_port };
            if muxer.rxq.has_room() {
                &&& !after.conns.contains_key(key)
                &&& after.rxq.q == muxer.rxq.q.push(rst)
            } else {
                &&& after.conns.contains_key(key)
                &&& after.conns[key].pending.contains(PendingRx::Rst)
                &&& !after.rxq.synced
            }
        }),
{
}

/// When there is no packet to be received from a synchronized RX queue, no connection has any
/// pending RX.
pub proof fn no_data_means_nothing_pending(muxer: MuxerView, pkt: PacketView, now: u64)
    requires
        muxer.inv(None),
        muxer.rxq.synced,
        muxer.recv_next(pkt, now).2 == RecvStep::NoData,
    ensures
        forall|key: ConnMapKey| #[trigger]
            muxer.recv_next(pkt, now).0.conns.contains_key(key) ==> !muxer.recv_next(
                pkt,
                now,
            ).0.conns[key].has_pending(),
{
    let (after, _, _) = muxer.recv_next(pkt, now);
    crate::unix::muxer::inv::recv_in_order(muxer, pkt, now);
    lemma_no_data(muxer, pkt, now);
    assert forall|key: ConnMapKey| #[trigger] after.conns.contains_key(key) implies
        !after.conns[key].has_pending() by {
        assert(after.conn_noted(key) && after.conn_tracked(key));
    }
}

/// When there is no packet to be received, the RX queue is empty, and was left alone otherwise.
proof fn lemma_no_data(muxer: MuxerView, pkt: PacketView, now: u64)
    requires
        muxer.recv_next(pkt, now).2 == RecvStep::NoData,
    ensures
        muxer.recv_next(pkt, now).0.rxq.q.len() == 0,
        muxer.recv_next(pkt, now).0.rxq.synced == muxer.rxq.synced,
    decreases muxer.rxq.q.len(),
{
    if muxer.rxq.q.len() > 0 {
        lemma_no_data(muxer.rx_popped(), pkt, now);
    }
}

/// Whether the items of a kill queue are in the order of their times.
pub open spec fn in_time_order(q: Seq<MuxerKillQItem>) -> bool {
    forall|i: int, j: int|
        0 <= i <= j < q.len() ==> (#[trigger] q[i]).sched_time <= (#[trigger] q[j]).sched_time
}

/// Whether a connection is gone, or about to be.
pub open spec fn done_for(muxer: MuxerView, key: ConnMapKey) -> bool {
    muxer.conns.contains_key(key) ==> muxer.conns[key].state == ConnState::Killed
}

/// Once a connection is gone, or about to be, terminating others does not bring it back.
proof fn lemma_stays_done_for(muxer: MuxerView, key: ConnMapKey, now: u64)
    requires
        done_for(muxer, key),
    ensures
        done_for(muxer.reaped(now), key),
    decreases muxer.killq.q.len(),
{
    if muxer.killq.front_timed_out(now) {
        let killq = crate::unix::muxer_killq::KillQView {
            q: muxer.killq.q.skip(1),
            ..muxer.killq
        };
        let next = MuxerView { killq, ..muxer }.terminated(muxer.killq.q[0].key);
        lemma_stays_done_for(next, key, now);
    }
}

/// No connection that is overdue survives a sweep: all those that were scheduled for termination
/// long enough ago are gone, or about to be.
pub proof fn overdue_connections_are_terminated(muxer: MuxerView, now: u64, i: int)
    requires
        in_time_order(muxer.killq.q),
        0 <= i < muxer.killq.q.len(),
        muxer.killq.q[i].timed_out(now),
    ensures
        done_for(muxer.reaped(now), muxer.killq.q[i].key),
    decreases muxer.killq.q.len(),
{
    assert(muxer.killq.q[0].sched_time <= muxer.killq.q[i].sched_time);
    let q = muxer.killq.q.skip(1);
    let killq = crate::unix::muxer_killq::KillQView { q, ..muxer.killq };
    let next = MuxerView { killq, ..muxer }.terminated(muxer.killq.q[0].key);
    if i == 0 {
        lemma_stays_done_for(next, muxer.killq.q[0].key, now);
    } else {
        assert(in_time_order(q)) by {
            assert forall|a: int, b: int| 0 <= a <= b < q.len() implies (#[trigger] q[a]).sched_time
                <= (#[trigger] q[b]).sched_time by {
                assert(q[a] == muxer.killq.q[a + 1]);
                assert(q[b] == muxer.killq.q[b + 1]);
            }
        }
        assert(next.killq.q == q);
        assert(q[i - 1] == muxer.killq.q[i]);
        overdue_connections_are_terminated(next, now, i - 1);
    }
}

/// Whether the items of a kill queue are in the order of their times, none of which is after `now`.
pub open spec fn timely(q: Seq<MuxerKillQItem>, now: u64) -> bool {
    &&& in_time_order(q)
    &&& forall|i: int| 0 <= i < q.len() ==> (#[trigger] q[i]).sched_time <= now
}

/// Items that join the end of a kill queue at the time `now` keep it in the order of its times.
proof fn lemma_timely_extended(q: Seq<MuxerKillQItem>, now: u64, longer: Seq<MuxerKillQItem>)
    requires
        timely(q, now),
        q.len() <= longer.len(),
        forall|i: int| 0 <= i < q.len() ==> #[trigger] longer[i] == q[i],
        forall|i: int| q.len() <= i < longer.len() ==> (#[trigger] longer[i]).sched_time == now,
    ensures
        timely(longer, now),
{
    assert forall|i: int, j: int| 0 <= i <= j < longer.len() implies (
    #[trigger] longer[i]).sched_time <= (#[trigger] longer[j]).sched_time by {
        if i < q.len() {
            assert(longer[i] == q[i]);
        }
        if j < q.len() {
            assert(longer[j] == q[j]);
        }
    }
    assert forall|i: int| 0 <= i < longer.len() implies (#[trigger] longer[i]).sched_time
        <= now by {
        if i < q.len() {
            assert(longer[i] == q[i]);
        }
    }
}

/// As long as time does not run backwards, settling a connection keeps the kill queue in the order
/// of its times.
pub proof fn settling_keeps_time_order(muxer: MuxerView, key: ConnMapKey, now: u64)
    requires
        timely(muxer.killq.q, now),
    ensures
        timely(muxer.settled(key, now).0.killq.q, now),
{
    let q = muxer.killq.q;
    lemma_timely_extended(q, now, q);
    lemma_timely_extended(q, now, muxer.killq.appended(key, now).q);
}

/// Terminating connections keeps the kill queue in the order of its times.
proof fn lemma_reaped_timely(muxer: MuxerView, now: u64)
    requires
        timely(muxer.killq.q, now),
    ensures
        timely(muxer.reaped(now).killq.q, now),
    decreases muxer.killq.q.len(),
{
    if muxer.killq.front_timed_out(now) {
        let q = muxer.killq.q;
        let rest = q.skip(1);
        assert forall|i: int, j: int| 0 <= i <= j < rest.len() implies (
        #[trigger] rest[i]).sched_time <= (#[trigger] rest[j]).sched_time by {
            assert(rest[i] == q[i + 1]);
            assert(rest[j] == q[j + 1]);
        }
        let killq = KillQView { q: rest, ..muxer.killq };
        lemma_reaped_timely(MuxerView { killq, ..muxer }.terminated(q[0].key), now);
    }
}

/// As long as time does not run backwards, a sweep keeps the kill queue in the order of its times,
/// also where the queue has to be synchronized with the connection pool.
pub proof fn sweeping_keeps_time_order(muxer: MuxerView, now: u64, after: MuxerView)
    requires
        timely(muxer.killq.q, now),
        muxer.swept(now, after),
    ensures
        timely(after.killq.q, now),
{
    let due = MuxerView { last_sweep: now, ..muxer };
    lemma_reaped_timely(due, now);
    let reaped = due.reaped(now);
    if !reaped.killq.synced {
        let keys = choose|keys: Seq<ConnMapKey>| #[trigger]
            crate::unix::muxer::killq::kill_synced_with(
                reaped.killq,
                reaped.conns,
                now,
                after.killq,
                keys,
            );
        lemma_timely_extended(reaped.killq.q, now, after.killq.q);
    }
}

/// A sweep leaves alone the connections that are not due: as long as the first item in the kill
/// queue has not timed out, nothing is terminated.
pub proof fn nothing_is_terminated_early(muxer: MuxerView, now: u64)
    requires
        !muxer.killq.front_timed_out(now),
    ensures
        muxer.reaped(now) == muxer,
{
}

/// A connection's host stream is watched for just what the connection is interested in: once the
/// connection is settled, and the change that is to be made to that end was made, its listener has
/// the right events, and there is none if there are no such events.
pub proof fn watch_matches_interest(muxer: MuxerView, key: ConnMapKey, now: u64)
    requires
        muxer.conns.contains_key(key),
    ensures
        ({
            let (settled, ctl) = muxer.settled(key, now);
            let fd = muxer.conns[key].fd;
            let evset = muxer.conns[key].polled_evset();
            let after = match ctl {
                Some(ctl) => settled.ctl_done(ctl, true),
                None => settled,
            };
            &&& ctl is Some ==> ctl->0.key == key && ctl->0.fd == fd && ctl->0.evset == evset
            &&& evset == EventSet::of(0) ==> ctl is None && !after.listeners.contains_key(fd)
            &&& evset != EventSet::of(0) ==> {
                &&& after.listeners.contains_key(fd)
                &&& after.listeners[fd] is Connection
                &&& after.listeners[fd]->evset == evset
            }
        }),
{
    let noted = muxer.rx_noted(key).kill_noted(key, now);
    assert(noted.conns[key].polled_evset() == muxer.conns[key].polled_evset());
}

/// The ports that are `1`, `2`, ..., `tries` after `port` are all taken, if none of them is free.
proof fn lemma_none_free(taken: Set<u32>, port: u32, tries: nat, d: nat)
    requires
        port >= FIRST_LOCAL_PORT,
        crate::unix::muxer::model::first_free(taken, port, tries) is None,
        1 <= d <= tries <= LOCAL_PORT_COUNT,
    ensures
        taken.contains(
            (FIRST_LOCAL_PORT + (port - FIRST_LOCAL_PORT + d) % (LOCAL_PORT_COUNT as int)) as u32,
        ),
    decreases tries,
{
    let next = crate::unix::muxer::model::next_port(port);
    if d > 1 {
        lemma_none_free(taken, next, (tries - 1) as nat, (d - 1) as nat);
    }
}

/// A host-initiated connection is only denied a local port when all of them are taken.
pub proof fn no_port_means_all_taken(muxer: MuxerView, port: u32)
    requires
        muxer.last_port >= FIRST_LOCAL_PORT,
        muxer.free_port() is None,
        port >= FIRST_LOCAL_PORT,
    ensures
        muxer.ports.contains(port),
{
    let d = if port > muxer.last_port {
        port - muxer.last_port
    } else {
        port - muxer.last_port + LOCAL_PORT_COUNT
    };
    lemma_none_free(muxer.ports, muxer.last_port, LOCAL_PORT_COUNT as nat, d as nat);
}

/// A guest that asks to be connected to a host port is connected to the socket that listens at the
/// path for that port, and is told so by a response: if the RX queue was empty, that is the next
/// packet that it gets.
pub proof fn guest_gets_its_connection(
    muxer: MuxerView,
    pkt: PacketView,
    fd: i32,
    rx: PacketView,
    now: u64,
)
    requires
        muxer.rxq.q.len() == 0,
        muxer.conns.dom().len() < MAX_CONNECTIONS,
        pkt.hdr.type_ == VSOCK_TYPE_STREAM,
        pkt.hdr.dst_cid == VSOCK_HOST_CID,
        pkt.hdr.op == VSOCK_OP_REQUEST,
        !muxer.conns.contains_key(crate::unix::muxer::model::tx_key(pkt.hdr)),
    ensures
        ({
            let key = crate::unix::muxer::model::tx_key(pkt.hdr);
            let (asked, step) = muxer.send(pkt, now);
            let (connected, new) = asked.connected(step->Connect_0, Ok(fd));
            let (after, filled, recv) = connected.joined(new->0, true).recv_next(rx, now);
            &&& step is Connect
            &&& step->Connect_0.path == crate::unix::muxer::model::port_path(
                muxer.path,
                pkt.hdr.dst_port,
            )
            &&& new is Some
            &&& recv == RecvStep::Done
            &&& filled.hdr.op == VSOCK_OP_RESPONSE
            &&& filled.hdr.src_cid == VSOCK_HOST_CID
            &&& filled.hdr.dst_cid == muxer.cid
            &&& filled.hdr.src_port == pkt.hdr.dst_port
            &&& filled.hdr.dst_port == pkt.hdr.src_port
            &&& after.conns.contains_key(key)
            &&& after.conns[key].state == ConnState::Established
            &&& after.conns[key].fd == fd
        }),
{
    let key = crate::unix::muxer::model::tx_key(pkt.hdr);
    let (asked, step) = muxer.send(pkt, now);
    let (connected, new) = asked.connected(step->Connect_0, Ok(fd));
    let joined = connected.joined(new->0, true);
    let conn = new->0.conn;
    assert(conn.pending.contains(PendingRx::Response));
    assert(conn.has_pending());
    assert(0u16 & 1 == 0) by (bit_vector);
    assert(!conn.flagged(MCF_RXQ));
    assert(joined.rxq.q[0] == MuxerRx::ConnRx(key));
    let unnoted = joined.conns[key].without_flag(MCF_RXQ);
    let (told, hdr, recv) = unnoted.recv_start(rx.buf->0.len());
    assert(told.pending =~= Set::<PendingRx>::empty());
    assert(!told.has_pending());
    assert(told.polled_evset() == EventSet::of(EPOLLIN) || told.polled_evset() == EventSet::of(0))
        by {
        assert(0u32 | 1 == 1) by (bit_vector);
    }
}

/// A host that asks to be connected to a guest port has its request passed on to the guest: if the
/// RX queue was empty, that is the next packet that the guest gets. Once the guest accepts, the
/// host is sent the confirmation `OK <assigned host vsock port><EOL>`, and once that is written,
/// the connection is up.
pub proof fn host_gets_its_connection(
    muxer: MuxerView,
    fd: i32,
    port: u32,
    rx: PacketView,
    reply: PacketView,
    now: u64,
)
    requires
        muxer.rxq.q.len() == 0,
        muxer.conns.dom().len() < MAX_CONNECTIONS,
        muxer.free_port() is Some,
        reply.hdr.type_ == VSOCK_TYPE_STREAM,
        reply.hdr.dst_cid == VSOCK_HOST_CID,
        reply.hdr.op == VSOCK_OP_RESPONSE,
        reply.hdr.dst_port == muxer.free_port()->0,
        reply.hdr.src_port == port,
    ensures
        ({
            let local_port = muxer.free_port()->0;
            let key = ConnMapKey { local_port, peer_port: port };
            let (named, new) = muxer.local_request(
                fd,
                Ok(crate::unix::muxer::port_request::connect_request(port)),
            );
            let (told, filled, recv) = named.joined(new->0, true).recv_next(rx, now);
            let (replied, step) = told.send(reply, now);
            let ack = crate::unix::conn_model::ack_msg(local_port);
            let write = step->Conn_0->Write_0;
            let (after, _) = replied.written(key, write.job, Ok(ack.len() as usize), now);
            &&& new is Some
            &&& recv == RecvStep::Done
            &&& filled.hdr.op == VSOCK_OP_REQUEST
            &&& filled.hdr.src_cid == VSOCK_HOST_CID
            &&& filled.hdr.dst_cid == muxer.cid
            &&& filled.hdr.src_port == local_port
            &&& filled.hdr.dst_port == port
            &&& step is Conn
            &&& step->Conn_0 is Write
            &&& write.key == key
            &&& write.fd == fd
            &&& write.data == ack
            &&& after.conns[key].state == ConnState::Established
        }),
{
    let local_port = muxer.free_port()->0;
    let key = ConnMapKey { local_port, peer_port: port };
    crate::unix::muxer::port_request::request_is_understood(port);
    let (named, new) = muxer.local_request(
        fd,
        Ok(crate::unix::muxer::port_request::connect_request(port)),
    );
    let joined = named.joined(new->0, true);
    let conn = new->0.conn;
    assert(conn.pending.contains(PendingRx::Request));
    assert(conn.has_pending());
    assert(0u16 & 1 == 0) by (bit_vector);
    assert(!conn.flagged(MCF_RXQ));
    assert(joined.rxq.q[0] == MuxerRx::ConnRx(key));
    let unnoted = joined.conns[key].without_flag(MCF_RXQ);
    let (asked, _, _) = unnoted.recv_start(rx.buf->0.len());
    assert(asked.pending =~= Set::<PendingRx>::empty());
    assert(!asked.has_pending());
    assert(asked.polled_evset() == EventSet::of(0));
    let (told, filled, recv) = joined.recv_next(rx, now);
    let (replied, step) = told.send(reply, now);
    let ack = crate::unix::conn_model::ack_msg(local_port);
    lemma_decimal_len(local_port as nat);
    assert(ack.len() <= usize::MAX);
    let write = step->Conn_0->Write_0;
    let (up, _) = replied.conns[key].tx_written(write.job, Ok(ack.len() as usize));
    assert(up.state == ConnState::Established);
    lemma_settled_state(replied.with_conn(key, up), key, now);
}

/// A number has fewer digits than half of it, and some.
proof fn lemma_decimal_len(x: nat)
    ensures
        crate::text::decimal(x).len() <= x / 2 + 1,
    decreases x,
{
    if x >= 10 {
        lemma_decimal_len(x / 10);
    }
}

/// Settling a connection does not change its state.
proof fn lemma_settled_state(muxer: MuxerView, key: ConnMapKey, now: u64)
    requires
        muxer.conns.contains_key(key),
    ensures
        muxer.settled(key, now).0.conns[key].state == muxer.conns[key].state,
{
}

} // verus!
