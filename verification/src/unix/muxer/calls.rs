//! What each call on the muxer does, by what goes in and what comes out.

use vstd::prelude::*;

use crate::error::IoError;
use crate::events::EventSet;
use crate::packet::{PacketView, VsockPacketHdr};
use crate::uapi::{VSOCK_OP_REQUEST, VSOCK_OP_RST, VSOCK_OP_RW};
use crate::unix::conn_map::ConnMapKey;
use crate::unix::conn_model::{ConnState, ConnView, TxJobView, TxKind};
use crate::unix::muxer::model::{
    CtlOp, EpollListener, EventStepView, HostCmd, ListenerCtl, MuxerView, NewConnView, Origin,
    PeerRequestView, RecvStep, SendStepView,
};
use crate::unix::muxer_killq::{KillQView, MuxerKillQItem};
use crate::unix::muxer_rx::{MuxerRx, RxQView};
use crate::unix::pending::PendingRx;

verus! {

/// Whether a packet from the guest, sent at the time `now`, took a muxer from `before` to `after`,
/// with `step` left to be done.
pub open spec fn sends(
    before: MuxerView,
    pkt: PacketView,
    now: u64,
    after: MuxerView,
    step: SendStepView,
) -> bool {
    (after, step) == before.send(pkt, now)
}

/// Whether a request for a packet took a muxer from `before` to `after`, with the packet as `out`,
/// and `step` left to be done.
pub open spec fn receives(
    before: MuxerView,
    room: PacketView,
    now: u64,
    after: MuxerView,
    out: PacketView,
    step: RecvStep,
) -> bool {
    exists|refilled: MuxerView| #[trigger]
        before.rx_refilled(refilled) && (after, out, step) == refilled.recv_next(room, now)
}

/// Whether a muxer still has the same connections, but for the one between the given ports.
pub open spec fn others_untouched(
    before: MuxerView,
    after: MuxerView,
    local_port: u32,
    peer_port: u32,
) -> bool {
    forall|key: ConnMapKey|
        key.local_port != local_port || key.peer_port != peer_port ==> {
            &&& #[trigger] after.conns.contains_key(key) == before.conns.contains_key(key)
            &&& before.conns.contains_key(key) ==> after.conns[key] == before.conns[key]
        }
}

/// A packet from the guest touches no connection but the one between its ports: the guest's is the
/// port that it comes from, and ours is the one that it goes to.
pub proof fn guest_packet_touches_one_connection(
    before: MuxerView,
    pkt: PacketView,
    now: u64,
    after: MuxerView,
    step: SendStepView,
)
    requires
        sends(before, pkt, now, after, step),
    ensures
        others_untouched(before, after, pkt.hdr.dst_port, pkt.hdr.src_port),
        after.cid == before.cid,
        after.path == before.path,
        after.epoll_fd == before.epoll_fd,
        after.last_port == before.last_port,
        after.last_sweep == before.last_sweep,
{
}

/// A packet that is not for the host is dropped. One that is not of the stream type, or that
/// belongs to no connection and does not ask for one, is answered by an RST from the port that it
/// went to, to the port that it came from, as long as the RX queue has room. Nothing else changes.
pub proof fn stray_packet_is_answered(
    before: MuxerView,
    pkt: PacketView,
    now: u64,
    after: MuxerView,
    step: SendStepView,
)
    requires
        sends(before, pkt, now, after, step),
    ensures
        ({
            let key = ConnMapKey { local_port: pkt.hdr.dst_port, peer_port: pkt.hdr.src_port };
            let foreign = pkt.hdr.type_ == 1 && pkt.hdr.dst_cid != 2;
            let stray = pkt.hdr.type_ != 1 || pkt.hdr.dst_cid == 2 && pkt.hdr.op
                != VSOCK_OP_REQUEST && !before.conns.contains_key(key);
            let rst = MuxerRx::RstPkt { local_port: pkt.hdr.dst_port, peer_port: pkt.hdr.src_port };
            &&& foreign ==> step == SendStepView::Done && after == before
            &&& stray ==> {
                &&& step == SendStepView::Done
                &&& after == MuxerView { rxq: after.rxq, ..before }
                &&& after.rxq.synced == before.rxq.synced
                &&& before.rxq.q.len() < 256 ==> after.rxq.q == before.rxq.q.push(rst)
                &&& before.rxq.q.len() >= 256 ==> after.rxq.q == before.rxq.q
            }
        }),
{
}

/// The path for a port is that of the host socket, followed by an underscore and the port, written
/// out without leading zeros.
pub proof fn port_is_appended_to_the_path(base: Seq<u8>, port: u32)
    ensures
        ({
            let path = crate::unix::muxer::model::port_path(base, port);
            let digits = path.skip(base.len() as int + 1);
            &&& path.len() > base.len() + 1
            &&& path.take(base.len() as int) == base
            &&& path[base.len() as int] == 95
            &&& crate::text::all_digits(digits)
            &&& crate::text::number(digits) == port
            &&& digits[0] == 48 ==> digits.len() == 1
        }),
{
    let path = crate::unix::muxer::model::port_path(base, port);
    crate::text::number_of_decimal(port as nat);
    crate::text::decimal_has_no_leading_zero(port as nat);
    assert(path.skip(base.len() as int + 1) =~= crate::text::decimal(port as nat));
    assert(path.take(base.len() as int) =~= base);
}

/// A guest that asks for a connection that it does not have yet is to be connected to the host
/// socket for the port that it asks for. Nothing changes until that was tried.
pub proof fn guest_request_is_taken_up(
    before: MuxerView,
    pkt: PacketView,
    now: u64,
    after: MuxerView,
    step: SendStepView,
)
    requires
        sends(before, pkt, now, after, step),
    ensures
        step is Connect <==> {
            &&& pkt.hdr.type_ == 1
            &&& pkt.hdr.dst_cid == 2
            &&& pkt.hdr.op == VSOCK_OP_REQUEST
            &&& !before.conns.contains_key(
                ConnMapKey { local_port: pkt.hdr.dst_port, peer_port: pkt.hdr.src_port },
            )
        },
        step is Connect ==> {
            let path = step->Connect_0.path;
            let base = before.path;
            let digits = path.skip(base.len() as int + 1);
            &&& after == before
            &&& step->Connect_0.local_port == pkt.hdr.dst_port
            &&& step->Connect_0.peer_port == pkt.hdr.src_port
            &&& step->Connect_0.buf_alloc == pkt.hdr.buf_alloc
            &&& path.len() > base.len() + 1
            &&& path.take(base.len() as int) == base
            &&& path[base.len() as int] == 95
            &&& crate::text::all_digits(digits)
            &&& crate::text::number(digits) == pkt.hdr.dst_port
            &&& digits[0] == 48 ==> digits.len() == 1
        },
{
    port_is_appended_to_the_path(before.path, pkt.hdr.dst_port);
}

/// What becomes of a muxer whose connection between two ports is removed: its local port is free
/// again, its host stream is no longer watched, and is to be closed after that.
pub open spec fn connection_removed(
    before: MuxerView,
    after: MuxerView,
    local_port: u32,
    peer_port: u32,
) -> bool {
    let key = ConnMapKey { local_port, peer_port };
    let fd = before.conns[key].fd;
    &&& !after.conns.contains_key(key)
    &&& others_untouched(before, after, local_port, peer_port)
    &&& !after.ports.contains(local_port)
    &&& forall|port: u32|
        port != local_port ==> #[trigger] after.ports.contains(port) == before.ports.contains(port)
    &&& before.conns.contains_key(key) ==> {
        &&& !after.listeners.contains_key(fd)
        &&& forall|other: i32|
            other != fd ==> {
                &&& #[trigger] after.listeners.contains_key(other) == before.listeners.contains_key(
                    other,
                )
                &&& before.listeners.contains_key(other) ==> after.listeners[other]
                    == before.listeners[other]
            }
        &&& before.listeners.contains_key(fd) ==> after.cmds == before.cmds.push(
            HostCmd::EpollDel(fd),
        ).push(HostCmd::Close(fd))
        &&& !before.listeners.contains_key(fd) ==> after.cmds == before.cmds.push(
            HostCmd::Close(fd),
        )
    }
    &&& !before.conns.contains_key(key) ==> {
        &&& after.listeners == before.listeners
        &&& after.cmds == before.cmds
    }
    &&& after.cid == before.cid
    &&& after.path == before.path
    &&& after.epoll_fd == before.epoll_fd
    &&& after.killq == before.killq
    &&& after.last_port == before.last_port
    &&& after.last_sweep == before.last_sweep
}

/// Removing a connection does just that.
pub proof fn removing_a_connection(muxer: MuxerView, key: ConnMapKey)
    ensures
        connection_removed(muxer, muxer.without_conn(key), key.local_port, key.peer_port),
        muxer.without_conn(key).rxq == muxer.rxq,
{
}

/// An RST from the guest removes its connection, and nothing more.
pub proof fn guest_rst_removes_its_connection(
    before: MuxerView,
    pkt: PacketView,
    now: u64,
    after: MuxerView,
    step: SendStepView,
)
    requires
        sends(before, pkt, now, after, step),
        pkt.hdr.type_ == 1,
        pkt.hdr.dst_cid == 2,
        pkt.hdr.op == VSOCK_OP_RST,
        before.conns.contains_key(
            ConnMapKey { local_port: pkt.hdr.dst_port, peer_port: pkt.hdr.src_port },
        ),
    ensures
        step == SendStepView::Done,
        connection_removed(before, after, pkt.hdr.dst_port, pkt.hdr.src_port),
        after.rxq == before.rxq,
{
}

/// Any other packet for a connection is handled by that connection. What it changes about the
/// connection is what the connection makes of it, but for the muxer's notes.
pub proof fn packet_is_handled_by_its_connection(
    before: MuxerView,
    pkt: PacketView,
    now: u64,
    after: MuxerView,
    step: SendStepView,
)
    requires
        sends(before, pkt, now, after, step),
        pkt.hdr.type_ == 1,
        pkt.hdr.dst_cid == 2,
        pkt.hdr.op != VSOCK_OP_RST,
        before.conns.contains_key(
            ConnMapKey { local_port: pkt.hdr.dst_port, peer_port: pkt.hdr.src_port },
        ),
    ensures
        ({
            let key = ConnMapKey { local_port: pkt.hdr.dst_port, peer_port: pkt.hdr.src_port };
            let (conn, job) = before.conns[key].send_start(pkt);
            &&& step is Conn
            &&& after.conns.contains_key(key)
            &&& after.conns[key] == ConnView {
                muxer_flags: after.conns[key].muxer_flags,
                ..conn
            }
            &&& job is Some <==> step->Conn_0 is Write
            &&& job is Some ==> {
                &&& step->Conn_0->Write_0.key == key
                &&& step->Conn_0->Write_0.fd == before.conns[key].fd
                &&& step->Conn_0->Write_0.job == job->0
                &&& step->Conn_0->Write_0.data == conn.tx_chunk(job->0)
                &&& after.rxq == before.rxq
                &&& after.killq == before.killq
            }
        }),
{
}

/// Data from the guest goes to the host stream of its connection, byte for byte, if nothing else is
/// buffered for that.
pub proof fn guest_data_is_written_to_its_stream(
    before: MuxerView,
    pkt: PacketView,
    now: u64,
    after: MuxerView,
    step: SendStepView,
)
    requires
        sends(before, pkt, now, after, step),
        pkt.hdr.type_ == 1,
        pkt.hdr.dst_cid == 2,
        pkt.hdr.op == VSOCK_OP_RW,
        pkt.buf is Some,
        pkt.hdr.len <= pkt.buf->0.len(),
        before.conns.contains_key(
            ConnMapKey { local_port: pkt.hdr.dst_port, peer_port: pkt.hdr.src_port },
        ),
        ({
            let conn = before.conns[ConnMapKey {
                local_port: pkt.hdr.dst_port,
                peer_port: pkt.hdr.src_port,
            }];
            &&& conn.state == ConnState::Established || conn.state is PeerClosed
                && !conn.state->PeerClosed_1
            &&& conn.tx.bytes.len() == 0
        }),
    ensures
        ({
            let key = ConnMapKey { local_port: pkt.hdr.dst_port, peer_port: pkt.hdr.src_port };
            let write = step->Conn_0->Write_0;
            &&& step is Conn
            &&& step->Conn_0 is Write
            &&& write.key == key
            &&& write.fd == before.conns[key].fd
            &&& write.job.kind == TxKind::Data
            &&& write.data.len() == pkt.hdr.len
            &&& forall|i: int| 0 <= i < pkt.hdr.len ==> #[trigger] write.data[i] == pkt.buf->0[i]
        }),
{
}

/// A connection that has changed is taken note of. If it owes the guest a packet and is not in the
/// RX queue, it joins that queue, or else the queue is out of sync. The same goes for the kill
/// queue and a connection that is up for termination, from the time `now` on.
pub proof fn changed_connection_is_queued(muxer: MuxerView, key: ConnMapKey, now: u64)
    requires
        muxer.conns.contains_key(key),
    ensures
        ({
            let conn = muxer.conns[key];
            let after = muxer.settled(key, now).0;
            let owes = exists|it: PendingRx| #[trigger] conn.pending.contains(it);
            let dying = !conn.pending.contains(PendingRx::Rst) && (conn.state
                == ConnState::LocalClosed || conn.state == ConnState::PeerClosed(true, true));
            let to_rxq = owes && conn.muxer_flags & 1 == 0;
            let to_killq = dying && conn.muxer_flags & 2 == 0;
            let rx_fits = muxer.rxq.q.len() < 256;
            let kill_fits = muxer.killq.q.len() < 128;
            &&& to_rxq && rx_fits ==> after.rxq.q == muxer.rxq.q.push(MuxerRx::ConnRx(key))
                && after.rxq.synced == muxer.rxq.synced
            &&& to_rxq && !rx_fits ==> after.rxq.q == muxer.rxq.q && !after.rxq.synced
            &&& !to_rxq ==> after.rxq == muxer.rxq
            &&& to_killq && kill_fits ==> after.killq.q == muxer.killq.q.push(
                MuxerKillQItem { key, sched_time: now },
            ) && after.killq.synced == muxer.killq.synced
            &&& to_killq && !kill_fits ==> after.killq.q == muxer.killq.q && !after.killq.synced
            &&& !to_killq ==> after.killq == muxer.killq
            &&& after.conns.contains_key(key)
            &&& after.conns[key] == ConnView { muxer_flags: after.conns[key].muxer_flags, ..conn }
            &&& after.conns[key].muxer_flags & 1 == (if to_rxq && rx_fits {
                1
            } else {
                conn.muxer_flags & 1
            })
            &&& after.conns[key].muxer_flags & 2 == (if to_killq && kill_fits {
                2
            } else {
                conn.muxer_flags & 2
            })
            &&& others_untouched(muxer, after, key.local_port, key.peer_port)
            &&& after.ports == muxer.ports
            &&& after.last_port == muxer.last_port
            &&& after.last_sweep == muxer.last_sweep
        }),
{
    let conn = muxer.conns[key];
    let flags = conn.muxer_flags;
    crate::unix::conn_calls::credit_is_counted(conn);
    assert((flags | 1) & 1 == 1 && (flags | 1) & 2 == flags & 2 && (flags | 2) & 2 == 2 && (flags
        | 2) & 1 == flags & 1 && (flags | 1 | 2) & 1 == 1 && (flags | 1 | 2) & 2 == 2)
        by (bit_vector);
    assert(flags & 1 == 0 || flags & 1 == 1) by (bit_vector);
}

/// A host stream is put under watch if it was not, and has its events changed if they are not the
/// right ones. If there are none to be watched for, it is taken off watch.
pub proof fn stream_is_put_under_watch(muxer: MuxerView, key: ConnMapKey, now: u64)
    requires
        muxer.conns.contains_key(key),
    ensures
        ({
            let fd = muxer.conns[key].fd;
            let evset = muxer.conns[key].polled_evset();
            let (after, ctl) = muxer.settled(key, now);
            let watched = muxer.listeners.contains_key(fd) && muxer.listeners[fd] is Connection;
            if evset.bits == 0 {
                &&& ctl is None
                &&& !after.listeners.contains_key(fd)
                &&& after.cmds == (if muxer.listeners.contains_key(fd) {
                    muxer.cmds.push(HostCmd::EpollDel(fd))
                } else {
                    muxer.cmds
                })
            } else if watched && muxer.listeners[fd]->evset == evset {
                &&& ctl is None
                &&& after.listeners == muxer.listeners
                &&& after.cmds == muxer.cmds
            } else {
                &&& ctl == Some(
                    ListenerCtl {
                        key,
                        op: if watched {
                            CtlOp::Mod
                        } else {
                            CtlOp::Add
                        },
                        fd,
                        evset,
                    },
                )
                &&& after.cmds == muxer.cmds
                &&& watched ==> after.listeners[fd] == EpollListener::Connection {
                    key: muxer.listeners[fd]->key,
                    evset,
                }
                &&& !watched ==> after.listeners == muxer.listeners
            }
        }),
        forall|other: i32|
            other != muxer.conns[key].fd ==> {
                &&& #[trigger] muxer.settled(key, now).0.listeners.contains_key(other)
                    == muxer.listeners.contains_key(other)
                &&& muxer.listeners.contains_key(other) ==> muxer.settled(
                    key,
                    now,
                ).0.listeners[other] == muxer.listeners[other]
            },
{
    let noted = muxer.rx_noted(key).kill_noted(key, now);
    assert(noted.conns[key].polled_evset() == muxer.conns[key].polled_evset());
}

/// Whether a connection's host stream is watched for just what the connection asks for.
pub open spec fn watched_as_asked(muxer: MuxerView, conn: ConnView) -> bool {
    if conn.polled_evset().bits == 0 {
        !muxer.listeners.contains_key(conn.fd)
    } else {
        &&& muxer.listeners.contains_key(conn.fd)
        &&& muxer.listeners[conn.fd] is Connection
        &&& muxer.listeners[conn.fd]->evset == conn.polled_evset()
    }
}

/// A connection that has nothing to be written is done with only once its host stream is watched
/// for what it asks for. Until then, that is what is left to be done for it.
pub proof fn nothing_left_means_watched(muxer: MuxerView, key: ConnMapKey, now: u64)
    requires
        muxer.conns.contains_key(key),
    ensures
        ({
            let conn = muxer.conns[key];
            let (after, step) = muxer.conn_step(key, None, now);
            &&& after == muxer.settled(key, now).0
            &&& !(step is Write)
            &&& step is Idle ==> watched_as_asked(after, conn)
            &&& step is Ctl ==> {
                &&& step->Ctl_0.key == key
                &&& step->Ctl_0.fd == conn.fd
                &&& step->Ctl_0.evset == conn.polled_evset()
            }
            &&& watched_as_asked(muxer, conn) ==> step is Idle
        }),
{
    let noted = muxer.rx_noted(key).kill_noted(key, now);
    assert(noted.conns[key].polled_evset() == muxer.conns[key].polled_evset());
}

/// Once a stream is under watch, that is noted. If it could not be put under watch, its connection
/// is terminated: the guest is told by an RST, and the connection is removed, or else, for want of
/// room in the RX queue, it is doomed, and the queue is out of sync.
pub proof fn watch_is_noted_or_given_up(muxer: MuxerView, ctl: ListenerCtl)
    ensures
        ({
            let after = muxer.ctl_done(ctl, true);
            &&& after == MuxerView { listeners: after.listeners, ..muxer }
            &&& ctl.op == CtlOp::Mod ==> after == muxer
            &&& ctl.op == CtlOp::Add ==> after.listeners == muxer.listeners.insert(
                ctl.fd,
                EpollListener::Connection { key: ctl.key, evset: ctl.evset },
            )
        }),
        connection_terminated(muxer, muxer.ctl_done(ctl, false), ctl.key),
{
    terminating_a_connection(muxer, ctl.key);
}

/// What becomes of a muxer when a connection is terminated.
pub open spec fn connection_terminated(
    before: MuxerView,
    after: MuxerView,
    key: ConnMapKey,
) -> bool {
    if before.rxq.q.len() < 256 {
        &&& after.rxq.q == before.rxq.q.push(
            MuxerRx::RstPkt { local_port: key.local_port, peer_port: key.peer_port },
        )
        &&& after.rxq.synced == before.rxq.synced
        &&& connection_removed(before, after, key.local_port, key.peer_port)
    } else {
        &&& after.rxq.q == before.rxq.q
        &&& !after.rxq.synced
        &&& others_untouched(before, after, key.local_port, key.peer_port)
        &&& after.conns.contains_key(key) == before.conns.contains_key(key)
        &&& before.conns.contains_key(key) ==> after.conns[key] == ConnView {
            state: ConnState::Killed,
            pending: before.conns[key].pending.insert(PendingRx::Rst),
            ..before.conns[key]
        }
        &&& after == MuxerView { rxq: after.rxq, conns: after.conns, ..before }
    }
}

/// Terminating a connection does just that.
pub proof fn terminating_a_connection(muxer: MuxerView, key: ConnMapKey)
    ensures
        connection_terminated(muxer, muxer.terminated(key), key),
{
}

/// Whether a packet header is that of an RST for the guest.
pub open spec fn is_rst(hdr: VsockPacketHdr, cid: u64, local_port: u32, peer_port: u32) -> bool {
    &&& hdr.src_cid == 2
    &&& hdr.dst_cid == cid
    &&& hdr.src_port == local_port
    &&& hdr.dst_port == peer_port
    &&& hdr.len == 0
    &&& hdr.type_ == 1
    &&& hdr.op == 3
    &&& hdr.flags == 0
    &&& hdr.buf_alloc == 0
    &&& hdr.fwd_cnt == 0
}

/// An RX queue that is synchronized gives its packets in order. If it is empty, there is no packet.
/// An RST in it goes to the guest, with its ports, and the connection between these is removed.
pub proof fn rx_queue_gives_packets_in_order(
    before: MuxerView,
    room: PacketView,
    now: u64,
    after: MuxerView,
    out: PacketView,
    step: RecvStep,
)
    requires
        receives(before, room, now, after, out, step),
        before.rxq.synced,
    ensures
        before.rxq.q.len() == 0 ==> step == RecvStep::NoData && after == before && out == room,
        before.rxq.q.len() > 0 && before.rxq.q[0] is RstPkt ==> {
            let local_port = before.rxq.q[0]->local_port;
            let peer_port = before.rxq.q[0]->peer_port;
            &&& step == RecvStep::Done
            &&& is_rst(out.hdr, before.cid, local_port, peer_port)
            &&& out.buf == room.buf
            &&& after.rxq.q == before.rxq.q.skip(1)
            &&& after.rxq.synced
            &&& connection_removed(before, after, local_port, peer_port)
        },
{
    let refilled = choose|refilled: MuxerView| #[trigger]
        before.rx_refilled(refilled) && (after, out, step) == refilled.recv_next(room, now);
    assert(refilled == before);
}

/// The connection whose turn it is in a synchronized RX queue is asked for its packet. Unless that
/// has to be read from its host stream, the packet is complete. If it is an RST, the connection is
/// removed by the time the packet is handed out. A connection that is gone is passed over.
pub proof fn next_connection_is_asked(
    before: MuxerView,
    room: PacketView,
    now: u64,
    after: MuxerView,
    out: PacketView,
    step: RecvStep,
    key: ConnMapKey,
)
    requires
        receives(before, room, now, after, out, step),
        before.rxq.synced,
        before.rxq.q.len() > 0,
        before.rxq.q[0] == MuxerRx::ConnRx(key),
        before.conns.contains_key(key) ==> before.conn_named(key),
    ensures
        !before.conns.contains_key(key) ==> (after, out, step) == (MuxerView {
            rxq: RxQView { q: before.rxq.q.skip(1), synced: true },
            ..before
        }).recv_next(room, now),
        before.conns.contains_key(key) ==> {
            let noted = before.conns[key];
            let conn = ConnView { muxer_flags: noted.muxer_flags & !1, ..noted };
            let (asked, hdr, recv) = conn.recv_start(room.buf->0.len());
            &&& out.hdr == hdr
            &&& out.buf == room.buf
            &&& others_untouched(before, after, key.local_port, key.peer_port)
            &&& recv is Read ==> {
                &&& step == RecvStep::Read { key, fd: noted.fd, len: recv->Read_0 }
                &&& after.conns[key] == asked
                &&& after.rxq.q == before.rxq.q.skip(1)
            }
            &&& recv is Ready ==> step == RecvStep::Done || step is Ctl && step->got
                && step->ctl.key == key
            &&& step is Ctl || step == RecvStep::Done && hdr.op != 3 ==> {
                &&& after.conns.contains_key(key)
                &&& after.conns[key] == ConnView {
                    muxer_flags: after.conns[key].muxer_flags,
                    ..asked
                }
            }
        },
        before.conns.contains_key(key) && step == RecvStep::Done && out.hdr.op == 3
            ==> !after.conns.contains_key(key),
        before.conns.contains_key(key) && step == RecvStep::Done && out.hdr.op != 3
            ==> watched_as_asked(after, after.conns[key]),
{
    let refilled = choose|refilled: MuxerView| #[trigger]
        before.rx_refilled(refilled) && (after, out, step) == refilled.recv_next(room, now);
    assert(refilled == before);
    assert(before.rx_popped() =~= (MuxerView {
        rxq: RxQView { q: before.rxq.q.skip(1), synced: true },
        ..before
    }));
    if before.conns.contains_key(key) {
        let noted = before.conns[key];
        let conn = ConnView { muxer_flags: noted.muxer_flags & !1, ..noted };
        assert(conn == noted.without_flag(1));
    }
}

/// An RX queue that is not synchronized is filled up before a packet is taken from it: what is in
/// it stays in front, and connections that owe the guest a packet, and are not in it yet, follow,
/// each once. It is full if it is still not synchronized then, and has all of them otherwise.
pub proof fn rx_queue_is_filled_up(muxer: MuxerView, after: MuxerView)
    requires
        muxer.rx_refilled(after),
        !muxer.rxq.synced,
    ensures
        muxer.rxq.q.is_prefix_of(after.rxq.q),
        forall|i: int|
            muxer.rxq.q.len() <= i < after.rxq.q.len() ==> {
                &&& (#[trigger] after.rxq.q[i]) is ConnRx
                &&& muxer.conns.contains_key(after.rxq.q[i]->0)
                &&& muxer.conns[after.rxq.q[i]->0].has_pending()
                &&& muxer.conns[after.rxq.q[i]->0].muxer_flags & 1 == 0
            },
        forall|i: int, j: int|
            muxer.rxq.q.len() <= i < j < after.rxq.q.len() ==> #[trigger] after.rxq.q[i]
                != #[trigger] after.rxq.q[j],
        after.rxq.synced ==> forall|key: ConnMapKey|
            #![trigger muxer.conns.contains_key(key)]
            muxer.conns.contains_key(key) && muxer.conns[key].has_pending()
                && muxer.conns[key].muxer_flags & 1 == 0 ==> after.rxq.q.contains(
                MuxerRx::ConnRx(key),
            ),
        !after.rxq.synced ==> after.rxq.q.len() == 256,
        forall|key: ConnMapKey|
            {
                &&& #[trigger] after.conns.contains_key(key) == muxer.conns.contains_key(key)
                &&& muxer.conns.contains_key(key) ==> after.conns[key] == ConnView {
                    muxer_flags: after.conns[key].muxer_flags,
                    ..muxer.conns[key]
                }
            },
        after == (MuxerView { rxq: after.rxq, conns: after.conns, ..muxer }),
{
    let keys = choose|keys: Seq<ConnMapKey>| #[trigger]
        crate::unix::muxer::rxq::rx_synced_with(
            muxer.rxq,
            muxer.conns,
            after.rxq,
            after.conns,
            keys,
        );
    let n = muxer.rxq.q.len() as int;
    assert(muxer.rxq.q =~= after.rxq.q.subrange(0, n));
    assert forall|i: int| n <= i < after.rxq.q.len() implies {
        &&& (#[trigger] after.rxq.q[i]) is ConnRx
        &&& muxer.conns.contains_key(after.rxq.q[i]->0)
        &&& muxer.conns[after.rxq.q[i]->0].has_pending()
        &&& muxer.conns[after.rxq.q[i]->0].muxer_flags & 1 == 0
    } by {
        assert(after.rxq.q[i] == MuxerRx::ConnRx(keys[i - n]));
        assert(keys.contains(keys[i - n]));
    }
    assert forall|i: int, j: int| n <= i < j < after.rxq.q.len() implies #[trigger] after.rxq.q[i]
        != #[trigger] after.rxq.q[j] by {
        assert(keys[i - n] != keys[j - n]);
    }
    if after.rxq.synced {
        assert forall|key: ConnMapKey|
            #![trigger muxer.conns.contains_key(key)]
            muxer.conns.contains_key(key) && muxer.conns[key].has_pending()
                && muxer.conns[key].muxer_flags & 1 == 0 implies after.rxq.q.contains(
            MuxerRx::ConnRx(key),
        ) by {
            assert(crate::unix::muxer::rxq::unqueued_pending(muxer.conns).contains(key));
            let i = keys.index_of(key);
            assert(after.rxq.q[n + i] == MuxerRx::ConnRx(key));
        }
    }
}

/// A packet that was read for a connection is handed out: data as a data packet with just these
/// bytes, and the end of the host's data as a shutdown.
pub proof fn read_data_is_handed_out(
    muxer: MuxerView,
    key: ConnMapKey,
    pkt: PacketView,
    data: Seq<u8>,
    now: u64,
)
    requires
        muxer.conns.contains_key(key),
        pkt.buf is Some,
        data.len() <= pkt.buf->0.len(),
        data.len() <= u32::MAX,
    ensures
        ({
            let (after, out, step) = muxer.recv_read(key, pkt, Ok(data), now);
            &&& step == RecvStep::Done || step is Ctl && step->got && step->ctl.key == key
            &&& out.hdr.src_port == pkt.hdr.src_port
            &&& out.hdr.dst_port == pkt.hdr.dst_port
            &&& out.hdr.dst_cid == pkt.hdr.dst_cid
            &&& data.len() > 0 ==> {
                &&& out.hdr.op == VSOCK_OP_RW
                &&& out.hdr.len == data.len()
                &&& forall|i: int| 0 <= i < data.len() ==> #[trigger] out.buf->0[i] == data[i]
            }
            &&& data.len() == 0 ==> out.hdr.op == 4 && after.conns[key].state
                == ConnState::LocalClosed
            &&& after.conns.contains_key(key)
            &&& after.conns[key].rx_cnt == (muxer.conns[key].rx_cnt + out.hdr.len) % 0x1_0000_0000
            &&& step == RecvStep::Done ==> watched_as_asked(after, after.conns[key])
            &&& others_untouched(muxer, after, key.local_port, key.peer_port)
        }),
{
    let (read, filled, _) = muxer.conns[key].recv_finish(pkt, Ok(data));
    changed_connection_is_queued(muxer.with_conn(key, read), key, now);
}

/// A read that would block gives no packet: the connection is as it was, but for the muxer's notes,
/// and the next packet is looked for, unless a stream has to be put under watch first. A read that
/// fails gives an RST, and the connection is removed once that is handed out.
pub proof fn failed_read_is_followed_up(
    muxer: MuxerView,
    key: ConnMapKey,
    pkt: PacketView,
    code: i32,
    now: u64,
)
    requires
        muxer.conns.contains_key(key),
        pkt.hdr.src_port == key.local_port,
        pkt.hdr.dst_port == key.peer_port,
    ensures
        ({
            let blocked = muxer.recv_read(key, pkt, Err(IoError::WouldBlock), now);
            let (settled, ctl) = muxer.settled(key, now);
            &&& ctl is None ==> blocked == settled.recv_next(pkt, now)
            &&& ctl is Some ==> blocked == (
                settled,
                pkt,
                RecvStep::Ctl { ctl: ctl->0, got: false },
            )
        }),
        ({
            let (after, out, step) = muxer.recv_read(key, pkt, Err(IoError::Os(code)), now);
            &&& out.hdr.op == 3
            &&& out.hdr.src_port == pkt.hdr.src_port
            &&& out.hdr.dst_port == pkt.hdr.dst_port
            &&& step == RecvStep::Done || step is Ctl && step->got && step->ctl.key == key
            &&& step == RecvStep::Done ==> !after.conns.contains_key(key)
            &&& others_untouched(muxer, after, key.local_port, key.peer_port)
        }),
{
    assert(muxer.with_conn(key, muxer.conns[key]) =~= muxer);
}

/// Once a change to what a stream is watched for was tried, a packet that was complete is handed
/// out as it is. Otherwise, the next one is looked for.
pub proof fn complete_packet_is_handed_out(
    muxer: MuxerView,
    ctl: ListenerCtl,
    pkt: PacketView,
    ok: bool,
    now: u64,
)
    ensures
        ({
            let (after, out, step) = muxer.recv_ctl(ctl, true, pkt, ok, now);
            let tried = muxer.ctl_done(ctl, ok);
            &&& step == RecvStep::Done
            &&& out == pkt
            &&& pkt.hdr.op == 3 ==> connection_removed(
                tried,
                after,
                pkt.hdr.src_port,
                pkt.hdr.dst_port,
            )
            &&& pkt.hdr.op != 3 ==> after == tried
        }),
        muxer.recv_ctl(ctl, false, pkt, ok, now) == muxer.ctl_done(ctl, ok).recv_next(pkt, now),
{
}

/// A new connection for the guest, once the host socket was connected to: it is between the ports
/// that the guest named, with the guest's credit, and it owes the guest a response. With too many
/// connections, or without a host socket, the guest is answered by an RST instead.
pub proof fn guest_connection_is_made(
    muxer: MuxerView,
    req: PeerRequestView,
    res: Result<i32, IoError>,
)
    ensures
        ({
            let (after, new) = muxer.connected(req, res);
            let rst = MuxerRx::RstPkt { local_port: req.local_port, peer_port: req.peer_port };
            let fits = muxer.conns.dom().len() < 1023;
            &&& new is Some <==> res is Ok && fits
            &&& new is Some ==> {
                let conn = new->0.conn;
                &&& after == muxer
                &&& new->0.origin == Origin::Guest
                &&& new->0.key.local_port == req.local_port
                &&& new->0.key.peer_port == req.peer_port
                &&& conn.state == ConnState::PeerInit
                &&& conn.fd == res->Ok_0
                &&& conn.peer_cid == muxer.cid
                &&& conn.local_port == req.local_port
                &&& conn.peer_port == req.peer_port
                &&& conn.peer_credit() == req.buf_alloc
                &&& conn.tx.bytes.len() == 0
                &&& conn.fwd_cnt == 0 && conn.rx_cnt == 0 && conn.muxer_flags == 0
                &&& forall|it: PendingRx| #[trigger]
                    conn.pending.contains(it) <==> it == PendingRx::Response
            }
            &&& new is None ==> {
                &&& after == MuxerView { rxq: after.rxq, cmds: after.cmds, ..muxer }
                &&& after.rxq.synced == muxer.rxq.synced
                &&& muxer.rxq.q.len() < 256 ==> after.rxq.q == muxer.rxq.q.push(rst)
                &&& muxer.rxq.q.len() >= 256 ==> after.rxq.q == muxer.rxq.q
                &&& after.cmds == (if res is Ok {
                    muxer.cmds.push(HostCmd::Close(res->Ok_0))
                } else {
                    muxer.cmds
                })
            }
        }),
{
}

/// A new connection for the host, once it has named a port: it is between that port of the guest's
/// and a port of ours that was free, which is taken from then on, and it owes the guest a request.
/// The stream is closed if it has not named a port, or if there are too many connections.
pub proof fn host_connection_is_made(muxer: MuxerView, fd: i32, res: Result<Seq<u8>, IoError>)
    requires
        muxer.free_port() is Some,
    ensures
        ({
            let (after, new) = muxer.local_request(fd, res);
            let port = muxer.free_port()->0;
            let named = res is Ok && crate::unix::muxer::port_request::requested_port(
                res->Ok_0,
            ) is Some;
            let fits = muxer.conns.dom().len() < 1023;
            &&& new is Some <==> named && fits
            &&& new is Some ==> {
                let conn = new->0.conn;
                &&& after == MuxerView { ports: muxer.ports.insert(port), last_port: port, ..muxer }
                &&& new->0.origin == Origin::Host
                &&& new->0.key.local_port == port
                &&& Some(new->0.key.peer_port)
                    == crate::unix::muxer::port_request::requested_port(res->Ok_0)
                &&& conn.state == ConnState::LocalInit
                &&& conn.fd == fd
                &&& conn.peer_cid == muxer.cid
                &&& conn.local_port == port
                &&& conn.peer_port == new->0.key.peer_port
                &&& conn.peer_credit() == 0
                &&& conn.tx.bytes.len() == 0
                &&& conn.fwd_cnt == 0 && conn.rx_cnt == 0 && conn.muxer_flags == 0
                &&& forall|it: PendingRx| #[trigger]
                    conn.pending.contains(it) <==> it == PendingRx::Request
            }
            &&& new is None ==> {
                &&& after.cmds == muxer.cmds.push(HostCmd::Close(fd))
                &&& after.rxq == muxer.rxq
                &&& after.conns == muxer.conns
                &&& after.ports.contains(port) == (muxer.ports.contains(port) && !named)
                &&& forall|other: u32|
                    other != port ==> #[trigger] after.ports.contains(other)
                        == muxer.ports.contains(other)
            }
        }),
{
}

/// When all ports of ours are taken, a host stream is closed, and nothing else changes.
pub proof fn host_is_turned_away_without_a_port(
    muxer: MuxerView,
    fd: i32,
    res: Result<Seq<u8>, IoError>,
)
    requires
        muxer.free_port() is None,
    ensures
        muxer.local_request(fd, res).1 is None,
        muxer.local_request(fd, res).0 == (MuxerView {
            cmds: muxer.cmds.push(HostCmd::Close(fd)),
            ..muxer
        }),
{
}

/// A connection that is under watch joins the pool. Its stream is noted as watched for input, and
/// it joins the RX queue for the packet that it owes. One that could not be put under watch, or for
/// which there is no room, is closed, and either the guest is told by an RST, or the port is free
/// again.
pub proof fn watched_connection_joins(muxer: MuxerView, new: NewConnView, ok: bool)
    requires
        new.conn.has_pending(),
        new.conn.muxer_flags == 0,
    ensures
        ({
            let after = muxer.joined(new, ok);
            let rst = MuxerRx::RstPkt {
                local_port: new.key.local_port,
                peer_port: new.key.peer_port,
            };
            if ok && muxer.conns.dom().len() < 1023 {
                &&& after.conns.contains_key(new.key)
                &&& after.conns[new.key] == ConnView {
                    muxer_flags: after.conns[new.key].muxer_flags,
                    ..new.conn
                }
                &&& others_untouched(muxer, after, new.key.local_port, new.key.peer_port)
                &&& after.listeners == muxer.listeners.insert(
                    new.conn.fd,
                    EpollListener::Connection { key: new.key, evset: EventSet { bits: 1 } },
                )
                &&& muxer.rxq.q.len() < 256 ==> {
                    &&& after.rxq.q == muxer.rxq.q.push(MuxerRx::ConnRx(new.key))
                    &&& after.rxq.synced == muxer.rxq.synced
                    &&& after.conns[new.key].muxer_flags == 1
                }
                &&& muxer.rxq.q.len() >= 256 ==> {
                    &&& after.rxq.q == muxer.rxq.q
                    &&& !after.rxq.synced
                    &&& after.conns[new.key].muxer_flags == 0
                }
                &&& after.cmds == (if muxer.conns.contains_key(new.key) {
                    muxer.cmds.push(HostCmd::Close(muxer.conns[new.key].fd))
                } else {
                    muxer.cmds
                })
                &&& after.ports == muxer.ports
                &&& after.killq == muxer.killq
            } else {
                &&& after.cmds == muxer.cmds.push(HostCmd::Close(new.conn.fd))
                &&& after.conns == muxer.conns
                &&& after.listeners == muxer.listeners
                &&& new.origin == Origin::Guest ==> {
                    &&& after.ports == muxer.ports
                    &&& after.rxq.synced == muxer.rxq.synced
                    &&& muxer.rxq.q.len() < 256 ==> after.rxq.q == muxer.rxq.q.push(rst)
                    &&& muxer.rxq.q.len() >= 256 ==> after.rxq.q == muxer.rxq.q
                }
                &&& new.origin == Origin::Host ==> {
                    &&& after.rxq == muxer.rxq
                    &&& after.ports == muxer.ports.remove(new.key.local_port)
                }
            }
        }),
{
    assert(0u16 & 1 == 0 && 0u16 | 1 == 1) by (bit_vector);
}

/// The ports that are `1`, `2`, ..., `d - 1` after `port`, cyclically, are all taken, and the one
/// that is `d` after it is not, if that is the one found.
proof fn lemma_first_free(taken: Set<u32>, port: u32, tries: nat) -> (d: nat)
    requires
        port >= 0x8000_0000,
        tries <= 0x8000_0000,
        crate::unix::muxer::model::first_free(taken, port, tries) is Some,
    ensures
        1 <= d <= tries,
        crate::unix::muxer::model::first_free(taken, port, tries)->0 == 0x8000_0000 + (port
            - 0x8000_0000 + d) % 0x8000_0000,
        !taken.contains(crate::unix::muxer::model::first_free(taken, port, tries)->0),
        forall|e: int|
            1 <= e < d ==> taken.contains(
                #[trigger] ((0x8000_0000 + (port - 0x8000_0000 + e) % 0x8000_0000) as u32),
            ),
    decreases tries,
{
    let next = crate::unix::muxer::model::next_port(port);
    if !taken.contains(next) {
        1
    } else {
        let d = lemma_first_free(taken, next, (tries - 1) as nat) + 1;
        assert forall|e: int| 1 <= e < d implies taken.contains(
            #[trigger] ((0x8000_0000 + (port - 0x8000_0000 + e) % 0x8000_0000) as u32),
        ) by {
            if e == 1 {
                assert(next == 0x8000_0000 + (port - 0x8000_0000 + 1) % 0x8000_0000);
            } else {
                let shifted = (0x8000_0000 + (next - 0x8000_0000 + (e - 1)) % 0x8000_0000) as u32;
                assert(taken.contains(shifted));
                assert(shifted == (0x8000_0000 + (port - 0x8000_0000 + e) % 0x8000_0000) as u32);
            }
        }
        d
    }
}

/// A host connection is given the first free port after the one that was given last: ports are
/// given from the upper half of all ports, in turn, and those in between are all taken.
pub proof fn ports_are_given_in_turn(muxer: MuxerView)
    requires
        muxer.last_port >= 0x8000_0000,
        muxer.free_port() is Some,
    ensures
        muxer.free_port()->0 >= 0x8000_0000,
        !muxer.ports.contains(muxer.free_port()->0),
        exists|d: int|
            {
                &&& 1 <= d <= 0x8000_0000
                &&& muxer.free_port()->0 == #[trigger] (0x8000_0000 + (muxer.last_port - 0x8000_0000
                    + d) % 0x8000_0000)
                &&& forall|e: int|
                    1 <= e < d ==> muxer.ports.contains(
                        #[trigger] ((0x8000_0000 + (muxer.last_port - 0x8000_0000 + e)
                            % 0x8000_0000) as u32),
                    )
            },
{
    let d = lemma_first_free(muxer.ports, muxer.last_port, 0x8000_0000);
    assert(muxer.free_port()->0 == 0x8000_0000 + (muxer.last_port - 0x8000_0000 + d as int)
        % 0x8000_0000);
}

/// An event is for whoever is behind the file descriptor. On the host socket, a connection is to be
/// accepted. From a stream that has yet to name a port, that is to be read, and it is no longer
/// watched. A connection handles its event. An event on any other descriptor is ignored.
pub proof fn event_goes_to_its_listener(muxer: MuxerView, fd: i32, now: u64)
    requires
        forall|key: ConnMapKey| #[trigger]
            muxer.conns.contains_key(key) ==> muxer.conns[key].tx.wf(),
    ensures
        ({
            let (after, step) = muxer.event(fd, now);
            let known = muxer.listeners.contains_key(fd);
            let listener = muxer.listeners[fd];
            let key = listener->key;
            &&& !known ==> step == EventStepView::Idle && after == muxer
            &&& known && listener is HostSock ==> step == EventStepView::Accept && after == muxer
            &&& known && listener is LocalStream ==> {
                &&& step == EventStepView::ReadPort(fd)
                &&& after.listeners == muxer.listeners.remove(fd)
                &&& after.cmds == muxer.cmds.push(HostCmd::EpollDel(fd))
                &&& after == MuxerView { listeners: after.listeners, cmds: after.cmds, ..muxer }
            }
            &&& known && listener is Connection && !muxer.conns.contains_key(key) ==> {
                &&& step == EventStepView::Idle
                &&& after == muxer
            }
            &&& known && listener is Connection && muxer.conns.contains_key(key) ==> {
                let conn = muxer.conns[key];
                let told = after.conns[key];
                &&& step is Conn
                &&& others_untouched(muxer, after, key.local_port, key.peer_port)
                &&& after.conns.contains_key(key)
                &&& told == ConnView {
                    pending: told.pending,
                    muxer_flags: told.muxer_flags,
                    ..conn
                }
                &&& told.pending == (if listener->evset.bits & 1 == 1 {
                    conn.pending.insert(PendingRx::Rw)
                } else {
                    conn.pending
                })
                &&& step->Conn_0 is Write <==> listener->evset.bits & 4 == 4
                    && conn.tx.bytes.len() > 0
                &&& step->Conn_0 is Write ==> {
                    &&& step->Conn_0->Write_0.key == key
                    &&& step->Conn_0->Write_0.fd == conn.fd
                    &&& step->Conn_0->Write_0.job.kind == TxKind::Flush
                    &&& step->Conn_0->Write_0.job.payload.len() == 0
                    &&& step->Conn_0->Write_0.data.is_prefix_of(conn.tx.bytes)
                }
            }
        }),
{
    if muxer.listeners.contains_key(fd) && muxer.listeners[fd] is Connection {
        let key = muxer.listeners[fd]->key;
        if muxer.conns.contains_key(key) {
            let conn = muxer.conns[key];
            let n = conn.tx.front_len();
            if conn.has_data() && 0 <= n <= conn.tx.bytes.len() {
                assert(conn.tx.front() =~= conn.tx.bytes.subrange(0, n));
            }
        }
    }
}

/// A stream that was accepted is watched for the port that it is to name, or else closed.
pub proof fn accepted_stream_is_watched(muxer: MuxerView, fd: i32)
    ensures
        muxer.local_watched(fd, true) == (MuxerView {
            listeners: muxer.listeners.insert(fd, EpollListener::LocalStream),
            ..muxer
        }),
        muxer.local_watched(fd, false) == (MuxerView {
            cmds: muxer.cmds.push(HostCmd::Close(fd)),
            ..muxer
        }),
{
}

/// A write to a connection's stream is accounted for by that connection: what is left to be written
/// comes back, and everything else about it is what the connection makes of it, but for the muxer's
/// notes.
pub proof fn write_is_accounted_for(
    muxer: MuxerView,
    key: ConnMapKey,
    job: TxJobView,
    res: Result<usize, IoError>,
    now: u64,
)
    requires
        muxer.conns.contains_key(key),
    ensures
        ({
            let (conn, next) = muxer.conns[key].tx_written(job, res);
            let (after, step) = muxer.written(key, job, res, now);
            &&& others_untouched(muxer, after, key.local_port, key.peer_port)
            &&& after.conns.contains_key(key)
            &&& after.conns[key] == ConnView { muxer_flags: after.conns[key].muxer_flags, ..conn }
            &&& next is Some <==> step is Write
            &&& next is Some ==> {
                &&& step->Write_0.key == key
                &&& step->Write_0.fd == muxer.conns[key].fd
                &&& step->Write_0.job == next->0
                &&& step->Write_0.data == conn.tx_chunk(next->0)
            }
        }),
{
}

/// The kill queue is swept once three seconds have passed since it was last swept, and a connection
/// in it is terminated once two seconds have passed since it joined (in nanoseconds).
pub proof fn timeouts_are_kept(muxer: MuxerView, item: MuxerKillQItem, now: u64)
    ensures
        muxer.sweep_due(now) <==> now - muxer.last_sweep >= 3_000_000_000,
        item.timed_out(now) <==> now - item.sched_time >= 2_000_000_000,
        muxer.killq.front_timed_out(now) <==> muxer.killq.q.len() > 0 && now
            - muxer.killq.q[0].sched_time >= 2_000_000_000,
{
}

/// Terminating connections whose time has come spares all others: a connection none of whose items
/// in the kill queue has timed out stays as it is.
pub proof fn reaping_spares_the_rest(muxer: MuxerView, key: ConnMapKey, now: u64)
    requires
        muxer.conns.contains_key(key),
        forall|i: int|
            0 <= i < muxer.killq.q.len() && (#[trigger] muxer.killq.q[i]).key == key ==> now
                - muxer.killq.q[i].sched_time < 2_000_000_000,
    ensures
        muxer.reaped(now).conns.contains_key(key),
        muxer.reaped(now).conns[key] == muxer.conns[key],
    decreases muxer.killq.q.len(),
{
    if muxer.killq.front_timed_out(now) {
        let q = muxer.killq.q.skip(1);
        let popped = MuxerView { killq: KillQView { q, ..muxer.killq }, ..muxer };
        let next = popped.terminated(muxer.killq.q[0].key);
        timeouts_are_kept(muxer, muxer.killq.q[0], now);
        terminating_a_connection(popped, muxer.killq.q[0].key);
        assert(next.killq.q == q);
        assert forall|i: int| 0 <= i < q.len() && (#[trigger] q[i]).key == key implies now
            - q[i].sched_time < 2_000_000_000 by {
            assert(q[i] == muxer.killq.q[i + 1]);
        }
        assert(next.conns.contains_key(key) && next.conns[key] == muxer.conns[key]);
        reaping_spares_the_rest(next, key, now);
    }
}

/// Reaping takes items off the front of the kill queue, as long as they have timed out, and no
/// others.
pub proof fn reaping_takes_what_timed_out(muxer: MuxerView, now: u64)
    ensures
        exists|n: int|
            {
                &&& 0 <= n <= muxer.killq.q.len()
                &&& muxer.reaped(now).killq.q == #[trigger] muxer.killq.q.skip(n)
                &&& forall|i: int|
                    0 <= i < n ==> now - (#[trigger] muxer.killq.q[i]).sched_time >= 2_000_000_000
                &&& n < muxer.killq.q.len() ==> now - muxer.killq.q[n].sched_time < 2_000_000_000
            },
    decreases muxer.killq.q.len(),
{
    let q = muxer.killq.q;
    if muxer.killq.front_timed_out(now) {
        let rest = q.skip(1);
        let popped = MuxerView { killq: KillQView { q: rest, ..muxer.killq }, ..muxer };
        let next = popped.terminated(q[0].key);
        terminating_a_connection(popped, q[0].key);
        assert(next.killq.q == rest);
        reaping_takes_what_timed_out(next, now);
        let m = choose|m: int|
            {
                &&& 0 <= m <= rest.len()
                &&& next.reaped(now).killq.q == #[trigger] rest.skip(m)
                &&& forall|i: int|
                    0 <= i < m ==> now - (#[trigger] rest[i]).sched_time >= 2_000_000_000
                &&& m < rest.len() ==> now - rest[m].sched_time < 2_000_000_000
            };
        assert(rest.skip(m) =~= q.skip(m + 1));
        assert forall|i: int| 0 <= i < m + 1 implies now - (#[trigger] q[i]).sched_time
            >= 2_000_000_000 by {
            if i > 0 {
                assert(rest[i - 1] == q[i]);
            }
        }
        if m + 1 < q.len() {
            assert(rest[m] == q[m + 1]);
        }
        assert(muxer.reaped(now).killq.q == q.skip(m + 1));
    } else {
        assert(q.skip(0) =~= q);
    }
}

/// A sweep of a kill queue that is not synchronized fills it up: connections that are up for
/// termination, and are not noted to be in it, follow what is in it, scheduled from now on. It has
/// all of them, or else is full, and still not synchronized.
pub proof fn kill_queue_is_filled_up(
    killq: KillQView,
    conns: Map<ConnMapKey, ConnView>,
    now: u64,
    after: KillQView,
)
    requires
        crate::unix::muxer::killq::kill_synced(killq, conns, now, after),
    ensures
        killq.q.is_prefix_of(after.q),
        forall|i: int|
            killq.q.len() <= i < after.q.len() ==> {
                &&& (#[trigger] after.q[i]).sched_time == now
                &&& conns.contains_key(after.q[i].key)
                &&& conns[after.q[i].key].shutting_down()
                &&& conns[after.q[i].key].muxer_flags & 2 == 0
            },
        forall|i: int, j: int|
            killq.q.len() <= i < j < after.q.len() ==> (#[trigger] after.q[i]).key != (
            #[trigger] after.q[j]).key,
        after.synced ==> forall|key: ConnMapKey|
            #![trigger conns.contains_key(key)]
            conns.contains_key(key) && conns[key].shutting_down() && conns[key].muxer_flags & 2
                == 0 ==> crate::unix::muxer_killq::queued(after.q, key),
        !after.synced ==> after.q.len() == 128,
{
    let keys = choose|keys: Seq<ConnMapKey>| #[trigger]
        crate::unix::muxer::killq::kill_synced_with(killq, conns, now, after, keys);
    let n = killq.q.len() as int;
    assert(killq.q =~= after.q.subrange(0, n));
    assert forall|i: int| n <= i < after.q.len() implies {
        &&& (#[trigger] after.q[i]).sched_time == now
        &&& conns.contains_key(after.q[i].key)
        &&& conns[after.q[i].key].shutting_down()
        &&& conns[after.q[i].key].muxer_flags & 2 == 0
    } by {
        assert(after.q[i].key == keys[i - n]);
        assert(keys.contains(keys[i - n]));
    }
    assert forall|i: int, j: int| n <= i < j < after.q.len() implies (#[trigger] after.q[i]).key
        != (#[trigger] after.q[j]).key by {
        assert(keys[i - n] != keys[j - n]);
    }
    if after.synced {
        assert forall|key: ConnMapKey|
            #![trigger conns.contains_key(key)]
            conns.contains_key(key) && conns[key].shutting_down() && conns[key].muxer_flags & 2
                == 0 implies crate::unix::muxer_killq::queued(after.q, key) by {
            assert(crate::unix::muxer::killq::unscheduled(conns).contains(key));
            let i = keys.index_of(key);
            assert(after.q[n + i].key == key);
        }
    }
}

/// A sweep terminates what has timed out, and notes its time. Apart from that, only the kill queue
/// changes, and only if it is not synchronized.
pub proof fn sweep_reaps(muxer: MuxerView, now: u64, after: MuxerView)
    requires
        muxer.swept(now, after),
    ensures
        ({
            let reaped = MuxerView { last_sweep: now, ..muxer }.reaped(now);
            &&& after == MuxerView { killq: after.killq, ..reaped }
            &&& reaped.killq.synced ==> after == reaped
            &&& !reaped.killq.synced ==> crate::unix::muxer::killq::kill_synced(
                reaped.killq,
                reaped.conns,
                now,
                after.killq,
            )
        }),
{
}

/// A new muxer has no connections, watches the host socket only, and has given no ports.
pub proof fn new_muxer_starts_from_nothing(
    cid: u64,
    path: Seq<u8>,
    epoll_fd: i32,
    host_fd: i32,
    now: u64,
)
    ensures
        ({
            let muxer = MuxerView::fresh(cid, path, epoll_fd, host_fd, now);
            &&& muxer.cid == cid
            &&& muxer.path == path
            &&& muxer.epoll_fd == epoll_fd
            &&& forall|key: ConnMapKey| !#[trigger] muxer.conns.contains_key(key)
            &&& forall|fd: i32| #[trigger] muxer.listeners.contains_key(fd) <==> fd == host_fd
            &&& muxer.listeners[host_fd] == EpollListener::HostSock
            &&& muxer.rxq.q.len() == 0 && muxer.rxq.synced
            &&& muxer.killq.q.len() == 0 && muxer.killq.synced
            &&& forall|port: u32| !#[trigger] muxer.ports.contains(port)
            &&& muxer.last_port == 0x8000_0000
            &&& muxer.last_sweep == now
            &&& muxer.cmds.len() == 0
        }),
{
}


} // verus!
