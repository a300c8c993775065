//! What each call on a connection does, by what goes in and what comes out.

use vstd::prelude::*;

use crate::channel::{VsockChannel, VsockEpollListener};
use crate::error::{IoError, VsockError};
use crate::events::EventSet;
use crate::packet::PacketView;
use crate::uapi::{
    VSOCK_FLAGS_SHUTDOWN_RCV, VSOCK_FLAGS_SHUTDOWN_SEND, VSOCK_OP_CREDIT_REQUEST,
    VSOCK_OP_CREDIT_UPDATE, VSOCK_OP_REQUEST, VSOCK_OP_RESPONSE, VSOCK_OP_RST, VSOCK_OP_RW,
    VSOCK_OP_SHUTDOWN,
};
use crate::unix::conn_model::{ConnRecv, ConnState, ConnView, TxJob, TxJobView, TxKind};
use crate::unix::connection::VsockConnection;
use crate::unix::pending::PendingRx;

verus! {

/// Whether a packet from the guest, sent at the time `now`, took a connection from `before` to
/// `after`, with `job` left to be done.
pub open spec fn sends(
    before: VsockConnection,
    pkt: PacketView,
    now: u64,
    after: VsockConnection,
    job: Option<TxJob>,
) -> bool {
    <VsockConnection as VsockChannel>::sent(before, pkt, now, after, job)
}

/// Whether a request for a packet took a connection from `before` to `after`, with the packet as
/// `out`, and `step` left to be done.
pub open spec fn receives(
    before: VsockConnection,
    room: PacketView,
    now: u64,
    after: VsockConnection,
    out: PacketView,
    step: ConnRecv,
) -> bool {
    <VsockConnection as VsockChannel>::received(before, room, now, after, out, step)
}

/// Whatever the guest sends, its credit is from then on the buffer size that the packet tells of,
/// less the bytes that were sent to the guest and that it has not consumed, as the packet tells
/// (modulo 2^32).
pub proof fn guest_report_sets_credit(
    before: VsockConnection,
    pkt: PacketView,
    now: u64,
    after: VsockConnection,
    job: Option<TxJob>,
)
    requires
        sends(before, pkt, now, after, job),
    ensures
        after@.rx_cnt == before@.rx_cnt,
        after@.peer_credit() == (pkt.hdr.buf_alloc - (before@.rx_cnt - pkt.hdr.fwd_cnt))
            % 0x1_0000_0000,
{
}

/// The guest's buffer is never overrun. Say that `total` bytes were sent to the guest so far, which
/// now reports to have consumed `consumed` of them, and that the rest fits the buffer that it
/// reports. Then its credit is just the room that is left, and the read for the next packet does
/// not ask for more than that.
pub proof fn guest_buffer_is_never_overrun(
    before: VsockConnection,
    pkt: PacketView,
    now: u64,
    after: VsockConnection,
    job: Option<TxJob>,
    total: nat,
    consumed: nat,
    room: PacketView,
    later: u64,
    asked: VsockConnection,
    out: PacketView,
    step: ConnRecv,
)
    requires
        sends(before, pkt, now, after, job),
        total % 0x1_0000_0000 == before@.rx_cnt,
        consumed % 0x1_0000_0000 == pkt.hdr.fwd_cnt,
        consumed <= total <= consumed + pkt.hdr.buf_alloc,
        receives(after, room, later, asked, out, step),
    ensures
        total + after@.peer_credit() == consumed + pkt.hdr.buf_alloc,
        step is Read ==> total + step->Read_0 <= consumed + pkt.hdr.buf_alloc,
        step is Read ==> 0 < after@.peer_credit(),
{
    guest_report_sets_credit(before, pkt, now, after, job);
}

/// A packet from the guest does not change who the connection is between, what is buffered for the
/// host, what was counted in either direction, or the muxer's notes.
pub proof fn guest_packet_leaves_the_rest_alone(
    before: VsockConnection,
    pkt: PacketView,
    now: u64,
    after: VsockConnection,
    job: Option<TxJob>,
)
    requires
        sends(before, pkt, now, after, job),
    ensures
        after@.peer_cid == before@.peer_cid,
        after@.local_port == before@.local_port,
        after@.peer_port == before@.peer_port,
        after@.fd == before@.fd,
        after@.tx == before@.tx,
        after@.fwd_cnt == before@.fwd_cnt,
        after@.rx_cnt == before@.rx_cnt,
        after@.last_fwd_cnt_to_peer == before@.last_fwd_cnt_to_peer,
        after@.muxer_flags == before@.muxer_flags,
{
}

/// Data from a guest that has not shut down sending is to go to the host: byte for byte, as much
/// of the packet's buffer as the header tells. There is data to go to the host in no other case.
pub proof fn guest_data_goes_to_the_host(
    before: VsockConnection,
    pkt: PacketView,
    now: u64,
    after: VsockConnection,
    job: Option<TxJob>,
)
    requires
        sends(before, pkt, now, after, job),
        pkt.data_fits(),
    ensures
        job is Some && job->0.kind == TxKind::Data <==> {
            &&& pkt.hdr.op == VSOCK_OP_RW
            &&& pkt.buf is Some
            &&& before@.state == ConnState::Established || before@.state is PeerClosed
                && !before@.state->PeerClosed_1
        },
        job is Some && job->0.kind == TxKind::Data ==> {
            &&& job->0.payload@.len() == pkt.hdr.len
            &&& forall|i: int|
                0 <= i < pkt.hdr.len ==> #[trigger] job->0.payload@[i] == pkt.buf->0[i]
            &&& after@.state == before@.state
            &&& after@.pending == before@.pending
        },
{
}

/// The host is sent a confirmation just when the guest accepts the connection that the host has
/// asked for. It reads `OK <port><EOL>`, where the port is ours.
pub proof fn host_is_sent_a_confirmation(
    before: VsockConnection,
    pkt: PacketView,
    now: u64,
    after: VsockConnection,
    job: Option<TxJob>,
)
    requires
        sends(before, pkt, now, after, job),
    ensures
        job is Some && job->0.kind == TxKind::Ack <==> before@.state == ConnState::LocalInit
            && pkt.hdr.op == VSOCK_OP_RESPONSE,
        job is Some && job->0.kind == TxKind::Ack ==> {
            let text = job->0.payload@;
            let digits = text.subrange(3, text.len() - 1);
            &&& text.len() >= 5
            &&& text[0] == 79 && text[1] == 75 && text[2] == 32
            &&& text[text.len() - 1] == 10
            &&& crate::text::all_digits(digits)
            &&& crate::text::number(digits) == before@.local_port
            &&& digits[0] == 48 ==> digits.len() == 1
            &&& after@.state == before@.state
            &&& after@.pending == before@.pending
        },
        job is Some ==> job->0.kind != TxKind::Flush,
{
    if job is Some && job->0.kind == TxKind::Ack {
        let text = job->0.payload@;
        let digits = crate::text::decimal(before@.local_port as nat);
        crate::text::number_of_decimal(before@.local_port as nat);
        crate::text::decimal_has_no_leading_zero(before@.local_port as nat);
        assert(text.subrange(3, text.len() - 1) =~= digits);
    }
}

/// A shutdown adds to what the guest has shut down before, and nothing else changes the state. Once
/// the guest has shut down both receiving and sending, and nothing is left to go to the host, the
/// shutdown makes for an RST that the guest is owed.
pub proof fn guest_shutdown_adds_up(
    before: VsockConnection,
    pkt: PacketView,
    now: u64,
    after: VsockConnection,
    job: Option<TxJob>,
)
    requires
        sends(before, pkt, now, after, job),
    ensures
        ({
            let open = before@.state == ConnState::Established;
            let closing = before@.state is PeerClosed;
            let recv_off = closing && before@.state->PeerClosed_0 || pkt.hdr.flags
                & VSOCK_FLAGS_SHUTDOWN_RCV != 0;
            let send_off = closing && before@.state->PeerClosed_1 || pkt.hdr.flags
                & VSOCK_FLAGS_SHUTDOWN_SEND != 0;
            if pkt.hdr.op == VSOCK_OP_SHUTDOWN && (open || closing) {
                &&& job is None
                &&& after@.state == ConnState::PeerClosed(recv_off, send_off)
                &&& recv_off && send_off && before@.tx.bytes.len() == 0 ==> after@.pending
                    == before@.pending.insert(PendingRx::Rst)
                &&& !(recv_off && send_off && before@.tx.bytes.len() == 0) ==> after@.pending
                    == before@.pending
            } else {
                &&& after@.state == before@.state
                &&& after@.pending.contains(PendingRx::Rst) == before@.pending.contains(
                    PendingRx::Rst,
                )
            }
        }),
{
}

/// A guest that asks for a credit update is owed one, unless it is through with sending, or the
/// connection is not its own yet. Apart from that and from an RST, a guest packet changes nothing
/// about what the guest is owed.
pub proof fn credit_request_is_heard(
    before: VsockConnection,
    pkt: PacketView,
    now: u64,
    after: VsockConnection,
    job: Option<TxJob>,
)
    requires
        sends(before, pkt, now, after, job),
    ensures
        ({
            let heard = pkt.hdr.op == VSOCK_OP_CREDIT_REQUEST && (before@.state
                == ConnState::Established || before@.state == ConnState::PeerInit || before@.state
                is PeerClosed && !before@.state->PeerClosed_1);
            after@.pending.contains(PendingRx::CreditUpdate) == (heard || before@.pending.contains(
                PendingRx::CreditUpdate,
            ))
        }),
        forall|it: PendingRx|
            it != PendingRx::CreditUpdate && it != PendingRx::Rst ==> #[trigger]
                after@.pending.contains(it) == before@.pending.contains(it),
{
}

/// A packet for the guest is addressed to it, from our port to its port, and tells it of our
/// credit: the size of our buffer, and how much of its data the host has taken.
pub proof fn packet_is_addressed_to_the_guest(
    before: VsockConnection,
    room: PacketView,
    now: u64,
    after: VsockConnection,
    out: PacketView,
    step: ConnRecv,
)
    requires
        receives(before, room, now, after, out, step),
    ensures
        out.hdr.src_cid == 2,
        out.hdr.dst_cid == before@.peer_cid,
        out.hdr.src_port == before@.local_port,
        out.hdr.dst_port == before@.peer_port,
        out.hdr.type_ == 1,
        out.hdr.len == 0,
        out.hdr.flags == 0,
        out.hdr.buf_alloc == 262144,
        out.hdr.fwd_cnt == before@.fwd_cnt,
        out.buf == room.buf,
{
}

/// What the guest is owed comes first: an RST, then a response, then a request, one at a time. With
/// the response, the connection is established.
pub proof fn owed_packets_come_first(
    before: VsockConnection,
    room: PacketView,
    now: u64,
    after: VsockConnection,
    out: PacketView,
    step: ConnRecv,
)
    requires
        receives(before, room, now, after, out, step),
    ensures
        before@.pending.contains(PendingRx::Rst) ==> {
            &&& step == ConnRecv::Ready
            &&& out.hdr.op == VSOCK_OP_RST
            &&& after@.pending == before@.pending.remove(PendingRx::Rst)
            &&& after@.state == before@.state
        },
        !before@.pending.contains(PendingRx::Rst) && before@.pending.contains(PendingRx::Response)
            ==> {
            &&& step == ConnRecv::Ready
            &&& out.hdr.op == VSOCK_OP_RESPONSE
            &&& after@.pending == before@.pending.remove(PendingRx::Response)
            &&& after@.state == ConnState::Established
        },
        !before@.pending.contains(PendingRx::Rst) && !before@.pending.contains(PendingRx::Response)
            && before@.pending.contains(PendingRx::Request) ==> {
            &&& step == ConnRecv::Ready
            &&& out.hdr.op == VSOCK_OP_REQUEST
            &&& after@.pending == before@.pending.remove(PendingRx::Request)
            &&& after@.state == before@.state
        },
{
}

/// A credit update that the guest is owed makes a packet of its own only if nothing else is owed,
/// since every packet tells of our credit. Afterwards, nothing is owed any more.
pub proof fn credit_update_goes_alone(
    before: VsockConnection,
    room: PacketView,
    now: u64,
    after: VsockConnection,
    out: PacketView,
    step: ConnRecv,
)
    requires
        receives(before, room, now, after, out, step),
    ensures
        out.hdr.op == VSOCK_OP_CREDIT_UPDATE <==> {
            &&& before@.pending.contains(PendingRx::CreditUpdate)
            &&& forall|it: PendingRx| #[trigger]
                before@.pending.contains(it) ==> it == PendingRx::CreditUpdate
        },
        out.hdr.op == VSOCK_OP_CREDIT_UPDATE ==> {
            &&& step == ConnRecv::Ready
            &&& forall|it: PendingRx| !#[trigger] after@.pending.contains(it)
            &&& after@.state == before@.state
            &&& after@.last_fwd_cnt_to_peer == before@.fwd_cnt
        },
{
    let rest = before@.pending.remove(PendingRx::CreditUpdate);
    if forall|it: PendingRx| #[trigger]
        before@.pending.contains(it) ==> it == PendingRx::CreditUpdate {
        assert(rest =~= Set::<PendingRx>::empty());
    } else {
        let it = choose|it: PendingRx| #[trigger]
            before@.pending.contains(it) && it != PendingRx::CreditUpdate;
        assert(rest.contains(it));
    }
}

/// Whether none of the packets that come before data is owed: no RST, no response, no request, and
/// no credit update, or one that comes with data.
pub open spec fn data_is_next(conn: ConnView) -> bool {
    &&& !conn.pending.contains(PendingRx::Rst)
    &&& !conn.pending.contains(PendingRx::Response)
    &&& !conn.pending.contains(PendingRx::Request)
    &&& conn.pending.contains(PendingRx::CreditUpdate) ==> conn.pending.contains(PendingRx::Rw)
}

/// A guest that has not shut down receiving, whether or not it still sends, gets data from the
/// host: as much is read as its credit and the packet have room for. If it has no credit, it is
/// asked for a credit update.
pub proof fn receiving_guest_gets_data(
    before: VsockConnection,
    room: PacketView,
    now: u64,
    after: VsockConnection,
    out: PacketView,
    step: ConnRecv,
)
    requires
        receives(before, room, now, after, out, step),
        room.buf is Some,
        data_is_next(before@),
        before@.state == ConnState::Established || before@.state is PeerClosed
            && !before@.state->PeerClosed_0,
    ensures
        ({
            let credit = (before@.peer_buf_alloc - (before@.rx_cnt - before@.peer_fwd_cnt))
                % 0x1_0000_0000;
            let space = room.buf->0.len();
            if credit == 0 {
                &&& step == ConnRecv::Ready
                &&& out.hdr.op == VSOCK_OP_CREDIT_REQUEST
                &&& after@.last_fwd_cnt_to_peer == before@.fwd_cnt
            } else {
                &&& step is Read
                &&& step->Read_0 <= credit
                &&& step->Read_0 <= space
                &&& step->Read_0 == credit || step->Read_0 == space
                &&& out.hdr.op == 0
                &&& after@.last_fwd_cnt_to_peer == before@.last_fwd_cnt_to_peer
            }
        }),
        after@.state == before@.state,
        after@.pending == before@.pending.remove(PendingRx::Rw).remove(PendingRx::CreditUpdate),
{
    lemma_data_is_next(before@);
    assert(after@.pending =~= before@.pending.remove(PendingRx::Rw).remove(
        PendingRx::CreditUpdate,
    ));
}

/// A credit update that comes with data is not alone.
proof fn lemma_data_is_next(conn: ConnView)
    requires
        data_is_next(conn),
    ensures
        conn.pending.contains(PendingRx::CreditUpdate) ==> conn.not_owing(
            PendingRx::CreditUpdate,
        ).has_pending(),
{
    if conn.pending.contains(PendingRx::CreditUpdate) {
        assert(conn.not_owing(PendingRx::CreditUpdate).pending.contains(PendingRx::Rw));
    }
}

/// The guest is sent an RST only if it is owed one, or if it asks for data that it cannot get:
/// because it has shut down receiving, or because the connection is not, or no longer, open.
pub proof fn no_rst_without_cause(
    before: VsockConnection,
    room: PacketView,
    now: u64,
    after: VsockConnection,
    out: PacketView,
    step: ConnRecv,
)
    requires
        receives(before, room, now, after, out, step),
    ensures
        out.hdr.op == VSOCK_OP_RST <==> before@.pending.contains(PendingRx::Rst) || {
            &&& data_is_next(before@)
            &&& before@.state != ConnState::Established
            &&& !(before@.state is PeerClosed && !before@.state->PeerClosed_0)
        },
        out.hdr.op == VSOCK_OP_RST ==> step == ConnRecv::Ready && after@.state == before@.state,
{
    let rest = before@.pending.remove(PendingRx::CreditUpdate);
    if data_is_next(before@) {
        lemma_data_is_next(before@);
    } else if before@.pending.contains(PendingRx::CreditUpdate) && !before@.pending.contains(
        PendingRx::Rw,
    ) && !before@.pending.contains(PendingRx::Rst) && !before@.pending.contains(PendingRx::Response)
        && !before@.pending.contains(PendingRx::Request) {
        assert(rest =~= Set::<PendingRx>::empty());
    }
}

/// Asking for a packet does not change who the connection is between, what is buffered for the
/// host, the guest's credit, what was counted in either direction, or the muxer's notes.
pub proof fn asking_leaves_the_rest_alone(
    before: VsockConnection,
    room: PacketView,
    now: u64,
    after: VsockConnection,
    out: PacketView,
    step: ConnRecv,
)
    requires
        receives(before, room, now, after, out, step),
    ensures
        after@.peer_cid == before@.peer_cid,
        after@.local_port == before@.local_port,
        after@.peer_port == before@.peer_port,
        after@.fd == before@.fd,
        after@.tx == before@.tx,
        after@.fwd_cnt == before@.fwd_cnt,
        after@.peer_buf_alloc == before@.peer_buf_alloc,
        after@.peer_fwd_cnt == before@.peer_fwd_cnt,
        after@.rx_cnt == before@.rx_cnt,
        after@.muxer_flags == before@.muxer_flags,
        before@.pending.contains(PendingRx::Rst) || before@.pending.contains(PendingRx::Response)
            || before@.pending.contains(PendingRx::Request) ==> after@.last_fwd_cnt_to_peer
            == before@.last_fwd_cnt_to_peer,
{
}

/// What is read from the host reaches the guest: byte for byte, at the start of the packet's
/// buffer, in a data packet of just that length. It counts as sent, and the guest is told of our
/// credit by the way.
pub proof fn host_data_reaches_the_guest(conn: ConnView, pkt: PacketView, data: Seq<u8>)
    requires
        pkt.buf is Some,
        0 < data.len() <= pkt.buf->0.len(),
        data.len() <= u32::MAX,
    ensures
        ({
            let (after, out, res) = conn.recv_finish(pkt, Ok(data));
            &&& res is Ok
            &&& out.hdr.op == VSOCK_OP_RW
            &&& out.hdr.len == data.len()
            &&& out.buf is Some
            &&& out.buf->0.len() == pkt.buf->0.len()
            &&& forall|i: int| 0 <= i < data.len() ==> #[trigger] out.buf->0[i] == data[i]
            &&& after.rx_cnt == (conn.rx_cnt + data.len()) % 0x1_0000_0000
            &&& after.last_fwd_cnt_to_peer == conn.fwd_cnt
            &&& after.state == conn.state
            &&& reading_leaves_the_rest_alone(conn, pkt, after, out)
        }),
{
}

/// Whether what a read from the host gave has changed nothing but the packet's operation, length,
/// flags and data, and the connection's state and what it has counted as sent and told.
pub open spec fn reading_leaves_the_rest_alone(
    conn: ConnView,
    pkt: PacketView,
    after: ConnView,
    out: PacketView,
) -> bool {
    &&& out.hdr.src_cid == pkt.hdr.src_cid
    &&& out.hdr.dst_cid == pkt.hdr.dst_cid
    &&& out.hdr.src_port == pkt.hdr.src_port
    &&& out.hdr.dst_port == pkt.hdr.dst_port
    &&& out.hdr.type_ == pkt.hdr.type_
    &&& out.hdr.buf_alloc == pkt.hdr.buf_alloc
    &&& out.hdr.fwd_cnt == pkt.hdr.fwd_cnt
    &&& after.peer_cid == conn.peer_cid
    &&& after.local_port == conn.local_port
    &&& after.peer_port == conn.peer_port
    &&& after.fd == conn.fd
    &&& after.tx == conn.tx
    &&& after.fwd_cnt == conn.fwd_cnt
    &&& after.peer_buf_alloc == conn.peer_buf_alloc
    &&& after.peer_fwd_cnt == conn.peer_fwd_cnt
    &&& after.pending == conn.pending
    &&& after.muxer_flags == conn.muxer_flags
}

/// A read that gives no data tells that the host has closed its end: the guest gets a shutdown of
/// both directions, and the connection is closed on our side. A read that fails makes for an RST,
/// and one that would block leaves everything as it is. None of them counts as data.
pub proof fn other_reads_carry_no_data(conn: ConnView, pkt: PacketView, code: i32)
    requires
        pkt.hdr.len == 0,
    ensures
        ({
            let (after, out, res) = conn.recv_finish(pkt, Ok(Seq::empty()));
            &&& res is Ok
            &&& out.hdr.op == VSOCK_OP_SHUTDOWN
            &&& out.hdr.flags == pkt.hdr.flags | 3
            &&& out.hdr.len == 0
            &&& out.buf == pkt.buf
            &&& after.state == ConnState::LocalClosed
            &&& after.rx_cnt == conn.rx_cnt
            &&& after.last_fwd_cnt_to_peer == conn.fwd_cnt
            &&& reading_leaves_the_rest_alone(conn, pkt, after, out)
        }),
        ({
            let (after, out, res) = conn.recv_finish(pkt, Err(IoError::Os(code)));
            &&& res is Ok
            &&& out.hdr.op == VSOCK_OP_RST
            &&& out.hdr.flags == pkt.hdr.flags
            &&& out.hdr.len == 0
            &&& out.buf == pkt.buf
            &&& after.state == conn.state
            &&& after.rx_cnt == conn.rx_cnt
            &&& after.last_fwd_cnt_to_peer == conn.fwd_cnt
            &&& reading_leaves_the_rest_alone(conn, pkt, after, out)
        }),
        ({
            let (after, out, res) = conn.recv_finish(pkt, Err(IoError::WouldBlock));
            &&& res == Err::<(), VsockError>(VsockError::NoData)
            &&& after == conn
            &&& out == pkt
        }),
{
    let flags = pkt.hdr.flags;
    assert(flags | 1 | 2 == flags | 3) by (bit_vector);
}

/// Whether a write of up to `max` bytes could have come out as `res`.
pub open spec fn may_come_out(max: nat, res: Result<usize, IoError>) -> bool {
    match res {
        Ok(n) => n <= max,
        Err(_) => true,
    }
}

/// What is offered to the host next is the start of what it has yet to get: buffered data, then
/// the job's. Something is offered as long as there is something. What is buffered never exceeds
/// the buffer's size.
pub proof fn oldest_bytes_are_offered_first(conn: ConnView, job: TxJobView)
    requires
        conn.tx.wf(),
    ensures
        conn.tx.bytes.len() <= 262144,
        conn.tx_chunk(job).len() <= conn.tx.bytes.len() + job.payload.len(),
        forall|i: int|
            0 <= i < conn.tx_chunk(job).len() ==> #[trigger] conn.tx_chunk(job)[i]
                == (conn.tx.bytes + job.payload)[i],
        conn.tx.bytes.len() + job.payload.len() > 0 ==> conn.tx_chunk(job).len() > 0,
{
}

/// What the host takes counts as forwarded, and what it does not take is kept, in order, as long as
/// it fits the buffer. The job goes on only if the host took all that it was offered. A job has no
/// more bytes than a packet header can tell of.
pub proof fn bytes_are_forwarded_or_kept(
    conn: ConnView,
    job: TxJobView,
    res: Result<usize, IoError>,
)
    requires
        conn.tx.wf(),
        may_come_out(conn.tx_chunk(job).len(), res),
        job.kind == TxKind::Flush ==> job.payload.len() == 0,
        job.payload.len() <= u32::MAX,
        !(res is Err && res->Err_0 is Os),
    ensures
        ({
            let (after, next) = conn.tx_written(job, res);
            let all = conn.tx.bytes + job.payload;
            let n: int = if res is Ok {
                res->Ok_0 as int
            } else {
                0
            };
            let kept = if next is Some {
                after.tx.bytes + next->0.payload
            } else {
                after.tx.bytes
            };
            &&& after.fwd_cnt == (conn.fwd_cnt + n) % 0x1_0000_0000
            &&& next is Some ==> next->0 == job && n == conn.tx_chunk(job).len()
            &&& all.len() - n <= 262144 ==> kept == all.skip(n)
            &&& all.len() - n <= 262144 ==> (after.state == ConnState::Killed ==> conn.state
                == ConnState::Killed)
            &&& next is None && n == conn.tx_chunk(job).len() ==> n == all.len()
            &&& next is None && all.len() - n > 262144 ==> {
                &&& after.state == ConnState::Killed
                &&& after.pending == conn.pending.insert(PendingRx::Rst)
            }
        }),
{
    let (after, next) = conn.tx_written(job, res);
    let all = conn.tx.bytes + job.payload;
    let n: int = if res is Ok {
        res->Ok_0 as int
    } else {
        0
    };
    let kept = if next is Some {
        after.tx.bytes + next->0.payload
    } else {
        after.tx.bytes
    };
    if all.len() - n <= 262144 {
        assert(kept =~= all.skip(n));
    }
}

/// Once a job is done, that has its effect: a confirmation that was sent establishes the
/// connection, and data that was sent makes for a credit update, if the host has taken as much as
/// the threshold since the guest was last told. Otherwise, writing to the host changes neither
/// state nor what the guest is owed, unless the stream fails or the buffer overflows.
pub proof fn finished_jobs_take_effect(conn: ConnView, job: TxJobView, res: Result<usize, IoError>)
    requires
        conn.tx.wf(),
        may_come_out(conn.tx_chunk(job).len(), res),
        !(res is Err && res->Err_0 is Os),
        conn.tx.bytes.len() + job.payload.len() - (if res is Ok {
            res->Ok_0 as int
        } else {
            0
        }) <= 262144,
    ensures
        ({
            let (after, next) = conn.tx_written(job, res);
            let untold = (after.fwd_cnt - conn.last_fwd_cnt_to_peer) % 0x1_0000_0000;
            &&& after.state == (if next is None && job.kind == TxKind::Ack {
                ConnState::Established
            } else {
                conn.state
            })
            &&& after.pending == (if next is None && job.kind == TxKind::Data && untold >= 196608 {
                conn.pending.insert(PendingRx::CreditUpdate)
            } else {
                conn.pending
            })
        }),
{
}

/// A host stream that fails dooms the connection: the job is over, and the guest is owed an RST.
pub proof fn failing_stream_dooms(conn: ConnView, job: TxJobView, code: i32)
    ensures
        ({
            let (after, next) = conn.tx_written(job, Err(IoError::Os(code)));
            &&& next is None
            &&& after.state == ConnState::Killed
            &&& after.pending == conn.pending.insert(PendingRx::Rst)
            &&& after.fwd_cnt == conn.fwd_cnt
            &&& after.tx == conn.tx
        }),
{
}

/// Writing to the host does not change who the connection is between, the guest's credit, what it
/// was sent and told, or the muxer's notes.
pub proof fn writing_leaves_the_rest_alone(
    conn: ConnView,
    job: TxJobView,
    res: Result<usize, IoError>,
)
    ensures
        ({
            let after = conn.tx_written(job, res).0;
            &&& after.peer_cid == conn.peer_cid
            &&& after.local_port == conn.local_port
            &&& after.peer_port == conn.peer_port
            &&& after.fd == conn.fd
            &&& after.peer_buf_alloc == conn.peer_buf_alloc
            &&& after.peer_fwd_cnt == conn.peer_fwd_cnt
            &&& after.rx_cnt == conn.rx_cnt
            &&& after.last_fwd_cnt_to_peer == conn.last_fwd_cnt_to_peer
            &&& after.muxer_flags == conn.muxer_flags
        }),
{
}

/// An event on the host stream has its effect: input makes for data that the guest is owed, and
/// room for output for a flush of what is buffered. Nothing else changes.
pub proof fn events_take_effect(
    before: VsockConnection,
    evset: EventSet,
    after: VsockConnection,
    job: Option<TxJob>,
)
    requires
        <VsockConnection as VsockEpollListener>::notified(before, evset, after, job),
    ensures
        evset.bits & 1 == 1 ==> after@ == (ConnView {
            pending: before@.pending.insert(PendingRx::Rw),
            ..before@
        }),
        evset.bits & 1 != 1 ==> after@ == before@,
        job is Some <==> evset.bits & 4 == 4 && before@.tx.bytes.len() > 0,
        job is Some ==> job->0.kind == TxKind::Flush && job->0.payload@.len() == 0,
{
}

/// A host stream is watched for input just as long as the guest has room for data and has not shut
/// down receiving, and the host has not closed its end. It is watched for room for output just as
/// long as there is buffered data, and for nothing else.
pub proof fn stream_is_watched_as_needed(conn: VsockConnection)
    ensures
        ({
            let evset = <VsockConnection as VsockEpollListener>::polled_evset(&conn);
            let credit = (conn@.peer_buf_alloc - (conn@.rx_cnt - conn@.peer_fwd_cnt))
                % 0x1_0000_0000;
            let wanted = credit > 0 && conn@.state != ConnState::LocalClosed && !(conn@.state
                is PeerClosed && conn@.state->PeerClosed_0);
            let unsent = conn@.tx.bytes.len() > 0;
            &&& wanted && unsent ==> evset.bits == 5
            &&& wanted && !unsent ==> evset.bits == 1
            &&& !wanted && unsent ==> evset.bits == 4
            &&& !wanted && !unsent ==> evset.bits == 0
        }),
        <VsockConnection as VsockEpollListener>::polled_fd(&conn) == conn@.fd,
{
    assert(0u32 | 4 == 4 && 0u32 | 1 == 1 && 0u32 | 4 | 1 == 5) by (bit_vector);
}

/// A connection that is new has sent and counted nothing, and has nothing buffered. All that it
/// owes the guest is the packet that it was made for, and the guest's credit is its buffer size.
pub proof fn new_connection_starts_from_nothing(
    state: ConnState,
    fd: i32,
    peer_cid: u64,
    local_port: u32,
    peer_port: u32,
    buf_alloc: u32,
    owed: PendingRx,
)
    ensures
        ({
            let conn = crate::unix::conn_model::new_conn(
                state,
                fd,
                peer_cid,
                local_port,
                peer_port,
                buf_alloc,
                owed,
            );
            &&& conn.state == state
            &&& conn.fd == fd
            &&& conn.peer_cid == peer_cid
            &&& conn.local_port == local_port
            &&& conn.peer_port == peer_port
            &&& conn.peer_credit() == buf_alloc
            &&& conn.fwd_cnt == 0
            &&& conn.peer_fwd_cnt == 0
            &&& conn.rx_cnt == 0
            &&& conn.last_fwd_cnt_to_peer == 0
            &&& conn.tx.bytes.len() == 0
            &&& conn.tx.pos == 0
            &&& conn.muxer_flags == 0
            &&& forall|it: PendingRx| #[trigger] conn.pending.contains(it) <==> it == owed
        }),
{
}

/// The guest's credit is its buffer size less what was sent to it and not consumed, and a credit
/// update is due once as much as the threshold was forwarded since the guest was last told (all
/// modulo 2^32).
pub proof fn credit_is_counted(conn: ConnView)
    ensures
        conn.peer_credit() == (conn.peer_buf_alloc - (conn.rx_cnt - conn.peer_fwd_cnt))
            % 0x1_0000_0000,
        conn.credit_update_due() <==> (conn.fwd_cnt - conn.last_fwd_cnt_to_peer) % 0x1_0000_0000
            >= 196608,
        conn.has_data() <==> conn.tx.bytes.len() > 0,
        conn.has_pending() <==> exists|it: PendingRx| #[trigger] conn.pending.contains(it),
{
    if conn.has_pending() {
        assert(!(conn.pending =~= Set::<PendingRx>::empty()));
    }
}

/// How much is read for a packet: all that its buffer and the guest's credit have room for.
pub proof fn reads_fill_the_room(conn: ConnView, room: nat)
    ensures
        conn.read_len(room) <= room,
        conn.read_len(room) <= conn.peer_credit(),
        conn.read_len(room) == room || conn.read_len(room) == conn.peer_credit(),
{
}

/// A doomed connection owes the guest an RST, and is as it was otherwise. Whatever packet comes of
/// a connection is addressed from our port to the guest's, and tells of our credit.
pub proof fn dooming_owes_an_rst(conn: ConnView)
    ensures
        conn.killed() == (ConnView {
            state: ConnState::Killed,
            pending: conn.pending.insert(PendingRx::Rst),
            ..conn
        }),
        conn.init_hdr().src_cid == 2,
        conn.init_hdr().dst_cid == conn.peer_cid,
        conn.init_hdr().src_port == conn.local_port,
        conn.init_hdr().dst_port == conn.peer_port,
        conn.init_hdr().len == 0,
        conn.init_hdr().type_ == 1,
        conn.init_hdr().op == 0,
        conn.init_hdr().flags == 0,
        conn.init_hdr().buf_alloc == 262144,
        conn.init_hdr().fwd_cnt == conn.fwd_cnt,
{
}

/// A connection is up for termination just when the host has closed its end, or the guest has shut
/// down both directions, and the guest is not owed an RST already.
pub proof fn closed_connections_shut_down(conn: ConnView)
    ensures
        conn.shutting_down() <==> {
            &&& !conn.pending.contains(PendingRx::Rst)
            &&& conn.state == ConnState::LocalClosed || conn.state is PeerClosed
                && conn.state->PeerClosed_0 && conn.state->PeerClosed_1
        },
{
}

/// The muxer's notes are kept apart: setting or clearing some leaves the others, and everything
/// else, alone.
pub proof fn notes_are_kept_apart(conn: ConnView, flag: u16, other: u16)
    requires
        flag & other == 0,
    ensures
        conn.with_flag(flag).muxer_flags & flag == flag,
        conn.with_flag(flag).muxer_flags & other == conn.muxer_flags & other,
        conn.without_flag(flag).muxer_flags & flag == 0,
        conn.without_flag(flag).muxer_flags & other == conn.muxer_flags & other,
        conn.flagged(flag) <==> conn.muxer_flags & flag != 0,
        conn.with_flag(flag) == (ConnView {
            muxer_flags: conn.with_flag(flag).muxer_flags,
            ..conn
        }),
        conn.without_flag(flag) == (ConnView {
            muxer_flags: conn.without_flag(flag).muxer_flags,
            ..conn
        }),
{
    let flags = conn.muxer_flags;
    assert((flags | flag) & flag == flag && (flags | flag) & other == flags & other && (flags
        & !flag) & flag == 0 && (flags & !flag) & other == flags & other) by (bit_vector)
        requires
            flag & other == 0,
    ;
}

} // verus!
