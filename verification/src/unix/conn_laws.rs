//! What holds of a connection over several steps.

use vstd::prelude::*;

use crate::error::{IoError, VsockError};
use crate::events::{EventSet, EPOLLIN, EPOLLOUT};
use crate::packet::PacketView;
use crate::uapi::{
    VSOCK_FLAGS_SHUTDOWN_RCV, VSOCK_FLAGS_SHUTDOWN_SEND, VSOCK_OP_RESPONSE, VSOCK_OP_RST,
    VSOCK_OP_RW, VSOCK_OP_SHUTDOWN,
};
use crate::unix::conn_model::{ConnRecv, ConnState, ConnView, TxJobView, TxKind};
use crate::unix::pending::PendingRx;
use crate::unix::txbuf::{failed, taken};

verus! {

/// The bytes that the host has yet to get, in order: buffered data, then what is left of a job.
pub open spec fn outstanding(conn: ConnView, job: Option<TxJobView>) -> Seq<u8> {
    match job {
        Some(job) => conn.tx.bytes + job.payload,
        None => conn.tx.bytes,
    }
}

/// Whether a write can be accounted for: no more was taken than was offered.
pub open spec fn plausible(conn: ConnView, job: TxJobView, res: Result<usize, IoError>) -> bool {
    res is Ok ==> res->Ok_0 <= conn.tx_chunk(job).len()
}

/// No byte on its way to the host is ever repeated or reordered: what one write takes, and what is
/// outstanding after it, is the start of what was outstanding before. Nor is any byte lost, so that
/// it is all of it, unless the connection is doomed by the write: because the stream fails, or
/// because the job's bytes do not fit the TX buffer.
pub proof fn tx_bytes_in_order(conn: ConnView, job: TxJobView, res: Result<usize, IoError>)
    requires
        conn.tx.wf(),
        plausible(conn, job, res),
        job.kind == TxKind::Flush ==> job.payload.len() == 0,
    ensures
        ({
            let (after, next) = conn.tx_written(job, res);
            let rest = conn.tx_chunk(job).take(taken(res)) + outstanding(after, next);
            &&& rest.is_prefix_of(outstanding(conn, Some(job)))
            &&& rest == outstanding(conn, Some(job)) || {
                &&& next is None
                &&& after.state == ConnState::Killed
                &&& after.pending.contains(PendingRx::Rst)
                &&& failed(res) || !after.tx.fits(job.payload.len())
            }
            &&& next is Some ==> next->0 == job
            &&& after.tx.wf()
        }),
{
    let (after, next) = conn.tx_written(job, res);
    let n = taken(res);
    let all = outstanding(conn, Some(job));
    let rest = conn.tx_chunk(job).take(n) + outstanding(after, next);
    if rest.len() == all.len() {
        assert(rest =~= all);
    }
    assert(rest =~= all.subrange(0, rest.len() as int));
}

/// The forward counter counts every byte that the host takes, whether or not the job survives.
pub proof fn fwd_cnt_counts_bytes_written(
    conn: ConnView,
    job: TxJobView,
    res: Result<usize, IoError>,
)
    ensures
        conn.tx_written(job, res).0.fwd_cnt == conn.fwd_cnt.wrapping_add(taken(res) as u32),
{
}

/// An upper bound on the writes that a job still takes.
pub open spec fn writes_left(conn: ConnView, job: TxJobView) -> nat {
    let direct: nat = if job.kind == TxKind::Flush {
        0
    } else {
        1
    };
    if !conn.has_data() {
        direct
    } else if conn.tx.front_len() == conn.tx.bytes.len() {
        direct + 1
    } else {
        direct + 2
    }
}

/// A TX job ends within three writes.
pub proof fn tx_job_ends(conn: ConnView, job: TxJobView, res: Result<usize, IoError>)
    requires
        conn.tx.wf(),
        plausible(conn, job, res),
    ensures
        writes_left(conn, job) <= 3,
        ({
            let (after, next) = conn.tx_written(job, res);
            next is Some ==> writes_left(after, next->0) < writes_left(conn, job)
        }),
{
    crate::unix::txbuf::flush_ends_within_two_writes(conn.tx);
}

/// A connection is doomed by a write only if the stream fails or the TX buffer is full.
pub proof fn tx_kills_only_on_failure(conn: ConnView, job: TxJobView, res: Result<usize, IoError>)
    requires
        conn.tx.wf(),
        plausible(conn, job, res),
        conn.state != ConnState::Killed,
        conn.tx_written(job, res).0.state == ConnState::Killed,
    ensures
        failed(res) || !conn.tx.fits(job.payload.len()),
{
}

/// Flow control: a connection never reads more from the host than the guest has room for, or than
/// fits the packet.
pub proof fn reads_within_credit(conn: ConnView, room: nat)
    requires
        conn.recv_start(room).2 is Read,
    ensures
        ({
            let (after, _, step) = conn.recv_start(room);
            &&& step->Read_0 <= conn.peer_credit()
            &&& step->Read_0 <= room
            &&& step->Read_0 == after.read_len(room)
            &&& after.peer_credit() == conn.peer_credit()
        }),
{
}

/// Data that goes to the guest uses up just as much of its credit.
pub proof fn data_uses_credit(conn: ConnView, pkt: PacketView, data: Seq<u8>)
    requires
        pkt.buf is Some,
        0 < data.len() <= conn.read_len(pkt.buf->0.len()),
    ensures
        ({
            let (after, out, res) = conn.recv_finish(pkt, Ok(data));
            &&& res is Ok
            &&& out.hdr.op == VSOCK_OP_RW
            &&& out.hdr.len == data.len()
            &&& out.buf->0.take(data.len() as int) == data
            &&& after.peer_credit() == conn.peer_credit() - data.len()
        }),
{
    let (after, out, res) = conn.recv_finish(pkt, Ok(data));
    assert(out.buf->0.take(data.len() as int) =~= data);
}

/// Once data from the guest was dealt with, the guest is owed a credit update if it believes our
/// buffer filled up to the threshold.
pub proof fn credit_update_in_time(conn: ConnView, job: TxJobView, res: Result<usize, IoError>)
    requires
        job.kind == TxKind::Data,
        conn.tx_written(job, res).1 is None,
    ensures
        ({
            let after = conn.tx_written(job, res).0;
            after.credit_update_due() && after.state != ConnState::Killed ==> after.pending.contains(
                PendingRx::CreditUpdate,
            )
        }),
{
}

/// A forceful termination takes precedence over anything else that the guest is owed.
pub proof fn rst_goes_first(conn: ConnView, room: nat)
    requires
        conn.pending.contains(PendingRx::Rst),
    ensures
        conn.recv_start(room).1 == conn.hdr(VSOCK_OP_RST),
        conn.recv_start(room).2 == ConnRecv::Ready,
{
}

/// The next packet of a doomed connection is a forceful termination.
pub proof fn killed_means_rst(conn: ConnView, room: nat)
    ensures
        conn.killed().recv_start(room).1.op == VSOCK_OP_RST,
        conn.killed().recv_start(room).2 == ConnRecv::Ready,
{
    rst_goes_first(conn.killed(), room);
}

/// When the host closes its end, the guest is told that we will neither receive nor send any more,
/// and the connection is up for termination.
pub proof fn host_close_shuts_down(conn: ConnView, pkt: PacketView)
    requires
        !conn.pending.contains(PendingRx::Rst),
        pkt.hdr == conn.init_hdr(),
    ensures
        ({
            let (after, out, res) = conn.recv_finish(pkt, Ok(Seq::empty()));
            &&& res is Ok
            &&& out.hdr.op == VSOCK_OP_SHUTDOWN
            &&& out.hdr.flags & VSOCK_FLAGS_SHUTDOWN_RCV != 0
            &&& out.hdr.flags & VSOCK_FLAGS_SHUTDOWN_SEND != 0
            &&& after.shutting_down()
        }),
{
    assert((0u32 | 1 | 2) & 1 != 0 && (0u32 | 1 | 2) & 2 != 0) by (bit_vector);
}

/// A guest never takes a shutdown back: once it will not receive (or send), it will not.
pub proof fn shutdown_accumulates(conn: ConnView, pkt: PacketView)
    requires
        conn.state is PeerClosed,
    ensures
        ({
            let after = conn.send_start(pkt).0;
            &&& after.state is PeerClosed
            &&& conn.state->PeerClosed_0 ==> after.state->PeerClosed_0
            &&& conn.state->PeerClosed_1 ==> after.state->PeerClosed_1
        }),
{
}

/// A guest that is through with receiving and sending is owed a forceful termination, unless there
/// is data left that the host has yet to get.
pub proof fn full_shutdown_owes_rst(conn: ConnView, pkt: PacketView)
    requires
        pkt.hdr.op == VSOCK_OP_SHUTDOWN,
        conn.state == ConnState::Established,
        pkt.hdr.flags & VSOCK_FLAGS_SHUTDOWN_RCV != 0,
        pkt.hdr.flags & VSOCK_FLAGS_SHUTDOWN_SEND != 0,
    ensures
        conn.send_start(pkt).0.state == ConnState::PeerClosed(true, true),
        !conn.has_data() ==> conn.send_start(pkt).0.pending.contains(PendingRx::Rst),
{
}

/// A connection becomes established only through its handshake: by telling the guest of our
/// response, or, after the guest's response, by confirming to the host.
pub proof fn established_by_handshake(
    conn: ConnView,
    room: nat,
    pkt: PacketView,
    job: TxJobView,
    res: Result<usize, IoError>,
    read: Result<Seq<u8>, IoError>,
    evset: EventSet,
)
    requires
        conn.state != ConnState::Established,
    ensures
        conn.recv_start(room).0.state == ConnState::Established ==> conn.recv_start(room).1.op
            == VSOCK_OP_RESPONSE && conn.pending.contains(PendingRx::Response),
        conn.recv_finish(pkt, read).0.state != ConnState::Established,
        conn.send_start(pkt).0.state != ConnState::Established,
        conn.send_start(pkt).1 is Some && conn.send_start(pkt).1->0.kind == TxKind::Ack ==> conn.state
            == ConnState::LocalInit && pkt.hdr.op == VSOCK_OP_RESPONSE,
        conn.tx_written(job, res).0.state == ConnState::Established ==> job.kind == TxKind::Ack,
        conn.notified(evset).0.state != ConnState::Established,
{
}

/// A host stream is watched for input only if the guest has room for it, and for output only if
/// there is buffered data.
pub proof fn polled_events_match_state(conn: ConnView)
    ensures
        conn.polled_evset().has(EPOLLIN) ==> conn.peer_credit() > 0 && conn.state
            != ConnState::LocalClosed,
        conn.polled_evset().has(EPOLLOUT) <==> conn.has_data(),
{
    assert((0u32 & 1 != 1) && (0u32 & 4 != 4)) by (bit_vector);
    assert((0u32 | 4) & 1 != 1 && (0u32 | 4) & 4 == 4) by (bit_vector);
    assert((0u32 | 1) & 1 == 1 && (0u32 | 1) & 4 != 4) by (bit_vector);
    assert((0u32 | 4 | 1) & 1 == 1 && (0u32 | 4 | 1) & 4 == 4) by (bit_vector);
}

/// Data that cannot be read yet leaves no trace.
pub proof fn would_block_is_no_data(conn: ConnView, pkt: PacketView)
    ensures
        conn.recv_finish(pkt, Err(IoError::WouldBlock)) == (
            conn,
            pkt,
            Err::<(), VsockError>(VsockError::NoData),
        ),
{
}

} // verus!
