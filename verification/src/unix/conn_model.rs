//! The model of a vsock connection: its state, and how packets and host I/O change it.

use vstd::prelude::*;

use crate::error::{IoError, VsockError};
use crate::events::{EventSet, EPOLLIN, EPOLLOUT};
use crate::packet::{PacketView, VsockPacketHdr};
use crate::uapi::{
    VSOCK_FLAGS_SHUTDOWN_RCV, VSOCK_FLAGS_SHUTDOWN_SEND, VSOCK_HOST_CID, VSOCK_OP_CREDIT_REQUEST,
    VSOCK_OP_CREDIT_UPDATE, VSOCK_OP_REQUEST, VSOCK_OP_RESPONSE, VSOCK_OP_RST, VSOCK_OP_RW,
    VSOCK_OP_SHUTDOWN, VSOCK_TYPE_STREAM,
};
use crate::unix::defs::{CONN_CREDIT_UPDATE_THRESHOLD, CONN_TX_BUF_SIZE};
use crate::unix::pending::PendingRx;
use crate::unix::txbuf::TxBufView;

verus! {

/// The state of a vsock connection.
#[derive(Clone, Copy, Debug, PartialEq, Eq, Structural)]
pub enum ConnState {
    /// Initiated by the host; the guest has not responded yet.
    LocalInit,
    /// Initiated by the guest; it has not been told of our response yet.
    PeerInit,
    /// Open in both directions.
    Established,
    /// The host closed its end.
    LocalClosed,
    /// The guest will no longer receive (first flag) and/or send (second flag).
    PeerClosed(bool, bool),
    /// Doomed: the guest is owed a forceful termination.
    Killed,
}

/// What the bytes of a TX job are for.
#[derive(Clone, Copy, Debug, PartialEq, Eq, Structural)]
pub enum TxKind {
    /// Data from a guest packet.
    Data,
    /// The confirmation that a host-initiated connection is up.
    Ack,
    /// Nothing new: only the TX buffer is to be flushed.
    Flush,
}

/// Bytes on their way to the host stream.
#[derive(Debug)]
pub struct TxJob {
    /// What the bytes are for.
    pub kind: TxKind,
    /// The bytes that are still to be sent, once the TX buffer is flushed.
    pub payload: Vec<u8>,
}

/// A TX job, by what it holds.
#[verifier::ext_equal]
pub struct TxJobView {
    pub kind: TxKind,
    pub payload: Seq<u8>,
}

impl View for TxJob {
    type V = TxJobView;

    open spec fn view(&self) -> TxJobView {
        TxJobView { kind: self.kind, payload: self.payload@ }
    }
}

/// The view of a job that may not be there.
pub open spec fn job_view(job: Option<TxJob>) -> Option<TxJobView> {
    match job {
        Some(job) => Some(job@),
        None => None,
    }
}

/// How a connection goes about filling an RX packet.
#[derive(Clone, Copy, Debug, PartialEq, Eq, Structural)]
pub enum ConnRecv {
    /// The packet is complete.
    Ready,
    /// Up to this many bytes are to be read from the host stream into the packet's buffer.
    Read(usize),
}

/// The confirmation that the host is sent once its connection is up: `OK <port><EOL>`.
pub open spec fn ack_msg(port: u32) -> Seq<u8> {
    seq![79u8, 75u8, 32u8] + crate::text::decimal(port as nat) + seq![10u8]
}

/// What a connection is made of.
#[verifier::ext_equal]
pub struct ConnView {
    /// The connection state.
    pub state: ConnState,
    /// The guest's CID.
    pub peer_cid: u64,
    /// Our port.
    pub local_port: u32,
    /// The guest's port.
    pub peer_port: u32,
    /// The file descriptor of the host stream.
    pub fd: i32,
    /// TX data that the host has not taken yet.
    pub tx: TxBufView,
    /// Number of bytes written to the host stream, modulo 2^32.
    pub fwd_cnt: u32,
    /// The guest's buffer size.
    pub peer_buf_alloc: u32,
    /// Number of bytes that the guest has consumed, modulo 2^32.
    pub peer_fwd_cnt: u32,
    /// Number of bytes sent to the guest, modulo 2^32.
    pub rx_cnt: u32,
    /// The last `fwd_cnt` that the guest was told.
    pub last_fwd_cnt_to_peer: u32,
    /// What the guest is owed.
    pub pending: Set<PendingRx>,
    /// The muxer's notes.
    pub muxer_flags: u16,
}

/// A new connection, that owes its peer `owed`.
pub open spec fn new_conn(
    state: ConnState,
    fd: i32,
    peer_cid: u64,
    local_port: u32,
    peer_port: u32,
    peer_buf_alloc: u32,
    owed: PendingRx,
) -> ConnView {
    ConnView {
        state,
        peer_cid,
        local_port,
        peer_port,
        fd,
        tx: TxBufView::fresh(),
        fwd_cnt: 0,
        peer_buf_alloc,
        peer_fwd_cnt: 0,
        rx_cnt: 0,
        last_fwd_cnt_to_peer: 0,
        pending: Set::empty().insert(owed),
        muxer_flags: 0,
    }
}

impl ConnView {
    /// Whether the TX buffer holds data.
    pub open spec fn has_data(self) -> bool {
        self.tx.bytes.len() > 0
    }

    /// Whether the guest is owed anything.
    pub open spec fn has_pending(self) -> bool {
        self.pending != Set::<PendingRx>::empty()
    }

    /// Whether both sides are through with the connection, and the guest has yet to be told so.
    pub open spec fn shutting_down(self) -> bool {
        &&& !self.pending.contains(PendingRx::Rst)
        &&& self.state == ConnState::LocalClosed || self.state == ConnState::PeerClosed(true, true)
    }

    /// Whether any of the muxer's flags in `flag` is set.
    pub open spec fn flagged(self, flag: u16) -> bool {
        self.muxer_flags & flag != 0
    }

    /// The connection with the muxer's flags in `flag` set.
    pub open spec fn with_flag(self, flag: u16) -> ConnView {
        ConnView { muxer_flags: self.muxer_flags | flag, ..self }
    }

    /// The connection with the muxer's flags in `flag` cleared.
    pub open spec fn without_flag(self, flag: u16) -> ConnView {
        ConnView { muxer_flags: self.muxer_flags & !flag, ..self }
    }

    /// The connection that owes its peer `it` too.
    pub open spec fn owing(self, it: PendingRx) -> ConnView {
        ConnView { pending: self.pending.insert(it), ..self }
    }

    /// The connection that no longer owes its peer `it`.
    pub open spec fn not_owing(self, it: PendingRx) -> ConnView {
        ConnView { pending: self.pending.remove(it), ..self }
    }

    /// The connection in state `state`.
    pub open spec fn in_state(self, state: ConnState) -> ConnView {
        ConnView { state, ..self }
    }

    /// The connection, doomed.
    pub open spec fn killed(self) -> ConnView {
        self.in_state(ConnState::Killed).owing(PendingRx::Rst)
    }

    /// The number of bytes that the guest has room for.
    pub open spec fn peer_credit(self) -> u32 {
        self.peer_buf_alloc.wrapping_sub(self.rx_cnt.wrapping_sub(self.peer_fwd_cnt))
    }

    /// Whether the guest should be told that we have taken data off its hands.
    pub open spec fn credit_update_due(self) -> bool {
        self.fwd_cnt.wrapping_sub(self.last_fwd_cnt_to_peer) >= CONN_CREDIT_UPDATE_THRESHOLD
    }

    /// The connection, once the guest was told how much we have taken.
    pub open spec fn credit_told(self) -> ConnView {
        ConnView { last_fwd_cnt_to_peer: self.fwd_cnt, ..self }
    }

    /// The events that the connection's host stream is to be watched for.
    pub open spec fn polled_evset(self) -> EventSet {
        let out = if self.has_data() {
            EventSet::of(0).with(EPOLLOUT)
        } else {
            EventSet::of(0)
        };
        let closed = match self.state {
            ConnState::LocalClosed => true,
            ConnState::PeerClosed(recv_off, _) => recv_off,
            _ => false,
        };
        if closed || self.peer_credit() == 0 {
            out
        } else {
            out.with(EPOLLIN)
        }
    }

    /// The header that every packet to the guest starts from.
    pub open spec fn init_hdr(self) -> VsockPacketHdr {
        VsockPacketHdr {
            src_cid: VSOCK_HOST_CID,
            dst_cid: self.peer_cid,
            src_port: self.local_port,
            dst_port: self.peer_port,
            len: 0,
            type_: VSOCK_TYPE_STREAM,
            op: 0,
            flags: 0,
            buf_alloc: CONN_TX_BUF_SIZE as u32,
            fwd_cnt: self.fwd_cnt,
        }
    }

    /// The header of a packet to the guest with operation `op`.
    pub open spec fn hdr(self, op: u16) -> VsockPacketHdr {
        VsockPacketHdr { op, ..self.init_hdr() }
    }

    /// Whether the guest takes data in the present state.
    pub open spec fn peer_receives(self) -> bool {
        match self.state {
            ConnState::Established => true,
            ConnState::PeerClosed(recv_off, _) => !recv_off,
            _ => false,
        }
    }

    /// Whether the guest sends data in the present state.
    pub open spec fn peer_sends(self) -> bool {
        match self.state {
            ConnState::Established => true,
            ConnState::PeerClosed(_, send_off) => !send_off,
            _ => false,
        }
    }

    /// How many bytes to read for a packet with a buffer of `room` bytes.
    pub open spec fn read_len(self, room: nat) -> nat {
        if room < self.peer_credit() {
            room
        } else {
            self.peer_credit() as nat
        }
    }

    /// Start filling an RX packet with a buffer of `room` bytes: the connection after, the packet
    /// header, and how to go on.
    pub open spec fn recv_start(self, room: nat) -> (ConnView, VsockPacketHdr, ConnRecv) {
        let quiet = self.not_owing(PendingRx::CreditUpdate);
        let drained = quiet.not_owing(PendingRx::Rw);
        if self.pending.contains(PendingRx::Rst) {
            (self.not_owing(PendingRx::Rst), self.hdr(VSOCK_OP_RST), ConnRecv::Ready)
        } else if self.pending.contains(PendingRx::Response) {
            (
                self.not_owing(PendingRx::Response).in_state(ConnState::Established),
                self.hdr(VSOCK_OP_RESPONSE),
                ConnRecv::Ready,
            )
        } else if self.pending.contains(PendingRx::Request) {
            (self.not_owing(PendingRx::Request), self.hdr(VSOCK_OP_REQUEST), ConnRecv::Ready)
        } else if self.pending.contains(PendingRx::CreditUpdate) && !quiet.has_pending() {
            (quiet.credit_told(), self.hdr(VSOCK_OP_CREDIT_UPDATE), ConnRecv::Ready)
        } else if !self.peer_receives() {
            (drained, self.hdr(VSOCK_OP_RST), ConnRecv::Ready)
        } else if self.peer_credit() == 0 {
            (drained.credit_told(), self.hdr(VSOCK_OP_CREDIT_REQUEST), ConnRecv::Ready)
        } else {
            (drained, self.init_hdr(), ConnRecv::Read(self.read_len(room) as usize))
        }
    }

    /// Finish filling an RX packet, once the host stream was read.
    pub open spec fn recv_finish(self, pkt: PacketView, res: Result<Seq<u8>, IoError>) -> (
        ConnView,
        PacketView,
        Result<(), VsockError>,
    ) {
        match res {
            Err(IoError::WouldBlock) => (self, pkt, Err(VsockError::NoData)),
            Err(IoError::Os(_)) => {
                let hdr = VsockPacketHdr { op: VSOCK_OP_RST, ..pkt.hdr };
                (self.sent(hdr.len), PacketView { hdr, ..pkt }, Ok(()))
            },
            Ok(data) => if data.len() == 0 {
                let hdr = VsockPacketHdr {
                    op: VSOCK_OP_SHUTDOWN,
                    flags: pkt.hdr.flags | VSOCK_FLAGS_SHUTDOWN_RCV | VSOCK_FLAGS_SHUTDOWN_SEND,
                    ..pkt.hdr
                };
                (
                    self.in_state(ConnState::LocalClosed).sent(hdr.len),
                    PacketView { hdr, ..pkt },
                    Ok(()),
                )
            } else {
                let hdr = VsockPacketHdr { op: VSOCK_OP_RW, len: data.len() as u32, ..pkt.hdr };
                let buf = data + pkt.buf->0.skip(data.len() as int);
                (self.sent(hdr.len), PacketView { hdr, buf: Some(buf) }, Ok(()))
            },
        }
    }

    /// The connection, once a packet with `len` bytes of data was sent to the guest.
    pub open spec fn sent(self, len: u32) -> ConnView {
        ConnView { rx_cnt: self.rx_cnt.wrapping_add(len), ..self.credit_told() }
    }

    /// The connection, once a guest packet told of the guest's buffer.
    pub open spec fn credited(self, hdr: VsockPacketHdr) -> ConnView {
        ConnView { peer_buf_alloc: hdr.buf_alloc, peer_fwd_cnt: hdr.fwd_cnt, ..self }
    }

    /// The connection, once the guest has shut down receiving and/or sending.
    pub open spec fn shut_down(self, recv_off: bool, send_off: bool) -> ConnView {
        let closed = self.in_state(ConnState::PeerClosed(recv_off, send_off));
        if recv_off && send_off && !self.has_data() {
            closed.owing(PendingRx::Rst)
        } else {
            closed
        }
    }

    /// Process a guest packet: the connection after, and the bytes to be sent to the host, if any.
    pub open spec fn send_start(self, pkt: PacketView) -> (ConnView, Option<TxJobView>) {
        let conn = self.credited(pkt.hdr);
        let op = pkt.hdr.op;
        let recv_off = pkt.hdr.flags & VSOCK_FLAGS_SHUTDOWN_RCV != 0;
        let send_off = pkt.hdr.flags & VSOCK_FLAGS_SHUTDOWN_SEND != 0;
        if op == VSOCK_OP_RW && self.peer_sends() {
            match pkt.buf {
                None => (conn, None),
                Some(buf) => (
                    conn,
                    Some(
                        TxJobView { kind: TxKind::Data, payload: buf.take(pkt.hdr.len as int) },
                    ),
                ),
            }
        } else if op == VSOCK_OP_RESPONSE && self.state == ConnState::LocalInit {
            (conn, Some(TxJobView { kind: TxKind::Ack, payload: ack_msg(self.local_port) }))
        } else if op == VSOCK_OP_SHUTDOWN && self.state == ConnState::Established {
            (conn.shut_down(recv_off, send_off), None)
        } else if op == VSOCK_OP_SHUTDOWN && self.state is PeerClosed {
            (
                conn.shut_down(
                    self.state->PeerClosed_0 || recv_off,
                    self.state->PeerClosed_1 || send_off,
                ),
                None,
            )
        } else if op == VSOCK_OP_CREDIT_REQUEST && (self.peer_sends() || self.state
            == ConnState::PeerInit) {
            (conn.owing(PendingRx::CreditUpdate), None)
        } else {
            (conn, None)
        }
    }

    /// The bytes that the next write of a TX job is to be given.
    pub open spec fn tx_chunk(self, job: TxJobView) -> Seq<u8> {
        if self.has_data() {
            self.tx.front()
        } else {
            job.payload
        }
    }

    /// The connection, once `n` more bytes went to the host.
    pub open spec fn forwarded(self, n: int) -> ConnView {
        ConnView { fwd_cnt: self.fwd_cnt.wrapping_add(n as u32), ..self }
    }

    /// The connection, once a TX job is done.
    pub open spec fn job_done(self, kind: TxKind) -> ConnView {
        match kind {
            TxKind::Data => if self.credit_update_due() {
                self.owing(PendingRx::CreditUpdate)
            } else {
                self
            },
            TxKind::Ack => self.in_state(ConnState::Established),
            TxKind::Flush => self,
        }
    }

    /// The connection, once `rest` was buffered to end a TX job. It is doomed if there is no room.
    pub open spec fn buffered(self, kind: TxKind, rest: Seq<u8>) -> ConnView {
        if self.tx.fits(rest.len()) {
            ConnView { tx: self.tx.pushed(rest), ..self }.job_done(kind)
        } else {
            self.killed()
        }
    }

    /// Account for a write of a TX job that the host stream did not refuse: `n` bytes of
    /// `tx_chunk` were taken. The connection after, and the job, if it goes on.
    pub open spec fn tx_taken(self, job: TxJobView, n: int) -> (ConnView, Option<TxJobView>) {
        if self.has_data() {
            let conn = ConnView { tx: self.tx.drained(n), ..self }.forwarded(n);
            if n == self.tx.front_len() && (conn.has_data() || job.kind != TxKind::Flush) {
                (conn, Some(job))
            } else if job.kind == TxKind::Flush {
                (conn, None)
            } else {
                (conn.buffered(job.kind, job.payload), None)
            }
        } else {
            let conn = self.forwarded(n);
            if n < job.payload.len() {
                (conn.buffered(job.kind, job.payload.skip(n)), None)
            } else {
                (conn.job_done(job.kind), None)
            }
        }
    }

    /// Account for a write of a TX job, whose outcome is `res`.
    pub open spec fn tx_written(self, job: TxJobView, res: Result<usize, IoError>) -> (
        ConnView,
        Option<TxJobView>,
    ) {
        if crate::unix::txbuf::failed(res) {
            (self.killed(), None)
        } else {
            self.tx_taken(job, crate::unix::txbuf::taken(res))
        }
    }

    /// Process an event on the host stream: the connection after, and the flush to do, if any.
    pub open spec fn notified(self, evset: EventSet) -> (ConnView, Option<TxJobView>) {
        let conn = if evset.has(EPOLLIN) {
            self.owing(PendingRx::Rw)
        } else {
            self
        };
        if evset.has(EPOLLOUT) && self.has_data() {
            (conn, Some(TxJobView { kind: TxKind::Flush, payload: Seq::empty() }))
        } else {
            (conn, None)
        }
    }
}

} // verus!
