//! The state handler of one vsock connection.
//!
//! A connection never touches its host stream. Where bytes have to be written to it or read from
//! it, the connection says so, and is told of the outcome.

use vstd::prelude::*;

use crate::channel::{VsockChannel, VsockEpollListener};
use crate::error::{IoError, VsockError};
use crate::events::{EventSet, EPOLLIN, EPOLLOUT};
use crate::packet::{PacketView, VsockPacket, VsockPacketHdr};
use crate::text::to_decimal;
use crate::uapi::{
    VSOCK_FLAGS_SHUTDOWN_RCV, VSOCK_FLAGS_SHUTDOWN_SEND, VSOCK_HOST_CID, VSOCK_OP_CREDIT_REQUEST,
    VSOCK_OP_CREDIT_UPDATE, VSOCK_OP_REQUEST, VSOCK_OP_RESPONSE, VSOCK_OP_RST, VSOCK_OP_RW,
    VSOCK_OP_SHUTDOWN, VSOCK_TYPE_STREAM,
};
use crate::unix::conn_model::{ConnRecv, ConnState, ConnView, TxJob, TxKind};
use crate::unix::defs::{CONN_CREDIT_UPDATE_THRESHOLD, CONN_TX_BUF_SIZE};
use crate::unix::error::Error;
use crate::unix::pending::{PendingRx, PendingRxSet};
use crate::unix::txbuf::{TxBuf, TxBufView};

verus! {

/// A vsock connection, between a port of the guest and a host stream.
pub struct VsockConnection {
    state: ConnState,
    peer_cid: u64,
    local_port: u32,
    peer_port: u32,
    fd: i32,
    tx_buf: Option<TxBuf>,
    fwd_cnt: u32,
    peer_buf_alloc: u32,
    peer_fwd_cnt: u32,
    rx_cnt: u32,
    last_fwd_cnt_to_peer: u32,
    pending_rx: PendingRxSet,
    muxer_flags: u16,
}

/// The content of a TX buffer that may not have been needed yet.
spec fn tx_view(tx_buf: Option<TxBuf>) -> TxBufView {
    match tx_buf {
        Some(tx_buf) => tx_buf@,
        None => TxBufView::fresh(),
    }
}

impl View for VsockConnection {
    type V = ConnView;

    closed spec fn view(&self) -> ConnView {
        ConnView {
            state: self.state,
            peer_cid: self.peer_cid,
            local_port: self.local_port,
            peer_port: self.peer_port,
            fd: self.fd,
            tx: tx_view(self.tx_buf),
            fwd_cnt: self.fwd_cnt,
            peer_buf_alloc: self.peer_buf_alloc,
            peer_fwd_cnt: self.peer_fwd_cnt,
            rx_cnt: self.rx_cnt,
            last_fwd_cnt_to_peer: self.last_fwd_cnt_to_peer,
            pending: self.pending_rx@,
            muxer_flags: self.muxer_flags,
        }
    }
}

impl VsockConnection {
    /// The parts of the connection are well formed.
    pub closed spec fn wf(self) -> bool {
        &&& self.pending_rx.wf()
        &&& self.tx_buf is Some ==> self.tx_buf->0.wf()
    }

    /// A well-formed connection has a well-formed TX buffer.
    pub proof fn lemma_wf_view(self)
        requires
            self.wf(),
        ensures
            self@.tx.wf(),
    {
        if self.tx_buf is Some {
            self.tx_buf->0.lemma_wf_view();
        }
    }

    /// Create a guest-initiated connection, that owes the guest a response.
    pub fn new_peer_init(
        fd: i32,
        peer_cid: u64,
        local_port: u32,
        peer_port: u32,
        peer_buf_alloc: u32,
    ) -> (ret: VsockConnection)
        ensures
            ret.wf(),
            ret@ == crate::unix::conn_model::new_conn(
                ConnState::PeerInit,
                fd,
                peer_cid,
                local_port,
                peer_port,
                peer_buf_alloc,
                PendingRx::Response,
            ),
    {
        VsockConnection {
            state: ConnState::PeerInit,
            peer_cid,
            local_port,
            peer_port,
            fd,
            tx_buf: None,
            fwd_cnt: 0,
            peer_buf_alloc,
            peer_fwd_cnt: 0,
            rx_cnt: 0,
            last_fwd_cnt_to_peer: 0,
            pending_rx: PendingRxSet::from(PendingRx::Response),
            muxer_flags: 0,
        }
    }

    /// Create a host-initiated connection, that owes the guest a request.
    pub fn new_local_init(fd: i32, peer_cid: u64, local_port: u32, peer_port: u32) -> (ret:
        VsockConnection)
        ensures
            ret.wf(),
            ret@ == crate::unix::conn_model::new_conn(
                ConnState::LocalInit,
                fd,
                peer_cid,
                local_port,
                peer_port,
                0,
                PendingRx::Request,
            ),
    {
        VsockConnection {
            state: ConnState::LocalInit,
            peer_cid,
            local_port,
            peer_port,
            fd,
            tx_buf: None,
            fwd_cnt: 0,
            peer_buf_alloc: 0,
            peer_fwd_cnt: 0,
            rx_cnt: 0,
            last_fwd_cnt_to_peer: 0,
            pending_rx: PendingRxSet::from(PendingRx::Request),
            muxer_flags: 0,
        }
    }

    /// Check if both sides are through with the connection, and the guest has yet to be told so.
    pub fn is_shutting_down(&self) -> (ret: bool)
        requires
            self.wf(),
        ensures
            ret == self@.shutting_down(),
    {
        !self.pending_rx.contains(PendingRx::Rst) && match self.state {
            ConnState::PeerClosed(true, true) => true,
            ConnState::LocalClosed => true,
            _ => false,
        }
    }

    /// Check if any of the muxer's flags in `flag` is set.
    pub fn get_muxer_flag(&self, flag: u16) -> (ret: bool)
        ensures
            ret == self@.flagged(flag),
    {
        self.muxer_flags & flag != 0
    }

    /// Set the muxer's flags in `flag`, and tell if any of them was set.
    pub fn set_muxer_flag(&mut self, flag: u16) -> (ret: bool)
        ensures
            final(self).wf() == old(self).wf(),
            final(self)@ == old(self)@.with_flag(flag),
            ret == old(self)@.flagged(flag),
    {
        let res = self.get_muxer_flag(flag);
        self.muxer_flags = self.muxer_flags | flag;
        res
    }

    /// Clear the muxer's flags in `flag`, and tell if any of them was set.
    pub fn clear_muxer_flag(&mut self, flag: u16) -> (ret: bool)
        ensures
            final(self).wf() == old(self).wf(),
            final(self)@ == old(self)@.without_flag(flag),
            ret == old(self)@.flagged(flag),
    {
        let res = self.get_muxer_flag(flag);
        self.muxer_flags = self.muxer_flags & !flag;
        res
    }

    /// Doom the connection: the guest is owed a forceful termination.
    pub fn kill(&mut self)
        requires
            old(self).wf(),
        ensures
            final(self).wf(),
            final(self)@ == old(self)@.killed(),
    {
        self.state = ConnState::Killed;
        self.pending_rx.insert(PendingRx::Rst);
    }

    /// Check if the guest should be told that we have taken data off its hands.
    pub fn peer_needs_credit_update(&self) -> (ret: bool)
        ensures
            ret == self@.credit_update_due(),
    {
        self.fwd_cnt.wrapping_sub(self.last_fwd_cnt_to_peer) as usize
            >= CONN_CREDIT_UPDATE_THRESHOLD
    }

    /// Check if the guest has no room left.
    pub fn need_credit_update_from_peer(&self) -> (ret: bool)
        ensures
            ret == (self@.peer_credit() == 0),
    {
        self.peer_avail_credit() == 0
    }

    /// Get the number of bytes that the guest has room for.
    pub fn peer_avail_credit(&self) -> (ret: usize)
        ensures
            ret == self@.peer_credit(),
    {
        self.peer_buf_alloc.wrapping_sub(self.rx_cnt.wrapping_sub(self.peer_fwd_cnt)) as usize
    }

    /// Prepare the header of a packet to the guest.
    pub fn init_pkt(&self, pkt: &mut VsockPacket)
        ensures
            final(pkt)@.hdr == self@.init_hdr(),
            final(pkt)@.buf == old(pkt)@.buf,
    {
        pkt.hdr.put(
            VsockPacketHdr {
                src_cid: VSOCK_HOST_CID,
                dst_cid: self.peer_cid,
                src_port: self.local_port,
                dst_port: self.peer_port,
                len: 0,
                type_: VSOCK_TYPE_STREAM,
                op: 0,
                flags: 0,
                buf_alloc: CONN_TX_BUF_SIZE as u32,
                fwd_cnt: self.fwd_cnt,
            },
        );
    }

    /// Check if the TX buffer holds data.
    pub fn has_data_in_tx_buf(&self) -> (ret: bool)
        requires
            self.wf(),
        ensures
            ret == self@.has_data(),
    {
        match &self.tx_buf {
            Some(tx_buf) => !tx_buf.is_empty(),
            None => false,
        }
    }

    /// Check if the guest is owed anything.
    pub fn has_pending_rx(&self) -> (ret: bool)
        requires
            self.wf(),
        ensures
            ret == self@.has_pending(),
    {
        !self.pending_rx.is_empty()
    }

    /// Finish filling an RX packet with what reading the host stream gave.
    pub fn recv_data(&mut self, pkt: &mut VsockPacket, res: Result<Vec<u8>, IoError>) -> (ret:
        Result<(), VsockError>)
        requires
            old(self).wf(),
            old(pkt)@.buf is Some,
            res is Ok ==> res->Ok_0@.len() <= old(self)@.read_len(old(pkt)@.buf->0.len()),
        ensures
            final(self).wf(),
            (final(self)@, final(pkt)@, ret) == old(self)@.recv_finish(old(pkt)@, read_view(res)),
    {
        match res {
            Ok(data) => {
                if data.len() == 0 {
                    self.state = ConnState::LocalClosed;
                    pkt.set_op(VSOCK_OP_SHUTDOWN).set_flag(VSOCK_FLAGS_SHUTDOWN_RCV).set_flag(
                        VSOCK_FLAGS_SHUTDOWN_SEND,
                    );
                } else {
                    fill(pkt, &data);
                    pkt.set_op(VSOCK_OP_RW).set_len(data.len() as u32);
                }
            },
            Err(IoError::WouldBlock) => {
                return Err(VsockError::NoData);
            },
            Err(IoError::Os(_)) => {
                pkt.set_op(VSOCK_OP_RST);
            },
        }
        self.rx_cnt = self.rx_cnt.wrapping_add(pkt.hdr.get().len);
        self.last_fwd_cnt_to_peer = self.fwd_cnt;
        Ok(())
    }

    /// Note that the guest has shut down receiving and/or sending.
    fn shut_down(&mut self, recv_off: bool, send_off: bool)
        requires
            old(self).wf(),
        ensures
            final(self).wf(),
            final(self)@ == old(self)@.shut_down(recv_off, send_off),
    {
        self.state = ConnState::PeerClosed(recv_off, send_off);
        if recv_off && send_off && !self.has_data_in_tx_buf() {
            self.pending_rx.insert(PendingRx::Rst);
        }
    }

    /// Get the bytes that the next write of a TX job is to be given: buffered data goes first.
    pub fn tx_chunk(&self, job: &TxJob) -> (ret: Vec<u8>)
        requires
            self.wf(),
        ensures
            ret@ == self@.tx_chunk(job@),
    {
        if let Some(tx_buf) = &self.tx_buf {
            if !tx_buf.is_empty() {
                return vstd::slice::slice_to_vec(tx_buf.flush_chunk());
            }
        }
        vstd::slice::slice_to_vec(job.payload.as_slice())
    }

    /// Account for the write of a TX job's `tx_chunk` to the host stream, whose outcome is `res`.
    ///
    /// Data that the host is not able to take right away is buffered. The connection is doomed if
    /// the stream fails, or if there is no room in the buffer. The job comes back as long as there
    /// is another write to do for it.
    pub fn tx_written(&mut self, job: TxJob, res: Result<usize, IoError>) -> (ret: Option<TxJob>)
        requires
            old(self).wf(),
            res is Ok ==> res->Ok_0 <= old(self)@.tx_chunk(job@).len(),
        ensures
            final(self).wf(),
            (final(self)@, crate::unix::conn_model::job_view(ret)) == old(self)@.tx_written(
                job@,
                res,
            ),
    {
        let ghost before = self@;
        proof {
            self.lemma_wf_view();
        }
        if self.has_data_in_tx_buf() {
            let step = match self.tx_buf.take() {
                Some(mut tx_buf) => {
                    let step = tx_buf.flush(res);
                    self.tx_buf = Some(tx_buf);
                    step
                },
                None => Err(Error::BufferFull),
            };
            match step {
                Ok(step) => {
                    self.fwd_cnt = self.fwd_cnt.wrapping_add(step.written as u32);
                    if step.again {
                        return Some(job);
                    }
                    if job.kind == TxKind::Flush {
                        return None;
                    }
                    if !self.has_data_in_tx_buf() {
                        return Some(job);
                    }
                    self.end_job(job.kind, job.payload.as_slice());
                },
                Err(_) => {
                    assert(before.tx.drained(0) =~= before.tx);
                    self.kill();
                },
            }
            return None;
        }
        let written: usize = match res {
            Ok(n) => n,
            Err(IoError::WouldBlock) => 0,
            Err(IoError::Os(_)) => {
                self.kill();
                return None;
            },
        };
        self.fwd_cnt = self.fwd_cnt.wrapping_add(written as u32);
        if written < job.payload.len() {
            let rest = vstd::slice::slice_subrange(
                job.payload.as_slice(),
                written,
                job.payload.len(),
            );
            assert(rest@ =~= job@.payload.skip(written as int));
            self.end_job(job.kind, rest);
        } else {
            self.job_done(job.kind);
        }
        None
    }

    /// Buffer the rest of a TX job, and end it.
    fn end_job(&mut self, kind: TxKind, rest: &[u8])
        requires
            old(self).wf(),
        ensures
            final(self).wf(),
            final(self)@ == old(self)@.buffered(kind, rest@),
    {
        let mut tx_buf = match self.tx_buf.take() {
            Some(tx_buf) => tx_buf,
            None => TxBuf::new(),
        };
        let res = tx_buf.push(rest);
        self.tx_buf = Some(tx_buf);
        match res {
            Ok(_) => self.job_done(kind),
            Err(_) => self.kill(),
        }
    }

    /// End a TX job whose bytes are all written or buffered.
    fn job_done(&mut self, kind: TxKind)
        requires
            old(self).wf(),
        ensures
            final(self).wf(),
            final(self)@ == old(self)@.job_done(kind),
    {
        match kind {
            TxKind::Data => {
                if self.peer_needs_credit_update() {
                    self.pending_rx.insert(PendingRx::CreditUpdate);
                }
            },
            TxKind::Ack => {
                self.state = ConnState::Established;
            },
            TxKind::Flush => (),
        }
    }

}

impl VsockEpollListener for VsockConnection {
    type Notified = Option<TxJob>;

    open spec fn listener_wf(&self) -> bool {
        self.wf()
    }

    open spec fn polled_fd(&self) -> i32 {
        self@.fd
    }

    open spec fn polled_evset(&self) -> EventSet {
        self@.polled_evset()
    }

    open spec fn notified(
        before: VsockConnection,
        evset: EventSet,
        after: VsockConnection,
        ret: Option<TxJob>,
    ) -> bool {
        (after@, crate::unix::conn_model::job_view(ret)) == before@.notified(evset)
    }

    /// Get the file descriptor of the host stream.
    fn get_polled_fd(&self) -> (ret: i32)
        ensures
            ret == self@.fd,
    {
        self.fd
    }

    /// Get the events that the host stream is to be watched for.
    fn get_polled_evset(&self) -> (ret: EventSet)
        ensures
            ret == self@.polled_evset(),
    {
        let mut evset = EventSet::empty();
        if self.has_data_in_tx_buf() {
            evset.insert(EPOLLOUT);
        }
        match self.state {
            ConnState::LocalClosed => (),
            ConnState::PeerClosed(true, _) => (),
            _ => {
                if !self.need_credit_update_from_peer() {
                    evset.insert(EPOLLIN);
                }
            },
        }
        evset
    }

    /// Process an event on the host stream.
    ///
    /// If there is buffered data to be flushed, that comes back as a job, whose every write is to
    /// be accounted for by `tx_written`.
    fn notify(&mut self, evset: EventSet) -> (ret: Option<TxJob>)
        ensures
            (final(self)@, crate::unix::conn_model::job_view(ret)) == old(self)@.notified(evset),
    {
        if evset.contains(EPOLLIN) {
            self.pending_rx.insert(PendingRx::Rw);
        }
        if evset.contains(EPOLLOUT) && self.has_data_in_tx_buf() {
            return Some(TxJob { kind: TxKind::Flush, payload: Vec::new() });
        }
        None
    }
}

impl VsockChannel for VsockConnection {
    type Recv = ConnRecv;

    type Sent = Option<TxJob>;

    open spec fn channel_wf(&self) -> bool {
        self.wf()
    }

    open spec fn received(
        before: VsockConnection,
        room: PacketView,
        now: u64,
        after: VsockConnection,
        pkt: PacketView,
        ret: ConnRecv,
    ) -> bool {
        &&& (after@, pkt.hdr, ret) == before@.recv_start(room.buf->0.len())
        &&& pkt.buf == room.buf
    }

    open spec fn sent(
        before: VsockConnection,
        pkt: PacketView,
        now: u64,
        after: VsockConnection,
        ret: Option<TxJob>,
    ) -> bool {
        (after@, crate::unix::conn_model::job_view(ret)) == before@.send_start(pkt)
    }

    /// Start filling an RX packet.
    ///
    /// The packet either is complete after this, or waits for data from the host stream, to be
    /// handed to `recv_data`.
    fn recv_pkt(&mut self, pkt: &mut VsockPacket, _now: u64) -> (ret: ConnRecv)
        ensures
            (final(self)@, final(pkt)@.hdr, ret) == old(self)@.recv_start(
                old(pkt)@.buf->0.len(),
            ),
            final(pkt)@.buf == old(pkt)@.buf,
    {
        self.init_pkt(pkt);
        if self.pending_rx.remove(PendingRx::Rst) {
            pkt.set_op(VSOCK_OP_RST);
            return ConnRecv::Ready;
        }
        proof {
            assert(self@.pending =~= old(self)@.pending);
        }
        if self.pending_rx.remove(PendingRx::Response) {
            self.state = ConnState::Established;
            pkt.set_op(VSOCK_OP_RESPONSE);
            return ConnRecv::Ready;
        }
        proof {
            assert(self@.pending =~= old(self)@.pending);
        }
        if self.pending_rx.remove(PendingRx::Request) {
            pkt.set_op(VSOCK_OP_REQUEST);
            return ConnRecv::Ready;
        }
        proof {
            assert(self@.pending =~= old(self)@.pending);
        }
        if self.pending_rx.remove(PendingRx::CreditUpdate) && !self.has_pending_rx() {
            pkt.set_op(VSOCK_OP_CREDIT_UPDATE);
            self.last_fwd_cnt_to_peer = self.fwd_cnt;
            return ConnRecv::Ready;
        }
        self.pending_rx.remove(PendingRx::Rw);
        match self.state {
            ConnState::Established => (),
            ConnState::PeerClosed(false, _) => (),
            _ => {
                pkt.set_op(VSOCK_OP_RST);
                return ConnRecv::Ready;
            },
        }
        if self.need_credit_update_from_peer() {
            self.last_fwd_cnt_to_peer = self.fwd_cnt;
            pkt.set_op(VSOCK_OP_CREDIT_REQUEST);
            return ConnRecv::Ready;
        }
        let room: usize = match &pkt.buf {
            Some(buf) => buf.as_slice().len(),
            None => 0,
        };
        let credit: usize = self.peer_avail_credit();
        ConnRecv::Read(if room < credit { room } else { credit })
    }

    /// Process a packet from the guest.
    ///
    /// If there are bytes to be sent to the host, they come back as a job, whose every write is to
    /// be accounted for by `tx_written`.
    fn send_pkt(&mut self, pkt: &VsockPacket, _now: u64) -> (ret: Option<TxJob>)
        ensures
            (final(self)@, crate::unix::conn_model::job_view(ret)) == old(self)@.send_start(pkt@),
    {
        let hdr = pkt.hdr.get();
        self.peer_buf_alloc = hdr.buf_alloc;
        self.peer_fwd_cnt = hdr.fwd_cnt;
        let recv_off = hdr.flags & VSOCK_FLAGS_SHUTDOWN_RCV != 0;
        let send_off = hdr.flags & VSOCK_FLAGS_SHUTDOWN_SEND != 0;
        let op: u16 = hdr.op;
        let peer_sends = match self.state {
            ConnState::Established => true,
            ConnState::PeerClosed(_, was_send_off) => !was_send_off,
            _ => false,
        };
        match self.state {
            _ if op == VSOCK_OP_RW && peer_sends => {
                match &pkt.buf {
                    Some(buf) => {
                        let data = vstd::slice::slice_subrange(buf.as_slice(), 0, hdr.len as usize);
                        let payload = vstd::slice::slice_to_vec(data);
                        return Some(TxJob { kind: TxKind::Data, payload });
                    },
                    None => (),
                }
            },
            ConnState::LocalInit if op == VSOCK_OP_RESPONSE => {
                return Some(TxJob { kind: TxKind::Ack, payload: ack_bytes(self.local_port) });
            },
            ConnState::Established if op == VSOCK_OP_SHUTDOWN => {
                self.shut_down(recv_off, send_off);
            },
            ConnState::PeerClosed(was_recv_off, was_send_off) if op == VSOCK_OP_SHUTDOWN => {
                self.shut_down(was_recv_off || recv_off, was_send_off || send_off);
            },
            ConnState::PeerInit if op == VSOCK_OP_CREDIT_REQUEST => {
                self.pending_rx.insert(PendingRx::CreditUpdate);
            },
            _ if op == VSOCK_OP_CREDIT_REQUEST && peer_sends => {
                self.pending_rx.insert(PendingRx::CreditUpdate);
            },
            // The credit is up to date by now, so that there is nothing left to do for a credit
            // update. Any other packet is invalid here, and dropped.
            _ => (),
        }
        None
    }
}

/// What reading a stream gave.
pub open spec fn read_view(res: Result<Vec<u8>, IoError>) -> Result<Seq<u8>, IoError> {
    match res {
        Ok(data) => Ok(data@),
        Err(e) => Err(e),
    }
}

/// Put `data` at the start of a packet's buffer.
fn fill(pkt: &mut VsockPacket, data: &Vec<u8>)
    requires
        old(pkt)@.buf is Some,
        data@.len() <= old(pkt)@.buf->0.len(),
    ensures
        final(pkt)@.hdr == old(pkt)@.hdr,
        final(pkt)@.buf == Some(data@ + old(pkt)@.buf->0.skip(data@.len() as int)),
{
    if let Some(mut buf) = pkt.buf.take() {
        let ghost room = buf@;
        let slice = buf.as_mut_slice();
        let mut i: usize = 0;
        while i < data.len()
            invariant
                i <= data@.len() <= room.len(),
                slice@.len() == room.len(),
                slice@ =~= data@.take(i as int) + room.skip(i as int),
            decreases data@.len() - i,
        {
            slice[i] = data[i];
            i = i + 1;
        }
        assert(slice@ =~= data@ + room.skip(data@.len() as int));
        pkt.buf = Some(buf);
    }
}

/// Get the confirmation that the host is sent once its connection is up.
fn ack_bytes(port: u32) -> (ret: Vec<u8>)
    ensures
        ret@ == crate::unix::conn_model::ack_msg(port),
{
    let mut ret: Vec<u8> = vec![79u8, 75u8, 32u8];
    let mut digits = to_decimal(port);
    ret.append(&mut digits);
    ret.push(10);
    assert(ret@ =~= crate::unix::conn_model::ack_msg(port));
    ret
}

} // verus!
