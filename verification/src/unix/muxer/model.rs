//! The model of the muxer: its state, and how packets, events and host I/O change it.

use vstd::prelude::*;

use crate::error::IoError;
use crate::events::{EventSet, EPOLLIN};
use crate::packet::{PacketView, VsockPacketHdr};
use crate::uapi::{VSOCK_HOST_CID, VSOCK_OP_REQUEST, VSOCK_OP_RST, VSOCK_TYPE_STREAM};
use crate::unix::conn_map::ConnMapKey;
use crate::unix::conn_model::{ConnRecv, ConnState, ConnView, TxJob, TxJobView};
use crate::unix::connection::VsockConnection;
use crate::unix::defs::{CONN_SHUTDOWN_TIMEOUT_MS, MAX_CONNECTIONS};
use crate::unix::muxer::killq::MCF_KILLQ;
use crate::unix::muxer::rxq::MCF_RXQ;
use crate::unix::muxer_killq::KillQView;
use crate::unix::muxer_rx::{MuxerRx, RxQView};
use crate::unix::pending::PendingRx;

verus! {

/// The first of the ports that host-initiated connections are given.
pub const FIRST_LOCAL_PORT: u32 = 0x8000_0000;

/// The number of ports that host-initiated connections are given.
pub const LOCAL_PORT_COUNT: u32 = 0x8000_0000;

/// Nanoseconds in a second.
pub const NANOS_PER_SEC: u64 = 1_000_000_000;

/// The longest port request that is read from a host stream.
pub const PORT_REQUEST_SIZE: usize = 32;

/// The most events that are taken from the muxer's epoll descriptor at a time.
pub const MAX_EPOLL_EVENTS: usize = 16;

/// Who is behind a file descriptor that the muxer has under watch.
#[derive(Clone, Copy, Debug, PartialEq, Eq, Structural)]
pub enum EpollListener {
    /// A connection, that is interested in the given events.
    Connection { key: ConnMapKey, evset: EventSet },
    /// The socket that the host connects to.
    HostSock,
    /// A host stream that has not named a port yet.
    LocalStream,
}

/// What is to be done with a file descriptor, without regard to the outcome.
#[derive(Clone, Copy, Debug, PartialEq, Eq, Structural)]
pub enum HostCmd {
    /// Take it off the muxer's epoll descriptor.
    EpollDel(i32),
    /// Close it.
    Close(i32),
}

/// How a file descriptor is to be put under watch.
#[derive(Clone, Copy, Debug, PartialEq, Eq, Structural)]
pub enum CtlOp {
    /// It is not under watch yet.
    Add,
    /// It is under watch already, for other events.
    Mod,
}

/// A change to the events that a connection's host stream is watched for.
#[derive(Clone, Copy, Debug, PartialEq, Eq, Structural)]
pub struct ListenerCtl {
    pub key: ConnMapKey,
    pub op: CtlOp,
    pub fd: i32,
    pub evset: EventSet,
}

/// Bytes of a TX job that are to be written to a connection's host stream.
#[derive(Debug)]
pub struct ConnWrite {
    pub key: ConnMapKey,
    pub fd: i32,
    pub job: TxJob,
    pub data: Vec<u8>,
}

/// A `ConnWrite`, by what it holds.
#[verifier::ext_equal]
pub struct ConnWriteView {
    pub key: ConnMapKey,
    pub fd: i32,
    pub job: TxJobView,
    pub data: Seq<u8>,
}

impl View for ConnWrite {
    type V = ConnWriteView;

    open spec fn view(&self) -> ConnWriteView {
        ConnWriteView { key: self.key, fd: self.fd, job: self.job@, data: self.data@ }
    }
}

/// What is left to be done for a connection that a packet or an event went to.
#[derive(Debug)]
pub enum ConnStep {
    /// Nothing.
    Idle,
    /// Write to its host stream, and hand the outcome to `conn_written`.
    Write(ConnWrite),
    /// Change what its host stream is watched for, and hand the outcome to `conn_ctl_done`.
    Ctl(ListenerCtl),
}

/// A `ConnStep`, by what it holds.
#[verifier::ext_equal]
pub enum ConnStepView {
    Idle,
    Write(ConnWriteView),
    Ctl(ListenerCtl),
}

impl View for ConnStep {
    type V = ConnStepView;

    open spec fn view(&self) -> ConnStepView {
        match self {
            ConnStep::Idle => ConnStepView::Idle,
            ConnStep::Write(write) => ConnStepView::Write(write@),
            ConnStep::Ctl(ctl) => ConnStepView::Ctl(*ctl),
        }
    }
}

/// A guest's request to be connected to the host socket that listens at `path`.
#[derive(Debug)]
pub struct PeerRequest {
    pub path: Vec<u8>,
    pub local_port: u32,
    pub peer_port: u32,
    pub buf_alloc: u32,
}

/// A `PeerRequest`, by what it holds.
#[verifier::ext_equal]
pub struct PeerRequestView {
    pub path: Seq<u8>,
    pub local_port: u32,
    pub peer_port: u32,
    pub buf_alloc: u32,
}

impl View for PeerRequest {
    type V = PeerRequestView;

    open spec fn view(&self) -> PeerRequestView {
        PeerRequestView {
            path: self.path@,
            local_port: self.local_port,
            peer_port: self.peer_port,
            buf_alloc: self.buf_alloc,
        }
    }
}

/// What is left to be done for a packet from the guest.
#[derive(Debug)]
pub enum SendStep {
    /// Nothing.
    Done,
    /// Connect to a host socket, and hand the outcome to `connected`.
    Connect(PeerRequest),
    /// See to a connection.
    Conn(ConnStep),
}

/// A `SendStep`, by what it holds.
#[verifier::ext_equal]
pub enum SendStepView {
    Done,
    Connect(PeerRequestView),
    Conn(ConnStepView),
}

impl View for SendStep {
    type V = SendStepView;

    open spec fn view(&self) -> SendStepView {
        match self {
            SendStep::Done => SendStepView::Done,
            SendStep::Connect(req) => SendStepView::Connect(req@),
            SendStep::Conn(step) => SendStepView::Conn(step@),
        }
    }
}

/// Who asked for a new connection.
#[derive(Clone, Copy, Debug, PartialEq, Eq, Structural)]
pub enum Origin {
    Guest,
    Host,
}

/// A connection that is yet to be put under watch for EPOLLIN, before it joins the pool.
pub struct NewConn {
    pub origin: Origin,
    pub key: ConnMapKey,
    pub conn: VsockConnection,
}

/// A `NewConn`, by what it holds.
#[verifier::ext_equal]
pub struct NewConnView {
    pub origin: Origin,
    pub key: ConnMapKey,
    pub conn: ConnView,
}

impl View for NewConn {
    type V = NewConnView;

    open spec fn view(&self) -> NewConnView {
        NewConnView { origin: self.origin, key: self.key, conn: self.conn@ }
    }
}

/// The view of a new connection that may not be there.
pub open spec fn new_conn_view(new: Option<NewConn>) -> Option<NewConnView> {
    match new {
        Some(new) => Some(new@),
        None => None,
    }
}

/// What is left to be done for an event on one of the muxer's file descriptors.
#[derive(Debug)]
pub enum EventStep {
    /// Nothing.
    Idle,
    /// See to a connection.
    Conn(ConnStep),
    /// Accept a connection on the host socket, and hand the outcome to `accepted`.
    Accept,
    /// Read a port request, of up to `PORT_REQUEST_SIZE` bytes, from the given stream, and hand it
    /// to `local_stream_read`.
    ReadPort(i32),
}

/// An `EventStep`, by what it holds.
#[verifier::ext_equal]
pub enum EventStepView {
    Idle,
    Conn(ConnStepView),
    Accept,
    ReadPort(i32),
}

impl View for EventStep {
    type V = EventStepView;

    open spec fn view(&self) -> EventStepView {
        match self {
            EventStep::Idle => EventStepView::Idle,
            EventStep::Conn(step) => EventStepView::Conn(step@),
            EventStep::Accept => EventStepView::Accept,
            EventStep::ReadPort(fd) => EventStepView::ReadPort(*fd),
        }
    }
}

/// What is left to be done to receive a packet for the guest.
#[derive(Clone, Copy, Debug, PartialEq, Eq, Structural)]
pub enum RecvStep {
    /// Nothing: the packet is complete.
    Done,
    /// Nothing: there is no packet.
    NoData,
    /// Read up to `len` bytes from a connection's host stream, and hand them to `recv_data`.
    Read { key: ConnMapKey, fd: i32, len: usize },
    /// Change what a connection's host stream is watched for, and hand the outcome to
    /// `recv_ctl_done`. The packet is complete already if `got` is set.
    Ctl { ctl: ListenerCtl, got: bool },
}

/// A request for the events on an epoll descriptor, without waiting for them.
#[derive(Clone, Copy, Debug, PartialEq, Eq, Structural)]
pub struct EpollWait {
    /// The epoll descriptor.
    pub epoll_fd: i32,
    /// The most events to be taken.
    pub max_events: usize,
}

/// The port after `port`, among those that host-initiated connections are given.
pub open spec fn next_port(port: u32) -> u32 {
    if port == u32::MAX {
        FIRST_LOCAL_PORT
    } else {
        (port + 1) as u32
    }
}

/// The first of the `tries` ports after `port` that is not in `taken`.
pub open spec fn first_free(taken: Set<u32>, port: u32, tries: nat) -> Option<u32>
    decreases tries,
{
    if tries == 0 {
        None
    } else if !taken.contains(next_port(port)) {
        Some(next_port(port))
    } else {
        first_free(taken, next_port(port), (tries - 1) as nat)
    }
}

/// The path at which a host socket is expected to listen for connections to `port`.
pub open spec fn port_path(base: Seq<u8>, port: u32) -> Seq<u8> {
    base + seq![95u8] + crate::text::decimal(port as nat)
}

/// The header of an RST packet to the guest.
pub open spec fn rst_hdr(cid: u64, local_port: u32, peer_port: u32) -> VsockPacketHdr {
    VsockPacketHdr {
        src_cid: VSOCK_HOST_CID,
        dst_cid: cid,
        src_port: local_port,
        dst_port: peer_port,
        len: 0,
        type_: VSOCK_TYPE_STREAM,
        op: VSOCK_OP_RST,
        flags: 0,
        buf_alloc: 0,
        fwd_cnt: 0,
    }
}

/// The key of the connection that a packet from the guest belongs to.
pub open spec fn tx_key(hdr: VsockPacketHdr) -> ConnMapKey {
    ConnMapKey { local_port: hdr.dst_port, peer_port: hdr.src_port }
}

/// The key of the connection that a packet for the guest belongs to.
pub open spec fn rx_key(hdr: VsockPacketHdr) -> ConnMapKey {
    ConnMapKey { local_port: hdr.src_port, peer_port: hdr.dst_port }
}

/// What the muxer is made of.
#[verifier::ext_equal]
pub struct MuxerView {
    /// The guest's CID.
    pub cid: u64,
    /// The path of the host socket.
    pub path: Seq<u8>,
    /// The muxer's epoll descriptor.
    pub epoll_fd: i32,
    /// The connection pool.
    pub conns: Map<ConnMapKey, ConnView>,
    /// Who is behind the file descriptors that are under watch.
    pub listeners: Map<i32, EpollListener>,
    /// The RX packets to be built.
    pub rxq: RxQView,
    /// The connections to be terminated.
    pub killq: KillQView,
    /// The ports that were given to host-initiated connections.
    pub ports: Set<u32>,
    /// The port that was given last.
    pub last_port: u32,
    /// When the kill queue was last swept.
    pub last_sweep: u64,
    /// What is to be done with file descriptors, in this order.
    pub cmds: Seq<HostCmd>,
}

impl MuxerView {
    /// A new muxer.
    pub open spec fn fresh(
        cid: u64,
        path: Seq<u8>,
        epoll_fd: i32,
        host_fd: i32,
        now: u64,
    ) -> MuxerView {
        MuxerView {
            cid,
            path,
            epoll_fd,
            conns: Map::empty(),
            listeners: Map::empty().insert(host_fd, EpollListener::HostSock),
            rxq: RxQView { q: Seq::empty(), synced: true },
            killq: KillQView { q: Seq::empty(), synced: true },
            ports: Set::empty(),
            last_port: FIRST_LOCAL_PORT,
            last_sweep: now,
            cmds: Seq::empty(),
        }
    }

    /// The muxer, with another command to be carried out.
    pub open spec fn with_cmd(self, cmd: HostCmd) -> MuxerView {
        MuxerView { cmds: self.cmds.push(cmd), ..self }
    }

    /// The muxer, with a connection put in the pool.
    pub open spec fn with_conn(self, key: ConnMapKey, conn: ConnView) -> MuxerView {
        MuxerView { conns: self.conns.insert(key, conn), ..self }
    }

    /// The muxer, with a listener noted.
    pub open spec fn with_listener(self, fd: i32, listener: EpollListener) -> MuxerView {
        MuxerView { listeners: self.listeners.insert(fd, listener), ..self }
    }

    /// The muxer, with an item appended to the RX queue, if there is room.
    pub open spec fn with_rx(self, rx: MuxerRx) -> MuxerView {
        MuxerView { rxq: self.rxq.appended(rx), ..self }
    }

    /// The muxer, with an RST queued for the guest, if there is room.
    pub open spec fn with_rst(self, key: ConnMapKey) -> MuxerView {
        self.with_rx(MuxerRx::RstPkt { local_port: key.local_port, peer_port: key.peer_port })
    }

    /// The muxer, with a file descriptor no longer under watch.
    pub open spec fn without_listener(self, fd: i32) -> MuxerView {
        if self.listeners.contains_key(fd) {
            MuxerView { listeners: self.listeners.remove(fd), ..self }.with_cmd(
                HostCmd::EpollDel(fd),
            )
        } else {
            self
        }
    }

    /// The muxer, with a local port free again.
    pub open spec fn without_port(self, port: u32) -> MuxerView {
        MuxerView { ports: self.ports.remove(port), ..self }
    }

    /// The muxer, with a connection gone, if it was there.
    pub open spec fn without_conn(self, key: ConnMapKey) -> MuxerView {
        if self.conns.contains_key(key) {
            let fd = self.conns[key].fd;
            let muxer = self.without_listener(fd).with_cmd(HostCmd::Close(fd));
            MuxerView { conns: self.conns.remove(key), ..muxer }.without_port(key.local_port)
        } else {
            self.without_port(key.local_port)
        }
    }

    /// The muxer, with a connection terminated: it is gone, and the guest will be told so by an
    /// RST. If there is no room for that RST in the RX queue, the connection is doomed for now.
    pub open spec fn terminated(self, key: ConnMapKey) -> MuxerView {
        if self.rxq.has_room() {
            self.with_rst(key).without_conn(key)
        } else {
            let muxer = if self.conns.contains_key(key) {
                self.with_conn(key, self.conns[key].killed())
            } else {
                self
            };
            muxer.with_rx(MuxerRx::ConnRx(key))
        }
    }

    /// The muxer, with a connection in the RX queue, if it has pending RX and there is room.
    pub open spec fn rx_noted(self, key: ConnMapKey) -> MuxerView {
        let conn = self.conns[key];
        if conn.has_pending() && !conn.flagged(MCF_RXQ) {
            let muxer = self.with_rx(MuxerRx::ConnRx(key));
            if self.rxq.has_room() {
                muxer.with_conn(key, conn.with_flag(MCF_RXQ))
            } else {
                muxer
            }
        } else {
            self
        }
    }

    /// The muxer, with a connection in the kill queue, if it is shutting down and there is room.
    pub open spec fn kill_noted(self, key: ConnMapKey, now: u64) -> MuxerView {
        let conn = self.conns[key];
        if conn.shutting_down() && !conn.flagged(MCF_KILLQ) {
            let muxer = MuxerView { killq: self.killq.appended(key, now), ..self };
            if self.killq.has_room() {
                muxer.with_conn(key, conn.with_flag(MCF_KILLQ))
            } else {
                muxer
            }
        } else {
            self
        }
    }

    /// See to it that a connection's host stream is watched for the right events: the muxer after,
    /// and the change that is to be made, if any.
    pub open spec fn polled(self, key: ConnMapKey) -> (MuxerView, Option<ListenerCtl>) {
        let fd = self.conns[key].fd;
        let evset = self.conns[key].polled_evset();
        if evset == EventSet::of(0) {
            (self.without_listener(fd), None)
        } else if self.listeners.contains_key(fd) && self.listeners[fd] is Connection {
            if self.listeners[fd]->evset == evset {
                (self, None)
            } else {
                let listener = EpollListener::Connection { key: self.listeners[fd]->key, evset };
                (
                    self.with_listener(fd, listener),
                    Some(ListenerCtl { key, op: CtlOp::Mod, fd, evset }),
                )
            }
        } else {
            (self, Some(ListenerCtl { key, op: CtlOp::Add, fd, evset }))
        }
    }

    /// Take note of what has changed about a connection: the muxer after, and the change that is
    /// to be made to what its host stream is watched for, if any.
    pub open spec fn settled(self, key: ConnMapKey, now: u64) -> (MuxerView, Option<ListenerCtl>) {
        self.rx_noted(key).kill_noted(key, now).polled(key)
    }

    /// The muxer, once a change was made to what a host stream is watched for, or was refused.
    pub open spec fn ctl_done(self, ctl: ListenerCtl, ok: bool) -> MuxerView {
        if !ok {
            self.terminated(ctl.key)
        } else if ctl.op == CtlOp::Add {
            self.with_listener(
                ctl.fd,
                EpollListener::Connection { key: ctl.key, evset: ctl.evset },
            )
        } else {
            self
        }
    }

    /// Go on with a connection: write the bytes of a job, if there is one, or else settle.
    pub open spec fn conn_step(self, key: ConnMapKey, job: Option<TxJobView>, now: u64) -> (
        MuxerView,
        ConnStepView,
    ) {
        match job {
            Some(job) => (
                self,
                ConnStepView::Write(
                    ConnWriteView {
                        key,
                        fd: self.conns[key].fd,
                        job,
                        data: self.conns[key].tx_chunk(job),
                    },
                ),
            ),
            None => {
                let (muxer, ctl) = self.settled(key, now);
                match ctl {
                    Some(ctl) => (muxer, ConnStepView::Ctl(ctl)),
                    None => (muxer, ConnStepView::Idle),
                }
            },
        }
    }

    /// Account for a write to a connection's host stream.
    pub open spec fn written(
        self,
        key: ConnMapKey,
        job: TxJobView,
        res: Result<usize, IoError>,
        now: u64,
    ) -> (MuxerView, ConnStepView) {
        let (conn, job) = self.conns[key].tx_written(job, res);
        self.with_conn(key, conn).conn_step(key, job, now)
    }

    /// Process a packet from the guest.
    pub open spec fn send(self, pkt: PacketView, now: u64) -> (MuxerView, SendStepView) {
        let key = tx_key(pkt.hdr);
        if pkt.hdr.type_ != VSOCK_TYPE_STREAM {
            (self.with_rst(key), SendStepView::Done)
        } else if pkt.hdr.dst_cid != VSOCK_HOST_CID {
            (self, SendStepView::Done)
        } else if !self.conns.contains_key(key) {
            if pkt.hdr.op == VSOCK_OP_REQUEST {
                (
                    self,
                    SendStepView::Connect(
                        PeerRequestView {
                            path: port_path(self.path, pkt.hdr.dst_port),
                            local_port: pkt.hdr.dst_port,
                            peer_port: pkt.hdr.src_port,
                            buf_alloc: pkt.hdr.buf_alloc,
                        },
                    ),
                )
            } else {
                (self.with_rst(key), SendStepView::Done)
            }
        } else if pkt.hdr.op == VSOCK_OP_RST {
            (self.without_conn(key), SendStepView::Done)
        } else {
            let (conn, job) = self.conns[key].send_start(pkt);
            let (muxer, step) = self.with_conn(key, conn).conn_step(key, job, now);
            (muxer, SendStepView::Conn(step))
        }
    }

    /// Give up on a new connection: the guest is told by an RST, or the local port is free again.
    pub open spec fn refused(self, new: NewConnView) -> MuxerView {
        let muxer = match new.origin {
            Origin::Guest => self.with_rst(new.key),
            Origin::Host => self.without_port(new.key.local_port),
        };
        muxer.with_cmd(HostCmd::Close(new.conn.fd))
    }

    /// Offer a new connection to the pool: the muxer after, and the connection, if it may join.
    pub open spec fn offered(self, new: NewConnView) -> (MuxerView, Option<NewConnView>) {
        if self.conns.dom().len() >= MAX_CONNECTIONS {
            (self.refused(new), None)
        } else {
            (self, Some(new))
        }
    }

    /// Have a new connection join the pool, once it is under watch, or give up on it, if that has
    /// failed, or if the pool has filled up in the meantime.
    pub open spec fn joined(self, new: NewConnView, ok: bool) -> MuxerView {
        if ok && self.conns.dom().len() < MAX_CONNECTIONS {
            let muxer = if self.conns.contains_key(new.key) {
                self.with_cmd(HostCmd::Close(self.conns[new.key].fd))
            } else {
                self
            };
            let listener = EpollListener::Connection { key: new.key, evset: EventSet::of(EPOLLIN) };
            muxer.with_listener(new.conn.fd, listener).with_conn(new.key, new.conn).rx_noted(
                new.key,
            )
        } else {
            self.refused(new)
        }
    }

    /// Go on with a guest's request, once its host socket was connected to, or could not be.
    pub open spec fn connected(self, req: PeerRequestView, res: Result<i32, IoError>) -> (
        MuxerView,
        Option<NewConnView>,
    ) {
        let key = ConnMapKey { local_port: req.local_port, peer_port: req.peer_port };
        match res {
            Err(_) => (self.with_rst(key), None),
            Ok(fd) => self.offered(
                NewConnView {
                    origin: Origin::Guest,
                    key,
                    conn: crate::unix::conn_model::new_conn(
                        ConnState::PeerInit,
                        fd,
                        self.cid,
                        req.local_port,
                        req.peer_port,
                        req.buf_alloc,
                        PendingRx::Response,
                    ),
                },
            ),
        }
    }

    /// The local port that the next host-initiated connection is given, if there is one left.
    pub open spec fn free_port(self) -> Option<u32> {
        first_free(self.ports, self.last_port, LOCAL_PORT_COUNT as nat)
    }

    /// The muxer, with a local port given away.
    pub open spec fn with_port(self, port: u32) -> MuxerView {
        MuxerView { ports: self.ports.insert(port), last_port: port, ..self }
    }

    /// Go on with a host stream, once it has named a port, or has failed to.
    pub open spec fn local_request(self, fd: i32, res: Result<Seq<u8>, IoError>) -> (
        MuxerView,
        Option<NewConnView>,
    ) {
        let port = match res {
            Err(_) => None,
            Ok(data) => crate::unix::muxer::port_request::requested_port(data),
        };
        match (port, self.free_port()) {
            (Some(peer_port), Some(local_port)) => self.with_port(local_port).offered(
                NewConnView {
                    origin: Origin::Host,
                    key: ConnMapKey { local_port, peer_port },
                    conn: crate::unix::conn_model::new_conn(
                        ConnState::LocalInit,
                        fd,
                        self.cid,
                        local_port,
                        peer_port,
                        0,
                        PendingRx::Request,
                    ),
                },
            ),
            _ => (self.with_cmd(HostCmd::Close(fd)), None),
        }
    }

    /// The muxer, once a host stream is under watch, or has failed to be.
    pub open spec fn local_watched(self, fd: i32, ok: bool) -> MuxerView {
        if ok {
            self.with_listener(fd, EpollListener::LocalStream)
        } else {
            self.with_cmd(HostCmd::Close(fd))
        }
    }

    /// Whether the kill queue is to be swept.
    pub open spec fn sweep_due(self, now: u64) -> bool {
        now > self.last_sweep && (now - self.last_sweep) as u64 / NANOS_PER_SEC
            > CONN_SHUTDOWN_TIMEOUT_MS / 1000
    }

    /// The muxer, with all connections terminated whose time has come.
    pub open spec fn reaped(self, now: u64) -> MuxerView
        decreases self.killq.q.len(),
    {
        if self.killq.front_timed_out(now) {
            let killq = KillQView { q: self.killq.q.skip(1), ..self.killq };
            MuxerView { killq, ..self }.terminated(self.killq.q[0].key).reaped(now)
        } else {
            self
        }
    }

    /// Whether `after` is the muxer after a sweep of the kill queue.
    pub open spec fn swept(self, now: u64, after: MuxerView) -> bool {
        let muxer = MuxerView { last_sweep: now, ..self }.reaped(now);
        &&& after == MuxerView { killq: after.killq, ..muxer }
        &&& if muxer.killq.synced {
            after.killq == muxer.killq
        } else {
            crate::unix::muxer::killq::kill_synced(muxer.killq, muxer.conns, now, after.killq)
        }
    }

    /// Process an event on one of the muxer's file descriptors.
    pub open spec fn event(self, fd: i32, now: u64) -> (MuxerView, EventStepView) {
        if !self.listeners.contains_key(fd) {
            (self, EventStepView::Idle)
        } else {
            match self.listeners[fd] {
                EpollListener::Connection { key, evset } => if self.conns.contains_key(key) {
                    let (conn, job) = self.conns[key].notified(evset);
                    let (muxer, step) = self.with_conn(key, conn).conn_step(key, job, now);
                    (muxer, EventStepView::Conn(step))
                } else {
                    (self, EventStepView::Idle)
                },
                EpollListener::HostSock => (self, EventStepView::Accept),
                EpollListener::LocalStream => (
                    self.without_listener(fd),
                    EventStepView::ReadPort(fd),
                ),
            }
        }
    }

    /// Whether `after` is the muxer with its RX queue synchronized, if it was not.
    pub open spec fn rx_refilled(self, after: MuxerView) -> bool {
        if self.rxq.synced {
            after == self
        } else {
            &&& after == MuxerView { rxq: after.rxq, conns: after.conns, ..self }
            &&& crate::unix::muxer::rxq::rx_synced(self.rxq, self.conns, after.rxq, after.conns)
        }
    }

    /// The muxer, with the item at the front of the RX queue gone.
    pub open spec fn rx_popped(self) -> MuxerView {
        MuxerView { rxq: RxQView { q: self.rxq.q.skip(1), ..self.rxq }, ..self }
    }

    /// The muxer, once it has handed out a packet with the header `hdr`.
    pub open spec fn delivered(self, hdr: VsockPacketHdr) -> MuxerView {
        if hdr.op == VSOCK_OP_RST {
            self.without_conn(rx_key(hdr))
        } else {
            self
        }
    }

    /// Settle a connection that was asked for a packet, and, if it gave one, deliver that packet.
    /// Otherwise, go on with the next item in the RX queue.
    pub open spec fn recv_settled(self, key: ConnMapKey, pkt: PacketView, got: bool, now: u64) -> (
        MuxerView,
        PacketView,
        RecvStep,
    ) {
        let (muxer, ctl) = self.settled(key, now);
        match ctl {
            Some(ctl) => (muxer, pkt, RecvStep::Ctl { ctl, got }),
            None => if got {
                (muxer.delivered(pkt.hdr), pkt, RecvStep::Done)
            } else {
                muxer.recv_next(pkt, now)
            },
        }
    }

    /// Receive a packet for the guest: the first in the RX queue that can be had.
    pub open spec fn recv_next(self, pkt: PacketView, now: u64) -> (
        MuxerView,
        PacketView,
        RecvStep,
    )
        decreases self.rxq.q.len(),
    {
        if self.rxq.q.len() == 0 {
            (self, pkt, RecvStep::NoData)
        } else {
            let muxer = self.rx_popped();
            match self.rxq.q[0] {
                MuxerRx::RstPkt { local_port, peer_port } => {
                    let hdr = rst_hdr(self.cid, local_port, peer_port);
                    (muxer.delivered(hdr), PacketView { hdr, ..pkt }, RecvStep::Done)
                },
                MuxerRx::ConnRx(key) => if !self.conns.contains_key(key) {
                    muxer.recv_next(pkt, now)
                } else {
                    let unnoted = self.conns[key].without_flag(MCF_RXQ);
                    let (conn, hdr, recv) = unnoted.recv_start(pkt.buf->0.len());
                    let asked = muxer.with_conn(key, conn);
                    let filled = PacketView { hdr, ..pkt };
                    match recv {
                        ConnRecv::Read(len) => (
                            asked,
                            filled,
                            RecvStep::Read { key, fd: conn.fd, len },
                        ),
                        ConnRecv::Ready => {
                            let (settled, ctl) = asked.settled(key, now);
                            match ctl {
                                Some(ctl) => (settled, filled, RecvStep::Ctl { ctl, got: true }),
                                None => (settled.delivered(hdr), filled, RecvStep::Done),
                            }
                        },
                    }
                },
            }
        }
    }

    /// Go on with receiving a packet, once a connection's host stream was read.
    pub open spec fn recv_read(
        self,
        key: ConnMapKey,
        pkt: PacketView,
        res: Result<Seq<u8>, IoError>,
        now: u64,
    ) -> (MuxerView, PacketView, RecvStep) {
        let (conn, filled, ret) = self.conns[key].recv_finish(pkt, res);
        self.with_conn(key, conn).recv_settled(key, filled, ret is Ok, now)
    }

    /// Go on with receiving a packet, once a change was made to what a host stream is watched for,
    /// or was refused.
    pub open spec fn recv_ctl(
        self,
        ctl: ListenerCtl,
        got: bool,
        pkt: PacketView,
        ok: bool,
        now: u64,
    ) -> (MuxerView, PacketView, RecvStep) {
        let muxer = self.ctl_done(ctl, ok);
        if got {
            (muxer.delivered(pkt.hdr), pkt, RecvStep::Done)
        } else {
            muxer.recv_next(pkt, now)
        }
    }
}

} // verus!
