//! A muxer that defers what the guest is to be sent: it queues notes of it, and builds the packets
//! when the guest has room for them.

use std::collections::{HashMap, VecDeque};

use vstd::prelude::*;

use crate::copying::muxer::{make_host_path, HostConnect, HostWrite, VsockConnectionState};
use crate::copying::packet::{VsockError, VsockPacket};
use crate::copying::port_map::PortMap;
use crate::error::IoError;
use crate::events::{EventSet, EPOLLIN};
use crate::packet::VsockPacketHdr;
use crate::uapi::{
    VSOCK_HOST_CID, VSOCK_OP_REQUEST, VSOCK_OP_RESPONSE, VSOCK_OP_RST, VSOCK_OP_RW,
    VSOCK_OP_SHUTDOWN,
};
use crate::unix::muxer::model::{EpollWait, MAX_EPOLL_EVENTS};

verus! {

broadcast use vstd::std_specs::hash::group_hash_axioms;

/// A connection between a guest port and a host stream, if there is one.
#[derive(Clone, Copy, Debug, PartialEq, Eq, Structural)]
pub struct VsockConnection {
    /// The guest's port.
    pub local_port: u32,
    /// The host's port.
    pub remote_port: u32,
    /// The file descriptor of the host stream.
    pub remote: Option<i32>,
    /// The state of the connection.
    pub state: VsockConnectionState,
}

/// A connection of the guest's, once its host socket was connected to, or could not be.
pub open spec fn local_init(
    local_port: u32,
    remote_port: u32,
    res: Result<i32, IoError>,
) -> VsockConnection {
    match res {
        Ok(fd) => VsockConnection {
            local_port,
            remote_port,
            remote: Some(fd),
            state: VsockConnectionState::Established,
        },
        Err(_) => VsockConnection {
            local_port,
            remote_port,
            remote: None,
            state: VsockConnectionState::RemoteClose,
        },
    }
}

impl VsockConnection {
    /// Create a connection of the guest's, once its host socket was connected to, or could not be.
    pub fn new_local_init(local_port: u32, remote_port: u32, res: Result<i32, IoError>) -> (ret:
        VsockConnection)
        ensures
            ret == local_init(local_port, remote_port, res),
    {
        match res {
            Ok(fd) => VsockConnection {
                local_port,
                remote_port,
                remote: Some(fd),
                state: VsockConnectionState::Established,
            },
            Err(_) => VsockConnection {
                local_port,
                remote_port,
                remote: None,
                state: VsockConnectionState::RemoteClose,
            },
        }
    }

    /// Send data to the host stream: get what is to be written to it. The outcome of that is to be
    /// handed to `sent`.
    pub fn send(&self, buf: Vec<u8>) -> (ret: Result<HostWrite, VsockError>)
        ensures
            ret == (match self.remote {
                Some(fd) => Ok::<HostWrite, VsockError>(HostWrite { fd, data: buf }),
                None => Err::<HostWrite, VsockError>(VsockError::GeneralError),
            }),
    {
        match self.remote {
            Some(fd) => Ok(HostWrite { fd, data: buf }),
            None => Err(VsockError::GeneralError),
        }
    }

    /// Find out if `len` bytes were sent, from what writing them gave: a short write is a failure.
    pub fn sent(len: usize, res: Result<usize, IoError>) -> (ret: Result<(), VsockError>)
        ensures
            ret == (if res == Ok::<usize, IoError>(len) {
                Ok::<(), VsockError>(())
            } else {
                Err::<(), VsockError>(VsockError::GeneralError)
            }),
    {
        match res {
            Ok(n) => {
                if n != len {
                    Err(VsockError::GeneralError)
                } else {
                    Ok(())
                }
            },
            Err(_) => Err(VsockError::GeneralError),
        }
    }

    /// Get the data that was received, from what reading the host stream gave.
    pub fn recv(res: Result<Vec<u8>, IoError>) -> (ret: Result<Vec<u8>, VsockError>)
        ensures
            ret == (match res {
                Ok(data) => Ok::<Vec<u8>, VsockError>(data),
                Err(_) => Err::<Vec<u8>, VsockError>(VsockError::GeneralError),
            }),
    {
        match res {
            Ok(data) => Ok(data),
            Err(_) => Err(VsockError::GeneralError),
        }
    }
}

/// A note of a packet that the guest is to be sent.
#[derive(Clone, Copy, Debug, PartialEq, Eq, Structural)]
pub struct MuxerDeferredRx {
    pub op: u16,
    pub local_port: u32,
    pub remote_port: u32,
}

/// Who is behind a file descriptor that the muxer has under watch.
#[derive(Clone, Copy, Debug, PartialEq, Eq, Structural)]
pub enum EpollListener {
    /// A connection.
    Connection { local_port: u32, remote_port: u32, ev_set: EventSet },
}

/// What is left to be done for a packet from the guest.
#[derive(Debug)]
pub enum SendStep {
    /// Nothing.
    Done,
    /// Connect to a host socket, and hand the outcome to `connected`.
    Connect(HostConnect),
    /// Write to a host stream, without regard to the outcome.
    Write(HostWrite),
    /// Close a host stream.
    Close(i32),
}

/// What is left to be done to receive a packet for the guest.
#[derive(Debug)]
pub enum RecvStep {
    /// Nothing: there is no packet.
    NoData,
    /// Nothing: here it is.
    Packet(VsockPacket),
    /// Read up to `max_len` bytes from a host stream, and hand them to `recv_data`.
    Read { local_port: u32, remote_port: u32, fd: i32, max_len: usize },
}

/// What the muxer is made of.
#[verifier::ext_equal]
pub struct DeferredView {
    /// The guest's CID.
    pub cid: u64,
    /// The muxer's epoll descriptor.
    pub epoll_fd: i32,
    /// The notes of packets for the guest, next one first.
    pub rxq: Seq<MuxerDeferredRx>,
    /// The connections, by the guest's port and the host's.
    pub conns: Map<(u32, u32), VsockConnection>,
    /// Who is behind the file descriptors that are under watch.
    pub listeners: Map<i32, EpollListener>,
}

impl DeferredView {
    /// All connections have a host stream.
    pub open spec fn wf(self) -> bool {
        forall|key: (u32, u32)| #[trigger]
            self.conns.contains_key(key) ==> self.conns[key].remote is Some
    }

    /// The muxer, with a note of another packet for the guest.
    pub open spec fn with_rx(self, op: u16, local_port: u32, remote_port: u32) -> DeferredView {
        DeferredView { rxq: self.rxq.push(MuxerDeferredRx { op, local_port, remote_port }), ..self }
    }

    /// The muxer without a connection.
    pub open spec fn without_conn(self, key: (u32, u32)) -> DeferredView {
        DeferredView { conns: self.conns.remove(key), ..self }
    }

    /// The muxer, once a packet from the guest was processed.
    pub open spec fn sent(self, hdr: VsockPacketHdr) -> DeferredView {
        let key = (hdr.src_port, hdr.dst_port);
        if self.conns.contains_key(key) && hdr.op == VSOCK_OP_SHUTDOWN {
            self.with_rx(VSOCK_OP_RST, hdr.src_port, hdr.dst_port).without_conn(key)
        } else if self.conns.contains_key(key) && hdr.op == VSOCK_OP_RST {
            self.without_conn(key)
        } else {
            self
        }
    }

    /// Whether `step` is what is left to be done for a packet from the guest.
    pub open spec fn send_step(self, hdr: VsockPacketHdr, buf: Seq<u8>, step: SendStep) -> bool {
        let key = (hdr.src_port, hdr.dst_port);
        if self.conns.contains_key(key) {
            let fd = self.conns[key].remote->0;
            if hdr.op == VSOCK_OP_RW {
                step is Write && step->Write_0.fd == fd && step->Write_0.data@ == buf
            } else if hdr.op == VSOCK_OP_SHUTDOWN || hdr.op == VSOCK_OP_RST {
                step == SendStep::Close(fd)
            } else {
                step == SendStep::Done
            }
        } else if hdr.op == VSOCK_OP_REQUEST {
            &&& step is Connect
            &&& step->Connect_0.path@ == crate::copying::muxer::host_path(hdr.dst_port)
            &&& step->Connect_0.local_port == hdr.src_port
            &&& step->Connect_0.remote_port == hdr.dst_port
        } else {
            step == SendStep::Done
        }
    }

    /// The muxer, with a connection added, whose host stream is `fd`.
    pub open spec fn with_conn(self, local_port: u32, remote_port: u32, fd: i32) -> DeferredView {
        DeferredView {
            conns: self.conns.insert(
                (local_port, remote_port),
                local_init(local_port, remote_port, Ok(fd)),
            ),
            listeners: self.listeners.insert(
                fd,
                EpollListener::Connection { local_port, remote_port, ev_set: EventSet::of(EPOLLIN) },
            ),
            ..self
        }
    }

    /// The muxer, once a host socket was connected to for the guest, or could not be. Of the
    /// latter, the guest is told at its own port.
    pub open spec fn connected(
        self,
        local_port: u32,
        remote_port: u32,
        res: Result<i32, IoError>,
    ) -> DeferredView {
        match res {
            Ok(fd) => self.with_conn(local_port, remote_port, fd).with_rx(
                VSOCK_OP_RESPONSE,
                local_port,
                remote_port,
            ),
            Err(_) => self.with_rx(VSOCK_OP_RST, local_port, local_port),
        }
    }

    /// The muxer, once it has made use of the next note.
    pub open spec fn received(self) -> DeferredView {
        if self.rxq.len() == 0 {
            self
        } else {
            DeferredView { rxq: self.rxq.skip(1), ..self }
        }
    }

    /// Whether `step` is what is left to be done to receive a packet with up to `max_len` bytes.
    pub open spec fn recv_step(self, max_len: usize, step: RecvStep) -> bool {
        if self.rxq.len() == 0 {
            step == RecvStep::NoData
        } else {
            let rx = self.rxq[0];
            let key = (rx.local_port, rx.remote_port);
            if rx.op == VSOCK_OP_RST || rx.op == VSOCK_OP_RESPONSE {
                &&& step is Packet
                &&& step->Packet_0.hdr == crate::copying::packet::hdr_between(
                    VSOCK_HOST_CID,
                    self.cid,
                    rx.remote_port,
                    rx.local_port,
                    rx.op,
                    0,
                )
                &&& step->Packet_0.buf@ == Seq::<u8>::empty()
            } else if rx.op == VSOCK_OP_RW && self.conns.contains_key(key) {
                step == RecvStep::Read {
                    local_port: rx.local_port,
                    remote_port: rx.remote_port,
                    fd: self.conns[key].remote->0,
                    max_len,
                }
            } else {
                step == RecvStep::NoData
            }
        }
    }

    /// The muxer, once an event was processed: data to be read is noted.
    pub open spec fn event(self, fd: i32, ev_set: EventSet) -> DeferredView {
        if self.listeners.contains_key(fd) && ev_set.has(EPOLLIN) {
            let listener = self.listeners[fd];
            self.with_rx(VSOCK_OP_RW, listener->local_port, listener->remote_port)
        } else {
            self
        }
    }
}

/// The muxer.
pub struct VsockMuxer {
    rxq: VecDeque<MuxerDeferredRx>,
    conn_map: PortMap<VsockConnection>,
    listener_map: HashMap<i32, EpollListener>,
    cid: u64,
    epoll_fd: i32,
}

impl View for VsockMuxer {
    type V = DeferredView;

    closed spec fn view(&self) -> DeferredView {
        DeferredView {
            cid: self.cid,
            epoll_fd: self.epoll_fd,
            rxq: self.rxq@,
            conns: self.conn_map@,
            listeners: self.listener_map@,
        }
    }
}

impl VsockMuxer {
    /// Create a muxer.
    pub fn new(cid: u64, epoll_fd: i32) -> (ret: VsockMuxer)
        ensures
            ret@.wf(),
            ret@ == (DeferredView {
                cid,
                epoll_fd,
                rxq: Seq::empty(),
                conns: Map::empty(),
                listeners: Map::empty(),
            }),
    {
        VsockMuxer {
            rxq: VecDeque::new(),
            conn_map: PortMap::new(),
            listener_map: HashMap::new(),
            cid,
            epoll_fd,
        }
    }

    /// Process a packet from the guest. One that belongs to no connection, and does not ask for
    /// one, is dropped.
    pub fn send(&mut self, pkt: VsockPacket) -> (ret: SendStep)
        requires
            old(self)@.wf(),
        ensures
            final(self)@.wf(),
            final(self)@ == old(self)@.sent(pkt.hdr),
            old(self)@.send_step(pkt.hdr, pkt.buf@, ret),
    {
        let hdr = pkt.hdr;
        let key = (hdr.src_port, hdr.dst_port);
        let conn = match self.conn_map.get(key) {
            Some(conn) => *conn,
            None => {
                if hdr.op != VSOCK_OP_REQUEST {
                    return SendStep::Done;
                }
                return SendStep::Connect(
                    HostConnect {
                        path: make_host_path(hdr.dst_port),
                        local_port: hdr.src_port,
                        remote_port: hdr.dst_port,
                    },
                );
            },
        };
        match hdr.op {
            VSOCK_OP_RW => match conn.send(pkt.buf) {
                Ok(write) => SendStep::Write(write),
                Err(_) => SendStep::Done,
            },
            VSOCK_OP_SHUTDOWN => {
                self.rxq.push_back(
                    MuxerDeferredRx {
                        op: VSOCK_OP_RST,
                        local_port: hdr.src_port,
                        remote_port: hdr.dst_port,
                    },
                );
                self.conn_map.remove(key);
                match conn.remote {
                    Some(fd) => SendStep::Close(fd),
                    None => SendStep::Done,
                }
            },
            VSOCK_OP_RST => {
                self.conn_map.remove(key);
                match conn.remote {
                    Some(fd) => SendStep::Close(fd),
                    None => SendStep::Done,
                }
            },
            _ => SendStep::Done,
        }
    }

    /// Go on with a guest's connection request, once its host socket was connected to, or could not
    /// be. If it was, get the file descriptor that is to be put under watch for EPOLLIN.
    pub fn connected(
        &mut self,
        local_port: u32,
        remote_port: u32,
        res: Result<i32, IoError>,
    ) -> (ret: Option<i32>)
        requires
            old(self)@.wf(),
        ensures
            final(self)@.wf(),
            final(self)@ == old(self)@.connected(local_port, remote_port, res),
            ret == (match res {
                Ok(fd) => Some(fd),
                Err(_) => None,
            }),
    {
        let conn = VsockConnection::new_local_init(local_port, remote_port, res);
        match conn.remote {
            Some(fd) => {
                self.add_connection(conn, fd);
                self.rxq.push_back(
                    MuxerDeferredRx { op: VSOCK_OP_RESPONSE, local_port, remote_port },
                );
                Some(fd)
            },
            None => {
                self.rxq.push_back(
                    MuxerDeferredRx {
                        op: VSOCK_OP_RST,
                        local_port,
                        remote_port: local_port,
                    },
                );
                None
            },
        }
    }

    /// Receive a packet for the guest, with up to `max_len` bytes of data.
    pub fn recv(&mut self, max_len: usize) -> (ret: RecvStep)
        requires
            old(self)@.wf(),
        ensures
            final(self)@.wf(),
            final(self)@ == old(self)@.received(),
            old(self)@.recv_step(max_len, ret),
    {
        let ghost before = self.rxq@;
        let rx = match self.rxq.pop_front() {
            Some(rx) => rx,
            None => return RecvStep::NoData,
        };
        assert(self.rxq@ =~= before.skip(1));
        match rx.op {
            VSOCK_OP_RST => RecvStep::Packet(
                VsockPacket::new_rst(VSOCK_HOST_CID, self.cid, rx.remote_port, rx.local_port),
            ),
            VSOCK_OP_RESPONSE => RecvStep::Packet(
                VsockPacket::new_response(VSOCK_HOST_CID, self.cid, rx.remote_port, rx.local_port),
            ),
            VSOCK_OP_RW => match self.conn_map.get((rx.local_port, rx.remote_port)) {
                Some(conn) => match conn.remote {
                    Some(fd) => RecvStep::Read {
                        local_port: rx.local_port,
                        remote_port: rx.remote_port,
                        fd,
                        max_len,
                    },
                    None => RecvStep::NoData,
                },
                None => RecvStep::NoData,
            },
            _ => RecvStep::NoData,
        }
    }

    /// Go on with receiving a packet, once a host stream was read, or could not be.
    pub fn recv_data(
        &self,
        local_port: u32,
        remote_port: u32,
        res: Result<Vec<u8>, IoError>,
    ) -> (ret: Option<VsockPacket>)
        requires
            res is Ok ==> res->Ok_0@.len() <= u32::MAX,
        ensures
            ret is Some <==> res is Ok,
            ret is Some ==> ret->0.hdr == crate::copying::packet::hdr_between(
                VSOCK_HOST_CID,
                self@.cid,
                remote_port,
                local_port,
                VSOCK_OP_RW,
                res->Ok_0@.len() as u32,
            ) && ret->0.buf == res->Ok_0,
    {
        match VsockConnection::recv(res) {
            Ok(buf) => Some(
                VsockPacket::new_rw(VSOCK_HOST_CID, self.cid, remote_port, local_port, buf),
            ),
            Err(_) => None,
        }
    }

    /// Find out which events are to be taken from the muxer's epoll descriptor. Each of them is to
    /// be handed to `process_event`.
    pub fn kick(&self) -> (ret: EpollWait)
        ensures
            ret == (EpollWait { epoll_fd: self@.epoll_fd, max_events: MAX_EPOLL_EVENTS }),
    {
        EpollWait { epoll_fd: self.epoll_fd, max_events: MAX_EPOLL_EVENTS }
    }

    /// Process an event on one of the muxer's file descriptors.
    pub fn process_event(&mut self, fd: i32, ev_set: EventSet)
        requires
            old(self)@.wf(),
        ensures
            final(self)@.wf(),
            final(self)@ == old(self)@.event(fd, ev_set),
    {
        let listener = match self.listener_map.get(&fd) {
            Some(listener) => *listener,
            None => return,
        };
        match listener {
            EpollListener::Connection { local_port, remote_port, ev_set: _ } => {
                if ev_set.contains(EPOLLIN) {
                    self.rxq.push_back(
                        MuxerDeferredRx { op: VSOCK_OP_RW, local_port, remote_port },
                    );
                }
            },
        }
    }

    /// Add a connection, whose host stream is `fd`.
    fn add_connection(&mut self, conn: VsockConnection, fd: i32)
        requires
            old(self)@.wf(),
            conn == local_init(conn.local_port, conn.remote_port, Ok(fd)),
        ensures
            final(self)@.wf(),
            final(self)@ == old(self)@.with_conn(conn.local_port, conn.remote_port, fd),
    {
        let mut ev_set = EventSet::empty();
        ev_set.insert(EPOLLIN);
        assert(0u32 | 1u32 == 1u32) by (bit_vector);
        self.listener_map.insert(
            fd,
            EpollListener::Connection {
                local_port: conn.local_port,
                remote_port: conn.remote_port,
                ev_set,
            },
        );
        self.conn_map.insert((conn.local_port, conn.remote_port), conn);
    }

    /// Remove a connection, and take its host stream off watch. Get the file descriptor that is to
    /// be closed, if there was such a connection.
    pub fn remove_connection(&mut self, local_port: u32, remote_port: u32) -> (ret: Option<i32>)
        requires
            old(self)@.wf(),
        ensures
            final(self)@.wf(),
            ({
                let key = (local_port, remote_port);
                if old(self)@.conns.contains_key(key) {
                    let fd = old(self)@.conns[key].remote->0;
                    &&& ret == Some(fd)
                    &&& final(self)@ == DeferredView {
                        listeners: old(self)@.listeners.remove(fd),
                        ..old(self)@.without_conn(key)
                    }
                } else {
                    ret is None && final(self)@ == old(self)@
                }
            }),
    {
        let ghost before = self@;
        match self.conn_map.remove((local_port, remote_port)) {
            Some(conn) => {
                if let Some(fd) = conn.remote {
                    self.listener_map.remove(&fd);
                    return Some(fd);
                }
                None
            },
            None => {
                assert(self@ =~= before);
                None
            },
        }
    }
}

/// A shutdown from the guest ends the connection, and is answered by an RST: if nothing else was
/// noted, that is the next packet that the guest gets.
pub proof fn shutdown_is_answered_by_rst(
    muxer: DeferredView,
    hdr: VsockPacketHdr,
    max_len: usize,
    step: RecvStep,
)
    requires
        muxer.conns.contains_key((hdr.src_port, hdr.dst_port)),
        hdr.op == VSOCK_OP_SHUTDOWN,
        muxer.rxq.len() == 0,
        muxer.sent(hdr).recv_step(max_len, step),
    ensures
        !muxer.sent(hdr).conns.contains_key((hdr.src_port, hdr.dst_port)),
        step is Packet,
        step->Packet_0.hdr == crate::copying::packet::hdr_between(
            VSOCK_HOST_CID,
            muxer.cid,
            hdr.dst_port,
            hdr.src_port,
            VSOCK_OP_RST,
            0,
        ),
{
}

/// A guest whose connection request was served is told so by a response: if nothing else was noted,
/// that is the next packet that it gets.
pub proof fn request_is_answered_by_response(
    muxer: DeferredView,
    local_port: u32,
    remote_port: u32,
    fd: i32,
    max_len: usize,
    step: RecvStep,
)
    requires
        muxer.rxq.len() == 0,
        muxer.connected(local_port, remote_port, Ok(fd)).recv_step(max_len, step),
    ensures
        step is Packet,
        step->Packet_0.hdr == crate::copying::packet::hdr_between(
            VSOCK_HOST_CID,
            muxer.cid,
            remote_port,
            local_port,
            VSOCK_OP_RESPONSE,
            0,
        ),
{
}

/// Once there is data on a connection's host stream, the guest gets to receive it: if nothing else
/// was noted, that stream is read next.
pub proof fn data_event_leads_to_read(
    muxer: DeferredView,
    local_port: u32,
    remote_port: u32,
    fd: i32,
    max_len: usize,
    step: RecvStep,
)
    requires
        muxer.rxq.len() == 0,
        muxer.with_conn(local_port, remote_port, fd).event(fd, EventSet::of(EPOLLIN)).recv_step(
            max_len,
            step,
        ),
    ensures
        step == (RecvStep::Read { local_port, remote_port, fd, max_len }),
{
    assert(1u32 & 1u32 == 1u32) by (bit_vector);
}

/// Packets reach the guest in the order in which they were noted.
pub proof fn notes_are_kept_in_order(
    muxer: DeferredView,
    hdr: VsockPacketHdr,
    fd: i32,
    ev_set: EventSet,
)
    ensures
        muxer.rxq.is_prefix_of(muxer.sent(hdr).rxq),
        muxer.rxq.is_prefix_of(muxer.event(fd, ev_set).rxq),
        muxer.rxq.len() > 0 ==> muxer.rxq == seq![muxer.rxq[0]] + muxer.received().rxq,
{
    if muxer.rxq.len() > 0 {
        assert(muxer.rxq =~= seq![muxer.rxq[0]] + muxer.received().rxq);
    }
}

/// What is done for a packet from the guest. Data is written to the host stream of its connection,
/// byte for byte. A shutdown or an RST closes that. A request that belongs to no connection has the
/// host socket for its port connected to. Anything else is dropped. The guest's port is the one
/// that the packet comes from.
pub proof fn packets_reach_their_streams(
    muxer: DeferredView,
    hdr: VsockPacketHdr,
    buf: Seq<u8>,
    step: SendStep,
)
    requires
        muxer.send_step(hdr, buf, step),
    ensures
        ({
            let key = (hdr.src_port, hdr.dst_port);
            let known = muxer.conns.contains_key(key);
            let fd = muxer.conns[key].remote->0;
            &&& step is Write <==> known && hdr.op == 5
            &&& step is Write ==> step->Write_0.fd == fd && step->Write_0.data@ == buf
            &&& step is Close <==> known && (hdr.op == 3 || hdr.op == 4)
            &&& step is Close ==> step->Close_0 == fd
            &&& step is Connect <==> !known && hdr.op == 1
            &&& step is Connect ==> {
                &&& step->Connect_0.local_port == hdr.src_port
                &&& step->Connect_0.remote_port == hdr.dst_port
                &&& step->Connect_0.path@ == crate::copying::muxer::host_path(hdr.dst_port)
            }
        }),
{
}

/// A shutdown or an RST from the guest removes its connection, and only that. A shutdown is also
/// noted to be answered by an RST. No other packet changes anything.
pub proof fn closing_packets_remove_their_connection(muxer: DeferredView, hdr: VsockPacketHdr)
    ensures
        ({
            let key = (hdr.src_port, hdr.dst_port);
            let known = muxer.conns.contains_key(key);
            let after = muxer.sent(hdr);
            let rst = MuxerDeferredRx {
                op: 3,
                local_port: hdr.src_port,
                remote_port: hdr.dst_port,
            };
            &&& after == DeferredView { rxq: after.rxq, conns: after.conns, ..muxer }
            &&& known && hdr.op == 4 ==> after.rxq == muxer.rxq.push(rst) && after.conns
                == muxer.conns.remove(key)
            &&& known && hdr.op == 3 ==> after.rxq == muxer.rxq && after.conns
                == muxer.conns.remove(key)
            &&& !known || hdr.op != 3 && hdr.op != 4 ==> after == muxer
        }),
{
}

/// Once the host socket was connected to, the connection is open, its host stream is watched for
/// input, and a response is noted. If it could not be, an RST is noted.
pub proof fn connection_is_taken_up(
    muxer: DeferredView,
    local_port: u32,
    remote_port: u32,
    res: Result<i32, IoError>,
)
    ensures
        ({
            let after = muxer.connected(local_port, remote_port, res);
            let key = (local_port, remote_port);
            &&& after.cid == muxer.cid
            &&& after.epoll_fd == muxer.epoll_fd
            &&& res is Ok ==> {
                let conn = VsockConnection {
                    local_port,
                    remote_port,
                    remote: Some(res->Ok_0),
                    state: VsockConnectionState::Established,
                };
                let listener = EpollListener::Connection {
                    local_port,
                    remote_port,
                    ev_set: EventSet { bits: 1 },
                };
                &&& after.conns == muxer.conns.insert(key, conn)
                &&& after.listeners == muxer.listeners.insert(res->Ok_0, listener)
                &&& after.rxq == muxer.rxq.push(MuxerDeferredRx { op: 2, local_port, remote_port })
            }
            &&& res is Err ==> {
                &&& after.conns == muxer.conns
                &&& after.listeners == muxer.listeners
                &&& after.rxq == muxer.rxq.push(
                    MuxerDeferredRx { op: 3, local_port, remote_port: local_port },
                )
            }
        }),
{
}

/// The next note is made use of. An RST or a response becomes a packet from the host's port to the
/// guest's. Data is read from the host stream of its connection, as much as there is room for.
/// There is no packet if there is no note, or no such connection.
pub proof fn notes_become_packets(muxer: DeferredView, max_len: usize, step: RecvStep)
    requires
        muxer.recv_step(max_len, step),
    ensures
        muxer.rxq.len() == 0 ==> step == RecvStep::NoData && muxer.received() == muxer,
        muxer.rxq.len() > 0 ==> {
            let rx = muxer.rxq[0];
            let key = (rx.local_port, rx.remote_port);
            &&& muxer.received() == DeferredView { rxq: muxer.rxq.skip(1), ..muxer }
            &&& step is Packet <==> rx.op == 2 || rx.op == 3
            &&& step is Packet ==> {
                let hdr = step->Packet_0.hdr;
                &&& hdr.src_cid == 2
                &&& hdr.dst_cid == muxer.cid
                &&& hdr.src_port == rx.remote_port
                &&& hdr.dst_port == rx.local_port
                &&& hdr.op == rx.op
                &&& hdr.len == 0
                &&& hdr.type_ == 1
                &&& step->Packet_0.buf@.len() == 0
            }
            &&& step is Read <==> rx.op == 5 && muxer.conns.contains_key(key)
            &&& step is Read ==> step == RecvStep::Read {
                local_port: rx.local_port,
                remote_port: rx.remote_port,
                fd: muxer.conns[key].remote->0,
                max_len,
            }
        },
{
}

/// Input on a watched host stream is noted as data for its connection. No other event changes
/// anything.
pub proof fn input_is_noted_as_data(muxer: DeferredView, fd: i32, ev_set: EventSet)
    ensures
        ({
            let after = muxer.event(fd, ev_set);
            let noted = muxer.listeners.contains_key(fd) && ev_set.bits & 1 == 1;
            &&& noted ==> after == DeferredView {
                rxq: muxer.rxq.push(
                    MuxerDeferredRx {
                        op: 5,
                        local_port: muxer.listeners[fd]->local_port,
                        remote_port: muxer.listeners[fd]->remote_port,
                    },
                ),
                ..muxer
            }
            &&& !noted ==> after == muxer
        }),
{
}

} // verus!
