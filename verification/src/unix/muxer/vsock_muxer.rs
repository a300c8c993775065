//! The connection multiplexer.
//!
//! The muxer never touches a file descriptor. Where one has to be connected, accepted, read,
//! written or put under watch, the muxer says so by the step that it returns, and is told of the
//! outcome. What has to be done with file descriptors without regard to the outcome is handed out
//! by `take_cmds`, to be carried out before any such step.

use std::collections::{HashMap, HashSet};

use vstd::prelude::*;

use crate::channel::{VsockBackend, VsockChannel, VsockEpollListener};
use crate::error::IoError;
use crate::events::{EventSet, EPOLLIN};
use crate::packet::{PacketView, VsockPacket, VsockPacketHdr};
use crate::text::to_decimal;
use crate::uapi::{VSOCK_HOST_CID, VSOCK_OP_REQUEST, VSOCK_OP_RST, VSOCK_TYPE_STREAM};
use crate::unix::conn_map::{ConnMap, ConnMapKey};
use crate::unix::conn_model::{ConnRecv, ConnView, TxJob};
use crate::unix::connection::VsockConnection;
use crate::unix::defs::{
    CONN_SHUTDOWN_TIMEOUT_MS, MAX_CONNECTIONS, MUXER_KILLQ_SIZE, MUXER_RXQ_SIZE,
};
use crate::unix::error::Error;
use crate::unix::muxer::killq::{MuxerKillQ, MCF_KILLQ};
use crate::unix::muxer::model::{
    ConnStep, ConnWrite, CtlOp, EpollListener, EpollWait, EventStep, HostCmd, ListenerCtl,
    MuxerView, NewConn, Origin, PeerRequest, RecvStep, SendStep, FIRST_LOCAL_PORT,
    LOCAL_PORT_COUNT, MAX_EPOLL_EVENTS, NANOS_PER_SEC,
};
use crate::unix::muxer::port_request::parse_port_request;
use crate::unix::muxer::rxq::{MuxerRxQ, MCF_RXQ};
use crate::unix::muxer_rx::MuxerRx;

verus! {

broadcast use vstd::std_specs::hash::group_hash_axioms;

/// The vsock connection multiplexer.
pub struct VsockMuxer {
    cid: u64,
    conn_map: ConnMap,
    listener_map: HashMap<i32, EpollListener>,
    rxq: MuxerRxQ,
    killq: MuxerKillQ,
    host_sock_path: Vec<u8>,
    epoll_fd: i32,
    local_port_set: HashSet<u32>,
    local_port_last: u32,
    last_killq_sweep_time: u64,
    cmds: Vec<HostCmd>,
}

impl View for VsockMuxer {
    type V = MuxerView;

    closed spec fn view(&self) -> MuxerView {
        MuxerView {
            cid: self.cid,
            path: self.host_sock_path@,
            epoll_fd: self.epoll_fd,
            conns: self.conn_map@,
            listeners: self.listener_map@,
            rxq: self.rxq@,
            killq: self.killq@,
            ports: self.local_port_set@,
            last_port: self.local_port_last,
            last_sweep: self.last_killq_sweep_time,
            cmds: self.cmds@,
        }
    }
}

impl VsockMuxer {
    /// The parts of the muxer are well formed, and there are not too many connections.
    pub closed spec fn wf(self) -> bool {
        &&& self.conn_map.wf()
        &&& self.conn_map@.dom().len() <= MAX_CONNECTIONS
        &&& self.rxq.wf()
        &&& self.killq.wf()
    }

    /// A muxer never holds more connections than it may, nor more items in its queues.
    pub proof fn lemma_limits(self)
        requires
            self.wf(),
        ensures
            self@.conns.dom().finite(),
            self@.conns.dom().len() <= MAX_CONNECTIONS,
            self@.rxq.q.len() <= MUXER_RXQ_SIZE,
            self@.killq.q.len() <= MUXER_KILLQ_SIZE,
    {
        self.conn_map.lemma_finite();
    }

    /// Create a muxer for the guest with the given CID, whose host socket listens at
    /// `host_sock_path`. The host socket's file descriptor has to be under watch for EPOLLIN.
    pub fn new(cid: u64, host_sock_path: Vec<u8>, epoll_fd: i32, host_fd: i32, now: u64) -> (ret:
        VsockMuxer)
        ensures
            ret.wf(),
            ret@ == MuxerView::fresh(cid, host_sock_path@, epoll_fd, host_fd, now),
    {
        let mut listener_map: HashMap<i32, EpollListener> = HashMap::with_capacity(
            MAX_CONNECTIONS + 1,
        );
        listener_map.insert(host_fd, EpollListener::HostSock);
        VsockMuxer {
            cid,
            conn_map: ConnMap::new(),
            listener_map,
            rxq: MuxerRxQ::new(),
            killq: MuxerKillQ::new(),
            host_sock_path,
            epoll_fd,
            local_port_set: HashSet::with_capacity(MAX_CONNECTIONS),
            local_port_last: FIRST_LOCAL_PORT,
            last_killq_sweep_time: now,
            cmds: Vec::new(),
        }
    }

    /// Get what is to be done with file descriptors, in this order.
    pub fn take_cmds(&mut self) -> (ret: Vec<HostCmd>)
        requires
            old(self).wf(),
        ensures
            final(self).wf(),
            ret@ == old(self)@.cmds,
            final(self)@ == (MuxerView { cmds: Seq::empty(), ..old(self)@ }),
    {
        let mut ret: Vec<HostCmd> = Vec::new();
        ret.append(&mut self.cmds);
        ret
    }

    /// Queue an RST for the guest. It is dropped if there is no room for it.
    fn push_rst(&mut self, key: ConnMapKey)
        requires
            old(self).wf(),
        ensures
            final(self).wf(),
            final(self)@ == old(self)@.with_rst(key),
    {
        let _ = self.rxq.push(
            MuxerRx::RstPkt { local_port: key.local_port, peer_port: key.peer_port },
        );
    }

    /// Note that a file descriptor is under watch.
    fn add_listener(&mut self, fd: i32, listener: EpollListener)
        requires
            old(self).wf(),
        ensures
            final(self).wf(),
            final(self)@ == old(self)@.with_listener(fd, listener),
    {
        self.listener_map.insert(fd, listener);
    }

    /// Take a file descriptor off watch.
    fn remove_listener(&mut self, fd: i32) -> (ret: Option<EpollListener>)
        requires
            old(self).wf(),
        ensures
            final(self).wf(),
            final(self)@ == old(self)@.without_listener(fd),
            ret == (if old(self)@.listeners.contains_key(fd) {
                Some(old(self)@.listeners[fd])
            } else {
                None
            }),
    {
        let ghost before = self@;
        let ret = self.listener_map.remove(&fd);
        if ret.is_some() {
            self.cmds.push(HostCmd::EpollDel(fd));
        } else {
            assert(self.listener_map@ =~= before.listeners);
        }
        ret
    }

    /// Give away the first free local port after the last one that was given away.
    fn allocate_local_port(&mut self) -> (ret: Option<u32>)
        requires
            old(self).wf(),
        ensures
            final(self).wf(),
            ret == old(self)@.free_port(),
            final(self)@ == (match ret {
                Some(port) => old(self)@.with_port(port),
                None => old(self)@,
            }),
    {
        let mut port: u32 = self.local_port_last;
        let mut tries: u32 = LOCAL_PORT_COUNT;
        while tries > 0
            invariant
                *self == *old(self),
                self.wf(),
                crate::unix::muxer::model::first_free(self@.ports, port, tries as nat)
                    == self@.free_port(),
            decreases tries,
        {
            port = if port == u32::MAX {
                FIRST_LOCAL_PORT
            } else {
                port + 1
            };
            if !self.local_port_set.contains(&port) {
                self.local_port_set.insert(port);
                self.local_port_last = port;
                return Some(port);
            }
            tries = tries - 1;
        }
        None
    }

    /// Have a local port free again.
    fn free_local_port(&mut self, port: u32)
        requires
            old(self).wf(),
        ensures
            final(self).wf(),
            final(self)@ == old(self)@.without_port(port),
    {
        self.local_port_set.remove(&port);
        assert(self.local_port_set@ =~= old(self)@.ports.remove(port));
    }

    /// Take a connection out of the pool.
    fn remove_connection(&mut self, key: ConnMapKey)
        requires
            old(self).wf(),
        ensures
            final(self).wf(),
            final(self)@ == old(self)@.without_conn(key),
    {
        let ghost before = self@;
        proof {
            self.conn_map.lemma_finite();
        }
        match self.conn_map.remove(key) {
            Some(conn) => {
                let fd: i32 = conn.get_polled_fd();
                self.remove_listener(fd);
                self.cmds.push(HostCmd::Close(fd));
            },
            None => {
                assert(self.conn_map@ =~= before.conns);
            },
        }
        self.free_local_port(key.local_port);
    }

    /// Terminate a connection: take it out of the pool, and queue an RST for the guest. If there is
    /// no room for that RST, the connection is doomed for now.
    fn remove_connection_with_rst(&mut self, key: ConnMapKey)
        requires
            old(self).wf(),
        ensures
            final(self).wf(),
            final(self)@ == old(self)@.terminated(key),
    {
        let ghost before = self@;
        if !self.rxq.is_full() {
            self.push_rst(key);
            self.remove_connection(key);
        } else {
            match self.conn_map.remove(key) {
                Some(mut conn) => {
                    conn.kill();
                    self.conn_map.insert(key, conn);
                    assert(self.conn_map@ =~= before.conns.insert(key, before.conns[key].killed()));
                },
                None => {
                    assert(self.conn_map@ =~= before.conns);
                },
            }
            // This fails, but lets the queue know that it is out of sync.
            let _ = self.rxq.push(MuxerRx::ConnRx(key));
        }
    }

    /// Put a connection back in the pool, and take note of what has changed about it.
    fn settle(&mut self, key: ConnMapKey, conn: VsockConnection, now: u64) -> (ret: Option<
        ListenerCtl,
    >)
        requires
            old(self).wf(),
            conn.wf(),
            old(self)@.conns.insert(key, conn@).dom().len() <= MAX_CONNECTIONS,
        ensures
            final(self).wf(),
            (final(self)@, ret) == old(self)@.with_conn(key, conn@).settled(key, now),
    {
        let ghost before = self@;
        let ghost given = conn@;
        let mut conn = conn;
        if conn.has_pending_rx() && !conn.get_muxer_flag(MCF_RXQ) {
            if self.rxq.push(MuxerRx::ConnRx(key)).is_ok() {
                conn.set_muxer_flag(MCF_RXQ);
            }
        }
        let ghost rx_noted = before.with_conn(key, given).rx_noted(key);
        assert(rx_noted.conns =~= before.conns.insert(key, conn@));
        if conn.is_shutting_down() && !conn.get_muxer_flag(MCF_KILLQ) {
            if self.killq.push(key, now).is_ok() {
                conn.set_muxer_flag(MCF_KILLQ);
            }
        }
        let ghost kill_noted = rx_noted.kill_noted(key, now);
        assert(kill_noted.conns =~= before.conns.insert(key, conn@));
        let fd: i32 = conn.get_polled_fd();
        let evset = conn.get_polled_evset();
        self.conn_map.insert(key, conn);
        assert(self@ =~= kill_noted);
        if evset.is_empty() {
            self.remove_listener(fd);
            return None;
        }
        let listener = match self.listener_map.get(&fd) {
            Some(listener) => Some(*listener),
            None => None,
        };
        match listener {
            Some(EpollListener::Connection { key: noted_key, evset: noted }) => {
                if noted == evset {
                    return None;
                }
                self.add_listener(fd, EpollListener::Connection { key: noted_key, evset });
                Some(ListenerCtl { key, op: CtlOp::Mod, fd, evset })
            },
            _ => Some(ListenerCtl { key, op: CtlOp::Add, fd, evset }),
        }
    }

    /// Take note of a change to what a connection's host stream is watched for.
    fn end_ctl(&mut self, ctl: ListenerCtl, ok: bool)
        requires
            old(self).wf(),
        ensures
            final(self).wf(),
            final(self)@ == old(self)@.ctl_done(ctl, ok),
    {
        if !ok {
            self.remove_connection_with_rst(ctl.key);
        } else if ctl.op == CtlOp::Add {
            self.add_listener(
                ctl.fd,
                EpollListener::Connection { key: ctl.key, evset: ctl.evset },
            );
        }
    }

    /// Put a connection back in the pool, and go on with it: write the bytes of a job, if there is
    /// one, or else settle.
    fn go_on(
        &mut self,
        key: ConnMapKey,
        conn: VsockConnection,
        job: Option<TxJob>,
        now: u64,
    ) -> (ret: ConnStep)
        requires
            old(self).wf(),
            conn.wf(),
            old(self)@.conns.insert(key, conn@).dom().len() <= MAX_CONNECTIONS,
        ensures
            final(self).wf(),
            (final(self)@, ret@) == old(self)@.with_conn(key, conn@).conn_step(
                key,
                crate::unix::conn_model::job_view(job),
                now,
            ),
    {
        match job {
            Some(job) => {
                let fd: i32 = conn.get_polled_fd();
                let data = conn.tx_chunk(&job);
                self.conn_map.insert(key, conn);
                ConnStep::Write(ConnWrite { key, fd, job, data })
            },
            None => match self.settle(key, conn, now) {
                Some(ctl) => ConnStep::Ctl(ctl),
                None => ConnStep::Idle,
            },
        }
    }

    /// Get what a guest's connection request asks for.
    fn handle_peer_request_pkt(&self, hdr: &VsockPacketHdr) -> (ret: PeerRequest)
        requires
            self.wf(),
        ensures
            ret.path@ == crate::unix::muxer::model::port_path(self@.path, hdr.dst_port),
            ret.local_port == hdr.dst_port,
            ret.peer_port == hdr.src_port,
            ret.buf_alloc == hdr.buf_alloc,
    {
        let mut path = vstd::slice::slice_to_vec(self.host_sock_path.as_slice());
        path.push(95);
        let mut digits = to_decimal(hdr.dst_port);
        path.append(&mut digits);
        assert(path@ =~= crate::unix::muxer::model::port_path(self@.path, hdr.dst_port));
        PeerRequest {
            path,
            local_port: hdr.dst_port,
            peer_port: hdr.src_port,
            buf_alloc: hdr.buf_alloc,
        }
    }

    /// Account for a write to a connection's host stream.
    pub fn conn_written(&mut self, write: ConnWrite, res: Result<usize, IoError>, now: u64) -> (ret:
        ConnStep)
        requires
            old(self).wf(),
            old(self)@.conns.contains_key(write.key),
            res is Ok ==> res->Ok_0 <= old(self)@.conns[write.key].tx_chunk(write.job@).len(),
        ensures
            final(self).wf(),
            (final(self)@, ret@) == old(self)@.written(write.key, write.job@, res, now),
    {
        let ghost before = self@;
        proof {
            self.conn_map.lemma_finite();
        }
        let key = write.key;
        match self.conn_map.remove(key) {
            Some(mut conn) => {
                let job = conn.tx_written(write.job, res);
                let ghost after = conn@;
                proof {
                    lemma_put_back(before, self@, key, after);
                }
                self.go_on(key, conn, job, now)
            },
            None => ConnStep::Idle,
        }
    }

    /// Take note of a change to what a connection's host stream is watched for, or of the failure
    /// to make it. In the latter case, the connection is terminated.
    pub fn conn_ctl_done(&mut self, ctl: ListenerCtl, res: Result<(), IoError>)
        requires
            old(self).wf(),
        ensures
            final(self).wf(),
            final(self)@ == old(self)@.ctl_done(ctl, res is Ok),
    {
        self.end_ctl(ctl, res.is_ok());
    }

    /// Give up on a new connection.
    fn refuse(&mut self, new: NewConn)
        requires
            old(self).wf(),
        ensures
            final(self).wf(),
            final(self)@ == old(self)@.refused(new@),
    {
        match new.origin {
            Origin::Guest => self.push_rst(new.key),
            Origin::Host => self.free_local_port(new.key.local_port),
        }
        self.cmds.push(HostCmd::Close(new.conn.get_polled_fd()));
    }

    /// Offer a new connection to the pool. If it may join, it has to be put under watch for EPOLLIN
    /// first. The outcome of that is to be handed to `connection_watched`.
    fn add_connection(&mut self, new: NewConn) -> (ret: Result<NewConn, Error>)
        requires
            old(self).wf(),
            new.conn.wf(),
        ensures
            final(self).wf(),
            old(self)@.conns.dom().len() >= MAX_CONNECTIONS ==> ret == Err::<NewConn, Error>(
                Error::TooManyConnections,
            ) && final(self)@ == old(self)@.refused(new@),
            old(self)@.conns.dom().len() < MAX_CONNECTIONS ==> ret == Ok::<NewConn, Error>(new)
                && final(self)@ == old(self)@,
    {
        if self.conn_map.len() >= MAX_CONNECTIONS {
            self.refuse(new);
            return Err(Error::TooManyConnections);
        }
        Ok(new)
    }

    /// Have a new connection join the pool, once it is under watch for EPOLLIN, or give up on it,
    /// if it could not be, or if the pool has filled up in the meantime.
    pub fn connection_watched(&mut self, new: NewConn, res: Result<(), IoError>)
        requires
            old(self).wf(),
            new.conn.wf(),
        ensures
            final(self).wf(),
            final(self)@ == old(self)@.joined(new@, res is Ok),
            final(self)@.conns.dom().len() <= MAX_CONNECTIONS,
    {
        proof {
            self.conn_map.lemma_finite();
        }
        if res.is_err() || self.conn_map.len() >= MAX_CONNECTIONS {
            self.refuse(new);
            return;
        }
        let ghost before = self@;
        let key = new.key;
        let mut conn = new.conn;
        let ghost given = conn@;
        self.add_listener(
            conn.get_polled_fd(),
            EpollListener::Connection { key, evset: EventSet { bits: EPOLLIN } },
        );
        if conn.has_pending_rx() && !conn.get_muxer_flag(MCF_RXQ) {
            if self.rxq.push(MuxerRx::ConnRx(key)).is_ok() {
                conn.set_muxer_flag(MCF_RXQ);
            }
        }
        let ghost after = conn@;
        match self.conn_map.insert(key, conn) {
            Some(replaced) => self.cmds.push(HostCmd::Close(replaced.get_polled_fd())),
            None => (),
        }
        proof {
            let joined = before.joined(new@, true);
            assert(joined.conns =~= before.conns.insert(key, after));
            assert(self@ =~= joined);
        }
    }

    /// Go on with a guest's connection request, once its host socket was connected to, or could not
    /// be. In the latter case, the guest is answered by an RST.
    pub fn connected(&mut self, req: PeerRequest, res: Result<i32, IoError>) -> (ret: Option<
        NewConn,
    >)
        requires
            old(self).wf(),
        ensures
            final(self).wf(),
            (final(self)@, crate::unix::muxer::model::new_conn_view(ret)) == old(self)@.connected(
                req@,
                res,
            ),
            ret is Some ==> ret->0.conn.wf(),
    {
        let key = ConnMapKey { local_port: req.local_port, peer_port: req.peer_port };
        match res {
            Ok(fd) => {
                let conn = VsockConnection::new_peer_init(
                    fd,
                    self.cid,
                    req.local_port,
                    req.peer_port,
                    req.buf_alloc,
                );
                match self.add_connection(NewConn { origin: Origin::Guest, key, conn }) {
                    Ok(new) => Some(new),
                    Err(_) => None,
                }
            },
            Err(_) => {
                self.push_rst(key);
                None
            },
        }
    }

    /// Get the port that a host stream has named, from what reading it gave.
    pub fn read_local_stream_port(res: &Result<Vec<u8>, IoError>) -> (ret: Result<u32, Error>)
        ensures
            match *res {
                Err(e) => ret == Err::<u32, Error>(Error::IoError(e)),
                Ok(data) => if data@.len() == 0 {
                    ret == Err::<u32, Error>(Error::BrokenPipe)
                } else {
                    match crate::unix::muxer::port_request::requested_port(data@) {
                        Some(port) => ret == Ok::<u32, Error>(port),
                        None => ret == Err::<u32, Error>(Error::InvalidPortRequest),
                    }
                },
            },
    {
        match res {
            Err(e) => Err(Error::IoError(*e)),
            Ok(data) => {
                if data.len() == 0 {
                    return Err(Error::BrokenPipe);
                }
                parse_port_request(data.as_slice())
            },
        }
    }

    /// Go on with a host stream, once its port request was read, or could not be.
    pub fn local_stream_read(&mut self, fd: i32, res: Result<Vec<u8>, IoError>) -> (ret: Option<
        NewConn,
    >)
        requires
            old(self).wf(),
        ensures
            final(self).wf(),
            (final(self)@, crate::unix::muxer::model::new_conn_view(ret))
                == old(self)@.local_request(fd, crate::unix::connection::read_view(res)),
            ret is Some ==> ret->0.conn.wf(),
    {
        proof {
            if res is Ok && res->Ok_0@.len() == 0 {
                let data = res->Ok_0@;
                assert(crate::unix::muxer::port_request::requested_port(data) is None);
            }
        }
        if let Ok(peer_port) = Self::read_local_stream_port(&res) {
            if let Some(local_port) = self.allocate_local_port() {
                let key = ConnMapKey { local_port, peer_port };
                let conn = VsockConnection::new_local_init(fd, self.cid, local_port, peer_port);
                return match self.add_connection(NewConn { origin: Origin::Host, key, conn }) {
                    Ok(new) => Some(new),
                    Err(_) => None,
                };
            }
        }
        self.cmds.push(HostCmd::Close(fd));
        None
    }

    /// Go on with a connection that was accepted on the host socket, or could not be: get the file
    /// descriptor that is to be put under watch for EPOLLIN, if any.
    pub fn accepted(&self, res: Result<i32, IoError>) -> (ret: Option<i32>)
        ensures
            ret == (match res {
                Ok(fd) => Some(fd),
                Err(_) => None,
            }),
    {
        match res {
            Ok(fd) => Some(fd),
            Err(_) => None,
        }
    }

    /// Take note of a host stream that is under watch for EPOLLIN, or could not be.
    pub fn local_stream_watched(&mut self, fd: i32, res: Result<(), IoError>)
        requires
            old(self).wf(),
        ensures
            final(self).wf(),
            final(self)@ == old(self)@.local_watched(fd, res is Ok),
    {
        if res.is_ok() {
            self.add_listener(fd, EpollListener::LocalStream);
        } else {
            self.cmds.push(HostCmd::Close(fd));
        }
    }

    /// Terminate all connections in the kill queue whose time has come.
    fn sweep_killq(&mut self, now: u64)
        requires
            old(self).wf(),
        ensures
            final(self).wf(),
            old(self)@.swept(now, final(self)@),
    {
        self.last_killq_sweep_time = now;
        let ghost reaped = self@.reaped(now);
        let mut more = true;
        while more
            invariant
                self.wf(),
                more ==> self@.reaped(now) == reaped,
                !more ==> self@ == reaped,
            decreases self@.killq.q.len() + (if more { 1int } else { 0int }),
        {
            match self.killq.pop(now) {
                Some(key) => {
                    self.remove_connection_with_rst(key);
                },
                None => {
                    more = false;
                },
            }
        }
        if !self.killq.is_synced() {
            let _ = self.killq.sync(&self.conn_map, now);
        }
    }

    /// Process an event on one of the muxer's file descriptors, and sweep the kill queue, if that
    /// is due. A connection is told of all the events that it is watched for.
    pub fn process_event(&mut self, fd: i32, now: u64) -> (ret: EventStep)
        requires
            old(self).wf(),
        ensures
            final(self).wf(),
            !old(self)@.sweep_due(now) ==> (final(self)@, ret@) == old(self)@.event(fd, now),
            old(self)@.sweep_due(now) ==> exists|swept: MuxerView| #[trigger]
                old(self)@.swept(now, swept) && (final(self)@, ret@) == swept.event(fd, now),
    {
        if now > self.last_killq_sweep_time && (now - self.last_killq_sweep_time) / NANOS_PER_SEC
            > CONN_SHUTDOWN_TIMEOUT_MS / 1000 {
            self.sweep_killq(now);
        }
        let ghost before = self@;
        proof {
            self.conn_map.lemma_finite();
        }
        let listener = match self.listener_map.get(&fd) {
            Some(listener) => Some(*listener),
            None => None,
        };
        match listener {
            Some(EpollListener::Connection { key, evset }) => match self.conn_map.remove(key) {
                Some(mut conn) => {
                    let job = conn.notify(evset);
                    let ghost after = conn@;
                    proof {
                        lemma_put_back(before, self@, key, after);
                    }
                    EventStep::Conn(self.go_on(key, conn, job, now))
                },
                None => {
                    assert(self@ =~= before);
                    EventStep::Idle
                },
            },
            Some(EpollListener::HostSock) => EventStep::Accept,
            Some(EpollListener::LocalStream) => {
                self.remove_listener(fd);
                EventStep::ReadPort(fd)
            },
            None => EventStep::Idle,
        }
    }

    /// Take note that a packet was handed out.
    fn deliver(&mut self, pkt: &VsockPacket)
        requires
            old(self).wf(),
        ensures
            final(self).wf(),
            final(self)@ == old(self)@.delivered(pkt@.hdr),
    {
        let hdr = pkt.hdr.get();
        if hdr.op == VSOCK_OP_RST {
            self.remove_connection(
                ConnMapKey { local_port: hdr.src_port, peer_port: hdr.dst_port },
            );
        }
    }

    /// Receive the first packet in the RX queue that can be had.
    fn recv_next(&mut self, pkt: &mut VsockPacket, now: u64) -> (ret: RecvStep)
        requires
            old(self).wf(),
            old(pkt)@.buf is Some,
        ensures
            final(self).wf(),
            (final(self)@, final(pkt)@, ret) == old(self)@.recv_next(old(pkt)@, now),
            ret matches RecvStep::Read { key, fd, len } ==> {
                &&& final(self)@.conns.contains_key(key)
                &&& final(self)@.conns[key].fd == fd
                &&& len == final(self)@.conns[key].read_len(final(pkt)@.buf->0.len())
                &&& final(pkt)@.buf is Some
            },
    {
        proof {
            lemma_read_step(self@, pkt@, now);
        }
        while self.rxq.len() > 0
            invariant
                self.wf(),
                pkt@.buf is Some,
                self@.recv_next(pkt@, now) == old(self)@.recv_next(old(pkt)@, now),
            decreases self@.rxq.q.len(),
        {
            let rx = match self.rxq.pop() {
                Some(rx) => rx,
                None => return RecvStep::NoData,
            };
            match rx {
                MuxerRx::RstPkt { local_port, peer_port } => {
                    pkt.hdr.put(
                        VsockPacketHdr {
                            src_cid: VSOCK_HOST_CID,
                            dst_cid: self.cid,
                            src_port: local_port,
                            dst_port: peer_port,
                            len: 0,
                            type_: VSOCK_TYPE_STREAM,
                            op: VSOCK_OP_RST,
                            flags: 0,
                            buf_alloc: 0,
                            fwd_cnt: 0,
                        },
                    );
                    self.deliver(pkt);
                    return RecvStep::Done;
                },
                MuxerRx::ConnRx(key) => {
                    let ghost before = self@;
                    proof {
                        self.conn_map.lemma_finite();
                    }
                    match self.conn_map.remove(key) {
                        Some(mut conn) => {
                            conn.clear_muxer_flag(MCF_RXQ);
                            let recv = conn.recv_pkt(pkt, now);
                            let fd: i32 = conn.get_polled_fd();
                            let ghost after = conn@;
                            proof {
                                lemma_put_back(before, self@, key, after);
                            }
                            match recv {
                                ConnRecv::Read(len) => {
                                    self.conn_map.insert(key, conn);
                                    return RecvStep::Read { key, fd, len };
                                },
                                ConnRecv::Ready => {
                                    if let Some(ctl) = self.settle(key, conn, now) {
                                        return RecvStep::Ctl { ctl, got: true };
                                    }
                                    self.deliver(pkt);
                                    return RecvStep::Done;
                                },
                            }
                        },
                        None => {
                            assert(self@ =~= before);
                        },
                    }
                },
            }
        }
        RecvStep::NoData
    }

    /// Go on with receiving a packet, once a connection's host stream was read, or could not be.
    pub fn recv_data(
        &mut self,
        key: ConnMapKey,
        pkt: &mut VsockPacket,
        res: Result<Vec<u8>, IoError>,
        now: u64,
    ) -> (ret: RecvStep)
        requires
            old(self).wf(),
            old(self)@.conns.contains_key(key),
            old(pkt)@.buf is Some,
            res is Ok ==> res->Ok_0@.len() <= old(self)@.conns[key].read_len(
                old(pkt)@.buf->0.len(),
            ),
        ensures
            final(self).wf(),
            (final(self)@, final(pkt)@, ret) == old(self)@.recv_read(
                key,
                old(pkt)@,
                crate::unix::connection::read_view(res),
                now,
            ),
            ret matches RecvStep::Read { key, fd, len } ==> {
                &&& final(self)@.conns.contains_key(key)
                &&& final(self)@.conns[key].fd == fd
                &&& len == final(self)@.conns[key].read_len(final(pkt)@.buf->0.len())
                &&& final(pkt)@.buf is Some
            },
    {
        let ghost before = self@;
        proof {
            self.conn_map.lemma_finite();
        }
        match self.conn_map.remove(key) {
            Some(mut conn) => {
                let got = conn.recv_data(pkt, res).is_ok();
                let ghost after = conn@;
                proof {
                    lemma_put_back(before, self@, key, after);
                }
                if let Some(ctl) = self.settle(key, conn, now) {
                    return RecvStep::Ctl { ctl, got };
                }
                if got {
                    self.deliver(pkt);
                    return RecvStep::Done;
                }
                self.recv_next(pkt, now)
            },
            None => RecvStep::NoData,
        }
    }

    /// Go on with receiving a packet, once a change was made to what a connection's host stream is
    /// watched for, or could not be.
    pub fn recv_ctl_done(
        &mut self,
        ctl: ListenerCtl,
        got: bool,
        pkt: &mut VsockPacket,
        res: Result<(), IoError>,
        now: u64,
    ) -> (ret: RecvStep)
        requires
            old(self).wf(),
            old(pkt)@.buf is Some,
        ensures
            final(self).wf(),
            (final(self)@, final(pkt)@, ret) == old(self)@.recv_ctl(
                ctl,
                got,
                old(pkt)@,
                res is Ok,
                now,
            ),
            ret matches RecvStep::Read { key, fd, len } ==> {
                &&& final(self)@.conns.contains_key(key)
                &&& final(self)@.conns[key].fd == fd
                &&& len == final(self)@.conns[key].read_len(final(pkt)@.buf->0.len())
                &&& final(pkt)@.buf is Some
            },
    {
        self.end_ctl(ctl, res.is_ok());
        if got {
            self.deliver(pkt);
            return RecvStep::Done;
        }
        self.recv_next(pkt, now)
    }
}

/// A connection that was taken out of the pool, and is put back changed, is in its old place.
proof fn lemma_put_back(before: MuxerView, without: MuxerView, key: ConnMapKey, conn: ConnView)
    requires
        before.conns.contains_key(key),
        without == (MuxerView { conns: before.conns.remove(key), ..before }),
    ensures
        without.with_conn(key, conn) == before.with_conn(key, conn),
        without.conns.insert(key, conn).dom() == before.conns.dom(),
{
    assert(without.conns.insert(key, conn) =~= before.conns.insert(key, conn));
    assert(without.conns.insert(key, conn).dom() =~= before.conns.dom());
}

/// Where data is to be read to receive a packet, the connection is there, and the data will fit
/// both the packet and the guest's buffer.
proof fn lemma_read_step(muxer: MuxerView, pkt: PacketView, now: u64)
    ensures
        muxer.recv_next(pkt, now).2 matches RecvStep::Read { key, fd, len } ==> {
            let (after, filled, _) = muxer.recv_next(pkt, now);
            &&& after.conns.contains_key(key)
            &&& after.conns[key].fd == fd
            &&& len == after.conns[key].read_len(pkt.buf->0.len())
            &&& filled.buf == pkt.buf
        },
    decreases muxer.rxq.q.len(),
{
    if muxer.rxq.q.len() > 0 {
        lemma_read_step(muxer.rx_popped(), pkt, now);
    }
}

impl VsockEpollListener for VsockMuxer {
    type Notified = EpollWait;

    open spec fn listener_wf(&self) -> bool {
        self.wf()
    }

    open spec fn polled_fd(&self) -> i32 {
        self@.epoll_fd
    }

    open spec fn polled_evset(&self) -> EventSet {
        EventSet::of(EPOLLIN)
    }

    open spec fn notified(
        before: VsockMuxer,
        evset: EventSet,
        after: VsockMuxer,
        ret: EpollWait,
    ) -> bool {
        &&& after == before
        &&& ret == EpollWait { epoll_fd: before@.epoll_fd, max_events: MAX_EPOLL_EVENTS }
    }

    /// Get the muxer's epoll descriptor.
    fn get_polled_fd(&self) -> (ret: i32)
        ensures
            ret == self@.epoll_fd,
    {
        self.epoll_fd
    }

    /// Get the events that the muxer's epoll descriptor is to be watched for.
    fn get_polled_evset(&self) -> (ret: EventSet)
        ensures
            ret.bits == EPOLLIN,
    {
        EventSet { bits: EPOLLIN }
    }

    /// Find out which events are to be taken from the muxer's epoll descriptor. Each of them is to
    /// be handed to `process_event`.
    fn notify(&mut self, _evset: EventSet) -> (ret: EpollWait)
        ensures
            *final(self) == *old(self),
            ret.epoll_fd == old(self)@.epoll_fd,
            ret.max_events == MAX_EPOLL_EVENTS,
    {
        EpollWait { epoll_fd: self.epoll_fd, max_events: MAX_EPOLL_EVENTS }
    }
}

impl VsockChannel for VsockMuxer {
    type Recv = RecvStep;

    type Sent = SendStep;

    open spec fn channel_wf(&self) -> bool {
        self.wf()
    }

    open spec fn received(
        before: VsockMuxer,
        room: PacketView,
        now: u64,
        after: VsockMuxer,
        pkt: PacketView,
        ret: RecvStep,
    ) -> bool {
        exists|refilled: MuxerView| #[trigger]
            before@.rx_refilled(refilled) && (after@, pkt, ret) == refilled.recv_next(room, now)
    }

    open spec fn sent(
        before: VsockMuxer,
        pkt: PacketView,
        now: u64,
        after: VsockMuxer,
        ret: SendStep,
    ) -> bool {
        (after@, ret@) == before@.send(pkt, now)
    }

    /// Receive a packet for the guest.
    ///
    /// The packet either is complete after this, or waits for data from a host stream, or for a
    /// change to what a host stream is watched for.
    fn recv_pkt(&mut self, pkt: &mut VsockPacket, now: u64) -> (ret: RecvStep)
        ensures
            exists|refilled: MuxerView| #[trigger]
                old(self)@.rx_refilled(refilled) && (final(self)@, final(pkt)@, ret)
                    == refilled.recv_next(old(pkt)@, now),
            ret matches RecvStep::Read { key, fd, len } ==> {
                &&& final(self)@.conns.contains_key(key)
                &&& final(self)@.conns[key].fd == fd
                &&& len == final(self)@.conns[key].read_len(final(pkt)@.buf->0.len())
                &&& final(pkt)@.buf is Some
            },
    {
        let ghost before = self@;
        if !self.rxq.is_synced() {
            let _ = self.rxq.sync(&mut self.conn_map);
            assert(self.conn_map@.dom() =~= before.conns.dom());
        }
        assert(before.rx_refilled(self@));
        self.recv_next(pkt, now)
    }

    /// Process a packet from the guest.
    ///
    /// Packets of an unknown type, or that belong to no connection and do not ask for one, are
    /// answered by an RST. Packets that are not for the host are dropped.
    fn send_pkt(&mut self, pkt: &VsockPacket, now: u64) -> (ret: SendStep)
        ensures
            (final(self)@, ret@) == old(self)@.send(pkt@, now),
    {
        let ghost before = self@;
        proof {
            self.conn_map.lemma_finite();
        }
        let hdr = pkt.hdr.get();
        let key = ConnMapKey { local_port: hdr.dst_port, peer_port: hdr.src_port };
        if hdr.type_ != VSOCK_TYPE_STREAM {
            self.push_rst(key);
            return SendStep::Done;
        }
        if hdr.dst_cid != VSOCK_HOST_CID {
            return SendStep::Done;
        }
        if !self.conn_map.contains_key(key) {
            if hdr.op == VSOCK_OP_REQUEST {
                return SendStep::Connect(self.handle_peer_request_pkt(&hdr));
            }
            self.push_rst(key);
            return SendStep::Done;
        }
        if hdr.op == VSOCK_OP_RST {
            self.remove_connection(key);
            return SendStep::Done;
        }
        match self.conn_map.remove(key) {
            Some(mut conn) => {
                let job = conn.send_pkt(pkt, now);
                let ghost after = conn@;
                proof {
                    lemma_put_back(before, self@, key, after);
                }
                SendStep::Conn(self.go_on(key, conn, job, now))
            },
            None => SendStep::Done,
        }
    }
}

impl VsockBackend for VsockMuxer {

}

} // verus!
