//! The connection multiplexer.

use vsock::channel::{VsockChannel, VsockEpollListener};
use vsock::error::IoError;
use vsock::events::{EventSet, EPOLLIN, EPOLLOUT};
use vsock::packet::{BufWrapper, HdrWrapper, VsockPacket, VsockPacketHdr};
use vsock::uapi::{
    VSOCK_OP_CREDIT_UPDATE, VSOCK_OP_REQUEST, VSOCK_OP_RESPONSE, VSOCK_OP_RST, VSOCK_OP_RW,
    VSOCK_OP_SHUTDOWN,
};
use vsock::unix::conn_map::ConnMapKey;
use vsock::unix::muxer::model::{
    ConnStep, CtlOp, EpollWait, EventStep, HostCmd, ListenerCtl, RecvStep, SendStep,
};
use vsock::unix::muxer::vsock_muxer::VsockMuxer;

const CID: u64 = 3;
const EPOLL_FD: i32 = 4;
const HOST_FD: i32 = 5;
const SEC: u64 = 1_000_000_000;

/// The first local port that is given away.
const FIRST_PORT: u32 = 0x8000_0001;

fn muxer() -> VsockMuxer {
    VsockMuxer::new(CID, b"/run/v.sock".to_vec(), EPOLL_FD, HOST_FD, 0)
}

fn hdr(op: u16, peer_port: u32, local_port: u32) -> VsockPacketHdr {
    VsockPacketHdr {
        src_cid: CID,
        dst_cid: 2,
        src_port: peer_port,
        dst_port: local_port,
        len: 0,
        type_: 1,
        op,
        flags: 0,
        buf_alloc: 1024,
        fwd_cnt: 0,
    }
}

fn packet(h: VsockPacketHdr, data: Option<Vec<u8>>) -> VsockPacket {
    let mut hdr = HdrWrapper::from_ptr_unchecked(&[0u8; 44]);
    hdr.put(VsockPacketHdr { len: data.as_ref().map_or(0, |data| data.len() as u32), ..h });
    VsockPacket { hdr, buf: data.map(BufWrapper::from_fat_ptr_unchecked) }
}

fn room() -> VsockPacket {
    packet(VsockPacketHdr::default(), Some(vec![0; 64]))
}

fn key(local_port: u32, peer_port: u32) -> ConnMapKey {
    ConnMapKey { local_port, peer_port }
}

/// Send a packet that leaves nothing to be done.
fn send(muxer: &mut VsockMuxer, h: VsockPacketHdr) {
    match muxer.send_pkt(&packet(h, None), 0) {
        SendStep::Done => (),
        SendStep::Conn(ConnStep::Idle) => (),
        other => panic!("left to be done: {:?}", other),
    }
}

/// Receive a packet that can be had right away.
fn recv(muxer: &mut VsockMuxer) -> VsockPacketHdr {
    let mut pkt = room();
    assert_eq!(muxer.recv_pkt(&mut pkt, 0), RecvStep::Done);
    pkt.hdr.get()
}

fn assert_no_data(muxer: &mut VsockMuxer) {
    assert_eq!(muxer.recv_pkt(&mut room(), 0), RecvStep::NoData);
}

/// Have the guest connect from `peer_port` to `local_port`, over the stream `fd`.
fn connect_guest(muxer: &mut VsockMuxer, peer_port: u32, local_port: u32, fd: i32) {
    let req = match muxer.send_pkt(&packet(hdr(VSOCK_OP_REQUEST, peer_port, local_port), None), 0) {
        SendStep::Connect(req) => req,
        other => panic!("not a request: {:?}", other),
    };
    let new = muxer.connected(req, Ok(fd)).unwrap();
    muxer.connection_watched(new, Ok(()));
}

/// Have the guest connect, and receive our response.
fn establish(muxer: &mut VsockMuxer, peer_port: u32, local_port: u32, fd: i32) {
    connect_guest(muxer, peer_port, local_port, fd);
    assert_eq!(recv(muxer).op, VSOCK_OP_RESPONSE);
}

#[test]
fn what_the_device_polls() {
    let mut muxer = muxer();
    assert_eq!(muxer.get_polled_fd(), EPOLL_FD);
    assert_eq!(muxer.get_polled_evset(), EventSet { bits: EPOLLIN });
    assert_eq!(
        muxer.notify(EventSet { bits: EPOLLIN }),
        EpollWait { epoll_fd: EPOLL_FD, max_events: 16 }
    );
    assert_no_data(&mut muxer);
}

#[test]
fn guest_request_goes_to_the_path_for_its_port() {
    let mut muxer = muxer();
    match muxer.send_pkt(&packet(hdr(VSOCK_OP_REQUEST, 1000, 52), None), 0) {
        SendStep::Connect(req) => {
            assert_eq!(req.path, b"/run/v.sock_52".to_vec());
            assert_eq!((req.local_port, req.peer_port, req.buf_alloc), (52, 1000, 1024));
        }
        other => panic!("not a request: {:?}", other),
    }
}

#[test]
fn guest_connection_is_confirmed() {
    let mut muxer = muxer();
    connect_guest(&mut muxer, 1000, 52, 10);
    let response = recv(&mut muxer);
    assert_eq!(response.op, VSOCK_OP_RESPONSE);
    assert_eq!((response.src_cid, response.dst_cid), (2, CID));
    assert_eq!((response.src_port, response.dst_port), (52, 1000));
    assert_no_data(&mut muxer);
}

#[test]
fn failed_connect_is_answered_by_rst() {
    let mut muxer = muxer();
    match muxer.send_pkt(&packet(hdr(VSOCK_OP_REQUEST, 1000, 52), None), 0) {
        SendStep::Connect(req) => assert!(muxer.connected(req, Err(IoError::Os(111))).is_none()),
        other => panic!("not a request: {:?}", other),
    }
    let rst = recv(&mut muxer);
    assert_eq!(rst.op, VSOCK_OP_RST);
    assert_eq!((rst.src_port, rst.dst_port), (52, 1000));
}

#[test]
fn unwatchable_connection_is_answered_by_rst() {
    let mut muxer = muxer();
    match muxer.send_pkt(&packet(hdr(VSOCK_OP_REQUEST, 1000, 52), None), 0) {
        SendStep::Connect(req) => {
            let new = muxer.connected(req, Ok(10)).unwrap();
            muxer.connection_watched(new, Err(IoError::Os(28)));
        }
        other => panic!("not a request: {:?}", other),
    }
    assert_eq!(recv(&mut muxer).op, VSOCK_OP_RST);
    assert_eq!(muxer.take_cmds(), vec![HostCmd::Close(10)]);
    assert_eq!(muxer.take_cmds(), vec![]);
}

#[test]
fn too_many_connections() {
    let mut muxer = muxer();
    for n in 0..1023u32 {
        connect_guest(&mut muxer, 1000 + n, 52, 10 + n as i32);
    }
    match muxer.send_pkt(&packet(hdr(VSOCK_OP_REQUEST, 9000, 52), None), 0) {
        SendStep::Connect(req) => assert!(muxer.connected(req, Ok(5000)).is_none()),
        other => panic!("not a request: {:?}", other),
    }
    assert_eq!(muxer.take_cmds(), vec![HostCmd::Close(5000)]);
    // The RX queue overflowed, but no response is lost.
    for _ in 0..1023 {
        assert_eq!(recv(&mut muxer).op, VSOCK_OP_RESPONSE);
    }
    assert_no_data(&mut muxer);
}

#[test]
fn connections_offered_at_the_same_time() {
    let mut muxer = muxer();
    for n in 0..1022u32 {
        connect_guest(&mut muxer, 1000 + n, 52, 10 + n as i32);
    }
    let mut offered = vec![];
    for n in 0..2u32 {
        match muxer.send_pkt(&packet(hdr(VSOCK_OP_REQUEST, 9000 + n, 52), None), 0) {
            SendStep::Connect(req) => {
                offered.push(muxer.connected(req, Ok(5000 + n as i32)).unwrap());
            }
            other => panic!("not a request: {:?}", other),
        }
    }
    for new in offered {
        muxer.connection_watched(new, Ok(()));
    }
    // Only the first of them got in.
    assert_eq!(muxer.take_cmds(), vec![HostCmd::Close(5001)]);
}

#[test]
fn unexpected_packets_are_answered_by_rst() {
    let mut muxer = muxer();
    send(&mut muxer, hdr(VSOCK_OP_RW, 1000, 52));
    let rst = recv(&mut muxer);
    assert_eq!(
        rst,
        VsockPacketHdr {
            src_cid: 2,
            dst_cid: CID,
            src_port: 52,
            dst_port: 1000,
            len: 0,
            type_: 1,
            op: VSOCK_OP_RST,
            flags: 0,
            buf_alloc: 0,
            fwd_cnt: 0,
        }
    );
    send(&mut muxer, VsockPacketHdr { type_: 2, ..hdr(VSOCK_OP_REQUEST, 1001, 53) });
    assert_eq!(recv(&mut muxer).src_port, 53);
    assert_no_data(&mut muxer);
}

#[test]
fn packets_for_other_cids_are_dropped() {
    let mut muxer = muxer();
    send(&mut muxer, VsockPacketHdr { dst_cid: 9, ..hdr(VSOCK_OP_RW, 1000, 52) });
    assert_no_data(&mut muxer);
}

#[test]
fn guest_rst_ends_the_connection() {
    let mut muxer = muxer();
    establish(&mut muxer, 1000, 52, 10);
    send(&mut muxer, hdr(VSOCK_OP_RST, 1000, 52));
    assert_eq!(muxer.take_cmds(), vec![HostCmd::EpollDel(10), HostCmd::Close(10)]);
    assert_no_data(&mut muxer);
    // There is no such connection any more.
    send(&mut muxer, hdr(VSOCK_OP_RW, 1000, 52));
    assert_eq!(recv(&mut muxer).op, VSOCK_OP_RST);
}

#[test]
fn data_to_the_host() {
    let mut muxer = muxer();
    establish(&mut muxer, 1000, 52, 10);
    let pkt = packet(hdr(VSOCK_OP_RW, 1000, 52), Some(vec![1, 2, 3]));
    let write = match muxer.send_pkt(&pkt, 0) {
        SendStep::Conn(ConnStep::Write(write)) => write,
        other => panic!("nothing to write: {:?}", other),
    };
    assert_eq!((write.fd, write.data.clone()), (10, vec![1, 2, 3]));
    // The host takes some, and is watched until it takes the rest.
    let ctl = match muxer.conn_written(write, Ok(1), 0) {
        ConnStep::Ctl(ctl) => ctl,
        other => panic!("no change: {:?}", other),
    };
    assert_eq!(
        ctl,
        ListenerCtl {
            key: key(52, 1000),
            op: CtlOp::Mod,
            fd: 10,
            evset: EventSet { bits: EPOLLIN | EPOLLOUT },
        }
    );
    muxer.conn_ctl_done(ctl, Ok(()));
    let write = match muxer.process_event(10, 0) {
        EventStep::Conn(ConnStep::Write(write)) => write,
        other => panic!("nothing to write: {:?}", other),
    };
    assert_eq!(write.data, vec![2, 3]);
    match muxer.conn_written(write, Ok(2), 0) {
        ConnStep::Ctl(ctl) => assert_eq!(ctl.evset, EventSet { bits: EPOLLIN }),
        other => panic!("no change: {:?}", other),
    }
}

#[test]
fn refused_watch_terminates_the_connection() {
    let mut muxer = muxer();
    establish(&mut muxer, 1000, 52, 10);
    let pkt = packet(hdr(VSOCK_OP_RW, 1000, 52), Some(vec![1, 2, 3]));
    let step = match muxer.send_pkt(&pkt, 0) {
        SendStep::Conn(ConnStep::Write(write)) => muxer.conn_written(write, Ok(1), 0),
        other => panic!("nothing to write: {:?}", other),
    };
    match step {
        ConnStep::Ctl(ctl) => muxer.conn_ctl_done(ctl, Err(IoError::Os(28))),
        other => panic!("no change: {:?}", other),
    }
    assert_eq!(muxer.take_cmds(), vec![HostCmd::EpollDel(10), HostCmd::Close(10)]);
    assert_eq!(recv(&mut muxer).op, VSOCK_OP_RST);
    assert_no_data(&mut muxer);
}

#[test]
fn failed_write_resets() {
    let mut muxer = muxer();
    establish(&mut muxer, 1000, 52, 10);
    let pkt = packet(hdr(VSOCK_OP_RW, 1000, 52), Some(vec![1]));
    match muxer.send_pkt(&pkt, 0) {
        SendStep::Conn(ConnStep::Write(write)) => {
            muxer.conn_written(write, Err(IoError::Os(32)), 0);
        }
        other => panic!("nothing to write: {:?}", other),
    }
    assert_eq!(recv(&mut muxer).op, VSOCK_OP_RST);
    assert_eq!(muxer.take_cmds(), vec![HostCmd::EpollDel(10), HostCmd::Close(10)]);
    assert_no_data(&mut muxer);
}

#[test]
fn host_data_passes_through_the_muxer() {
    let mut muxer = muxer();
    establish(&mut muxer, 1000, 52, 10);
    assert!(matches!(muxer.process_event(10, 0), EventStep::Conn(ConnStep::Idle)));
    let mut pkt = room();
    assert_eq!(
        muxer.recv_pkt(&mut pkt, 0),
        RecvStep::Read { key: key(52, 1000), fd: 10, len: 64 }
    );
    assert_eq!(
        muxer.recv_data(key(52, 1000), &mut pkt, Ok(vec![7, 8]), 0),
        RecvStep::Done
    );
    assert_eq!(pkt.hdr.get().op, VSOCK_OP_RW);
    assert_eq!(pkt.hdr.get().len, 2);
    assert_eq!(&pkt.buf.unwrap().as_slice()[..2], [7, 8].as_slice());
    assert_no_data(&mut muxer);
}

#[test]
fn blocked_stream_lets_the_next_one_have_its_turn() {
    let mut muxer = muxer();
    establish(&mut muxer, 1000, 52, 10);
    muxer.process_event(10, 0);
    send(&mut muxer, hdr(VSOCK_OP_RW, 2000, 53));
    let mut pkt = room();
    assert_eq!(
        muxer.recv_pkt(&mut pkt, 0),
        RecvStep::Read { key: key(52, 1000), fd: 10, len: 64 }
    );
    assert_eq!(
        muxer.recv_data(key(52, 1000), &mut pkt, Err(IoError::WouldBlock), 0),
        RecvStep::Done
    );
    assert_eq!(pkt.hdr.get().op, VSOCK_OP_RST);
    assert_eq!(pkt.hdr.get().src_port, 53);
}

#[test]
fn spent_credit_takes_the_stream_off_watch() {
    let mut muxer = muxer();
    establish(&mut muxer, 1000, 52, 10);
    let mut update = hdr(VSOCK_OP_CREDIT_UPDATE, 1000, 52);
    update.buf_alloc = 2;
    send(&mut muxer, update);
    muxer.process_event(10, 0);
    let mut pkt = room();
    assert_eq!(
        muxer.recv_pkt(&mut pkt, 0),
        RecvStep::Read { key: key(52, 1000), fd: 10, len: 2 }
    );
    assert_eq!(
        muxer.recv_data(key(52, 1000), &mut pkt, Ok(vec![7, 8]), 0),
        RecvStep::Done
    );
    assert_eq!(muxer.take_cmds(), vec![HostCmd::EpollDel(10)]);
    // Fresh credit puts it back.
    update.fwd_cnt = 2;
    match muxer.send_pkt(&packet(update, None), 0) {
        SendStep::Conn(ConnStep::Ctl(ctl)) => {
            assert_eq!((ctl.op, ctl.fd), (CtlOp::Add, 10));
            muxer.conn_ctl_done(ctl, Ok(()));
        }
        other => panic!("no change: {:?}", other),
    }
    assert!(matches!(muxer.process_event(10, 0), EventStep::Conn(ConnStep::Idle)));
}

#[test]
fn watch_is_updated_while_receiving() {
    let mut muxer = muxer();
    establish(&mut muxer, 1000, 52, 10);
    // Leave some data in the TX buffer.
    let pkt = packet(hdr(VSOCK_OP_RW, 1000, 52), Some(vec![1, 2, 3]));
    match muxer.send_pkt(&pkt, 0) {
        SendStep::Conn(ConnStep::Write(write)) => {
            muxer.conn_written(write, Ok(1), 0);
        }
        other => panic!("nothing to write: {:?}", other),
    }
    match muxer.process_event(10, 0) {
        EventStep::Conn(ConnStep::Write(write)) => {
            muxer.conn_written(write, Err(IoError::WouldBlock), 0);
        }
        other => panic!("nothing to write: {:?}", other),
    }
    // The host closes its end: the stream is only watched for output from now on.
    let mut pkt = room();
    let (k, fd) = match muxer.recv_pkt(&mut pkt, 0) {
        RecvStep::Read { key, fd, len: 64 } => (key, fd),
        other => panic!("nothing to read: {:?}", other),
    };
    assert_eq!(fd, 10);
    let (ctl, got) = match muxer.recv_data(k, &mut pkt, Ok(vec![]), 0) {
        RecvStep::Ctl { ctl, got } => (ctl, got),
        other => panic!("no change: {:?}", other),
    };
    assert_eq!(ctl.evset, EventSet { bits: EPOLLOUT });
    assert!(got);
    assert_eq!(muxer.recv_ctl_done(ctl, got, &mut pkt, Ok(()), 0), RecvStep::Done);
    assert_eq!(pkt.hdr.get().op, VSOCK_OP_SHUTDOWN);
}

#[test]
fn host_connection() {
    let mut muxer = muxer();
    // A stream is accepted, and put under watch.
    assert!(matches!(muxer.process_event(HOST_FD, 0), EventStep::Accept));
    assert_eq!(muxer.accepted(Ok(20)), Some(20));
    muxer.local_stream_watched(20, Ok(()));
    // It names a port.
    assert!(matches!(muxer.process_event(20, 0), EventStep::ReadPort(20)));
    assert_eq!(muxer.take_cmds(), vec![HostCmd::EpollDel(20)]);
    let new = muxer.local_stream_read(20, Ok(b"CONNECT 52\n".to_vec())).unwrap();
    muxer.connection_watched(new, Ok(()));
    // The guest is asked.
    let request = recv(&mut muxer);
    assert_eq!(request.op, VSOCK_OP_REQUEST);
    assert_eq!((request.src_port, request.dst_port), (FIRST_PORT, 52));
    // It accepts, and the host is told.
    let write = match muxer.send_pkt(&packet(hdr(VSOCK_OP_RESPONSE, 52, FIRST_PORT), None), 0) {
        SendStep::Conn(ConnStep::Write(write)) => write,
        other => panic!("nothing to write: {:?}", other),
    };
    assert_eq!((write.fd, write.data.clone()), (20, b"OK 2147483649\n".to_vec()));
    match muxer.conn_written(write, Ok(14), 0) {
        ConnStep::Ctl(ctl) => muxer.conn_ctl_done(ctl, Ok(())),
        other => panic!("no change: {:?}", other),
    }
    // Data flows.
    assert!(matches!(muxer.process_event(20, 0), EventStep::Conn(ConnStep::Idle)));
    assert!(matches!(muxer.recv_pkt(&mut room(), 0), RecvStep::Read { fd: 20, .. }));
}

#[test]
fn local_ports_are_given_in_turn() {
    let mut muxer = muxer();
    for n in 0..3 {
        let new = muxer.local_stream_read(20 + n, Ok(b"7".to_vec())).unwrap();
        assert_eq!(new.key, key(FIRST_PORT + n as u32, 7));
        muxer.connection_watched(new, Ok(()));
    }
    // One that is free again is not given away at once.
    assert_eq!(recv(&mut muxer).src_port, FIRST_PORT);
    send(&mut muxer, hdr(VSOCK_OP_RST, 7, FIRST_PORT));
    let new = muxer.local_stream_read(30, Ok(b"7".to_vec())).unwrap();
    assert_eq!(new.key.local_port, FIRST_PORT + 3);
}

#[test]
fn bad_port_request_closes_the_stream() {
    let mut muxer = muxer();
    assert!(muxer.local_stream_read(20, Ok(b"what".to_vec())).is_none());
    assert!(muxer.local_stream_read(21, Ok(vec![])).is_none());
    assert!(muxer.local_stream_read(22, Err(IoError::WouldBlock)).is_none());
    assert_eq!(
        muxer.take_cmds(),
        vec![HostCmd::Close(20), HostCmd::Close(21), HostCmd::Close(22)]
    );
    assert_no_data(&mut muxer);
}

#[test]
fn unwatchable_host_streams_are_closed() {
    let mut muxer = muxer();
    assert_eq!(muxer.accepted(Err(IoError::WouldBlock)), None);
    muxer.local_stream_watched(20, Err(IoError::Os(28)));
    assert_eq!(muxer.take_cmds(), vec![HostCmd::Close(20)]);
    let new = muxer.local_stream_read(21, Ok(b"7".to_vec())).unwrap();
    muxer.connection_watched(new, Err(IoError::Os(28)));
    assert_eq!(muxer.take_cmds(), vec![HostCmd::Close(21)]);
    assert_no_data(&mut muxer);
}

#[test]
fn stray_event() {
    let mut muxer = muxer();
    assert!(matches!(muxer.process_event(77, 0), EventStep::Idle));
}

/// Have the host close a connection.
fn close_by_host(muxer: &mut VsockMuxer, k: ConnMapKey, fd: i32, now: u64) {
    muxer.process_event(fd, now);
    let mut pkt = room();
    assert_eq!(muxer.recv_pkt(&mut pkt, now), RecvStep::Read { key: k, fd, len: 64 });
    assert_eq!(muxer.recv_data(k, &mut pkt, Ok(vec![]), now), RecvStep::Done);
    assert_eq!(pkt.hdr.get().op, VSOCK_OP_SHUTDOWN);
}

#[test]
fn overdue_connection_is_terminated() {
    let mut muxer = muxer();
    establish(&mut muxer, 1000, 52, 10);
    close_by_host(&mut muxer, key(52, 1000), 10, 2 * SEC);
    muxer.take_cmds();
    // Not due for a sweep.
    muxer.process_event(77, 3 * SEC - 1);
    assert_no_data(&mut muxer);
    // Due for a sweep, but the connection is not overdue.
    muxer.process_event(77, 3 * SEC);
    assert_no_data(&mut muxer);
    // Overdue, but not due for a sweep.
    muxer.process_event(77, 5 * SEC);
    assert_no_data(&mut muxer);
    muxer.process_event(77, 6 * SEC);
    let rst = recv(&mut muxer);
    assert_eq!(rst.op, VSOCK_OP_RST);
    assert_eq!((rst.src_port, rst.dst_port), (52, 1000));
    assert_eq!(muxer.take_cmds(), vec![HostCmd::Close(10)]);
}

#[test]
fn overdue_connections_beyond_the_kill_queue() {
    let mut muxer = muxer();
    for n in 0..130u32 {
        establish(&mut muxer, 1000 + n, 52, 10 + n as i32);
        close_by_host(&mut muxer, key(52, 1000 + n), 10 + n as i32, SEC);
    }
    // The first sweep gets those in the queue, and schedules the others.
    muxer.process_event(77, 10 * SEC);
    for _ in 0..128 {
        assert_eq!(recv(&mut muxer).op, VSOCK_OP_RST);
    }
    assert_no_data(&mut muxer);
    muxer.process_event(77, 20 * SEC);
    assert_eq!(recv(&mut muxer).op, VSOCK_OP_RST);
    assert_eq!(recv(&mut muxer).op, VSOCK_OP_RST);
    assert_no_data(&mut muxer);
}

#[test]
fn termination_without_room_for_the_rst() {
    let mut muxer = muxer();
    establish(&mut muxer, 1000, 52, 10);
    close_by_host(&mut muxer, key(52, 1000), 10, 0);
    for n in 0..256 {
        send(&mut muxer, hdr(VSOCK_OP_RW, 5000 + n, 52));
    }
    muxer.process_event(77, 10 * SEC);
    // The queued RSTs come first, then that of the connection.
    for n in 0..256 {
        assert_eq!(recv(&mut muxer).dst_port, 5000 + n);
    }
    let mut pkt = room();
    match muxer.recv_pkt(&mut pkt, 0) {
        RecvStep::Ctl { ctl, got: true } => {
            assert_eq!(muxer.recv_ctl_done(ctl, true, &mut pkt, Ok(()), 0), RecvStep::Done);
        }
        other => panic!("no change: {:?}", other),
    }
    assert_eq!((pkt.hdr.get().op, pkt.hdr.get().dst_port), (VSOCK_OP_RST, 1000));
    assert_no_data(&mut muxer);
}
