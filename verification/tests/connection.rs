//! The state handler of one connection.

use vsock::channel::{VsockChannel, VsockEpollListener};
use vsock::error::{IoError, VsockError};
use vsock::events::{EventSet, EPOLLIN, EPOLLOUT};
use vsock::packet::{BufWrapper, HdrWrapper, VsockPacket, VsockPacketHdr};
use vsock::uapi::{
    VSOCK_FLAGS_SHUTDOWN_RCV, VSOCK_FLAGS_SHUTDOWN_SEND, VSOCK_OP_CREDIT_REQUEST,
    VSOCK_OP_CREDIT_UPDATE, VSOCK_OP_REQUEST, VSOCK_OP_RESPONSE, VSOCK_OP_RST, VSOCK_OP_RW,
    VSOCK_OP_SHUTDOWN,
};
use vsock::unix::conn_model::{ConnRecv, TxKind};
use vsock::unix::connection::VsockConnection;
use vsock::unix::defs::CONN_TX_BUF_SIZE;

const CID: u64 = 3;
const LOCAL: u32 = 1234;
const PEER: u32 = 5678;
const FD: i32 = 9;

fn packet(op: u16, data: Option<Vec<u8>>) -> VsockPacket {
    let mut hdr = HdrWrapper::from_ptr_unchecked(&[0u8; 44]);
    hdr.put(VsockPacketHdr {
        src_cid: CID,
        dst_cid: 2,
        src_port: PEER,
        dst_port: LOCAL,
        len: data.as_ref().map_or(0, |data| data.len() as u32),
        type_: 1,
        op,
        flags: 0,
        buf_alloc: 64 * 1024,
        fwd_cnt: 0,
    });
    VsockPacket { hdr, buf: data.map(BufWrapper::from_fat_ptr_unchecked) }
}

fn shutdown(flags: u32) -> VsockPacket {
    let mut pkt = packet(VSOCK_OP_SHUTDOWN, None);
    pkt.set_flag(flags);
    pkt
}

fn room(len: usize) -> VsockPacket {
    packet(0, Some(vec![0xee; len]))
}

/// An established connection, with 64K of credit.
fn established() -> VsockConnection {
    let mut conn = VsockConnection::new_peer_init(FD, CID, LOCAL, PEER, 64 * 1024);
    let mut pkt = room(16);
    assert_eq!(conn.recv_pkt(&mut pkt, 0), ConnRecv::Ready);
    assert_eq!(pkt.hdr.get().op, VSOCK_OP_RESPONSE);
    conn
}

/// What the connection has for the guest next.
fn next_op(conn: &mut VsockConnection) -> u16 {
    let mut pkt = room(16);
    assert_eq!(conn.recv_pkt(&mut pkt, 0), ConnRecv::Ready);
    pkt.hdr.get().op
}

#[test]
fn response_header() {
    let mut conn = VsockConnection::new_peer_init(FD, CID, LOCAL, PEER, 100);
    let mut pkt = room(16);
    assert_eq!(conn.recv_pkt(&mut pkt, 0), ConnRecv::Ready);
    assert_eq!(
        pkt.hdr.get(),
        VsockPacketHdr {
            src_cid: 2,
            dst_cid: CID,
            src_port: LOCAL,
            dst_port: PEER,
            len: 0,
            type_: 1,
            op: VSOCK_OP_RESPONSE,
            flags: 0,
            buf_alloc: 256 * 1024,
            fwd_cnt: 0,
        }
    );
    assert!(!conn.has_pending_rx());
}

#[test]
fn host_initiated_handshake() {
    let mut conn = VsockConnection::new_local_init(FD, CID, LOCAL, PEER);
    assert!(conn.has_pending_rx());
    assert_eq!(next_op(&mut conn), VSOCK_OP_REQUEST);
    let job = conn.send_pkt(&packet(VSOCK_OP_RESPONSE, None), 0).unwrap();
    assert_eq!(job.kind, TxKind::Ack);
    assert_eq!(conn.tx_chunk(&job), b"OK 1234\n".to_vec());
    assert!(conn.tx_written(job, Ok(8)).is_none());
    // The connection is up: data goes through.
    let job = conn.send_pkt(&packet(VSOCK_OP_RW, Some(vec![1])), 0).unwrap();
    assert_eq!(job.kind, TxKind::Data);
}

#[test]
fn response_is_invalid_once_established() {
    let mut conn = established();
    assert!(conn.send_pkt(&packet(VSOCK_OP_RESPONSE, None), 0).is_none());
    assert!(!conn.has_pending_rx());
}

#[test]
fn data_from_the_host() {
    let mut conn = established();
    conn.notify(EventSet { bits: EPOLLIN });
    assert!(conn.has_pending_rx());
    let mut pkt = room(16);
    assert_eq!(conn.recv_pkt(&mut pkt, 0), ConnRecv::Read(16));
    assert_eq!(conn.recv_data(&mut pkt, Ok(vec![1, 2, 3])), Ok(()));
    assert_eq!(pkt.hdr.get().op, VSOCK_OP_RW);
    assert_eq!(pkt.hdr.get().len, 3);
    assert_eq!(&pkt.buf.unwrap().as_slice()[..4], [1, 2, 3, 0xee].as_slice());
    assert_eq!(conn.peer_avail_credit(), 64 * 1024 - 3);
    assert!(!conn.has_pending_rx());
}

#[test]
fn reads_stay_within_credit() {
    let mut conn = VsockConnection::new_peer_init(FD, CID, LOCAL, PEER, 10);
    assert_eq!(next_op(&mut conn), VSOCK_OP_RESPONSE);
    let mut pkt = room(16);
    conn.notify(EventSet { bits: EPOLLIN });
    assert_eq!(conn.recv_pkt(&mut pkt, 0), ConnRecv::Read(10));
    assert_eq!(conn.recv_data(&mut pkt, Ok(vec![0; 10])), Ok(()));
    assert!(conn.need_credit_update_from_peer());
    assert!(conn.get_polled_evset().is_empty());
    conn.notify(EventSet { bits: EPOLLIN });
    assert_eq!(next_op(&mut conn), VSOCK_OP_CREDIT_REQUEST);
    // The guest makes room.
    let mut update = packet(VSOCK_OP_CREDIT_UPDATE, None);
    let hdr = update.hdr.get();
    update.hdr.put(VsockPacketHdr { buf_alloc: 10, fwd_cnt: 10, ..hdr });
    assert!(conn.send_pkt(&update, 0).is_none());
    assert_eq!(conn.peer_avail_credit(), 10);
    assert!(conn.get_polled_evset().contains(EPOLLIN));
}

#[test]
fn nothing_to_read() {
    let mut conn = established();
    let mut pkt = room(16);
    assert_eq!(conn.recv_pkt(&mut pkt, 0), ConnRecv::Read(16));
    assert_eq!(conn.recv_data(&mut pkt, Err(IoError::WouldBlock)), Err(VsockError::NoData));
    assert_eq!(conn.peer_avail_credit(), 64 * 1024);
}

#[test]
fn failed_read_resets() {
    let mut conn = established();
    let mut pkt = room(16);
    conn.recv_pkt(&mut pkt, 0);
    assert_eq!(conn.recv_data(&mut pkt, Err(IoError::Os(104))), Ok(()));
    assert_eq!(pkt.hdr.get().op, VSOCK_OP_RST);
}

#[test]
fn host_close() {
    let mut conn = established();
    let mut pkt = room(16);
    conn.recv_pkt(&mut pkt, 0);
    assert_eq!(conn.recv_data(&mut pkt, Ok(vec![])), Ok(()));
    assert_eq!(pkt.hdr.get().op, VSOCK_OP_SHUTDOWN);
    assert_eq!(pkt.hdr.get().flags, VSOCK_FLAGS_SHUTDOWN_RCV | VSOCK_FLAGS_SHUTDOWN_SEND);
    assert!(conn.is_shutting_down());
    assert!(conn.get_polled_evset().is_empty());
}

#[test]
fn guest_shutdown_step_by_step() {
    let mut conn = established();
    conn.send_pkt(&shutdown(VSOCK_FLAGS_SHUTDOWN_RCV), 0);
    assert!(!conn.is_shutting_down());
    assert!(!conn.has_pending_rx());
    // It may still send.
    assert!(conn.send_pkt(&packet(VSOCK_OP_RW, Some(vec![1])), 0).is_some());
    conn.send_pkt(&shutdown(VSOCK_FLAGS_SHUTDOWN_SEND), 0);
    assert!(conn.has_pending_rx());
    assert_eq!(next_op(&mut conn), VSOCK_OP_RST);
    assert!(conn.is_shutting_down());
}

#[test]
fn guest_shutdown_waits_for_buffered_data() {
    let mut conn = established();
    let job = conn.send_pkt(&packet(VSOCK_OP_RW, Some(vec![1, 2, 3])), 0).unwrap();
    assert!(conn.tx_written(job, Ok(1)).is_none());
    assert!(conn.has_data_in_tx_buf());
    conn.send_pkt(&shutdown(VSOCK_FLAGS_SHUTDOWN_RCV | VSOCK_FLAGS_SHUTDOWN_SEND), 0);
    assert!(!conn.has_pending_rx());
    assert!(conn.is_shutting_down());
    assert_eq!(conn.get_polled_evset(), EventSet { bits: EPOLLOUT });
}

#[test]
fn data_after_shutdown_is_dropped() {
    let mut conn = established();
    conn.send_pkt(&shutdown(VSOCK_FLAGS_SHUTDOWN_SEND), 0);
    assert!(conn.send_pkt(&packet(VSOCK_OP_RW, Some(vec![1])), 0).is_none());
}

#[test]
fn data_packet_without_buffer_is_dropped() {
    let mut conn = established();
    assert!(conn.send_pkt(&packet(VSOCK_OP_RW, None), 0).is_none());
}

#[test]
fn data_that_the_host_does_not_take_is_buffered() {
    let mut conn = established();
    let job = conn.send_pkt(&packet(VSOCK_OP_RW, Some(vec![1, 2, 3, 4])), 0).unwrap();
    assert_eq!(conn.tx_chunk(&job), vec![1, 2, 3, 4]);
    assert!(conn.tx_written(job, Err(IoError::WouldBlock)).is_none());
    assert!(conn.has_data_in_tx_buf());
    assert_eq!(conn.get_polled_evset(), EventSet { bits: EPOLLIN | EPOLLOUT });
    // More data goes behind what is buffered.
    let job = conn.send_pkt(&packet(VSOCK_OP_RW, Some(vec![5, 6])), 0).unwrap();
    assert_eq!(conn.tx_chunk(&job), vec![1, 2, 3, 4]);
    assert!(conn.tx_written(job, Ok(3)).is_none());
    // The host is ready for the rest.
    let job = conn.notify(EventSet { bits: EPOLLOUT }).unwrap();
    assert_eq!(job.kind, TxKind::Flush);
    assert_eq!(conn.tx_chunk(&job), vec![4, 5, 6]);
    assert!(conn.tx_written(job, Ok(3)).is_none());
    assert!(!conn.has_data_in_tx_buf());
    // All bytes that were written are accounted for.
    let mut pkt = room(16);
    conn.recv_pkt(&mut pkt, 0);
    assert_eq!(pkt.hdr.get().fwd_cnt, 6);
}

#[test]
fn buffered_data_goes_first() {
    let mut conn = established();
    let job = conn.send_pkt(&packet(VSOCK_OP_RW, Some(vec![1, 2])), 0).unwrap();
    conn.tx_written(job, Ok(0));
    let job = conn.send_pkt(&packet(VSOCK_OP_RW, Some(vec![3])), 0).unwrap();
    let job = conn.tx_written(job, Ok(2)).unwrap();
    assert_eq!(conn.tx_chunk(&job), vec![3]);
    assert!(conn.tx_written(job, Ok(1)).is_none());
    assert!(!conn.has_data_in_tx_buf());
}

#[test]
fn failed_write_dooms_the_connection() {
    let mut conn = established();
    let job = conn.send_pkt(&packet(VSOCK_OP_RW, Some(vec![1])), 0).unwrap();
    assert!(conn.tx_written(job, Err(IoError::Os(32))).is_none());
    assert_eq!(next_op(&mut conn), VSOCK_OP_RST);
}

#[test]
fn full_tx_buffer_dooms_the_connection() {
    let mut conn = established();
    let chunk = 64 * 1024;
    for _ in 0..CONN_TX_BUF_SIZE / chunk {
        let job = conn.send_pkt(&packet(VSOCK_OP_RW, Some(vec![0; chunk])), 0).unwrap();
        conn.tx_written(job, Err(IoError::WouldBlock));
    }
    assert!(!conn.has_pending_rx());
    let job = conn.send_pkt(&packet(VSOCK_OP_RW, Some(vec![0])), 0).unwrap();
    assert!(conn.tx_written(job, Err(IoError::WouldBlock)).is_none());
    assert_eq!(next_op(&mut conn), VSOCK_OP_RST);
}

#[test]
fn credit_update_at_the_threshold() {
    let mut conn = established();
    let chunk = 64 * 1024;
    for _ in 0..2 {
        let job = conn.send_pkt(&packet(VSOCK_OP_RW, Some(vec![0; chunk])), 0).unwrap();
        conn.tx_written(job, Ok(chunk));
    }
    assert!(!conn.peer_needs_credit_update());
    assert!(!conn.has_pending_rx());
    let job = conn.send_pkt(&packet(VSOCK_OP_RW, Some(vec![0; chunk])), 0).unwrap();
    conn.tx_written(job, Ok(chunk));
    let mut pkt = room(16);
    assert_eq!(conn.recv_pkt(&mut pkt, 0), ConnRecv::Ready);
    assert_eq!(pkt.hdr.get().op, VSOCK_OP_CREDIT_UPDATE);
    assert_eq!(pkt.hdr.get().fwd_cnt, 192 * 1024);
    assert!(!conn.peer_needs_credit_update());
}

#[test]
fn credit_request_is_answered() {
    let mut conn = established();
    conn.send_pkt(&packet(VSOCK_OP_CREDIT_REQUEST, None), 0);
    assert_eq!(next_op(&mut conn), VSOCK_OP_CREDIT_UPDATE);
}

#[test]
fn rst_takes_precedence() {
    let mut conn = VsockConnection::new_peer_init(FD, CID, LOCAL, PEER, 10);
    conn.kill();
    assert_eq!(next_op(&mut conn), VSOCK_OP_RST);
}

#[test]
fn muxer_flags() {
    let mut conn = established();
    assert!(!conn.get_muxer_flag(1));
    assert!(!conn.set_muxer_flag(1));
    assert!(conn.set_muxer_flag(1));
    assert!(!conn.get_muxer_flag(2));
    assert!(conn.clear_muxer_flag(1));
    assert!(!conn.get_muxer_flag(1));
}

#[test]
fn stray_output_event() {
    let mut conn = established();
    assert!(conn.notify(EventSet { bits: EPOLLOUT }).is_none());
    assert!(!conn.has_pending_rx());
    assert_eq!(conn.get_polled_fd(), FD);
}
