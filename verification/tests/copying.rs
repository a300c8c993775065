//! The copying device.

use vsock::copying::chain::{read_pkt_from_desc_chain, rx_room, PacketWriter};
use vsock::copying::deferred;
use vsock::copying::device::{EpollConfig, Vsock};
use vsock::copying::handler::{QueueWork, RxNext, VsockEpollHandler};
use vsock::copying::muxer::{make_host_path, SendStep, VsockConnection, VsockMuxer};
use vsock::copying::packet::{VsockError, VsockPacket};
use vsock::desc::DescriptorChain;
use vsock::device::Registration;
use vsock::error::{ActivateError, DeviceError, GuestMemoryError, IoError};
use vsock::events::{EventSet, EPOLLIN, EPOLLOUT};
use vsock::packet::{HdrWrapper, VsockPacketHdr};
use vsock::queue::{UsedDesc, VirtQueue};
use vsock::uapi::{
    VSOCK_OP_REQUEST, VSOCK_OP_RESPONSE, VSOCK_OP_RST, VSOCK_OP_RW, VSOCK_OP_SHUTDOWN,
};
use vsock::unix::muxer::model::EpollWait;

fn packet(op: u16, src_port: u32, dst_port: u32, buf: Vec<u8>) -> VsockPacket {
    VsockPacket {
        hdr: VsockPacketHdr { op, src_port, dst_port, len: buf.len() as u32, ..Default::default() },
        buf,
    }
}

fn desc(data: Vec<u8>, write_only: bool, next: Option<DescriptorChain>) -> DescriptorChain {
    DescriptorChain {
        index: 6,
        len: data.len() as u32,
        write_only,
        hdr_in_bounds: true,
        buf_in_bounds: true,
        data: Ok(data),
        next: next.map(Box::new),
    }
}

fn hdr_bytes(pkt: &VsockPacket) -> Vec<u8> {
    let mut hdr = HdrWrapper::from_ptr_unchecked(&[0u8; 44]);
    hdr.put(pkt.hdr);
    hdr.as_slice().to_vec()
}

/// A chain that holds a packet, with its data in pieces.
fn chain(pkt: &VsockPacket, pieces: Vec<Vec<u8>>) -> DescriptorChain {
    let mut next = None;
    for piece in pieces.into_iter().rev() {
        next = Some(desc(piece, false, next));
    }
    desc(hdr_bytes(pkt), false, next)
}

#[test]
fn packet_kinds() {
    let rst = VsockPacket::new_rst(2, 3, 52, 1000);
    assert_eq!(
        rst.hdr,
        VsockPacketHdr {
            src_cid: 2,
            dst_cid: 3,
            src_port: 52,
            dst_port: 1000,
            type_: 1,
            op: VSOCK_OP_RST,
            ..Default::default()
        }
    );
    assert_eq!(rst.buf, vec![]);
    let response = VsockPacket::new_response(2, 3, 52, 1000);
    assert_eq!(response.hdr, VsockPacketHdr { op: VSOCK_OP_RESPONSE, ..rst.hdr });
    assert_eq!(response.buf, vec![]);
    let rw = VsockPacket::new_rw(2, 3, 52, 1000, vec![1, 2]);
    assert_eq!(rw.hdr, VsockPacketHdr { op: VSOCK_OP_RW, len: 2, ..rst.hdr });
    assert_eq!(rw.buf, vec![1, 2]);
}

#[test]
fn packet_from_chain() {
    let pkt = packet(VSOCK_OP_RW, 1, 2, vec![1, 2, 3, 4, 5]);
    let read = read_pkt_from_desc_chain(&chain(&pkt, vec![vec![1, 2], vec![3, 4, 5]])).unwrap();
    assert_eq!(read.hdr, pkt.hdr);
    assert_eq!(read.buf, vec![1, 2, 3, 4, 5]);
    let empty = packet(VSOCK_OP_RW, 1, 2, vec![]);
    assert_eq!(read_pkt_from_desc_chain(&chain(&empty, vec![])).unwrap().buf, vec![]);
}

#[test]
fn malformed_chains() {
    let pkt = packet(VSOCK_OP_RW, 1, 2, vec![1, 2, 3]);
    let fails = |head: DescriptorChain| {
        assert_eq!(
            read_pkt_from_desc_chain(&head).err(),
            Some(VsockError::PacketAssemblyError)
        )
    };
    fails(desc(vec![0; 43], false, None));
    fails(chain(&pkt, vec![vec![1, 2]]));
    fails(chain(&pkt, vec![vec![1, 2], vec![3, 4]]));
    fails(chain(&pkt, vec![]));
    let mut bad = desc(vec![1, 2, 3], false, None);
    bad.buf_in_bounds = false;
    fails(desc(hdr_bytes(&pkt), false, Some(bad)));
    let mut bad = desc(vec![1, 2, 3], false, None);
    bad.data = Err(GuestMemoryError { code: 1 });
    fails(desc(hdr_bytes(&pkt), false, Some(bad)));
    let mut bad = chain(&pkt, vec![vec![1, 2, 3]]);
    bad.hdr_in_bounds = false;
    fails(bad);
}

#[test]
fn packet_to_chain() {
    let pkt = packet(VSOCK_OP_RW, 1, 2, vec![1, 2, 3, 4, 5]);
    let bytes = hdr_bytes(&pkt);
    let head = desc(vec![0; 44], true, None);
    let (mut writer, hdr) = PacketWriter::write_pkt_to_desc_chain(pkt, &head).ok().unwrap();
    assert_eq!(hdr, bytes);
    assert_eq!(PacketWriter::hdr_written(Ok(())), Ok(()));
    let small = desc(vec![0; 2], true, None);
    assert_eq!(writer.next_chunk(&small), Ok(vec![1, 2]));
    assert_eq!(writer.chunk_written(2, Ok(2)), Ok(()));
    let large = desc(vec![0; 100], true, None);
    assert_eq!(writer.next_chunk(&large), Ok(vec![3, 4, 5]));
    assert_eq!(writer.chunk_written(100, Ok(3)), Ok(()));
    assert_eq!(writer.next_chunk(&large), Ok(vec![]));
}

#[test]
fn packet_to_chain_errors() {
    let pkt = || packet(VSOCK_OP_RW, 1, 2, vec![1, 2, 3]);
    let short = desc(vec![0; 43], true, None);
    let read_only = desc(vec![0; 44], false, None);
    assert_eq!(
        PacketWriter::write_pkt_to_desc_chain(pkt(), &short).err(),
        Some(VsockError::GeneralError)
    );
    assert_eq!(
        PacketWriter::write_pkt_to_desc_chain(pkt(), &read_only).err(),
        Some(VsockError::GeneralError)
    );
    assert_eq!(
        PacketWriter::hdr_written(Err(GuestMemoryError { code: 1 })),
        Err(VsockError::GeneralError)
    );
    let head = desc(vec![0; 44], true, None);
    let (mut writer, _) = PacketWriter::write_pkt_to_desc_chain(pkt(), &head).ok().unwrap();
    assert_eq!(writer.next_chunk(&read_only), Err(VsockError::GeneralError));
    assert_eq!(
        writer.chunk_written(44, Err(GuestMemoryError { code: 1 })),
        Err(VsockError::GeneralError)
    );
}

#[test]
fn room_in_a_chain() {
    let tail = desc(vec![0; 3], true, None);
    assert_eq!(rx_room(&desc(vec![0; 44], true, Some(desc(vec![0; 10], true, Some(tail))))), 13);
    assert_eq!(rx_room(&desc(vec![0; 44], true, None)), 0);
}

#[test]
fn host_paths() {
    assert_eq!(make_host_path(52), b"./vsock_52".to_vec());
}

#[test]
fn minimal_muxer() {
    let mut muxer = VsockMuxer::new();
    assert!(muxer.recv(100).is_none());
    assert_eq!(
        muxer.send(packet(VSOCK_OP_RW, 1000, 52, vec![1])).err(),
        Some(VsockError::GeneralError)
    );
    match muxer.send(packet(VSOCK_OP_REQUEST, 1000, 52, vec![])) {
        Ok(SendStep::Connect(req)) => {
            assert_eq!(req.path, b"./vsock_52".to_vec());
            muxer.connected(req.local_port, req.remote_port, Ok(7));
        }
        other => panic!("not a request: {:?}", other),
    }
    match muxer.send(packet(VSOCK_OP_RW, 1000, 52, vec![1, 2])) {
        Ok(SendStep::Write(write)) => assert_eq!((write.fd, write.data), (7, vec![1, 2])),
        other => panic!("nothing to write: {:?}", other),
    }
    assert!(matches!(muxer.send(packet(VSOCK_OP_SHUTDOWN, 1000, 52, vec![])), Ok(SendStep::Done)));
    // A connection that could not be made swallows data.
    muxer.connected(1001, 52, Err(IoError::Os(111)));
    assert!(matches!(muxer.send(packet(VSOCK_OP_RW, 1001, 52, vec![1])), Ok(SendStep::Done)));
}

#[test]
fn minimal_connection_receives_nothing() {
    let conn = VsockConnection::new_local_init(1, 2, Ok(3));
    assert_eq!(conn.recv(10).err(), Some(VsockError::GeneralError));
    assert_eq!(conn.remote, Some(3));
}

/// A deferring muxer with one connection, from guest port 1000 to host port 52, over the stream 7.
fn deferred_muxer() -> deferred::VsockMuxer {
    let mut muxer = deferred::VsockMuxer::new(3, 40);
    match muxer.send(packet(VSOCK_OP_REQUEST, 1000, 52, vec![])) {
        deferred::SendStep::Connect(req) => {
            assert_eq!(req.path, b"./vsock_52".to_vec());
            assert_eq!(muxer.connected(req.local_port, req.remote_port, Ok(7)), Some(7));
        }
        other => panic!("not a request: {:?}", other),
    }
    muxer
}

fn recv_packet(muxer: &mut deferred::VsockMuxer) -> VsockPacket {
    match muxer.recv(100) {
        deferred::RecvStep::Packet(pkt) => pkt,
        other => panic!("no packet: {:?}", other),
    }
}

#[test]
fn deferred_response() {
    let mut muxer = deferred_muxer();
    let pkt = recv_packet(&mut muxer);
    assert_eq!(pkt.hdr.op, VSOCK_OP_RESPONSE);
    assert_eq!((pkt.hdr.src_cid, pkt.hdr.dst_cid), (2, 3));
    assert_eq!((pkt.hdr.src_port, pkt.hdr.dst_port), (52, 1000));
    assert!(matches!(muxer.recv(100), deferred::RecvStep::NoData));
    assert_eq!(muxer.kick(), EpollWait { epoll_fd: 40, max_events: 16 });
}

#[test]
fn deferred_connect_failure() {
    let mut muxer = deferred::VsockMuxer::new(3, 40);
    assert_eq!(muxer.connected(1000, 52, Err(IoError::Os(111))), None);
    let pkt = recv_packet(&mut muxer);
    assert_eq!(pkt.hdr.op, VSOCK_OP_RST);
    assert_eq!((pkt.hdr.src_port, pkt.hdr.dst_port), (1000, 1000));
}

#[test]
fn deferred_data() {
    let mut muxer = deferred_muxer();
    recv_packet(&mut muxer);
    match muxer.send(packet(VSOCK_OP_RW, 1000, 52, vec![1, 2])) {
        deferred::SendStep::Write(write) => assert_eq!((write.fd, write.data), (7, vec![1, 2])),
        other => panic!("nothing to write: {:?}", other),
    }
    muxer.process_event(7, EventSet { bits: EPOLLOUT });
    muxer.process_event(8, EventSet { bits: EPOLLIN });
    assert!(matches!(muxer.recv(100), deferred::RecvStep::NoData));
    muxer.process_event(7, EventSet { bits: EPOLLIN });
    assert!(matches!(
        muxer.recv(100),
        deferred::RecvStep::Read { local_port: 1000, remote_port: 52, fd: 7, max_len: 100 }
    ));
    let pkt = muxer.recv_data(1000, 52, Ok(vec![5])).unwrap();
    assert_eq!(pkt.buf, vec![5]);
    assert_eq!((pkt.hdr.op, pkt.hdr.len), (VSOCK_OP_RW, 1));
    assert_eq!((pkt.hdr.src_port, pkt.hdr.dst_port), (52, 1000));
    assert!(muxer.recv_data(1000, 52, Err(IoError::WouldBlock)).is_none());
}

#[test]
fn deferred_shutdown() {
    let mut muxer = deferred_muxer();
    recv_packet(&mut muxer);
    assert!(matches!(
        muxer.send(packet(VSOCK_OP_SHUTDOWN, 1000, 52, vec![])),
        deferred::SendStep::Close(7)
    ));
    let pkt = recv_packet(&mut muxer);
    assert_eq!(pkt.hdr.op, VSOCK_OP_RST);
    assert_eq!((pkt.hdr.src_port, pkt.hdr.dst_port), (52, 1000));
    // A late event finds no connection.
    muxer.process_event(7, EventSet { bits: EPOLLIN });
    assert!(matches!(muxer.recv(100), deferred::RecvStep::NoData));
    assert!(matches!(
        muxer.send(packet(VSOCK_OP_RW, 1000, 52, vec![1])),
        deferred::SendStep::Done
    ));
}

#[test]
fn deferred_rst_and_removal() {
    let mut muxer = deferred_muxer();
    recv_packet(&mut muxer);
    assert!(matches!(
        muxer.send(packet(VSOCK_OP_RST, 1000, 52, vec![])),
        deferred::SendStep::Close(7)
    ));
    assert!(matches!(muxer.recv(100), deferred::RecvStep::NoData));
    let mut muxer = deferred_muxer();
    assert_eq!(muxer.remove_connection(1000, 53), None);
    assert_eq!(muxer.remove_connection(1000, 52), Some(7));
    assert_eq!(muxer.remove_connection(1000, 52), None);
}

#[test]
fn deferred_connection() {
    let up = deferred::VsockConnection::new_local_init(1, 2, Ok(3));
    let down = deferred::VsockConnection::new_local_init(1, 2, Err(IoError::Os(111)));
    assert_eq!(up.send(vec![1]).ok().unwrap().fd, 3);
    assert_eq!(down.send(vec![1]).err(), Some(VsockError::GeneralError));
    assert_eq!(deferred::VsockConnection::sent(3, Ok(3)), Ok(()));
    assert_eq!(deferred::VsockConnection::sent(3, Ok(2)), Err(VsockError::GeneralError));
    assert_eq!(
        deferred::VsockConnection::sent(3, Err(IoError::WouldBlock)),
        Err(VsockError::GeneralError)
    );
    assert_eq!(deferred::VsockConnection::recv(Ok(vec![1])), Ok(vec![1]));
    assert_eq!(
        deferred::VsockConnection::recv(Err(IoError::WouldBlock)),
        Err(VsockError::GeneralError)
    );
}

fn device() -> Vsock {
    Vsock::new(3, EpollConfig::new(10, 4)).ok().unwrap()
}

fn queues() -> Vec<VirtQueue> {
    vec![VirtQueue::new(), VirtQueue::new(), VirtQueue::new()]
}

fn handler() -> VsockEpollHandler {
    device().activate(queues(), vec![11, 12, 13]).ok().unwrap().handler
}

#[test]
fn copying_device() {
    let mut device = device();
    assert_eq!(device.device_type(), 19);
    assert_eq!(device.queue_max_sizes(), [256, 256, 256]);
    assert_eq!(device.features(0), 0);
    assert_eq!(device.features(1), 1);
    device.ack_features(1, 0xf);
    assert_eq!(device.acked_features(), 1 << 32);
    let mut cid = [0u8; 8];
    device.read_config(0, &mut cid);
    assert_eq!(cid, [3, 0, 0, 0, 0, 0, 0, 0]);
    device.write_config(0, &[9]);
    device.read_config(0, &mut cid);
    assert_eq!(cid[0], 3);
}

#[test]
fn copying_device_activation() {
    let mut device = device();
    assert_eq!(
        device.activate(vec![VirtQueue::new()], vec![11, 12]).err(),
        Some(ActivateError::BadActivate)
    );
    let activation = device.activate(queues(), vec![11, 12, 13]).ok().unwrap();
    let watch = |fd: i32, token: u64| Registration {
        epoll_fd: 4,
        fd,
        evset: EventSet { bits: EPOLLIN },
        token,
    };
    assert_eq!(activation.registrations, vec![watch(11, 10), watch(12, 11), watch(13, 12)]);
    assert_eq!(activation.handler.cid, 3);
}

#[test]
fn copying_device_events() {
    let handler = handler();
    assert_eq!(handler.event_fd(0), Some(11));
    assert_eq!(handler.event_fd(1), Some(12));
    assert_eq!(handler.event_fd(2), Some(13));
    assert_eq!(handler.event_fd(3), None);
    assert_eq!(handler.handle_event(0, Ok(1)), Ok(QueueWork::ProcessRx));
    assert_eq!(handler.handle_event(1, Ok(1)), Ok(QueueWork::ProcessTx));
    assert_eq!(handler.handle_event(2, Ok(1)), Ok(QueueWork::Idle));
    assert_eq!(
        handler.handle_event(3, Ok(1)),
        Err(DeviceError::UnknownEvent { device: "vsock", event: 3 })
    );
    for (event, event_type) in [(0, "rx queue event"), (1, "tx queue event"), (2, "ev queue event")]
    {
        assert_eq!(
            handler.handle_event(event, Err(IoError::Os(9))),
            Err(DeviceError::FailedReadingQueue { event_type, underlying: IoError::Os(9) })
        );
    }
    assert_eq!(VsockEpollHandler::irq_status(2), 3);
    assert_eq!(
        VsockEpollHandler::signal_used_queue(Err(IoError::Os(9))),
        Err(DeviceError::FailedSignalingUsedQueue(IoError::Os(9)))
    );
}

#[test]
fn copying_walk_of_the_tx_queue() {
    let mut handler = handler();
    handler.txvq.add_avail(desc(vec![0; 4], false, None));
    handler.txvq.add_avail(chain(&packet(VSOCK_OP_REQUEST, 1000, 52, vec![]), vec![]));
    handler.txvq.add_avail(chain(
        &packet(VSOCK_OP_RW, 1000, 52, vec![1, 2, 3]),
        vec![vec![1], vec![2, 3]],
    ));
    match handler.process_tx() {
        Ok(Some(SendStep::Connect(req))) => {
            handler.muxer.connected(req.local_port, req.remote_port, Ok(7));
        }
        other => panic!("not a request: {:?}", other),
    }
    match handler.process_tx() {
        Ok(Some(SendStep::Write(write))) => assert_eq!(write.data, vec![1, 2, 3]),
        other => panic!("nothing to write: {:?}", other),
    }
    assert!(matches!(handler.process_tx(), Ok(None)));
    assert_eq!(handler.txvq.avail_len(), 0);
    let buffers = handler.take_used();
    // The malformed chain was dropped.
    assert_eq!(buffers.tx, vec![UsedDesc { index: 6, len: 0 }, UsedDesc { index: 6, len: 0 }]);
    assert!(!buffers.interrupt);
    handler.txvq.add_avail(chain(&packet(VSOCK_OP_RW, 1, 2, vec![]), vec![]));
    assert_eq!(handler.process_tx().err(), Some(VsockError::GeneralError));
    assert_eq!(handler.take_used().tx, vec![]);
}

#[test]
fn copying_walk_of_the_rx_queue() {
    let mut handler = handler();
    assert!(handler.process_rx().is_none());
    // Without a packet, the chain is taken, and not put back.
    handler.rxvq.add_avail(desc(vec![0; 44], true, None));
    assert!(handler.process_rx().is_none());
    assert_eq!(handler.rxvq.avail_len(), 0);
    assert_eq!(handler.rx_written(desc(vec![0; 44], true, None), 10, Ok(())), RxNext::Again);
    let buffers = handler.take_used();
    assert_eq!(buffers.rx, vec![UsedDesc { index: 6, len: 54 }]);
    assert!(buffers.interrupt);
    assert_eq!(
        handler.rx_written(desc(vec![0; 44], true, None), 10, Err(VsockError::GeneralError)),
        RxNext::Stop
    );
    assert_eq!(handler.rxvq.avail_len(), 1);
    assert!(!handler.take_used().interrupt);
}
