//! The virtio-vsock device and the handler of its events.

use vsock::desc::DescriptorChain;
use vsock::device::{registered, EpollConfig, Registration, Vsock};
use vsock::epoll_handler::{RxNext, VsockEpollHandler};
use vsock::error::{ActivateError, DeviceError, IoError, QueueEvent};
use vsock::events::{EventSet, EPOLLIN};
use vsock::queue::{UsedDesc, VirtQueue};
use vsock::unix::muxer::model::{RecvStep, SendStep};
use vsock::unix::muxer::vsock_muxer::VsockMuxer;

const CID: u64 = 0x1122334455667788;

fn device() -> Vsock<VsockMuxer> {
    let muxer = VsockMuxer::new(CID, b"/run/v.sock".to_vec(), 40, 41, 0);
    Vsock::new(CID, EpollConfig::new(100, 4), muxer).ok().unwrap()
}

/// Queues with one, two and three available chains.
fn queues() -> Vec<VirtQueue> {
    let mut queues = vec![];
    for count in 1..4 {
        let mut queue = VirtQueue::new();
        for _ in 0..count {
            queue.add_avail(desc(0, vec![], false, None));
        }
        queues.push(queue);
    }
    queues
}

fn handler() -> VsockEpollHandler<VsockMuxer> {
    let queues = vec![VirtQueue::new(), VirtQueue::new(), VirtQueue::new()];
    device().activate(queues, vec![11, 12, 13]).ok().unwrap().handler
}

fn desc(
    index: u16,
    data: Vec<u8>,
    write_only: bool,
    next: Option<DescriptorChain>,
) -> DescriptorChain {
    DescriptorChain {
        index,
        len: data.len() as u32,
        write_only,
        hdr_in_bounds: true,
        buf_in_bounds: true,
        data: Ok(data),
        next: next.map(Box::new),
    }
}

#[test]
fn identity() {
    let device = device();
    assert_eq!(device.device_type(), 19);
    assert_eq!(device.queue_max_sizes(), [256, 256, 256]);
}

#[test]
fn features() {
    let mut device = device();
    assert_eq!(device.features(0), 0);
    assert_eq!(device.features(1), 9);
    assert_eq!(device.features(2), 0);
    device.ack_features(0, 0xffff_ffff);
    assert_eq!(device.acked_features(), 0);
    device.ack_features(1, 1);
    assert_eq!(device.acked_features(), 1 << 32);
    device.ack_features(1, 0xffff_ffff);
    assert_eq!(device.acked_features(), 1 << 32 | 1 << 35);
    device.ack_features(7, 1);
    assert_eq!(device.acked_features(), 1 << 32 | 1 << 35);
}

#[test]
fn config_space_holds_the_cid() {
    let device = device();
    let mut whole = [0u8; 8];
    device.read_config(0, &mut whole);
    assert_eq!(whole, [0x88, 0x77, 0x66, 0x55, 0x44, 0x33, 0x22, 0x11]);
    let mut low = [0u8; 4];
    device.read_config(0, &mut low);
    assert_eq!(low, [0x88, 0x77, 0x66, 0x55]);
    let mut high = [0u8; 4];
    device.read_config(4, &mut high);
    assert_eq!(high, [0x44, 0x33, 0x22, 0x11]);
}

#[test]
fn invalid_config_reads_change_nothing() {
    let device = device();
    for (offset, len) in [(1, 8), (4, 8), (0, 7), (0, 0), (8, 4), (2, 4)] {
        let mut data = vec![0xaa; len];
        device.read_config(offset, &mut data);
        assert_eq!(data, vec![0xaa; len]);
    }
}

#[test]
fn config_space_cannot_be_written() {
    let mut device = device();
    device.write_config(0, &[1, 2, 3, 4]);
    device.write_config(0, &[]);
    let mut whole = [0u8; 8];
    device.read_config(0, &mut whole);
    assert_eq!(whole[0], 0x88);
}

#[test]
fn activation() {
    let mut device = device();
    assert!(device.has_backend());
    let activation = device.activate(queues(), vec![11, 12, 13]).ok().unwrap();
    let handler = &activation.handler;
    assert_eq!(handler.rxvq.avail_len(), 1);
    assert_eq!(handler.txvq.avail_len(), 2);
    assert_eq!(handler.evq.avail_len(), 3);
    assert_eq!((handler.rxvq_evt, handler.txvq_evt, handler.evq_evt), (11, 12, 13));
    assert_eq!(handler.cid, CID);
    let watch = |fd: i32, token: u64| Registration {
        epoll_fd: 4,
        fd,
        evset: EventSet { bits: EPOLLIN },
        token,
    };
    assert_eq!(
        activation.registrations,
        vec![watch(11, 100), watch(12, 101), watch(13, 102), watch(40, 103)]
    );
    assert!(!device.has_backend());
}

#[test]
fn activation_with_the_wrong_number_of_queues() {
    let mut device = device();
    assert_eq!(
        device.activate(vec![VirtQueue::new()], vec![11, 12, 13]).err(),
        Some(ActivateError::BadActivate)
    );
    assert_eq!(
        device.activate(queues(), vec![11, 12]).err(),
        Some(ActivateError::BadActivate)
    );
    // The backend is still there.
    assert!(device.activate(queues(), vec![11, 12, 13]).is_ok());
}

#[test]
fn refused_registration() {
    assert_eq!(registered(Ok(())), Ok(()));
    assert_eq!(
        registered(Err(IoError::Os(28))),
        Err(ActivateError::EpollCtl(IoError::Os(28)))
    );
}

#[test]
fn event_handling() {
    let mut handler = handler();
    assert_eq!(handler.event_fd(0), Some(11));
    assert_eq!(handler.event_fd(1), Some(12));
    assert_eq!(handler.event_fd(2), Some(13));
    assert_eq!(handler.event_fd(3), None);
    for event in 0..4 {
        assert_eq!(handler.handle_event(event, Ok(1)), Ok(()));
    }
    for (event, event_type) in [(0, "rx queue event"), (1, "tx queue event"), (2, "ev queue event")]
    {
        assert_eq!(
            handler.handle_event(event, Err(IoError::Os(9))),
            Err(DeviceError::FailedReadingQueue { event_type, underlying: IoError::Os(9) })
        );
    }
    assert_eq!(handler.handle_event(3, Err(IoError::Os(9))), Ok(()));
    assert_eq!(
        handler.handle_event(4, Ok(1)),
        Err(DeviceError::UnknownEvent { device: "vsock", event: 4 })
    );
}

#[test]
fn names_of_queue_events() {
    assert_eq!(QueueEvent::Rx.text(), "rx queue event");
    assert_eq!(QueueEvent::Tx.text(), "tx queue event");
    assert_eq!(QueueEvent::Ev.text(), "ev queue event");
}

#[test]
fn interrupts() {
    assert_eq!(VsockEpollHandler::<VsockMuxer>::irq_status(4), 5);
    assert_eq!(VsockEpollHandler::<VsockMuxer>::irq_status(1), 1);
    assert_eq!(VsockEpollHandler::<VsockMuxer>::signal_used_queue(Ok(())), Ok(()));
    assert_eq!(
        VsockEpollHandler::<VsockMuxer>::signal_used_queue(Err(IoError::WouldBlock)),
        Err(DeviceError::FailedSignalingUsedQueue(IoError::WouldBlock))
    );
}

/// A TX packet of type 0, which is answered by an RST.
fn stray(src_port: u8) -> Vec<u8> {
    let mut bytes = vec![0u8; 44];
    bytes[16] = src_port;
    bytes[20] = 8;
    bytes
}

fn room(index: u16, len: usize) -> DescriptorChain {
    desc(index, vec![0; 44], true, Some(desc(0, vec![0; len], true, None)))
}

fn used(index: u16, len: u32) -> UsedDesc {
    UsedDesc { index, len }
}

#[test]
fn walk_of_the_tx_queue() {
    let mut handler = handler();
    handler.txvq.add_avail(desc(1, stray(1), false, None));
    handler.txvq.add_avail(desc(2, vec![0; 10], false, None));
    handler.txvq.add_avail(desc(3, stray(3), false, None));
    handler.txvq.add_avail(desc(4, vec![0; 10], false, None));
    for _ in 0..2 {
        match handler.process_tx(0) {
            Some(SendStep::Done) => (),
            other => panic!("not done: {:?}", other),
        }
    }
    assert!(handler.process_tx(0).is_none());
    assert_eq!(handler.txvq.avail_len(), 0);
    let buffers = handler.take_used();
    assert_eq!(buffers.tx, vec![used(1, 0), used(2, 0), used(3, 0), used(4, 0)]);
    assert_eq!(buffers.rx, vec![]);
    assert!(buffers.interrupt);
    assert!(!handler.take_used().interrupt);
    // The packets were sent in order.
    handler.rxvq.add_avail(room(5, 16));
    handler.rxvq.add_avail(room(6, 16));
    for port in [1, 3] {
        let (rx, step) = handler.process_rx(0).unwrap();
        assert_eq!(step, RecvStep::Done);
        assert_eq!(rx.pkt.hdr.get().op, 3);
        assert_eq!((rx.pkt.hdr.get().src_port, rx.pkt.hdr.get().dst_port), (8, port));
        assert!(matches!(handler.rx_done(rx, true), RxNext::Again { .. }));
    }
}

#[test]
fn walk_of_the_rx_queue_until_there_is_no_data() {
    let mut handler = handler();
    handler.txvq.add_avail(desc(1, stray(1), false, None));
    handler.process_tx(0);
    handler.take_used();
    handler.rxvq.add_avail(desc(2, vec![0; 44], true, None));
    handler.rxvq.add_avail(room(3, 16));
    handler.rxvq.add_avail(room(4, 16));
    let (rx, step) = handler.process_rx(0).unwrap();
    assert_eq!(step, RecvStep::Done);
    match handler.rx_done(rx, true) {
        RxNext::Again { index, pkt } => assert_eq!((index, pkt.hdr.get().op), (3, 3)),
        RxNext::Stop => panic!("stopped"),
    }
    let (rx, step) = handler.process_rx(0).unwrap();
    assert_eq!(step, RecvStep::NoData);
    assert!(matches!(handler.rx_done(rx, false), RxNext::Stop));
    // The chain is still there.
    assert_eq!(handler.rxvq.avail_len(), 1);
    let buffers = handler.take_used();
    assert_eq!(buffers.rx, vec![used(2, 0), used(3, 44)]);
    assert!(buffers.interrupt);
    let (rx, _) = handler.process_rx(0).unwrap();
    assert_eq!(rx.head.index, 4);
}

#[test]
fn length_of_a_filled_buffer() {
    let mut handler = handler();
    handler.rxvq.add_avail(room(3, 16));
    let (mut rx, _) = handler.process_rx(0).unwrap();
    rx.pkt.set_len(10);
    handler.rx_done(rx, true);
    assert_eq!(handler.take_used().rx, vec![used(3, 54)]);
}

#[test]
fn walk_of_the_rx_queue_until_there_is_no_chain() {
    let mut handler = handler();
    assert!(handler.process_rx(0).is_none());
    assert!(!handler.take_used().interrupt);
    handler.rxvq.add_avail(desc(2, vec![0; 44], false, None));
    assert!(handler.process_rx(0).is_none());
    assert_eq!(handler.rxvq.avail_len(), 0);
    let buffers = handler.take_used();
    assert_eq!(buffers.rx, vec![used(2, 0)]);
    assert!(buffers.interrupt);
}

#[test]
fn well_formed_chains() {
    assert!(room(1, 16).is_well_formed());
    let mut chain = room(1, 16);
    chain.next.as_mut().unwrap().len = 17;
    assert!(!chain.is_well_formed());
    chain.next.as_mut().unwrap().buf_in_bounds = false;
    assert!(chain.is_well_formed());
    // The header is there, though the end of its descriptor's buffer is not.
    let mut head = desc(1, stray(1), false, None);
    head.len = 100;
    assert!(!head.is_well_formed());
    head.buf_in_bounds = false;
    assert!(head.is_well_formed());
    head.data = Ok(vec![0; 43]);
    assert!(!head.is_well_formed());
    head.hdr_in_bounds = false;
    assert!(head.is_well_formed());
}
