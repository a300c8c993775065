//! Packets and the descriptor chains that they come from.

use vsock::desc::DescriptorChain;
use vsock::error::{GuestMemoryError, VsockError};
use vsock::packet::{BufWrapper, HdrWrapper, VsockPacket, VsockPacketHdr};

/// A header whose fields all differ.
fn hdr() -> VsockPacketHdr {
    VsockPacketHdr {
        src_cid: 0x0102030405060708,
        dst_cid: 0x1112131415161718,
        src_port: 0x21222324,
        dst_port: 0x31323334,
        len: 3,
        type_: 0x4142,
        op: 0x5152,
        flags: 0x61626364,
        buf_alloc: 0x71727374,
        fwd_cnt: 0x81828384,
    }
}

/// The bytes of `hdr()`.
fn hdr_bytes() -> Vec<u8> {
    vec![
        0x08, 0x07, 0x06, 0x05, 0x04, 0x03, 0x02, 0x01, // src_cid
        0x18, 0x17, 0x16, 0x15, 0x14, 0x13, 0x12, 0x11, // dst_cid
        0x24, 0x23, 0x22, 0x21, // src_port
        0x34, 0x33, 0x32, 0x31, // dst_port
        3, 0, 0, 0, // len
        0x42, 0x41, // type
        0x52, 0x51, // op
        0x64, 0x63, 0x62, 0x61, // flags
        0x74, 0x73, 0x72, 0x71, // buf_alloc
        0x84, 0x83, 0x82, 0x81, // fwd_cnt
    ]
}

fn desc(data: Vec<u8>, write_only: bool, next: Option<DescriptorChain>) -> DescriptorChain {
    DescriptorChain {
        index: 7,
        len: data.len() as u32,
        write_only,
        hdr_in_bounds: true,
        buf_in_bounds: true,
        data: Ok(data),
        next: next.map(Box::new),
    }
}

fn hdr_with_len(len: u32) -> Vec<u8> {
    let mut bytes = hdr_bytes();
    bytes[24..28].copy_from_slice(&len.to_le_bytes());
    bytes
}

fn tx_error(head: DescriptorChain) -> VsockError {
    match VsockPacket::from_tx_virtq_head(&head) {
        Ok(_) => panic!("a packet was found"),
        Err(e) => e,
    }
}

fn rx_error(head: DescriptorChain) -> VsockError {
    match VsockPacket::from_rx_virtq_head(&head) {
        Ok(_) => panic!("a packet was found"),
        Err(e) => e,
    }
}

#[test]
fn header_layout() {
    let mut wrapper = HdrWrapper::from_ptr_unchecked(&hdr_bytes());
    assert_eq!(wrapper.get(), hdr());
    assert_eq!(wrapper.as_slice(), hdr_bytes().as_slice());
    wrapper.put(VsockPacketHdr::default());
    assert_eq!(wrapper.as_slice(), [0u8; 44].as_slice());
    wrapper.put(hdr());
    assert_eq!(wrapper.as_slice(), hdr_bytes().as_slice());
}

#[test]
fn header_bytes_can_be_changed() {
    let mut wrapper = HdrWrapper::from_ptr_unchecked(&hdr_bytes());
    wrapper.as_mut_slice()[24] = 0x10;
    wrapper.as_mut_slice()[25] = 0x20;
    assert_eq!(wrapper.get().len, 0x2010);
    assert_eq!(wrapper.get().fwd_cnt, hdr().fwd_cnt);
}

#[test]
fn default_header_is_zero() {
    let hdr = VsockPacketHdr::default();
    assert_eq!(hdr.src_cid, 0);
    assert_eq!(hdr.op, 0);
    assert_eq!(hdr.fwd_cnt, 0);
}

#[test]
fn buffer_wrapper() {
    let mut buf = BufWrapper::from_fat_ptr_unchecked(vec![1, 2, 3]);
    buf.as_mut_slice()[1] = 9;
    assert_eq!(buf.as_slice(), [1, 9, 3].as_slice());
    let from_desc = BufWrapper::from_virtq_desc(&desc(vec![4, 5], false, None));
    assert_eq!(from_desc.unwrap().as_slice(), [4, 5].as_slice());
}

#[test]
fn tx_packet_with_data() {
    let head = desc(hdr_bytes(), false, Some(desc(vec![1, 2, 3, 4], false, None)));
    let pkt = VsockPacket::from_tx_virtq_head(&head).unwrap();
    assert_eq!(pkt.hdr.get(), hdr());
    assert_eq!(pkt.buf.unwrap().as_slice(), [1, 2, 3, 4].as_slice());
}

#[test]
fn tx_packet_without_data_needs_no_buffer() {
    let pkt = VsockPacket::from_tx_virtq_head(&desc(hdr_with_len(0), false, None)).unwrap();
    assert!(pkt.buf.is_none());
    assert_eq!(pkt.hdr.get().len, 0);
}

#[test]
fn tx_packet_at_the_size_limit() {
    let head = desc(hdr_with_len(65536), false, Some(desc(vec![0; 65536], false, None)));
    assert!(VsockPacket::from_tx_virtq_head(&head).is_ok());
}

#[test]
fn tx_header_at_the_end_of_memory() {
    let mut head = desc(hdr_with_len(0), false, None);
    head.len = 100;
    head.buf_in_bounds = false;
    assert!(head.is_well_formed());
    let pkt = VsockPacket::from_tx_virtq_head(&head).unwrap();
    assert_eq!(pkt.hdr.get(), VsockPacketHdr { len: 0, ..hdr() });
    assert!(pkt.buf.is_none());
}

#[test]
fn tx_packet_errors() {
    let data = || desc(vec![1, 2, 3], false, None);
    assert_eq!(
        tx_error(desc(hdr_bytes(), true, Some(data()))),
        VsockError::UnreadableDescriptor
    );
    assert_eq!(
        tx_error(desc(vec![0; 43], false, Some(data()))),
        VsockError::HdrDescTooSmall(43)
    );
    assert_eq!(
        tx_error(desc(hdr_with_len(65537), false, Some(data()))),
        VsockError::InvalidPktLen(65537)
    );
    assert_eq!(tx_error(desc(hdr_bytes(), false, None)), VsockError::BufDescMissing);
    assert_eq!(
        tx_error(desc(hdr_bytes(), false, Some(desc(vec![1, 2, 3], true, None)))),
        VsockError::UnreadableDescriptor
    );
    assert_eq!(
        tx_error(desc(hdr_bytes(), false, Some(desc(vec![1, 2], false, None)))),
        VsockError::BufDescTooSmall
    );
}

#[test]
fn tx_packet_memory_errors() {
    let mut head = desc(hdr_bytes(), false, None);
    head.hdr_in_bounds = false;
    assert_eq!(tx_error(head), VsockError::GuestMemoryBounds);

    let mut head = desc(hdr_bytes(), false, None);
    head.data = Err(GuestMemoryError { code: 5 });
    assert_eq!(tx_error(head), VsockError::GuestMemory(GuestMemoryError { code: 5 }));

    let mut data = desc(vec![1, 2, 3], false, None);
    data.buf_in_bounds = false;
    assert_eq!(
        tx_error(desc(hdr_bytes(), false, Some(data))),
        VsockError::GuestMemoryBounds
    );
}

#[test]
fn rx_packet_has_room_for_header_and_data() {
    let head = desc(vec![0; 44], true, Some(desc(vec![0; 100], true, None)));
    let pkt = VsockPacket::from_rx_virtq_head(&head).unwrap();
    assert_eq!(pkt.buf.unwrap().as_slice().len(), 100);
}

#[test]
fn rx_packet_errors() {
    let room = || desc(vec![0; 100], true, None);
    assert_eq!(
        rx_error(desc(vec![0; 44], false, Some(room()))),
        VsockError::UnwritableDescriptor
    );
    assert_eq!(
        rx_error(desc(vec![0; 20], true, Some(room()))),
        VsockError::HdrDescTooSmall(20)
    );
    assert_eq!(rx_error(desc(vec![0; 44], true, None)), VsockError::BufDescMissing);
    assert_eq!(
        rx_error(desc(vec![0; 44], true, Some(desc(vec![0; 100], false, None)))),
        VsockError::UnwritableDescriptor
    );
}

#[test]
fn packet_setters() {
    let head = desc(vec![0; 44], true, Some(desc(vec![0; 8], true, None)));
    let mut pkt = VsockPacket::from_rx_virtq_head(&head).unwrap();
    pkt.set_len(8).set_op(5).set_flag(1).set_flag(2);
    assert_eq!(pkt.hdr.get().len, 8);
    assert_eq!(pkt.hdr.get().op, 5);
    assert_eq!(pkt.hdr.get().flags, 3);
}

#[test]
fn little_endian_integers() {
    let mut buf = [0xffu8; 6];
    vsock::le::write_le(&mut buf, 1, 4, 0x01020304);
    assert_eq!(buf, [0xff, 4, 3, 2, 1, 0xff]);
    assert_eq!(vsock::le::read_le(&buf, 1, 4), 0x01020304);
    assert_eq!(vsock::le::read_le(&buf, 2, 2), 0x0203);
}

#[test]
fn decimal_numbers() {
    assert_eq!(vsock::text::to_decimal(0), b"0".to_vec());
    assert_eq!(vsock::text::to_decimal(52), b"52".to_vec());
    assert_eq!(vsock::text::to_decimal(u32::MAX), b"4294967295".to_vec());
}
