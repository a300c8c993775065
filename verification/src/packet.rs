//! Vsock packets.
//!
//! There are two components to a vsock packet, each using its own descriptor in a virtio queue:
//! the packet header, and the packet data. There is a 1:1 relation between descriptor chains and
//! packets: the chain head holds the header, and an optional second descriptor holds the data.
//! The second descriptor is only present for data packets (VSOCK_OP_RW).

use vstd::prelude::*;

use crate::defs::MAX_PKT_BUF_SIZE;
use crate::desc::DescriptorChain;
use crate::error::VsockError;
use crate::le::{read_le, write_le};
use crate::uapi::VSOCK_OP_RW;

verus! {

/// The size (in bytes) of a packet header in a virtio queue buffer.
pub const VSOCK_PKT_HDR_SIZE: usize = 44;

/// The vsock packet header.
#[derive(Clone, Copy, Debug, PartialEq, Eq, Structural)]
pub struct VsockPacketHdr {
    /// Source CID.
    pub src_cid: u64,
    /// Destination CID.
    pub dst_cid: u64,
    /// Source port.
    pub src_port: u32,
    /// Destination port.
    pub dst_port: u32,
    /// Data length (in bytes) - may be 0, if there is no data buffer.
    pub len: u32,
    /// Socket type. Only connection-oriented streams are defined by the vsock protocol.
    pub type_: u16,
    /// Operation ID - one of the VSOCK_OP_* values; e.g.
    /// - VSOCK_OP_RW: a data packet;
    /// - VSOCK_OP_REQUEST: connection request;
    /// - VSOCK_OP_RST: forceful connection termination.
    pub op: u16,
    /// Additional options (flags) associated with the current operation (`op`).
    pub flags: u32,
    /// Size (in bytes) of the packet sender's receive buffer.
    pub buf_alloc: u32,
    /// Number of bytes the sender has received and consumed.
    pub fwd_cnt: u32,
}

/// The header whose fields are all zero.
pub open spec fn zero_hdr() -> VsockPacketHdr {
    VsockPacketHdr {
        src_cid: 0,
        dst_cid: 0,
        src_port: 0,
        dst_port: 0,
        len: 0,
        type_: 0,
        op: 0,
        flags: 0,
        buf_alloc: 0,
        fwd_cnt: 0,
    }
}

impl Default for VsockPacketHdr {
    fn default() -> (ret: VsockPacketHdr)
        ensures
            ret == zero_hdr(),
    {
        VsockPacketHdr {
            src_cid: 0,
            dst_cid: 0,
            src_port: 0,
            dst_port: 0,
            len: 0,
            type_: 0,
            op: 0,
            flags: 0,
            buf_alloc: 0,
            fwd_cnt: 0,
        }
    }
}

/// The integer that the bytes of `b` from `from` up to `to` hold.
pub open spec fn field(b: Seq<u8>, from: int, to: int) -> nat {
    crate::le::le_value(b.subrange(from, to))
}

/// The header that 44 bytes hold: its fields in order, little-endian, without gaps.
pub open spec fn hdr_of(b: Seq<u8>) -> VsockPacketHdr {
    VsockPacketHdr {
        src_cid: field(b, 0, 8) as u64,
        dst_cid: field(b, 8, 16) as u64,
        src_port: field(b, 16, 20) as u32,
        dst_port: field(b, 20, 24) as u32,
        len: field(b, 24, 28) as u32,
        type_: field(b, 28, 30) as u16,
        op: field(b, 30, 32) as u16,
        flags: field(b, 32, 36) as u32,
        buf_alloc: field(b, 36, 40) as u32,
        fwd_cnt: field(b, 40, 44) as u32,
    }
}

/// The bytes of a header.
pub open spec fn hdr_bytes(h: VsockPacketHdr) -> Seq<u8> {
    crate::le::le_bytes(h.src_cid as nat, 8) + crate::le::le_bytes(h.dst_cid as nat, 8)
        + crate::le::le_bytes(h.src_port as nat, 4) + crate::le::le_bytes(h.dst_port as nat, 4)
        + crate::le::le_bytes(h.len as nat, 4) + crate::le::le_bytes(h.type_ as nat, 2)
        + crate::le::le_bytes(h.op as nat, 2) + crate::le::le_bytes(h.flags as nat, 4)
        + crate::le::le_bytes(h.buf_alloc as nat, 4) + crate::le::le_bytes(h.fwd_cnt as nat, 4)
}

/// The lengths of the header's fields.
proof fn lemma_hdr_lens(h: VsockPacketHdr)
    ensures
        crate::le::le_bytes(h.src_cid as nat, 8).len() == 8,
        crate::le::le_bytes(h.dst_cid as nat, 8).len() == 8,
        crate::le::le_bytes(h.src_port as nat, 4).len() == 4,
        crate::le::le_bytes(h.dst_port as nat, 4).len() == 4,
        crate::le::le_bytes(h.len as nat, 4).len() == 4,
        crate::le::le_bytes(h.type_ as nat, 2).len() == 2,
        crate::le::le_bytes(h.op as nat, 2).len() == 2,
        crate::le::le_bytes(h.flags as nat, 4).len() == 4,
        crate::le::le_bytes(h.buf_alloc as nat, 4).len() == 4,
        crate::le::le_bytes(h.fwd_cnt as nat, 4).len() == 4,
        hdr_bytes(h).len() == 44,
{
    crate::le::lemma_bytes_len(h.src_cid as nat, 8);
    crate::le::lemma_bytes_len(h.dst_cid as nat, 8);
    crate::le::lemma_bytes_len(h.src_port as nat, 4);
    crate::le::lemma_bytes_len(h.dst_port as nat, 4);
    crate::le::lemma_bytes_len(h.len as nat, 4);
    crate::le::lemma_bytes_len(h.type_ as nat, 2);
    crate::le::lemma_bytes_len(h.op as nat, 2);
    crate::le::lemma_bytes_len(h.flags as nat, 4);
    crate::le::lemma_bytes_len(h.buf_alloc as nat, 4);
    crate::le::lemma_bytes_len(h.fwd_cnt as nat, 4);
}

/// Reading back the bytes of a header gives the header.
pub proof fn hdr_of_bytes(h: VsockPacketHdr)
    ensures
        hdr_bytes(h).len() == VSOCK_PKT_HDR_SIZE,
        hdr_of(hdr_bytes(h)) == h,
{
    let b = hdr_bytes(h);
    lemma_hdr_lens(h);
    crate::le::lemma_spans();
    crate::le::value_of_bytes(h.src_cid as nat, 8);
    crate::le::value_of_bytes(h.dst_cid as nat, 8);
    crate::le::value_of_bytes(h.src_port as nat, 4);
    crate::le::value_of_bytes(h.dst_port as nat, 4);
    crate::le::value_of_bytes(h.len as nat, 4);
    crate::le::value_of_bytes(h.type_ as nat, 2);
    crate::le::value_of_bytes(h.op as nat, 2);
    crate::le::value_of_bytes(h.flags as nat, 4);
    crate::le::value_of_bytes(h.buf_alloc as nat, 4);
    crate::le::value_of_bytes(h.fwd_cnt as nat, 4);
    assert(b.subrange(0, 8) =~= crate::le::le_bytes(h.src_cid as nat, 8));
    assert(b.subrange(8, 16) =~= crate::le::le_bytes(h.dst_cid as nat, 8));
    assert(b.subrange(16, 20) =~= crate::le::le_bytes(h.src_port as nat, 4));
    assert(b.subrange(20, 24) =~= crate::le::le_bytes(h.dst_port as nat, 4));
    assert(b.subrange(24, 28) =~= crate::le::le_bytes(h.len as nat, 4));
    assert(b.subrange(28, 30) =~= crate::le::le_bytes(h.type_ as nat, 2));
    assert(b.subrange(30, 32) =~= crate::le::le_bytes(h.op as nat, 2));
    assert(b.subrange(32, 36) =~= crate::le::le_bytes(h.flags as nat, 4));
    assert(b.subrange(36, 40) =~= crate::le::le_bytes(h.buf_alloc as nat, 4));
    assert(b.subrange(40, 44) =~= crate::le::le_bytes(h.fwd_cnt as nat, 4));
}

/// The bytes of the header that some bytes hold are those bytes.
pub proof fn bytes_of_hdr(b: Seq<u8>)
    requires
        b.len() == VSOCK_PKT_HDR_SIZE,
    ensures
        hdr_bytes(hdr_of(b)) == b,
{
    crate::le::lemma_spans();
    lemma_field(b, 0, 8);
    lemma_field(b, 8, 16);
    lemma_field(b, 16, 20);
    lemma_field(b, 20, 24);
    lemma_field(b, 24, 28);
    lemma_field(b, 28, 30);
    lemma_field(b, 30, 32);
    lemma_field(b, 32, 36);
    lemma_field(b, 36, 40);
    lemma_field(b, 40, 44);
    assert(hdr_bytes(hdr_of(b)) =~= b);
}

/// A field's value fits its width, and its bytes are those that it was read from.
proof fn lemma_field(b: Seq<u8>, from: int, to: int)
    requires
        0 <= from <= to <= b.len(),
    ensures
        field(b, from, to) < crate::le::span((to - from) as nat),
        crate::le::le_bytes(field(b, from, to), (to - from) as nat) == b.subrange(from, to),
{
    crate::le::lemma_value_bound(b.subrange(from, to));
    crate::le::bytes_of_value(b.subrange(from, to));
}

/// A packet header, as it is laid out in a virtio queue buffer.
#[derive(Debug)]
pub struct HdrWrapper {
    bytes: [u8; 44],
}

impl View for HdrWrapper {
    type V = VsockPacketHdr;

    closed spec fn view(&self) -> VsockPacketHdr {
        hdr_of(self.bytes@)
    }
}

/// The header in a descriptor's buffer, or why there is none.
pub open spec fn hdr_from_desc(desc: DescriptorChain) -> Result<VsockPacketHdr, VsockError> {
    if desc.len < VSOCK_PKT_HDR_SIZE {
        Err(VsockError::HdrDescTooSmall(desc.len))
    } else if !desc.hdr_in_bounds {
        Err(VsockError::GuestMemoryBounds)
    } else {
        match desc.data {
            Ok(data) => Ok(hdr_of(data@.take(VSOCK_PKT_HDR_SIZE as int))),
            Err(e) => Err(VsockError::GuestMemory(e)),
        }
    }
}

impl HdrWrapper {
    /// Create the wrapper from a virtio queue descriptor, performing some sanity checks in the
    /// process.
    pub fn from_virtq_desc(desc: &DescriptorChain) -> (ret: Result<HdrWrapper, VsockError>)
        requires
            desc.wf(),
        ensures
            ret is Ok <==> hdr_from_desc(*desc) is Ok,
            ret is Ok ==> ret->Ok_0@ == hdr_from_desc(*desc)->Ok_0,
            ret is Err ==> ret->Err_0 == hdr_from_desc(*desc)->Err_0,
    {
        if desc.len < VSOCK_PKT_HDR_SIZE as u32 {
            return Err(VsockError::HdrDescTooSmall(desc.len));
        }
        if !desc.hdr_in_bounds {
            return Err(VsockError::GuestMemoryBounds);
        }
        match &desc.data {
            Ok(data) => {
                let hdr = vstd::slice::slice_subrange(data.as_slice(), 0, VSOCK_PKT_HDR_SIZE);
                assert(hdr@ =~= data@.take(VSOCK_PKT_HDR_SIZE as int));
                Ok(HdrWrapper::from_ptr_unchecked(hdr))
            },
            Err(e) => Err(VsockError::GuestMemory(*e)),
        }
    }

    /// Create the wrapper from the bytes of a header.
    pub fn from_ptr_unchecked(hdr: &[u8]) -> (ret: HdrWrapper)
        requires
            hdr@.len() == VSOCK_PKT_HDR_SIZE,
        ensures
            ret@ == hdr_of(hdr@),
    {
        let mut bytes: [u8; 44] = [0u8; 44];
        let mut i: usize = 0;
        while i < VSOCK_PKT_HDR_SIZE
            invariant
                i <= VSOCK_PKT_HDR_SIZE,
                hdr@.len() == VSOCK_PKT_HDR_SIZE,
                forall|j: int| 0 <= j < i ==> bytes@[j] == hdr@[j],
            decreases VSOCK_PKT_HDR_SIZE - i,
        {
            bytes[i] = hdr[i];
            i = i + 1;
        }
        assert(bytes@ =~= hdr@);
        HdrWrapper { bytes }
    }

    /// Provide byte-wise access to the data stored inside the header.
    pub fn as_slice(&self) -> (ret: &[u8])
        ensures
            ret@ == hdr_bytes(self@),
    {
        proof {
            bytes_of_hdr(self.bytes@);
        }
        self.bytes.as_slice()
    }

    /// Provide byte-wise mutable access to the data stored inside the header.
    pub fn as_mut_slice(&mut self) -> (ret: &mut [u8])
        ensures
            ret@ == hdr_bytes(old(self)@),
            final(self)@ == hdr_of(final(ret)@),
            final(ret)@.len() == VSOCK_PKT_HDR_SIZE,
    {
        proof {
            bytes_of_hdr(self.bytes@);
        }
        &mut self.bytes
    }

    /// Get the header's fields.
    pub fn get(&self) -> (ret: VsockPacketHdr)
        ensures
            ret == self@,
    {
        let b = self.bytes.as_slice();
        proof {
            crate::le::lemma_spans();
        }
        VsockPacketHdr {
            src_cid: read_le(b, 0, 8),
            dst_cid: read_le(b, 8, 8),
            src_port: read_le(b, 16, 4) as u32,
            dst_port: read_le(b, 20, 4) as u32,
            len: read_le(b, 24, 4) as u32,
            type_: read_le(b, 28, 2) as u16,
            op: read_le(b, 30, 2) as u16,
            flags: read_le(b, 32, 4) as u32,
            buf_alloc: read_le(b, 36, 4) as u32,
            fwd_cnt: read_le(b, 40, 4) as u32,
        }
    }

    /// Set the header's fields.
    pub fn put(&mut self, h: VsockPacketHdr)
        ensures
            final(self)@ == h,
    {
        proof {
            hdr_of_bytes(h);
            lemma_hdr_lens(h);
        }
        let b: &mut [u8] = &mut self.bytes;
        write_le(b, 0, 8, h.src_cid);
        write_le(b, 8, 8, h.dst_cid);
        write_le(b, 16, 4, h.src_port as u64);
        write_le(b, 20, 4, h.dst_port as u64);
        write_le(b, 24, 4, h.len as u64);
        write_le(b, 28, 2, h.type_ as u64);
        write_le(b, 30, 2, h.op as u64);
        write_le(b, 32, 4, h.flags as u64);
        write_le(b, 36, 4, h.buf_alloc as u64);
        write_le(b, 40, 4, h.fwd_cnt as u64);
        assert(b@ =~= hdr_bytes(h));
    }
}

/// A packet's data buffer.
#[derive(Debug)]
pub struct BufWrapper {
    data: Vec<u8>,
}

impl View for BufWrapper {
    type V = Seq<u8>;

    closed spec fn view(&self) -> Seq<u8> {
        self.data@
    }
}

/// The data in a descriptor's buffer, or why there is none.
pub open spec fn buf_from_desc(desc: DescriptorChain) -> Result<Seq<u8>, VsockError> {
    if !desc.buf_in_bounds {
        Err(VsockError::GuestMemoryBounds)
    } else {
        match desc.data {
            Ok(data) => Ok(data@),
            Err(e) => Err(VsockError::GuestMemory(e)),
        }
    }
}

impl BufWrapper {
    /// Create the data wrapper from a virtq descriptor.
    pub fn from_virtq_desc(desc: &DescriptorChain) -> (ret: Result<BufWrapper, VsockError>)
        ensures
            ret is Ok <==> buf_from_desc(*desc) is Ok,
            ret is Ok ==> ret->Ok_0@ == buf_from_desc(*desc)->Ok_0,
            ret is Err ==> ret->Err_0 == buf_from_desc(*desc)->Err_0,
    {
        if !desc.buf_in_bounds {
            return Err(VsockError::GuestMemoryBounds);
        }
        match &desc.data {
            Ok(data) => Ok(BufWrapper::from_fat_ptr_unchecked(data.clone())),
            Err(e) => Err(VsockError::GuestMemory(*e)),
        }
    }

    /// Create the data wrapper from a buffer.
    pub fn from_fat_ptr_unchecked(data: Vec<u8>) -> (ret: BufWrapper)
        ensures
            ret@ == data@,
    {
        BufWrapper { data }
    }

    /// Provide access to the data buffer, as a byte slice.
    pub fn as_slice(&self) -> (ret: &[u8])
        ensures
            ret@ == self@,
    {
        self.data.as_slice()
    }

    /// Provide mutable access to the data buffer, as a byte slice.
    pub fn as_mut_slice(&mut self) -> (ret: &mut [u8])
        ensures
            ret@ == old(self)@,
            final(self)@ == final(ret)@,
    {
        self.data.as_mut_slice()
    }
}

/// What a packet holds.
#[verifier::ext_equal]
pub struct PacketView {
    /// The header.
    pub hdr: VsockPacketHdr,
    /// The data buffer, if there is one.
    pub buf: Option<Seq<u8>>,
}

impl PacketView {
    /// A data packet has as much data as its header says, if it has a buffer.
    pub open spec fn data_fits(self) -> bool {
        self.hdr.op == VSOCK_OP_RW && self.buf is Some ==> self.hdr.len <= self.buf->0.len()
    }
}

/// The vsock packet: a header, and a data buffer that is only present for data packets
/// (VSOCK_OP_RW).
#[derive(Debug)]
pub struct VsockPacket {
    pub hdr: HdrWrapper,
    pub buf: Option<BufWrapper>,
}

impl View for VsockPacket {
    type V = PacketView;

    open spec fn view(&self) -> PacketView {
        PacketView {
            hdr: self.hdr@,
            buf: match self.buf {
                Some(buf) => Some(buf@),
                None => None,
            },
        }
    }
}

/// The packet that a TX descriptor chain holds, or why it holds none.
pub open spec fn tx_packet(head: DescriptorChain) -> Result<PacketView, VsockError> {
    if head.write_only {
        Err(VsockError::UnreadableDescriptor)
    } else {
        match hdr_from_desc(head) {
            Err(e) => Err(e),
            Ok(hdr) => if hdr.len > MAX_PKT_BUF_SIZE {
                Err(VsockError::InvalidPktLen(hdr.len))
            } else if hdr.len == 0 {
                Ok(PacketView { hdr, buf: None })
            } else {
                match head.next {
                    None => Err(VsockError::BufDescMissing),
                    Some(next) => if next.write_only {
                        Err(VsockError::UnreadableDescriptor)
                    } else if next.len < hdr.len {
                        Err(VsockError::BufDescTooSmall)
                    } else {
                        match buf_from_desc(*next) {
                            Err(e) => Err(e),
                            Ok(buf) => Ok(PacketView { hdr, buf: Some(buf) }),
                        }
                    },
                }
            },
        }
    }
}

/// The packet that an RX descriptor chain makes room for, or why it makes room for none.
pub open spec fn rx_packet(head: DescriptorChain) -> Result<PacketView, VsockError> {
    if !head.write_only {
        Err(VsockError::UnwritableDescriptor)
    } else {
        match hdr_from_desc(head) {
            Err(e) => Err(e),
            Ok(hdr) => match head.next {
                None => Err(VsockError::BufDescMissing),
                Some(next) => if !next.write_only {
                    Err(VsockError::UnwritableDescriptor)
                } else {
                    match buf_from_desc(*next) {
                        Err(e) => Err(e),
                        Ok(buf) => Ok(PacketView { hdr, buf: Some(buf) }),
                    }
                },
            },
        }
    }
}

impl VsockPacket {
    /// Create the packet wrapper from a TX virtq chain head.
    ///
    /// The chain head is expected to hold valid packet header data. A following packet buffer
    /// descriptor can optionally end the chain. Bounds checks are performed when creating the
    /// wrapper.
    pub fn from_tx_virtq_head(head: &DescriptorChain) -> (ret: Result<VsockPacket, VsockError>)
        requires
            head.wf(),
        ensures
            ret is Ok <==> tx_packet(*head) is Ok,
            ret is Ok ==> ret->Ok_0@ == tx_packet(*head)->Ok_0,
            ret is Err ==> ret->Err_0 == tx_packet(*head)->Err_0,
    {
        // All buffers in the TX queue must be readable.
        if head.is_write_only() {
            return Err(VsockError::UnreadableDescriptor);
        }
        let hdr = match HdrWrapper::from_virtq_desc(head) {
            Ok(hdr) => hdr,
            Err(e) => return Err(e),
        };
        // Reject weirdly-sized packets.
        let len: u32 = hdr.get().len;
        if len > MAX_PKT_BUF_SIZE as u32 {
            return Err(VsockError::InvalidPktLen(len));
        }
        // Don't bother to look for the data descriptor, if the header says there's no data.
        if len == 0 {
            return Ok(VsockPacket { hdr, buf: None });
        }
        let buf_desc = match head.next_descriptor() {
            Some(desc) => desc,
            None => return Err(VsockError::BufDescMissing),
        };
        // All TX buffers must be readable.
        if buf_desc.is_write_only() {
            return Err(VsockError::UnreadableDescriptor);
        }
        // The data descriptor should be large enough to hold the data length indicated by the
        // header.
        if buf_desc.len < len {
            return Err(VsockError::BufDescTooSmall);
        }
        match BufWrapper::from_virtq_desc(buf_desc) {
            Ok(buf) => Ok(VsockPacket { hdr, buf: Some(buf) }),
            Err(e) => Err(e),
        }
    }

    /// Create the packet wrapper from an RX virtq chain head.
    ///
    /// There must be two descriptors in the chain, both writable: a header descriptor and a data
    /// descriptor. Bounds checks are performed when creating the wrapper.
    pub fn from_rx_virtq_head(head: &DescriptorChain) -> (ret: Result<VsockPacket, VsockError>)
        requires
            head.wf(),
        ensures
            ret is Ok <==> rx_packet(*head) is Ok,
            ret is Ok ==> ret->Ok_0@ == rx_packet(*head)->Ok_0,
            ret is Err ==> ret->Err_0 == rx_packet(*head)->Err_0,
    {
        // All RX buffers must be writable.
        if !head.is_write_only() {
            return Err(VsockError::UnwritableDescriptor);
        }
        let hdr = match HdrWrapper::from_virtq_desc(head) {
            Ok(hdr) => hdr,
            Err(e) => return Err(e),
        };
        let buf_desc = match head.next_descriptor() {
            Some(desc) => desc,
            None => return Err(VsockError::BufDescMissing),
        };
        if !buf_desc.is_write_only() {
            return Err(VsockError::UnwritableDescriptor);
        }
        match BufWrapper::from_virtq_desc(buf_desc) {
            Ok(buf) => Ok(VsockPacket { hdr, buf: Some(buf) }),
            Err(e) => Err(e),
        }
    }

    /// Builder-like method for setting `hdr.len` (the packet data length).
    pub fn set_len(&mut self, len: u32) -> (ret: &mut VsockPacket)
        ensures
            ret@ == (PacketView { hdr: VsockPacketHdr { len, ..old(self)@.hdr }, ..old(self)@ }),
            *final(self) == *final(ret),
    {
        let mut h = self.hdr.get();
        h.len = len;
        self.hdr.put(h);
        self
    }

    /// Builder-like method for setting the `hdr.op` (the packet operation type).
    pub fn set_op(&mut self, op: u16) -> (ret: &mut VsockPacket)
        ensures
            ret@ == (PacketView { hdr: VsockPacketHdr { op, ..old(self)@.hdr }, ..old(self)@ }),
            *final(self) == *final(ret),
    {
        let mut h = self.hdr.get();
        h.op = op;
        self.hdr.put(h);
        self
    }

    /// Builder-like method for setting a header flag.
    pub fn set_flag(&mut self, flag: u32) -> (ret: &mut VsockPacket)
        ensures
            ret@ == (PacketView {
                hdr: VsockPacketHdr {
                    flags: old(self)@.hdr.flags | flag,
                    ..old(self)@.hdr
                },
                ..old(self)@
            }),
            *final(self) == *final(ret),
    {
        let mut h = self.hdr.get();
        h.flags = h.flags | flag;
        self.hdr.put(h);
        self
    }
}

/// A packet read from a TX chain holds at least the data that its header tells of: none if the
/// header tells of none, and never more than a packet may hold.
pub proof fn tx_packet_holds_its_data(head: DescriptorChain)
    requires
        head.wf(),
        tx_packet(head) is Ok,
    ensures
        ({
            let pkt = tx_packet(head)->Ok_0;
            &&& pkt.hdr.len <= MAX_PKT_BUF_SIZE
            &&& pkt.buf is None <==> pkt.hdr.len == 0
            &&& pkt.buf is Some ==> pkt.hdr.len <= pkt.buf->0.len()
        }),
{
    reveal_with_fuel(DescriptorChain::wf, 2);
}

/// A packet made from an RX chain has a data buffer.
pub proof fn rx_packet_has_buffer(head: DescriptorChain)
    requires
        rx_packet(head) is Ok,
    ensures
        rx_packet(head)->Ok_0.buf is Some,
{
}

/// The value of four bytes, least significant byte first.
pub open spec fn four_bytes(b: Seq<u8>, at: int) -> int {
    b[at] + 0x100 * b[at + 1] + 0x1_0000 * b[at + 2] + 0x100_0000 * b[at + 3]
}

/// Where the fields of a header are in its 44 bytes.
pub proof fn header_layout(b: Seq<u8>)
    requires
        b.len() == 44,
    ensures
        hdr_of(b).src_cid == four_bytes(b, 0) + 0x1_0000_0000 * four_bytes(b, 4),
        hdr_of(b).dst_cid == four_bytes(b, 8) + 0x1_0000_0000 * four_bytes(b, 12),
        hdr_of(b).src_port == four_bytes(b, 16),
        hdr_of(b).dst_port == four_bytes(b, 20),
        hdr_of(b).len == four_bytes(b, 24),
        hdr_of(b).type_ == b[28] + 0x100 * b[29],
        hdr_of(b).op == b[30] + 0x100 * b[31],
        hdr_of(b).flags == four_bytes(b, 32),
        hdr_of(b).buf_alloc == four_bytes(b, 36),
        hdr_of(b).fwd_cnt == four_bytes(b, 40),
{
    crate::le::least_significant_byte_first(b, 0);
    crate::le::least_significant_byte_first(b, 8);
    crate::le::least_significant_byte_first(b, 16);
    crate::le::least_significant_byte_first(b, 20);
    crate::le::least_significant_byte_first(b, 24);
    crate::le::least_significant_byte_first(b, 28);
    crate::le::least_significant_byte_first(b, 30);
    crate::le::least_significant_byte_first(b, 32);
    crate::le::least_significant_byte_first(b, 36);
    crate::le::least_significant_byte_first(b, 40);
}

/// Whether a descriptor holds, or has room for, a packet header.
pub open spec fn has_header(desc: DescriptorChain) -> bool {
    desc.len >= 44 && desc.hdr_in_bounds && desc.data is Ok
}

/// A TX chain makes a packet just when its first descriptor can be read and holds a header, and its
/// second one, if the header tells of data, can be read and is large enough. There is a limit of
/// 64 KiB to that. The packet has the header, and all the bytes of the second descriptor.
pub proof fn tx_chain_makes_a_packet(head: DescriptorChain)
    ensures
        ({
            let hdr = hdr_of(head.data->Ok_0@.take(44));
            let next = head.next->0;
            tx_packet(head) is Ok <==> {
                &&& !head.write_only
                &&& has_header(head)
                &&& hdr.len <= 65536
                &&& hdr.len > 0 ==> {
                    &&& head.next is Some
                    &&& !next.write_only
                    &&& next.len >= hdr.len
                    &&& next.buf_in_bounds
                    &&& next.data is Ok
                }
            }
        }),
        tx_packet(head) is Ok ==> {
            let pkt = tx_packet(head)->Ok_0;
            &&& pkt.hdr == hdr_of(head.data->Ok_0@.take(44))
            &&& pkt.hdr.len == 0 ==> pkt.buf is None
            &&& pkt.hdr.len > 0 ==> pkt.buf == Some(head.next->0.data->Ok_0@)
        },
{
}

/// An RX chain has room for a packet just when both of its first two descriptors can be written to,
/// and are within guest memory, and the first one has room for a header.
pub proof fn rx_chain_has_room_for_a_packet(head: DescriptorChain)
    ensures
        rx_packet(head) is Ok <==> {
            &&& head.write_only
            &&& has_header(head)
            &&& head.next is Some
            &&& head.next->0.write_only
            &&& head.next->0.buf_in_bounds
            &&& head.next->0.data is Ok
        },
        rx_packet(head) is Ok ==> {
            &&& rx_packet(head)->Ok_0.hdr == hdr_of(head.data->Ok_0@.take(44))
            &&& rx_packet(head)->Ok_0.buf == Some(head.next->0.data->Ok_0@)
        },
{
}

/// What is wrong with a chain is told by its first flaw, in order: the header descriptor, the
/// header, and then the data descriptor.
pub proof fn first_flaw_is_told(head: DescriptorChain, tx: bool)
    ensures
        ({
            let ret = if tx {
                tx_packet(head)
            } else {
                rx_packet(head)
            };
            let hdr = hdr_of(head.data->Ok_0@.take(44));
            let next = head.next->0;
            let wrong_way = if tx {
                VsockError::UnreadableDescriptor
            } else {
                VsockError::UnwritableDescriptor
            };
            &&& head.write_only == tx ==> ret == Err::<PacketView, VsockError>(wrong_way)
            &&& head.write_only != tx ==> {
                &&& head.len < 44 ==> ret == Err::<PacketView, VsockError>(
                    VsockError::HdrDescTooSmall(head.len),
                )
                &&& head.len >= 44 && !head.hdr_in_bounds ==> ret == Err::<PacketView, VsockError>(
                    VsockError::GuestMemoryBounds,
                )
                &&& head.len >= 44 && head.hdr_in_bounds && head.data is Err ==> ret == Err::<
                    PacketView,
                    VsockError,
                >(VsockError::GuestMemory(head.data->Err_0))
            }
            &&& head.write_only != tx && has_header(head) ==> {
                let needed = !tx || 0 < hdr.len <= 65536;
                &&& tx && hdr.len > 65536 ==> ret == Err::<PacketView, VsockError>(
                    VsockError::InvalidPktLen(hdr.len),
                )
                &&& needed && head.next is None ==> ret == Err::<PacketView, VsockError>(
                    VsockError::BufDescMissing,
                )
                &&& needed && head.next is Some && next.write_only == tx ==> ret == Err::<
                    PacketView,
                    VsockError,
                >(wrong_way)
                &&& needed && head.next is Some && next.write_only != tx ==> {
                    let small = tx && next.len < hdr.len;
                    &&& small ==> ret == Err::<PacketView, VsockError>(VsockError::BufDescTooSmall)
                    &&& !small && !next.buf_in_bounds ==> ret == Err::<PacketView, VsockError>(
                        VsockError::GuestMemoryBounds,
                    )
                    &&& !small && next.buf_in_bounds && next.data is Err ==> ret == Err::<
                        PacketView,
                        VsockError,
                    >(VsockError::GuestMemory(next.data->Err_0))
                }
            }
        }),
{
}

/// Any packet can be sent, but for one that is marked as data and has a buffer that is shorter than
/// its header tells.
pub proof fn only_short_data_cannot_be_sent(pkt: PacketView)
    ensures
        !pkt.data_fits() <==> pkt.hdr.op == 5 && pkt.buf is Some && pkt.buf->0.len() < pkt.hdr.len,
{
}

} // verus!
