//! Packets that hold a copy of their data.

use vstd::prelude::*;

use crate::packet::VsockPacketHdr;
use crate::uapi::{VSOCK_OP_RESPONSE, VSOCK_OP_RST, VSOCK_OP_RW, VSOCK_TYPE_STREAM};

verus! {

/// Why a packet could not be assembled or passed on.
#[derive(Clone, Copy, Debug, PartialEq, Eq, Structural)]
pub enum VsockError {
    /// The descriptor chain does not hold a packet.
    PacketAssemblyError,
    /// Any other failure.
    GeneralError,
}

/// A packet.
#[derive(Debug)]
pub struct VsockPacket {
    pub hdr: VsockPacketHdr,
    pub buf: Vec<u8>,
}

/// The header of a packet between the given addresses.
pub open spec fn hdr_between(
    src_cid: u64,
    dst_cid: u64,
    src_port: u32,
    dst_port: u32,
    op: u16,
    len: u32,
) -> VsockPacketHdr {
    VsockPacketHdr {
        src_cid,
        dst_cid,
        src_port,
        dst_port,
        type_: VSOCK_TYPE_STREAM,
        op,
        len,
        ..crate::packet::zero_hdr()
    }
}

/// Get the header of a packet between the given addresses.
fn make_hdr(
    src_cid: u64,
    dst_cid: u64,
    src_port: u32,
    dst_port: u32,
    op: u16,
    len: u32,
) -> (ret: VsockPacketHdr)
    ensures
        ret == hdr_between(src_cid, dst_cid, src_port, dst_port, op, len),
{
    let mut hdr = VsockPacketHdr::default();
    hdr.src_cid = src_cid;
    hdr.dst_cid = dst_cid;
    hdr.src_port = src_port;
    hdr.dst_port = dst_port;
    hdr.type_ = VSOCK_TYPE_STREAM;
    hdr.op = op;
    hdr.len = len;
    hdr
}

impl VsockPacket {
    /// Create the packet that terminates a connection.
    pub fn new_rst(src_cid: u64, dst_cid: u64, src_port: u32, dst_port: u32) -> (ret: VsockPacket)
        ensures
            ret.hdr == hdr_between(src_cid, dst_cid, src_port, dst_port, VSOCK_OP_RST, 0),
            ret.buf@ == Seq::<u8>::empty(),
    {
        VsockPacket {
            hdr: make_hdr(src_cid, dst_cid, src_port, dst_port, VSOCK_OP_RST, 0),
            buf: Vec::new(),
        }
    }

    /// Create the packet that accepts a connection request. Its operation is a response: a reset
    /// would terminate the connection.
    pub fn new_response(src_cid: u64, dst_cid: u64, src_port: u32, dst_port: u32) -> (ret:
        VsockPacket)
        ensures
            ret.hdr == hdr_between(src_cid, dst_cid, src_port, dst_port, VSOCK_OP_RESPONSE, 0),
            ret.buf@ == Seq::<u8>::empty(),
    {
        VsockPacket {
            hdr: make_hdr(src_cid, dst_cid, src_port, dst_port, VSOCK_OP_RESPONSE, 0),
            buf: Vec::new(),
        }
    }

    /// Create a data packet. Its operation is that of data packets, and its header tells the data
    /// length, as the header is meant to: so the data's length has to fit there.
    pub fn new_rw(src_cid: u64, dst_cid: u64, src_port: u32, dst_port: u32, buf: Vec<u8>) -> (ret:
        VsockPacket)
        requires
            buf@.len() <= u32::MAX,
        ensures
            ret.hdr == hdr_between(
                src_cid,
                dst_cid,
                src_port,
                dst_port,
                VSOCK_OP_RW,
                buf@.len() as u32,
            ),
            ret.buf == buf,
    {
        VsockPacket {
            hdr: make_hdr(src_cid, dst_cid, src_port, dst_port, VSOCK_OP_RW, buf.len() as u32),
            buf,
        }
    }
}

/// A packet's header tells of its addresses, its operation and its data length. It is of the stream
/// type, and has neither flags nor credit.
pub proof fn header_tells_of_addresses(
    src_cid: u64,
    dst_cid: u64,
    src_port: u32,
    dst_port: u32,
    op: u16,
    len: u32,
)
    ensures
        ({
            let hdr = hdr_between(src_cid, dst_cid, src_port, dst_port, op, len);
            &&& hdr.src_cid == src_cid
            &&& hdr.dst_cid == dst_cid
            &&& hdr.src_port == src_port
            &&& hdr.dst_port == dst_port
            &&& hdr.op == op
            &&& hdr.len == len
            &&& hdr.type_ == 1
            &&& hdr.flags == 0
            &&& hdr.buf_alloc == 0
            &&& hdr.fwd_cnt == 0
        }),
{
}

} // verus!
