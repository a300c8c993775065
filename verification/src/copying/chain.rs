//! Copying packets from and to descriptor chains.

use vstd::prelude::*;

use crate::copying::packet::{VsockError, VsockPacket};
use crate::desc::DescriptorChain;
use crate::error::GuestMemoryError;
use crate::packet::{HdrWrapper, VsockPacketHdr, VSOCK_PKT_HDR_SIZE};

verus! {

/// Whether the buffers of all descriptors in a chain can be read.
pub open spec fn all_readable(chain: Option<Box<DescriptorChain>>) -> bool
    decreases chain,
{
    match chain {
        None => true,
        Some(desc) => desc.buf_in_bounds && desc.data is Ok && all_readable(desc.next),
    }
}

/// The bytes in the buffers of all descriptors in a chain, one after the other.
pub open spec fn chain_bytes(chain: Option<Box<DescriptorChain>>) -> Seq<u8>
    decreases chain,
{
    match chain {
        None => Seq::empty(),
        Some(desc) => desc.data->Ok_0@ + chain_bytes(desc.next),
    }
}

/// The lengths of all descriptors in a chain, added up.
pub open spec fn chain_len(chain: Option<Box<DescriptorChain>>) -> nat
    decreases chain,
{
    match chain {
        None => 0,
        Some(desc) => desc.len as nat + chain_len(desc.next),
    }
}

/// Whether a chain holds a packet: its first descriptor holds a header, and the others hold as much
/// data as the header says.
pub open spec fn holds_packet(head: DescriptorChain) -> bool {
    &&& head.len >= VSOCK_PKT_HDR_SIZE
    &&& head.hdr_in_bounds
    &&& head.data is Ok
    &&& all_readable(head.next)
    &&& chain_bytes(head.next).len() == head_hdr(head).len
}

/// The header in the first descriptor of a chain.
pub open spec fn head_hdr(head: DescriptorChain) -> VsockPacketHdr {
    crate::packet::hdr_of(head.data->Ok_0@.take(VSOCK_PKT_HDR_SIZE as int))
}

/// Append the bytes in a chain to `buf`, as long as that does not get longer than `limit`.
fn gather(chain: Option<&DescriptorChain>, buf: &mut Vec<u8>, limit: usize) -> (ret: bool)
    requires
        chain is Some ==> chain->0.wf(),
        old(buf)@.len() <= limit,
    ensures
        ret == ({
            &&& all_readable(boxed(chain))
            &&& old(buf)@.len() + chain_bytes(boxed(chain)).len() <= limit
        }),
        ret ==> final(buf)@ == old(buf)@ + chain_bytes(boxed(chain)),
    decreases chain,
{
    let ghost before = buf@;
    match chain {
        None => {
            assert(buf@ =~= before + chain_bytes(boxed(chain)));
            true
        },
        Some(desc) => {
            reveal_with_fuel(DescriptorChain::wf, 2);
            if desc.len as usize > limit - buf.len() {
                return false;
            }
            match &desc.data {
                Ok(data) => {
                    if !desc.buf_in_bounds {
                        return false;
                    }
                    buf.extend_from_slice(data.as_slice());
                    let ghost grown = buf@;
                    assert(grown =~= before + data@);
                    let ret = gather(desc.next_descriptor(), buf, limit);
                    proof {
                        assert(boxed(chain)->0.next == desc.next);
                        if ret {
                            assert(buf@ =~= before + (data@ + chain_bytes(desc.next)));
                        }
                    }
                    ret
                },
                Err(_) => false,
            }
        },
    }
}

/// A chain, by its first descriptor.
spec fn boxed(chain: Option<&DescriptorChain>) -> Option<Box<DescriptorChain>> {
    match chain {
        None => None,
        Some(desc) => Some(Box::new(*desc)),
    }
}

/// Copy a packet from a TX descriptor chain.
pub fn read_pkt_from_desc_chain(head: &DescriptorChain) -> (ret: Result<VsockPacket, VsockError>)
    requires
        head.wf(),
    ensures
        ret is Ok <==> holds_packet(*head),
        ret is Ok ==> ret->Ok_0.hdr == head_hdr(*head) && ret->Ok_0.buf@ == chain_bytes(head.next),
        ret is Err ==> ret->Err_0 == VsockError::PacketAssemblyError,
{
    proof {
        reveal_with_fuel(DescriptorChain::wf, 2);
    }
    let hdr = match HdrWrapper::from_virtq_desc(head) {
        Ok(hdr) => hdr.get(),
        Err(_) => return Err(VsockError::PacketAssemblyError),
    };
    let mut buf: Vec<u8> = Vec::new();
    let next = head.next_descriptor();
    assert(boxed(next) == head.next);
    if !gather(next, &mut buf, hdr.len as usize) {
        return Err(VsockError::PacketAssemblyError);
    }
    assert(buf@ =~= chain_bytes(head.next));
    if buf.len() != hdr.len as usize {
        return Err(VsockError::PacketAssemblyError);
    }
    Ok(VsockPacket { hdr, buf })
}

/// Get the number of bytes that there is room for in the descriptors of a chain.
fn room(chain: Option<&DescriptorChain>) -> (ret: usize)
    requires
        chain_len(boxed(chain)) <= usize::MAX,
    ensures
        ret == chain_len(boxed(chain)),
    decreases chain,
{
    match chain {
        None => 0,
        Some(desc) => {
            let next = desc.next_descriptor();
            assert(boxed(next) == desc.next);
            assert(boxed(chain)->0.next == desc.next);
            desc.len as usize + room(next)
        },
    }
}

/// Get the number of bytes that there is room for in an RX descriptor chain, after its header.
pub fn rx_room(head: &DescriptorChain) -> (ret: usize)
    requires
        chain_len(head.next) <= usize::MAX,
    ensures
        ret == chain_len(head.next),
{
    let next = head.next_descriptor();
    assert(boxed(next) == head.next);
    room(next)
}

/// A packet that is being copied to an RX descriptor chain.
///
/// The header goes first, to the first descriptor. Then the data goes to the others, as far as they
/// have room for it. Each write is to be made by whoever owns guest memory, who tells of its
/// outcome.
pub struct PacketWriter {
    pkt: VsockPacket,
    write_cnt: usize,
}

impl PacketWriter {
    /// The packet.
    pub closed spec fn pkt(&self) -> VsockPacket {
        self.pkt
    }

    /// The number of bytes of its data that were written.
    pub closed spec fn write_cnt(&self) -> nat {
        self.write_cnt as nat
    }

    /// No more was written than there is.
    pub open spec fn wf(&self) -> bool {
        self.write_cnt() <= self.pkt().buf@.len()
    }

    /// The data to be written to the buffer of a descriptor with the given length.
    pub open spec fn chunk(&self, len: u32) -> Seq<u8> {
        let rest = self.pkt().buf@.skip(self.write_cnt() as int);
        if rest.len() < len {
            rest
        } else {
            rest.take(len as int)
        }
    }

    /// Start to copy a packet to an RX descriptor chain: get the bytes of the header.
    pub fn write_pkt_to_desc_chain(pkt: VsockPacket, head: &DescriptorChain) -> (ret: Result<
        (PacketWriter, Vec<u8>),
        VsockError,
    >)
        ensures
            ret is Ok <==> head.len >= VSOCK_PKT_HDR_SIZE && head.write_only,
            ret is Ok ==> {
                &&& ret->Ok_0.0.wf()
                &&& ret->Ok_0.0.pkt() == pkt
                &&& ret->Ok_0.0.write_cnt() == 0
                &&& ret->Ok_0.1@ == crate::packet::hdr_bytes(pkt.hdr)
            },
            ret is Err ==> ret->Err_0 == VsockError::GeneralError,
    {
        if head.len < VSOCK_PKT_HDR_SIZE as u32 {
            return Err(VsockError::GeneralError);
        }
        if !head.is_write_only() {
            return Err(VsockError::GeneralError);
        }
        let mut hdr = HdrWrapper::from_ptr_unchecked([0u8; 44].as_slice());
        hdr.put(pkt.hdr);
        let bytes = vstd::slice::slice_to_vec(hdr.as_slice());
        Ok((PacketWriter { pkt, write_cnt: 0 }, bytes))
    }

    /// Find out if the header was written.
    pub fn hdr_written(res: Result<(), GuestMemoryError>) -> (ret: Result<(), VsockError>)
        ensures
            ret == (match res {
                Ok(_) => Ok::<(), VsockError>(()),
                Err(_) => Err::<(), VsockError>(VsockError::GeneralError),
            }),
    {
        match res {
            Ok(_) => Ok(()),
            Err(_) => Err(VsockError::GeneralError),
        }
    }

    /// Go on to the next descriptor: get the data to be written to its buffer.
    pub fn next_chunk(&self, desc: &DescriptorChain) -> (ret: Result<Vec<u8>, VsockError>)
        requires
            self.wf(),
        ensures
            ret is Ok <==> desc.write_only,
            ret is Ok ==> ret->Ok_0@ == self.chunk(desc.len),
            ret is Err ==> ret->Err_0 == VsockError::GeneralError,
    {
        if !desc.is_write_only() {
            return Err(VsockError::GeneralError);
        }
        let rest: usize = self.pkt.buf.len() - self.write_cnt;
        let n: usize = if rest < desc.len as usize {
            rest
        } else {
            desc.len as usize
        };
        let chunk = vstd::slice::slice_subrange(
            self.pkt.buf.as_slice(),
            self.write_cnt,
            self.write_cnt + n,
        );
        assert(chunk@ =~= self.chunk(desc.len));
        Ok(vstd::slice::slice_to_vec(chunk))
    }

    /// Note how many of the bytes of a chunk were written to the buffer of a descriptor with the
    /// given length.
    pub fn chunk_written(&mut self, len: u32, res: Result<usize, GuestMemoryError>) -> (ret: Result<
        (),
        VsockError,
    >)
        requires
            old(self).wf(),
            res is Ok ==> res->Ok_0 <= old(self).chunk(len).len(),
        ensures
            final(self).wf(),
            final(self).pkt() == old(self).pkt(),
            match res {
                Ok(n) => ret == Ok::<(), VsockError>(()) && final(self).write_cnt() == old(
                    self,
                ).write_cnt() + n,
                Err(_) => ret == Err::<(), VsockError>(VsockError::GeneralError) && *final(self)
                    == *old(self),
            },
    {
        match res {
            Ok(n) => {
                let size: usize = self.pkt.buf.len();
                assert(self.write_cnt + n <= size);
                self.write_cnt = self.write_cnt + n;
                Ok(())
            },
            Err(_) => Err(VsockError::GeneralError),
        }
    }
}

/// A packet that was copied to guest memory byte by byte reads back the same: a chain that holds
/// the header's bytes, followed by the data's, holds the packet.
pub proof fn written_packet_reads_back(head: DescriptorChain, hdr: VsockPacketHdr, buf: Seq<u8>)
    requires
        head.len >= VSOCK_PKT_HDR_SIZE,
        head.hdr_in_bounds,
        head.data is Ok,
        head.data->Ok_0@.take(VSOCK_PKT_HDR_SIZE as int) == crate::packet::hdr_bytes(hdr),
        all_readable(head.next),
        chain_bytes(head.next) == buf,
        buf.len() == hdr.len,
    ensures
        holds_packet(head),
        head_hdr(head) == hdr,
{
    crate::packet::hdr_of_bytes(hdr);
}

/// Chunk by chunk, all of a packet's data is written, in order: what was written before a chunk,
/// followed by that chunk, is the start of the data.
pub proof fn chunks_make_the_data(writer: PacketWriter, len: u32)
    requires
        writer.wf(),
    ensures
        writer.pkt().buf@.take(writer.write_cnt() as int) + writer.chunk(len)
            == writer.pkt().buf@.take((writer.write_cnt() + writer.chunk(len).len()) as int),
{
    let buf = writer.pkt().buf@;
    assert(buf.take(writer.write_cnt() as int) + writer.chunk(len) =~= buf.take(
        (writer.write_cnt() + writer.chunk(len).len()) as int,
    ));
}

/// The data of a chain is that of its descriptors, one after the other, and its length is that of
/// all of them. It can be read if each of them can.
pub proof fn chain_is_read_in_order(desc: DescriptorChain)
    ensures
        ({
            let chain = Some(Box::new(desc));
            &&& chain_bytes(chain) == desc.data->Ok_0@ + chain_bytes(desc.next)
            &&& chain_len(chain) == desc.len + chain_len(desc.next)
            &&& all_readable(chain) <==> desc.buf_in_bounds && desc.data is Ok && all_readable(
                desc.next,
            )
        }),
        chain_bytes(None).len() == 0,
        chain_len(None) == 0,
        all_readable(None),
{
}

/// A chain holds a packet just when its first descriptor holds a header, the others can be read,
/// and they hold as many bytes as the header tells.
pub proof fn chain_holds_what_the_header_tells(head: DescriptorChain)
    ensures
        holds_packet(head) <==> {
            &&& crate::packet::has_header(head)
            &&& all_readable(head.next)
            &&& chain_bytes(head.next).len() == crate::packet::hdr_of(
                head.data->Ok_0@.take(44),
            ).len
        },
        head_hdr(head) == crate::packet::hdr_of(head.data->Ok_0@.take(44)),
{
}

/// A descriptor is given the next bytes of a packet's data: as many as it has room for, or as there
/// are.
pub proof fn chunks_fill_the_room(writer: PacketWriter, len: u32)
    requires
        writer.wf(),
    ensures
        ({
            let left = writer.pkt().buf@.len() - writer.write_cnt();
            let chunk = writer.chunk(len);
            &&& chunk.len() <= len
            &&& chunk.len() <= left
            &&& chunk.len() == len || chunk.len() == left
            &&& forall|i: int|
                0 <= i < chunk.len() ==> #[trigger] chunk[i]
                    == writer.pkt().buf@[writer.write_cnt() + i]
        }),
{
}

} // verus!
