//! Virtio descriptor chains, with what guest memory holds behind them.

use vstd::prelude::*;

use crate::error::GuestMemoryError;
use crate::packet::VSOCK_PKT_HDR_SIZE;

verus! {

/// A virtio descriptor and the rest of its chain, as guest memory resolved them.
///
/// Whoever owns guest memory looks up each descriptor's address there; this is what came of it.
#[derive(Debug)]
pub struct DescriptorChain {
    /// Index of the descriptor in the descriptor table.
    pub index: u16,
    /// Length of the descriptor's buffer, in bytes.
    pub len: u32,
    /// Whether the device may only write to the buffer, not read from it.
    pub write_only: bool,
    /// Whether the end of a packet header at the descriptor's address is within guest memory.
    pub hdr_in_bounds: bool,
    /// Whether the end of the descriptor's buffer is within guest memory.
    pub buf_in_bounds: bool,
    /// The buffer's bytes, as far as they are within guest memory, or why its address could not be
    /// resolved.
    pub data: Result<Vec<u8>, GuestMemoryError>,
    /// The next descriptor in the chain.
    pub next: Option<Box<DescriptorChain>>,
}

impl DescriptorChain {
    /// The bytes of a resolved buffer are there as far as they are within guest memory, here and
    /// down the chain: all of the descriptor's length, or at least a packet header.
    pub open spec fn wf(self) -> bool
        decreases self,
    {
        &&& self.data is Ok && self.buf_in_bounds ==> self.data->Ok_0@.len() == self.len
        &&& self.data is Ok && self.hdr_in_bounds && self.len >= VSOCK_PKT_HDR_SIZE
            ==> self.data->Ok_0@.len() >= VSOCK_PKT_HDR_SIZE
        &&& match self.next {
            Some(next) => next.wf(),
            None => true,
        }
    }

    /// Check if the bytes of every resolved buffer are there, as far as they are within guest
    /// memory.
    pub fn is_well_formed(&self) -> (ret: bool)
        ensures
            ret == self.wf(),
        decreases self,
    {
        let resolved = match &self.data {
            Ok(data) => {
                let whole = !self.buf_in_bounds || data.len() == self.len as usize;
                let hdr = !self.hdr_in_bounds || self.len < VSOCK_PKT_HDR_SIZE as u32 || data.len()
                    >= VSOCK_PKT_HDR_SIZE;
                whole && hdr
            },
            Err(_) => true,
        };
        resolved && match &self.next {
            Some(next) => next.is_well_formed(),
            None => true,
        }
    }

    /// Check if the device may only write to this descriptor's buffer.
    pub fn is_write_only(&self) -> (ret: bool)
        ensures
            ret == self.write_only,
    {
        self.write_only
    }

    /// Get the next descriptor in the chain.
    pub fn next_descriptor(&self) -> (ret: Option<&DescriptorChain>)
        ensures
            ret is Some <==> self.next is Some,
            ret is Some ==> *ret->0 == *self.next->0,
    {
        match &self.next {
            Some(next) => Some(&**next),
            None => None,
        }
    }
}

} // verus!
