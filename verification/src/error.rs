//! Error types.

use vstd::prelude::*;

verus! {

/// What a system call on a host file descriptor failed with.
#[derive(Clone, Copy, Debug, PartialEq, Eq, Structural)]
pub enum IoError {
    /// The operation would have had to block.
    WouldBlock,
    /// Any other failure, by its OS error number.
    Os(i32),
}

/// Why guest memory could not be accessed, by the number that the memory's owner gave the error.
#[derive(Clone, Copy, Debug, PartialEq, Eq, Structural)]
pub struct GuestMemoryError {
    pub code: u32,
}

/// Why a vsock packet could not be built, sent or received.
#[derive(Clone, Copy, Debug, PartialEq, Eq, Structural)]
pub enum VsockError {
    /// The data descriptor is too small for the data length in the packet header.
    BufDescTooSmall,
    /// The data descriptor is missing.
    BufDescMissing,
    /// The descriptor chain is too short.
    DescriptorChainTooShort,
    /// The header descriptor, of the given length, is too small for a packet header.
    HdrDescTooSmall(u32),
    /// The packet header holds an invalid data length.
    InvalidPktLen(u32),
    /// A descriptor that has to be readable is not.
    UnreadableDescriptor,
    /// A descriptor that has to be writable is not.
    UnwritableDescriptor,
    /// Any other failure.
    GeneralError,
    /// Guest memory could not be accessed.
    GuestMemory(GuestMemoryError),
    /// A descriptor reaches outside guest memory.
    GuestMemoryBounds,
    /// A host I/O operation failed.
    IoError(IoError),
    /// There is no packet to be received.
    NoData,
}

/// A queue whose events a device handles.
#[derive(Clone, Copy, Debug, PartialEq, Eq, Structural)]
pub enum QueueEvent {
    /// The RX queue.
    Rx,
    /// The TX queue.
    Tx,
    /// The event queue.
    Ev,
}

/// Why a device could not handle an event.
#[derive(Clone, Copy, Debug, PartialEq, Eq)]
pub enum DeviceError {
    /// The event of a queue could not be read.
    FailedReadingQueue { event_type: &'static str, underlying: IoError },
    /// The driver could not be told that the device has used some buffers.
    FailedSignalingUsedQueue(IoError),
    /// The event is not known to the device.
    UnknownEvent { device: &'static str, event: u16 },
}

impl QueueEvent {
    /// The name of the queue's event.
    pub open spec fn name(self) -> &'static str {
        match self {
            QueueEvent::Rx => "rx queue event",
            QueueEvent::Tx => "tx queue event",
            QueueEvent::Ev => "ev queue event",
        }
    }

    /// Get the name of the queue's event.
    pub fn text(self) -> (ret: &'static str)
        ensures
            ret == self.name(),
    {
        match self {
            QueueEvent::Rx => "rx queue event",
            QueueEvent::Tx => "tx queue event",
            QueueEvent::Ev => "ev queue event",
        }
    }

    /// Get the error for the queue's event not having been read.
    pub fn failed(self, underlying: IoError) -> (ret: DeviceError)
        ensures
            ret == (DeviceError::FailedReadingQueue { event_type: self.name(), underlying }),
    {
        DeviceError::FailedReadingQueue { event_type: self.text(), underlying }
    }
}

/// Why a device could not be activated.
#[derive(Clone, Copy, Debug, PartialEq, Eq, Structural)]
pub enum ActivateError {
    /// A file descriptor could not be put under watch.
    EpollCtl(IoError),
    /// The number of queues is wrong.
    BadActivate,
}

} // verus!
