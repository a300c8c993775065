//! Constants of the virtio-vsock protocol.

use vstd::prelude::*;

verus! {

/// Feature bit: the device uses all buffers in the order in which they were made available.
pub const VIRTIO_F_IN_ORDER: u32 = 35;

/// Feature bit: the device speaks version 1 of virtio.
pub const VIRTIO_F_VERSION_1: u32 = 32;

/// The virtio device ID of a vsock device.
pub const VIRTIO_ID_VSOCK: u32 = 19;

/// Connection request.
pub const VSOCK_OP_REQUEST: u16 = 1;

/// Connection response.
pub const VSOCK_OP_RESPONSE: u16 = 2;

/// Forceful connection termination.
pub const VSOCK_OP_RST: u16 = 3;

/// Clean connection shutdown.
pub const VSOCK_OP_SHUTDOWN: u16 = 4;

/// Data packet.
pub const VSOCK_OP_RW: u16 = 5;

/// The sender tells of its buffer space.
pub const VSOCK_OP_CREDIT_UPDATE: u16 = 6;

/// The sender asks for the other side's buffer space.
pub const VSOCK_OP_CREDIT_REQUEST: u16 = 7;

/// Shutdown flag: the sender will receive no more data.
pub const VSOCK_FLAGS_SHUTDOWN_RCV: u32 = 1;

/// Shutdown flag: the sender will send no more data.
pub const VSOCK_FLAGS_SHUTDOWN_SEND: u32 = 2;

/// Connection-oriented stream sockets.
pub const VSOCK_TYPE_STREAM: u16 = 1;

/// The CID of the host.
pub const VSOCK_HOST_CID: u64 = 2;

/// The numbers of the virtio-vsock protocol, which the driver goes by, too.
pub proof fn protocol_numbers()
    ensures
        VIRTIO_F_VERSION_1 == 32,
        VIRTIO_F_IN_ORDER == 35,
        VIRTIO_ID_VSOCK == 19,
        VSOCK_OP_REQUEST == 1,
        VSOCK_OP_RESPONSE == 2,
        VSOCK_OP_RST == 3,
        VSOCK_OP_SHUTDOWN == 4,
        VSOCK_OP_RW == 5,
        VSOCK_OP_CREDIT_UPDATE == 6,
        VSOCK_OP_CREDIT_REQUEST == 7,
        VSOCK_FLAGS_SHUTDOWN_RCV == 1,
        VSOCK_FLAGS_SHUTDOWN_SEND == 2,
        VSOCK_TYPE_STREAM == 1,
        VSOCK_HOST_CID == 2,
        crate::events::EPOLLIN == 1,
        crate::events::EPOLLOUT == 4,
        crate::virtio::VIRTIO_MMIO_INT_VRING == 1,
        crate::packet::VSOCK_PKT_HDR_SIZE == 44,
{
}

} // verus!
