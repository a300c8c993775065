//! Constants shared by the device, its event handler and its backends.

use vstd::prelude::*;

verus! {

/// RX queue event: the driver added available buffers to the RX queue.
pub const RXQ_EVENT: u16 = 0;

/// TX queue event: the driver added available buffers to the TX queue.
pub const TXQ_EVENT: u16 = 1;

/// Event queue event: the driver added available buffers to the event queue.
pub const EVQ_EVENT: u16 = 2;

/// Backend event: the backend needs a kick.
pub const BACKEND_EVENT: u16 = 3;

/// Total number of events known to the vsock epoll handler.
pub const EVENT_COUNT: usize = 4;

/// Size of each of the device's virtio queues.
pub const QUEUE_SIZE: u16 = 256;

/// Number of virtio queues: RX, TX and event.
pub const NUM_QUEUES: usize = 3;

/// Max vsock packet data/buffer size.
pub const MAX_PKT_BUF_SIZE: usize = 64 * 1024;

/// The events are numbered one after the other, the queues have 256 entries each, and a packet
/// holds up to 64 KiB.
pub proof fn device_numbers()
    ensures
        RXQ_EVENT == 0,
        TXQ_EVENT == 1,
        EVQ_EVENT == 2,
        BACKEND_EVENT == 3,
        EVENT_COUNT == 4,
        QUEUE_SIZE == 256,
        NUM_QUEUES == 3,
        MAX_PKT_BUF_SIZE == 65536,
        crate::copying::handler::RX_QUEUE_EVENT == 0,
        crate::copying::handler::TX_QUEUE_EVENT == 1,
        crate::copying::handler::EVENT_QUEUE_EVENT == 2,
        crate::copying::handler::VSOCK_EVENTS_COUNT == 3,
        crate::device::VSOCK_FEATURES == 0x9_0000_0000,
        crate::copying::device::VSOCK_FEATURES == 0x1_0000_0000,
{
}

} // verus!
