//! Sizes and limits of the Unix domain sockets backend.

use vstd::prelude::*;

verus! {

/// Maximum number of established connections that we can handle.
pub const MAX_CONNECTIONS: usize = 1023;

/// TX (guest -> host) buffer size, in bytes, per connection.
pub const CONN_TX_BUF_SIZE: usize = 256 * 1024;

/// After the guest thinks it has filled our TX buffer up to this limit (in bytes), we send it a
/// credit update packet, to let it know we can handle more.
pub const CONN_CREDIT_UPDATE_THRESHOLD: usize = 192 * 1024;

/// Maximum time (in milliseconds) between a clean connection shutdown request
/// (VSOCK_OP_SHUTDOWN) and forceful termination (VSOCK_OP_RST).
pub const CONN_SHUTDOWN_TIMEOUT_MS: u64 = 2000;

/// Size of the muxer RX packet queue.
pub const MUXER_RXQ_SIZE: usize = 256;

/// Size of the muxer connection kill queue.
pub const MUXER_KILLQ_SIZE: usize = 128;

/// Nanoseconds in a millisecond: all time stamps are in nanoseconds.
pub const NANOS_PER_MILLI: u64 = 1_000_000;

/// The sizes and limits of the backend.
pub proof fn backend_numbers()
    ensures
        MAX_CONNECTIONS == 1023,
        CONN_TX_BUF_SIZE == 262144,
        CONN_CREDIT_UPDATE_THRESHOLD == 196608,
        CONN_SHUTDOWN_TIMEOUT_MS == 2000,
        MUXER_RXQ_SIZE == 256,
        MUXER_KILLQ_SIZE == 128,
        crate::unix::muxer::model::FIRST_LOCAL_PORT == 0x8000_0000,
        crate::unix::muxer::model::LOCAL_PORT_COUNT == 0x8000_0000,
        crate::unix::muxer::model::PORT_REQUEST_SIZE == 32,
        crate::unix::muxer::model::MAX_EPOLL_EVENTS == 16,
        crate::unix::muxer::rxq::MCF_RXQ == 1,
        crate::unix::muxer::killq::MCF_KILLQ == 2,
{
}

} // verus!
