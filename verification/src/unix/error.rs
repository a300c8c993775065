//! Errors of the Unix domain sockets backend.

use vstd::prelude::*;

use crate::error::IoError;

verus! {

/// Why an operation of the Unix backend failed.
#[derive(Clone, Copy, Debug, PartialEq, Eq, Structural)]
pub enum Error {
    /// Attempted to write to a full buffer.
    BufferFull,
    /// The host closed its end of the stream before naming a port.
    BrokenPipe,
    /// A host I/O operation failed.
    IoError(IoError),
    /// The host made an invalid vsock port connection request.
    InvalidPortRequest,
    /// Attempted to push to a full queue.
    QueueFull,
    /// Muxer connection limit reached.
    TooManyConnections,
}

} // verus!
