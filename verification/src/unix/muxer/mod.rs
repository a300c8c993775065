//! The connection multiplexer of the Unix domain sockets backend.

pub mod calls;
pub mod inv;
pub mod killq;
pub mod laws;
pub mod model;
pub mod port_request;
pub mod rxq;
pub mod vsock_muxer;
