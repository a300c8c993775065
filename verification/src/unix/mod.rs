//! The Unix domain sockets backend: it maps vsock connections of the guest's to Unix socket
//! connections on the host.
//!
//! - When the guest asks to be connected to a host port, the request is forwarded to the Unix socket
//!   that is expected to listen at the path for that port: `/path/to/host_unix_socket_52` for port
//!   52.
//! - When software on the host wants to be connected to a guest port, it connects to the backend's
//!   own socket, at `/path/to/host_unix_socket`, and writes `CONNECT 52<EOL>`. It then reads
//!   `OK <assigned host vsock port><EOL>`, and may proceed to exchange data with the guest.
//!
//! There are two main components: the connection multiplexer, `muxer`, and the connection state
//! handler, `connection`. Data for the host may have to be buffered, in a `txbuf`, if the host is
//! not able to read it as fast as the guest writes it: once the guest has made a TX buffer
//! available, it has to be taken out of the virtio queue, whether or not there is a reader waiting
//! for it. No RX buffers are needed, as data is only read from the host once the guest has made
//! room for it.

pub mod conn_calls;
pub mod conn_laws;
pub mod conn_map;
pub mod conn_model;
pub mod connection;
pub mod defs;
pub mod error;
pub mod muxer;
pub mod muxer_killq;
pub mod muxer_rx;
pub mod muxer_rxq;
pub mod pending;
pub mod txbuf;
pub mod walk;
