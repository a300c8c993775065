//! A virtio-vsock device backed by Unix domain sockets.

pub mod channel;
pub mod copying;
pub mod defs;
pub mod desc;
pub mod device;
pub mod epoll_handler;
pub mod error;
pub mod events;
pub mod le;
pub mod packet;
pub mod queue;
pub mod text;
pub mod uapi;
pub mod unix;
pub mod virtio;
