//! A vsock device that copies packets in and out of guest memory.

pub mod chain;
pub mod deferred;
pub mod device;
pub mod handler;
pub mod muxer;
pub mod packet;
pub mod port_map;
