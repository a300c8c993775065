//! A minimal muxer: it connects the guest to host sockets, and passes data on to them.

use std::collections::VecDeque;

use vstd::prelude::*;

use crate::copying::packet::{VsockError, VsockPacket};
use crate::copying::port_map::PortMap;
use crate::error::IoError;
use crate::text::to_decimal;
use crate::uapi::{VSOCK_OP_REQUEST, VSOCK_OP_RW};

verus! {

/// The state of a connection.
#[derive(Clone, Copy, Debug, PartialEq, Eq, Structural)]
pub enum VsockConnectionState {
    /// Asked for by the guest.
    LocalInit,
    /// Asked for by the host.
    RemoteInit,
    /// Open.
    Established,
    /// Closed by the host.
    RemoteClose,
}

/// A connection between a guest port and a host stream, if there is one.
#[derive(Clone, Copy, Debug, PartialEq, Eq, Structural)]
pub struct VsockConnection {
    /// The guest's port.
    pub local_port: u32,
    /// The host's port.
    pub remote_port: u32,
    /// The file descriptor of the host stream.
    pub remote: Option<i32>,
    /// The state of the connection.
    pub state: VsockConnectionState,
}

/// The path at which a host socket is expected to listen for connections to `port`: `./vsock_`,
/// followed by the port.
pub open spec fn host_path(port: u32) -> Seq<u8> {
    seq![46u8, 47u8, 118u8, 115u8, 111u8, 99u8, 107u8, 95u8] + crate::text::decimal(port as nat)
}

/// Get the path at which a host socket is expected to listen for connections to `port`.
pub fn make_host_path(port: u32) -> (ret: Vec<u8>)
    ensures
        ret@ == host_path(port),
{
    let mut ret: Vec<u8> = vec![46u8, 47u8, 118u8, 115u8, 111u8, 99u8, 107u8, 95u8];
    let mut digits = to_decimal(port);
    ret.append(&mut digits);
    assert(ret@ =~= host_path(port));
    ret
}

/// A connection of the guest's, once its host socket was connected to, or could not be.
pub open spec fn local_init(
    local_port: u32,
    remote_port: u32,
    res: Result<i32, IoError>,
) -> VsockConnection {
    match res {
        Ok(fd) => VsockConnection {
            local_port,
            remote_port,
            remote: Some(fd),
            state: VsockConnectionState::Established,
        },
        Err(_) => VsockConnection {
            local_port,
            remote_port,
            remote: None,
            state: VsockConnectionState::RemoteClose,
        },
    }
}

/// Bytes that are to be written to a host stream.
#[derive(Debug)]
pub struct HostWrite {
    pub fd: i32,
    pub data: Vec<u8>,
}

impl VsockConnection {
    /// Create a connection of the guest's, once its host socket was connected to, or could not be.
    pub fn new_local_init(local_port: u32, remote_port: u32, res: Result<i32, IoError>) -> (ret:
        VsockConnection)
        ensures
            ret == local_init(local_port, remote_port, res),
    {
        match res {
            Ok(fd) => VsockConnection {
                local_port,
                remote_port,
                remote: Some(fd),
                state: VsockConnectionState::Established,
            },
            Err(_) => VsockConnection {
                local_port,
                remote_port,
                remote: None,
                state: VsockConnectionState::RemoteClose,
            },
        }
    }

    /// Process a packet from the guest: its data is to be written to the host stream, if there is
    /// one. Anything but data is ignored.
    pub fn send(&self, pkt: VsockPacket) -> (ret: Option<HostWrite>)
        ensures
            ret is Some <==> pkt.hdr.op == VSOCK_OP_RW && self.remote is Some,
            ret is Some ==> ret->0.fd == self.remote->0 && ret->0.data == pkt.buf,
    {
        if pkt.hdr.op == VSOCK_OP_RW {
            if let Some(fd) = self.remote {
                return Some(HostWrite { fd, data: pkt.buf });
            }
        }
        None
    }

    /// Receive a packet from the host stream. That is not supported yet.
    pub fn recv(&self, _max_len: usize) -> (ret: Result<VsockPacket, VsockError>)
        ensures
            ret == Err::<VsockPacket, VsockError>(VsockError::GeneralError),
    {
        Err(VsockError::GeneralError)
    }
}

/// A request to connect to a host socket.
#[derive(Debug)]
pub struct HostConnect {
    pub path: Vec<u8>,
    pub local_port: u32,
    pub remote_port: u32,
}

/// What is left to be done for a packet from the guest.
#[derive(Debug)]
pub enum SendStep {
    /// Nothing.
    Done,
    /// Connect to a host socket, and hand the outcome to `connected`.
    Connect(HostConnect),
    /// Write to a host stream, without regard to the outcome.
    Write(HostWrite),
}

/// The muxer.
pub struct VsockMuxer {
    rxq: VecDeque<VsockPacket>,
    conn_map: PortMap<VsockConnection>,
}

impl VsockMuxer {
    /// The packets for the guest, next one first.
    pub closed spec fn rxq(&self) -> Seq<VsockPacket> {
        self.rxq@
    }

    /// The connections, by the guest's port and the host's.
    pub closed spec fn conns(&self) -> Map<(u32, u32), VsockConnection> {
        self.conn_map@
    }

    /// Create a muxer.
    pub fn new() -> (ret: VsockMuxer)
        ensures
            ret.rxq() == Seq::<VsockPacket>::empty(),
            ret.conns() == Map::<(u32, u32), VsockConnection>::empty(),
    {
        VsockMuxer { rxq: VecDeque::new(), conn_map: PortMap::new() }
    }

    /// Process a packet from the guest. One that belongs to no connection, and does not ask for
    /// one, is unexpected.
    pub fn send(&mut self, pkt: VsockPacket) -> (ret: Result<SendStep, VsockError>)
        ensures
            *final(self) == *old(self),
            ({
                let key = (pkt.hdr.src_port, pkt.hdr.dst_port);
                if !old(self).conns().contains_key(key) {
                    if pkt.hdr.op != VSOCK_OP_REQUEST {
                        ret == Err::<SendStep, VsockError>(VsockError::GeneralError)
                    } else {
                        &&& ret is Ok
                        &&& ret->Ok_0 is Connect
                        &&& ret->Ok_0->Connect_0.path@ == host_path(pkt.hdr.dst_port)
                        &&& ret->Ok_0->Connect_0.local_port == pkt.hdr.src_port
                        &&& ret->Ok_0->Connect_0.remote_port == pkt.hdr.dst_port
                    }
                } else {
                    let remote = old(self).conns()[key].remote;
                    if pkt.hdr.op == VSOCK_OP_RW && remote is Some {
                        ret == Ok::<SendStep, VsockError>(
                            SendStep::Write(HostWrite { fd: remote->0, data: pkt.buf }),
                        )
                    } else {
                        ret == Ok::<SendStep, VsockError>(SendStep::Done)
                    }
                }
            }),
    {
        let key = (pkt.hdr.src_port, pkt.hdr.dst_port);
        match self.conn_map.get(key) {
            None => {
                if pkt.hdr.op != VSOCK_OP_REQUEST {
                    return Err(VsockError::GeneralError);
                }
                Ok(
                    SendStep::Connect(
                        HostConnect {
                            path: make_host_path(pkt.hdr.dst_port),
                            local_port: pkt.hdr.src_port,
                            remote_port: pkt.hdr.dst_port,
                        },
                    ),
                )
            },
            Some(conn) => match conn.send(pkt) {
                Some(write) => Ok(SendStep::Write(write)),
                None => Ok(SendStep::Done),
            },
        }
    }

    /// Take up a connection, once its host socket was connected to, or could not be.
    pub fn connected(&mut self, local_port: u32, remote_port: u32, res: Result<i32, IoError>)
        ensures
            final(self).rxq() == old(self).rxq(),
            final(self).conns() == old(self).conns().insert(
                (local_port, remote_port),
                local_init(local_port, remote_port, res),
            ),
    {
        self.conn_map.insert(
            (local_port, remote_port),
            VsockConnection::new_local_init(local_port, remote_port, res),
        );
    }

    /// Receive a packet for the guest: the next one in the queue.
    pub fn recv(&mut self, _max_len: usize) -> (ret: Option<VsockPacket>)
        ensures
            final(self).conns() == old(self).conns(),
            old(self).rxq().len() == 0 ==> ret is None && final(self).rxq() == old(self).rxq(),
            old(self).rxq().len() > 0 ==> ret == Some(old(self).rxq()[0]) && final(self).rxq()
                == old(self).rxq().skip(1),
    {
        let ghost before = self.rxq@;
        let ret = self.rxq.pop_front();
        if ret.is_some() {
            assert(self.rxq@ =~= before.skip(1));
        }
        ret
    }
}

/// The path for a port is `./vsock_`, followed by the port, written out without leading zeros.
pub proof fn path_ends_with_the_port(port: u32)
    ensures
        ({
            let path = host_path(port);
            let digits = path.skip(8);
            &&& path.len() > 8
            &&& path.take(8) == seq![46u8, 47u8, 118u8, 115u8, 111u8, 99u8, 107u8, 95u8]
            &&& crate::text::all_digits(digits)
            &&& crate::text::number(digits) == port
            &&& digits[0] == 48 ==> digits.len() == 1
        }),
{
    let path = host_path(port);
    crate::text::number_of_decimal(port as nat);
    crate::text::decimal_has_no_leading_zero(port as nat);
    assert(path.skip(8) =~= crate::text::decimal(port as nat));
    assert(path.take(8) =~= seq![46u8, 47u8, 118u8, 115u8, 111u8, 99u8, 107u8, 95u8]);
}

/// A connection is open, with its host stream, if the host socket could be connected to. Otherwise,
/// it is closed, and has none.
pub proof fn connection_is_open_with_a_stream(
    local_port: u32,
    remote_port: u32,
    res: Result<i32, IoError>,
)
    ensures
        ({
            let conn = local_init(local_port, remote_port, res);
            &&& conn.local_port == local_port
            &&& conn.remote_port == remote_port
            &&& res is Ok ==> conn.remote == Some(res->Ok_0) && conn.state
                == VsockConnectionState::Established
            &&& res is Err ==> conn.remote is None && conn.state
                == VsockConnectionState::RemoteClose
        }),
{
}

} // verus!
