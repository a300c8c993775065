//! Items of the muxer's RX queue.

use vstd::prelude::*;

use crate::unix::conn_map::ConnMapKey;

verus! {

/// An instruction on how to build an RX (host -> guest) packet.
#[derive(Clone, Copy, Debug, PartialEq, Eq, Structural)]
pub enum MuxerRx {
    /// Ask a connection for the packet.
    ConnRx(ConnMapKey),
    /// Build an RST packet, with these ports.
    RstPkt { local_port: u32, peer_port: u32 },
}

/// What an RX queue holds.
#[verifier::ext_equal]
pub struct RxQView {
    /// The items, next one first.
    pub q: Seq<MuxerRx>,
    /// Whether all connections with pending RX are accounted for.
    pub synced: bool,
}

/// The items that ask the connections with the given keys.
pub open spec fn conn_items(keys: Seq<ConnMapKey>) -> Seq<MuxerRx> {
    keys.map_values(|key: ConnMapKey| MuxerRx::ConnRx(key))
}

/// Asking one more connection.
pub proof fn lemma_conn_items_push(keys: Seq<ConnMapKey>, key: ConnMapKey)
    ensures
        conn_items(keys.push(key)) == conn_items(keys).push(MuxerRx::ConnRx(key)),
{
    assert(conn_items(keys.push(key)) =~= conn_items(keys).push(MuxerRx::ConnRx(key)));
}

} // verus!
