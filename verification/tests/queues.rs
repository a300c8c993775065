//! The device's queues, and the muxer's.

use vsock::channel::VsockChannel;
use vsock::desc::DescriptorChain;
use vsock::packet::{BufWrapper, HdrWrapper, VsockPacket};
use vsock::queue::{UsedDesc, VirtQueue};
use vsock::unix::conn_map::{ConnMap, ConnMapKey};
use vsock::unix::connection::VsockConnection;
use vsock::unix::error::Error;
use vsock::unix::muxer;
use vsock::unix::muxer_killq::MuxerKillQ;
use vsock::unix::muxer_rx::MuxerRx;
use vsock::unix::muxer_rxq::MuxerRxQ;

const MILLI: u64 = 1_000_000;

fn key(n: u32) -> ConnMapKey {
    ConnMapKey { local_port: n, peer_port: n + 1 }
}

fn conn_rx(n: u32) -> MuxerRx {
    MuxerRx::ConnRx(key(n))
}

fn rst(n: u32) -> MuxerRx {
    MuxerRx::RstPkt { local_port: n, peer_port: n + 1 }
}

/// A pool of connections that all have pending RX.
fn pending_pool(count: u32) -> ConnMap {
    let mut pool = ConnMap::new();
    for n in 0..count {
        pool.insert(key(n), VsockConnection::new_local_init(n as i32, 3, n, n + 1));
    }
    pool
}

/// A pool of connections that are all shutting down.
fn dying_pool(count: u32) -> ConnMap {
    let mut pool = ConnMap::new();
    for n in 0..count {
        let mut conn = VsockConnection::new_peer_init(n as i32, 3, n, n + 1, 100);
        let mut pkt = VsockPacket {
            hdr: HdrWrapper::from_ptr_unchecked(&[0u8; 44]),
            buf: Some(BufWrapper::from_fat_ptr_unchecked(vec![0; 4])),
        };
        conn.recv_pkt(&mut pkt, 0);
        conn.recv_pkt(&mut pkt, 0);
        conn.recv_data(&mut pkt, Ok(vec![])).unwrap();
        assert!(conn.is_shutting_down());
        pool.insert(key(n), conn);
    }
    pool
}

#[test]
fn pool_of_connections() {
    let mut pool = pending_pool(3);
    assert_eq!(pool.len(), 3);
    assert!(pool.contains_key(key(2)));
    assert!(!pool.contains_key(key(3)));
    let mut keys = pool.keys();
    keys.sort_by_key(|key| key.local_port);
    assert_eq!(keys, vec![key(0), key(1), key(2)]);
    assert!(pool.get(key(1)).is_some());
    assert!(pool.remove(key(1)).is_some());
    assert!(pool.remove(key(1)).is_none());
    assert_eq!(pool.len(), 2);
    // Ports do not run into each other.
    assert!(!pool.contains_key(ConnMapKey { local_port: 1, peer_port: 0 }));
}

#[test]
fn rx_items_come_out_in_order() {
    let mut q = MuxerRxQ::new();
    assert!(q.is_empty());
    assert_eq!(q.push(conn_rx(1)), Ok(()));
    assert_eq!(q.push(rst(2)), Ok(()));
    assert_eq!(q.len(), 2);
    assert_eq!(q.pop(), Some(conn_rx(1)));
    assert_eq!(q.pop(), Some(rst(2)));
    assert_eq!(q.pop(), None);
    assert!(q.is_synced());
}

#[test]
fn rx_queue_full_of_connections_makes_room_for_rsts() {
    let mut q = MuxerRxQ::new();
    for n in 0..256 {
        assert_eq!(q.push(conn_rx(n)), Ok(()));
    }
    assert!(q.is_full());
    assert!(q.is_synced());
    assert_eq!(q.push(rst(1000)), Ok(()));
    assert!(!q.is_synced());
    assert_eq!(q.len(), 256);
    // The last connection had to go.
    for n in 0..255 {
        assert_eq!(q.pop(), Some(conn_rx(n)));
    }
    assert_eq!(q.pop(), Some(rst(1000)));
}

#[test]
fn rx_queue_full_of_rsts() {
    let mut q = MuxerRxQ::new();
    for n in 0..256 {
        assert_eq!(q.push(rst(n)), Ok(()));
    }
    assert_eq!(q.push(rst(1000)), Err(Error::QueueFull));
    assert!(q.is_synced());
    assert_eq!(q.push(conn_rx(1000)), Err(Error::QueueFull));
    assert!(!q.is_synced());
    assert_eq!(q.pop(), Some(rst(0)));
    // Out of sync: no connection gets in, but an RST does.
    assert_eq!(q.push(conn_rx(1)), Err(Error::QueueFull));
    assert_eq!(q.push(rst(1001)), Ok(()));
    assert_eq!(q.len(), 256);
}

#[test]
fn rx_queue_synchronization() {
    let mut q = MuxerRxQ::new();
    let pool = pending_pool(3);
    assert!(q.try_sync(&pool));
    assert_eq!(q.len(), 3);
    let mut popped = vec![q.pop().unwrap(), q.pop().unwrap(), q.pop().unwrap()];
    for n in 0..3 {
        let at = popped.iter().position(|rx| *rx == conn_rx(n)).unwrap();
        popped.remove(at);
    }
    let pool = pending_pool(257);
    assert!(!q.try_sync(&pool));
    assert!(q.is_full());
    assert!(!q.is_synced());
    // Once the queue is drained, it may be synchronized with a smaller pool.
    while q.pop().is_some() {}
    assert!(q.try_sync(&pending_pool(256)));
    assert!(q.is_synced());
}

#[test]
fn kill_timer() {
    let mut q = MuxerKillQ::new();
    assert!(q.is_empty());
    q.push(key(1), 10 * MILLI);
    q.push(key(2), 20 * MILLI);
    assert!(!q.is_empty());
    assert_eq!(q.pop(10 * MILLI), None);
    assert_eq!(q.pop(2010 * MILLI), None);
    assert_eq!(q.pop(2010 * MILLI + 1), Some(key(1)));
    assert_eq!(q.pop(2010 * MILLI + 1), None);
    assert_eq!(q.pop(u64::MAX), Some(key(2)));
    assert!(q.is_empty());
}

#[test]
fn kill_queue_overflow() {
    let mut q = MuxerKillQ::new();
    for n in 0..128 {
        q.push(key(n), 0);
    }
    assert!(q.is_full());
    assert!(q.is_synced());
    q.push(key(200), 0);
    assert!(!q.is_synced());
    // Out of sync: nothing gets in, even if there is room.
    assert_eq!(q.pop(3000 * MILLI), Some(key(0)));
    q.push(key(201), 0);
    assert!(!q.is_full());
}

#[test]
fn kill_queue_synchronization() {
    let mut q = MuxerKillQ::new();
    q.push(key(1), 0);
    let pool = dying_pool(3);
    assert!(q.try_sync(&pool, 5));
    assert_eq!(q.pop(u64::MAX), Some(key(1)));
    let mut popped = vec![q.pop(u64::MAX).unwrap().local_port, q.pop(u64::MAX).unwrap().local_port];
    popped.sort();
    assert_eq!(popped, vec![0, 2]);
    assert_eq!(q.pop(u64::MAX), None);
    assert!(!q.try_sync(&dying_pool(129), 5));
    assert!(!q.is_synced());
    assert!(q.is_full());
    assert!(!MuxerKillQ::new().try_sync(&dying_pool(200), 0));
    assert!(MuxerKillQ::new().try_sync(&pending_pool(200), 0));
}

#[test]
fn plain_rx_queue() {
    let mut q = muxer::rxq::MuxerRxQ::new();
    for n in 0..256 {
        assert_eq!(q.push(conn_rx(n)), Ok(()));
    }
    assert!(q.is_full());
    assert_eq!(q.push(rst(1)), Err(Error::QueueFull));
    assert!(q.is_synced());
    assert_eq!(q.push(conn_rx(300)), Err(Error::QueueFull));
    assert!(!q.is_synced());
    assert_eq!(q.pop(), Some(conn_rx(0)));
    // Out of sync, but there is room.
    assert_eq!(q.push(conn_rx(301)), Ok(()));
    assert_eq!(q.len(), 256);
}

#[test]
fn plain_rx_queue_synchronization() {
    let mut q = muxer::rxq::MuxerRxQ::new();
    let mut pool = pending_pool(3);
    assert_eq!(q.sync(&mut pool), Ok(()));
    assert_eq!(q.len(), 3);
    assert!(pool.get(key(0)).unwrap().get_muxer_flag(muxer::rxq::MCF_RXQ));
    // Those that are in the queue are not added again.
    assert_eq!(q.sync(&mut pool), Ok(()));
    assert_eq!(q.len(), 3);
    let mut pool = pending_pool(300);
    assert_eq!(q.sync(&mut pool), Err(Error::QueueFull));
    assert!(!q.is_synced());
    assert!(q.is_full());
}

#[test]
fn plain_kill_queue() {
    let mut q = muxer::killq::MuxerKillQ::new();
    assert_eq!(q.push(key(1), 5 * MILLI), Ok(()));
    assert_eq!(q.pop(2005 * MILLI - 1), None);
    assert_eq!(q.pop(2005 * MILLI), Some(key(1)));
    assert_eq!(q.pop(u64::MAX), None);
    for n in 0..128 {
        assert_eq!(q.push(key(n), 0), Ok(()));
    }
    assert!(q.is_synced());
    assert_eq!(q.push(key(128), 0), Err(Error::QueueFull));
    assert!(!q.is_synced());
}

#[test]
fn plain_kill_queue_synchronization() {
    let mut q = muxer::killq::MuxerKillQ::new();
    assert_eq!(q.sync(&dying_pool(2), 0), Ok(()));
    assert!(q.pop(u64::MAX).is_some());
    assert!(q.pop(u64::MAX).is_some());
    assert!(q.pop(u64::MAX).is_none());
    assert_eq!(q.sync(&dying_pool(129), 0), Err(Error::QueueFull));
    assert!(!q.is_synced());
}

fn chain(index: u16) -> DescriptorChain {
    DescriptorChain {
        index,
        len: 0,
        write_only: false,
        hdr_in_bounds: true,
        buf_in_bounds: true,
        data: Ok(vec![]),
        next: None,
    }
}

#[test]
fn virtio_queue() {
    let mut q = VirtQueue::new();
    assert!(q.pop().is_none());
    q.add_avail(chain(1));
    q.add_avail(chain(2));
    assert_eq!(q.avail_len(), 2);
    assert_eq!(q.pop().unwrap().index, 1);
    q.go_to_previous_position(chain(3));
    assert_eq!(q.pop().unwrap().index, 3);
    assert_eq!(q.pop().unwrap().index, 2);
    q.add_used(3, 10);
    q.add_used(2, 0);
    assert_eq!(q.take_used(), vec![UsedDesc { index: 3, len: 10 }, UsedDesc { index: 2, len: 0 }]);
    assert_eq!(q.take_used(), vec![]);
}
