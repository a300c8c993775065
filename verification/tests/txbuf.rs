//! The TX buffer, event sets and sets of pending RX.

use vsock::error::IoError;
use vsock::events::{EventSet, EPOLLIN, EPOLLOUT};
use vsock::unix::defs::CONN_TX_BUF_SIZE;
use vsock::unix::error::Error;
use vsock::unix::pending::{PendingRx, PendingRxSet};
use vsock::unix::txbuf::TxBuf;

#[test]
fn bytes_come_out_in_order() {
    let mut buf = TxBuf::new();
    assert!(buf.is_empty());
    assert!(buf.push(&[1, 2, 3]).is_ok());
    assert!(buf.push(&[4, 5]).is_ok());
    assert_eq!(buf.len(), 5);
    assert_eq!(buf.flush_chunk(), [1, 2, 3, 4, 5].as_slice());
    let step = buf.flush(Ok(2)).unwrap();
    assert_eq!(step.written, 2);
    assert!(!step.again);
    assert_eq!(buf.flush_chunk(), [3, 4, 5].as_slice());
}

#[test]
fn full_buffer_takes_no_more() {
    let mut buf = TxBuf::new();
    assert!(buf.push(&vec![7; CONN_TX_BUF_SIZE]).is_ok());
    assert_eq!(buf.push(&[1]), Err(Error::BufferFull));
    assert_eq!(buf.len(), CONN_TX_BUF_SIZE);
    assert!(buf.push(&[]).is_ok());
}

#[test]
fn oversized_push_leaves_the_buffer_alone() {
    let mut buf = TxBuf::new();
    assert!(buf.push(&[1]).is_ok());
    assert_eq!(buf.push(&vec![0; CONN_TX_BUF_SIZE]), Err(Error::BufferFull));
    assert_eq!(buf.flush_chunk(), [1].as_slice());
}

#[test]
fn wrapped_data_is_flushed_in_two_writes() {
    let mut buf = TxBuf::new();
    assert!(buf.push(&vec![0; CONN_TX_BUF_SIZE - 2]).is_ok());
    buf.flush(Ok(CONN_TX_BUF_SIZE - 2)).unwrap();
    assert!(buf.is_empty());
    assert!(buf.push(&[1, 2, 3, 4, 5]).is_ok());
    assert_eq!(buf.flush_chunk(), [1, 2].as_slice());
    let step = buf.flush(Ok(2)).unwrap();
    assert_eq!(step.written, 2);
    assert!(step.again);
    assert_eq!(buf.flush_chunk(), [3, 4, 5].as_slice());
    let step = buf.flush(Ok(3)).unwrap();
    assert_eq!(step.written, 3);
    assert!(!step.again);
    assert!(buf.is_empty());
}

#[test]
fn blocked_flush_takes_nothing() {
    let mut buf = TxBuf::new();
    assert!(buf.push(&[1, 2]).is_ok());
    let step = buf.flush(Err(IoError::WouldBlock)).unwrap();
    assert_eq!(step.written, 0);
    assert!(!step.again);
    assert_eq!(buf.len(), 2);
}

#[test]
fn failed_flush_is_reported() {
    let mut buf = TxBuf::new();
    assert!(buf.push(&[1, 2]).is_ok());
    match buf.flush(Err(IoError::Os(32))) {
        Err(e) => assert_eq!(e, Error::IoError(IoError::Os(32))),
        Ok(_) => panic!("the failure went unnoticed"),
    }
}

#[test]
fn event_sets() {
    let mut set = EventSet::empty();
    assert!(set.is_empty());
    set.insert(EPOLLIN);
    assert!(!set.is_empty());
    assert!(set.contains(EPOLLIN));
    assert!(!set.contains(EPOLLOUT));
    set.insert(EPOLLOUT);
    assert!(set.contains(EPOLLIN | EPOLLOUT));
    assert_eq!(set.bits, 5);
    assert_eq!(EPOLLIN, epoll::Events::EPOLLIN.bits());
    assert_eq!(EPOLLOUT, epoll::Events::EPOLLOUT.bits());
}

#[test]
fn pending_sets() {
    assert_eq!(PendingRx::Request.into_mask(), 1);
    assert_eq!(PendingRx::Response.into_mask(), 2);
    assert_eq!(PendingRx::Rst.into_mask(), 4);
    assert_eq!(PendingRx::Rw.into_mask(), 8);
    assert_eq!(PendingRx::CreditUpdate.into_mask(), 16);
    let mut set = PendingRxSet::from(PendingRx::Rst);
    assert!(set.contains(PendingRx::Rst));
    assert!(!set.contains(PendingRx::Rw));
    set.insert(PendingRx::Rw);
    assert!(set.remove(PendingRx::Rst));
    assert!(!set.remove(PendingRx::Rst));
    assert!(!set.is_empty());
    assert!(set.remove(PendingRx::Rw));
    assert!(set.is_empty());
}
