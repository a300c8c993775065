//! The copying virtio-vsock device.

use vstd::prelude::*;

use crate::copying::handler::{
    VsockEpollHandler, EVENT_QUEUE_EVENT, RX_QUEUE_EVENT, TX_QUEUE_EVENT,
};
use crate::copying::muxer::{VsockConnection, VsockMuxer};
use crate::copying::packet::{VsockError, VsockPacket};
use crate::defs::{NUM_QUEUES, QUEUE_SIZE};
use crate::device::Registration;
use crate::error::ActivateError;
use crate::events::{EventSet, EPOLLIN};
use crate::queue::VirtQueue;
use crate::uapi::VIRTIO_ID_VSOCK;
use crate::virtio::{Negotiation, NegotiationView};

verus! {

/// The features of the device: VIRTIO_F_VERSION_1.
pub const VSOCK_FEATURES: u64 = 0x1_0000_0000;

/// How the device's file descriptors are told apart by the epoll loop that they are watched in.
#[derive(Clone, Copy, Debug, PartialEq, Eq, Structural)]
pub struct EpollConfig {
    pub rx_queue_token: u64,
    pub tx_queue_token: u64,
    pub ev_queue_token: u64,
    pub epoll_raw_fd: i32,
}

impl EpollConfig {
    /// Create the configuration, with consecutive tokens from `first_token` on.
    pub fn new(first_token: u64, epoll_raw_fd: i32) -> (ret: EpollConfig)
        requires
            first_token + EVENT_QUEUE_EVENT <= u64::MAX,
        ensures
            ret == (EpollConfig {
                rx_queue_token: (first_token + RX_QUEUE_EVENT) as u64,
                tx_queue_token: (first_token + TX_QUEUE_EVENT) as u64,
                ev_queue_token: (first_token + EVENT_QUEUE_EVENT) as u64,
                epoll_raw_fd,
            }),
    {
        EpollConfig {
            rx_queue_token: first_token + RX_QUEUE_EVENT as u64,
            tx_queue_token: first_token + TX_QUEUE_EVENT as u64,
            ev_queue_token: first_token + EVENT_QUEUE_EVENT as u64,
            epoll_raw_fd,
        }
    }
}

/// What is to be done to have a device activated: send the handler to the epoll loop, then put the
/// file descriptors under watch, one after the other.
pub struct Activation {
    pub handler: VsockEpollHandler,
    pub registrations: Vec<Registration>,
}

/// The file descriptors that an activated device has under watch: those of its queues' events.
pub open spec fn registrations(config: EpollConfig, evts: Seq<i32>) -> Seq<Registration> {
    let epoll_fd = config.epoll_raw_fd;
    let evset = EventSet::of(EPOLLIN);
    seq![
        Registration { epoll_fd, fd: evts[0], evset, token: config.rx_queue_token },
        Registration { epoll_fd, fd: evts[1], evset, token: config.tx_queue_token },
        Registration { epoll_fd, fd: evts[2], evset, token: config.ev_queue_token },
    ]
}

/// The virtio-vsock device.
pub struct Vsock {
    negotiation: Negotiation,
    epoll_config: EpollConfig,
}

impl Vsock {
    /// What the driver negotiates with the device.
    pub closed spec fn negotiation(&self) -> NegotiationView {
        self.negotiation@
    }

    /// How the device's file descriptors are told apart.
    pub closed spec fn epoll_config(&self) -> EpollConfig {
        self.epoll_config
    }

    /// Create a new virtio-vsock device with the given VM CID.
    pub fn new(cid: u64, epoll_config: EpollConfig) -> (ret: Result<Vsock, VsockError>)
        ensures
            ret is Ok,
            ret->Ok_0.negotiation() == (NegotiationView {
                cid,
                avail: VSOCK_FEATURES,
                acked: 0,
                config: Seq::empty(),
            }),
            ret->Ok_0.epoll_config() == epoll_config,
    {
        Ok(Vsock { negotiation: Negotiation::new(cid, VSOCK_FEATURES), epoll_config })
    }

    /// Get the virtio device ID.
    pub fn device_type(&self) -> (ret: u32)
        ensures
            ret == VIRTIO_ID_VSOCK,
    {
        VIRTIO_ID_VSOCK
    }

    /// Get the maximum sizes of the device's queues.
    pub fn queue_max_sizes(&self) -> (ret: [u16; 3])
        ensures
            ret@ == seq![QUEUE_SIZE, QUEUE_SIZE, QUEUE_SIZE],
    {
        let ret = [QUEUE_SIZE, QUEUE_SIZE, QUEUE_SIZE];
        assert(ret@ =~= seq![QUEUE_SIZE, QUEUE_SIZE, QUEUE_SIZE]);
        ret
    }

    /// Get a page of the device's features.
    pub fn features(&self, page: u32) -> (ret: u32)
        ensures
            ret == crate::virtio::feature_page(self.negotiation().avail, page),
    {
        self.negotiation.features(page)
    }

    /// Note the features on a page that the driver acknowledges.
    pub fn ack_features(&mut self, page: u32, value: u32)
        ensures
            final(self).negotiation() == (NegotiationView {
                acked: old(self).negotiation().acked | (crate::virtio::page_features(page, value)
                    & old(self).negotiation().avail),
                ..old(self).negotiation()
            }),
            final(self).epoll_config() == old(self).epoll_config(),
    {
        self.negotiation.ack_features(page, value);
    }

    /// Get the features that the driver has acknowledged.
    pub fn acked_features(&self) -> (ret: u64)
        ensures
            ret == self.negotiation().acked,
    {
        self.negotiation.acked()
    }

    /// Read from the configuration space. An invalid read leaves `data` alone.
    pub fn read_config(&self, offset: u64, data: &mut [u8])
        ensures
            final(data)@ == (match crate::virtio::config_bytes(
                self.negotiation().cid,
                offset,
                old(data)@.len(),
            ) {
                Some(bytes) => bytes,
                None => old(data)@,
            }),
    {
        self.negotiation.read_config(offset, data);
    }

    /// Write to the configuration space. A write past its end is refused.
    pub fn write_config(&mut self, offset: u64, data: &[u8])
        requires
            offset + data@.len() <= u64::MAX,
            offset + data@.len() <= old(self).negotiation().config.len() ==> offset + data@.len()
                == old(self).negotiation().config.len(),
        ensures
            offset + data@.len() > old(self).negotiation().config.len()
                ==> final(self).negotiation() == old(self).negotiation(),
            offset + data@.len() <= old(self).negotiation().config.len()
                ==> final(self).negotiation() == (NegotiationView {
                config: old(self).negotiation().config.take(offset as int) + data@,
                ..old(self).negotiation()
            }),
            final(self).epoll_config() == old(self).epoll_config(),
    {
        self.negotiation.write_config(offset, data);
    }

    /// Activate the device: hand over the queues, with the file descriptors of their events, to the
    /// handler that is to run in the epoll loop.
    pub fn activate(&mut self, queues: Vec<VirtQueue>, queue_evts: Vec<i32>) -> (ret: Result<
        Activation,
        ActivateError,
    >)
        ensures
            *final(self) == *old(self),
            queues@.len() != NUM_QUEUES || queue_evts@.len() != NUM_QUEUES ==> ret == Err::<
                Activation,
                ActivateError,
            >(ActivateError::BadActivate),
            queues@.len() == NUM_QUEUES && queue_evts@.len() == NUM_QUEUES ==> {
                &&& ret is Ok
                &&& ret->Ok_0.handler == (VsockEpollHandler {
                    rxvq: queues@[0],
                    rxvq_evt: queue_evts@[0],
                    txvq: queues@[1],
                    txvq_evt: queue_evts@[1],
                    evq: queues@[2],
                    evq_evt: queue_evts@[2],
                    cid: old(self).negotiation().cid,
                    muxer: ret->Ok_0.handler.muxer,
                })
                &&& ret->Ok_0.handler.muxer.rxq() == Seq::<VsockPacket>::empty()
                &&& ret->Ok_0.handler.muxer.conns() == Map::<(u32, u32), VsockConnection>::empty()
                &&& ret->Ok_0.registrations@ == registrations(
                    old(self).epoll_config(),
                    queue_evts@,
                )
            },
    {
        if queues.len() != NUM_QUEUES || queue_evts.len() != NUM_QUEUES {
            return Err(ActivateError::BadActivate);
        }
        let mut queues = queues;
        let rxvq = queues.remove(0);
        let txvq = queues.remove(0);
        let evq = queues.remove(0);
        let rxvq_evt: i32 = queue_evts[0];
        let txvq_evt: i32 = queue_evts[1];
        let evq_evt: i32 = queue_evts[2];
        let config = self.epoll_config;
        let epoll_fd: i32 = config.epoll_raw_fd;
        let evset = EventSet { bits: EPOLLIN };
        let handler = VsockEpollHandler {
            rxvq,
            rxvq_evt,
            txvq,
            txvq_evt,
            evq,
            evq_evt,
            cid: self.negotiation.cid(),
            muxer: VsockMuxer::new(),
        };
        let registrations = vec![
            Registration { epoll_fd, fd: rxvq_evt, evset, token: config.rx_queue_token },
            Registration { epoll_fd, fd: txvq_evt, evset, token: config.tx_queue_token },
            Registration { epoll_fd, fd: evq_evt, evset, token: config.ev_queue_token },
        ];
        Ok(Activation { handler, registrations })
    }
}

/// An activated device has its queues' events watched for input, each under its own token.
pub proof fn events_are_watched_under_their_tokens(config: EpollConfig, evts: Seq<i32>)
    ensures
        ({
            let regs = registrations(config, evts);
            &&& regs.len() == 3
            &&& forall|i: int|
                0 <= i < 3 ==> {
                    &&& (#[trigger] regs[i]).epoll_fd == config.epoll_raw_fd
                    &&& regs[i].fd == evts[i]
                    &&& regs[i].evset.bits == 1
                }
            &&& regs[0].token == config.rx_queue_token
            &&& regs[1].token == config.tx_queue_token
            &&& regs[2].token == config.ev_queue_token
        }),
{
}

} // verus!
