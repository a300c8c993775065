//! The virtio-vsock device.

use vstd::prelude::*;

use crate::channel::VsockBackend;
use crate::defs::{BACKEND_EVENT, EVQ_EVENT, NUM_QUEUES, QUEUE_SIZE, RXQ_EVENT, TXQ_EVENT};
use crate::epoll_handler::VsockEpollHandler;
use crate::error::{ActivateError, IoError, VsockError};
use crate::events::{EventSet, EPOLLIN};
use crate::queue::VirtQueue;
use crate::uapi::VIRTIO_ID_VSOCK;
use crate::virtio::{Negotiation, NegotiationView};

verus! {

/// The features of the device: VIRTIO_F_VERSION_1 and VIRTIO_F_IN_ORDER.
pub const VSOCK_FEATURES: u64 = 0x9_0000_0000;

/// How the device's file descriptors are told apart by the epoll loop that they are watched in.
#[derive(Clone, Copy, Debug, PartialEq, Eq, Structural)]
pub struct EpollConfig {
    pub rxq_token: u64,
    pub txq_token: u64,
    pub evq_token: u64,
    pub backend_token: u64,
    pub epoll_raw_fd: i32,
}

impl EpollConfig {
    /// Create the configuration, with consecutive tokens from `first_token` on.
    pub fn new(first_token: u64, epoll_raw_fd: i32) -> (ret: EpollConfig)
        requires
            first_token + BACKEND_EVENT <= u64::MAX,
        ensures
            ret == (EpollConfig {
                rxq_token: (first_token + RXQ_EVENT) as u64,
                txq_token: (first_token + TXQ_EVENT) as u64,
                evq_token: (first_token + EVQ_EVENT) as u64,
                backend_token: (first_token + BACKEND_EVENT) as u64,
                epoll_raw_fd,
            }),
    {
        EpollConfig {
            rxq_token: first_token + RXQ_EVENT as u64,
            txq_token: first_token + TXQ_EVENT as u64,
            evq_token: first_token + EVQ_EVENT as u64,
            backend_token: first_token + BACKEND_EVENT as u64,
            epoll_raw_fd,
        }
    }
}

/// A file descriptor that is to be put under watch.
#[derive(Clone, Copy, Debug, PartialEq, Eq, Structural)]
pub struct Registration {
    /// The epoll descriptor to watch it.
    pub epoll_fd: i32,
    /// The file descriptor.
    pub fd: i32,
    /// The events to watch for.
    pub evset: EventSet,
    /// What the events are to be told apart by.
    pub token: u64,
}

/// What is to be done to have a device activated: send the handler to the epoll loop, then put the
/// file descriptors under watch, one after the other.
pub struct Activation<B> {
    pub handler: VsockEpollHandler<B>,
    pub registrations: Vec<Registration>,
}

/// The virtio-vsock device.
pub struct Vsock<B> {
    negotiation: Negotiation,
    backend: Option<B>,
    epoll_config: EpollConfig,
}

impl<B: VsockBackend> Vsock<B> {
    /// What the driver negotiates with the device.
    pub closed spec fn negotiation(&self) -> NegotiationView {
        self.negotiation@
    }

    /// The backend, until the device is activated.
    pub closed spec fn backend(&self) -> Option<B> {
        self.backend
    }

    /// How the device's file descriptors are told apart.
    pub closed spec fn epoll_config(&self) -> EpollConfig {
        self.epoll_config
    }

    /// Create a new virtio-vsock device with the given VM CID.
    pub fn new(cid: u64, epoll_config: EpollConfig, backend: B) -> (ret: Result<
        Vsock<B>,
        VsockError,
    >)
        ensures
            ret is Ok,
            ret->Ok_0.negotiation() == (NegotiationView {
                cid,
                avail: VSOCK_FEATURES,
                acked: 0,
                config: Seq::empty(),
            }),
            ret->Ok_0.backend() == Some(backend),
            ret->Ok_0.epoll_config() == epoll_config,
    {
        Ok(
            Vsock {
                negotiation: Negotiation::new(cid, VSOCK_FEATURES),
                backend: Some(backend),
                epoll_config,
            },
        )
    }

    /// Check if the device still has its backend, that is, if it was not activated yet.
    pub fn has_backend(&self) -> (ret: bool)
        ensures
            ret == self.backend() is Some,
    {
        self.backend.is_some()
    }

    /// Get the virtio device ID.
    pub fn device_type(&self) -> (ret: u32)
        ensures
            ret == VIRTIO_ID_VSOCK,
    {
        VIRTIO_ID_VSOCK
    }

    /// Get the maximum sizes of the device's queues.
    pub fn queue_max_sizes(&self) -> (ret: [u16; 3])
        ensures
            ret@ == seq![QUEUE_SIZE, QUEUE_SIZE, QUEUE_SIZE],
    {
        let ret = [QUEUE_SIZE, QUEUE_SIZE, QUEUE_SIZE];
        assert(ret@ =~= seq![QUEUE_SIZE, QUEUE_SIZE, QUEUE_SIZE]);
        ret
    }

    /// Get a page of the device's features.
    pub fn features(&self, page: u32) -> (ret: u32)
        ensures
            ret == crate::virtio::feature_page(self.negotiation().avail, page),
    {
        self.negotiation.features(page)
    }

    /// Note the features on a page that the driver acknowledges.
    pub fn ack_features(&mut self, page: u32, value: u32)
        ensures
            final(self).negotiation() == (NegotiationView {
                acked: old(self).negotiation().acked | (crate::virtio::page_features(page, value)
                    & old(self).negotiation().avail),
                ..old(self).negotiation()
            }),
            final(self).backend() == old(self).backend(),
            final(self).epoll_config() == old(self).epoll_config(),
    {
        self.negotiation.ack_features(page, value);
    }

    /// Get the features that the driver has acknowledged.
    pub fn acked_features(&self) -> (ret: u64)
        ensures
            ret == self.negotiation().acked,
    {
        self.negotiation.acked()
    }

    /// Read from the configuration space. An invalid read leaves `data` alone.
    pub fn read_config(&self, offset: u64, data: &mut [u8])
        ensures
            final(data)@ == (match crate::virtio::config_bytes(
                self.negotiation().cid,
                offset,
                old(data)@.len(),
            ) {
                Some(bytes) => bytes,
                None => old(data)@,
            }),
    {
        self.negotiation.read_config(offset, data);
    }

    /// Write to the configuration space. A write past its end is refused.
    pub fn write_config(&mut self, offset: u64, data: &[u8])
        requires
            offset + data@.len() <= u64::MAX,
            offset + data@.len() <= old(self).negotiation().config.len() ==> offset + data@.len()
                == old(self).negotiation().config.len(),
        ensures
            offset + data@.len() > old(self).negotiation().config.len()
                ==> final(self).negotiation() == old(self).negotiation(),
            offset + data@.len() <= old(self).negotiation().config.len()
                ==> final(self).negotiation() == (NegotiationView {
                config: old(self).negotiation().config.take(offset as int) + data@,
                ..old(self).negotiation()
            }),
            final(self).backend() == old(self).backend(),
            final(self).epoll_config() == old(self).epoll_config(),
    {
        self.negotiation.write_config(offset, data);
    }

    /// Activate the device: hand over the backend and the queues, with the file descriptors of
    /// their events, to the handler that is to run in the epoll loop.
    pub fn activate(&mut self, queues: Vec<VirtQueue>, queue_evts: Vec<i32>) -> (ret: Result<
        Activation<B>,
        ActivateError,
    >)
        requires
            queues@.len() == NUM_QUEUES && queue_evts@.len() == NUM_QUEUES ==> old(self).backend()
                is Some && old(self).backend()->0.listener_wf(),
        ensures
            final(self).negotiation() == old(self).negotiation(),
            final(self).epoll_config() == old(self).epoll_config(),
            queues@.len() != NUM_QUEUES || queue_evts@.len() != NUM_QUEUES ==> ret == Err::<
                Activation<B>,
                ActivateError,
            >(ActivateError::BadActivate) && *final(self) == *old(self),
            queues@.len() == NUM_QUEUES && queue_evts@.len() == NUM_QUEUES ==> {
                &&& final(self).backend() is None
                &&& ret is Ok
                &&& ret->Ok_0.handler == (VsockEpollHandler {
                    rxvq: queues@[0],
                    rxvq_evt: queue_evts@[0],
                    txvq: queues@[1],
                    txvq_evt: queue_evts@[1],
                    evq: queues@[2],
                    evq_evt: queue_evts@[2],
                    cid: old(self).negotiation().cid,
                    backend: old(self).backend()->0,
                })
                &&& ret->Ok_0.registrations@ == registrations(
                    old(self).epoll_config(),
                    queue_evts@,
                    old(self).backend()->0.polled_fd(),
                    old(self).backend()->0.polled_evset(),
                )
            },
    {
        if queues.len() != NUM_QUEUES || queue_evts.len() != NUM_QUEUES {
            return Err(ActivateError::BadActivate);
        }
        let mut queues = queues;
        let rxvq = queues.remove(0);
        let txvq = queues.remove(0);
        let evq = queues.remove(0);
        let rxvq_evt: i32 = queue_evts[0];
        let txvq_evt: i32 = queue_evts[1];
        let evq_evt: i32 = queue_evts[2];
        let backend = match self.backend.take() {
            Some(backend) => backend,
            None => return Err(ActivateError::BadActivate),
        };
        let config = self.epoll_config;
        let epoll_fd: i32 = config.epoll_raw_fd;
        let input = EventSet { bits: EPOLLIN };
        let backend_fd: i32 = backend.get_polled_fd();
        let backend_evset = backend.get_polled_evset();
        let handler = VsockEpollHandler {
            rxvq,
            rxvq_evt,
            txvq,
            txvq_evt,
            evq,
            evq_evt,
            cid: self.negotiation.cid(),
            backend,
        };
        let registrations = vec![
            Registration { epoll_fd, fd: rxvq_evt, evset: input, token: config.rxq_token },
            Registration { epoll_fd, fd: txvq_evt, evset: input, token: config.txq_token },
            Registration { epoll_fd, fd: evq_evt, evset: input, token: config.evq_token },
            Registration {
                epoll_fd,
                fd: backend_fd,
                evset: backend_evset,
                token: config.backend_token,
            },
        ];
        Ok(Activation { handler, registrations })
    }
}

/// The file descriptors that an activated device has under watch: those of its queues' events, and
/// that of its backend.
pub open spec fn registrations(
    config: EpollConfig,
    evts: Seq<i32>,
    backend_fd: i32,
    backend_evset: EventSet,
) -> Seq<Registration> {
    let epoll_fd = config.epoll_raw_fd;
    let input = EventSet::of(EPOLLIN);
    seq![
        Registration { epoll_fd, fd: evts[0], evset: input, token: config.rxq_token },
        Registration { epoll_fd, fd: evts[1], evset: input, token: config.txq_token },
        Registration { epoll_fd, fd: evts[2], evset: input, token: config.evq_token },
        Registration {
            epoll_fd,
            fd: backend_fd,
            evset: backend_evset,
            token: config.backend_token,
        },
    ]
}

/// Find out if a registration was made.
pub fn registered(res: Result<(), IoError>) -> (ret: Result<(), ActivateError>)
    ensures
        ret == (match res {
            Ok(_) => Ok::<(), ActivateError>(()),
            Err(e) => Err::<(), ActivateError>(ActivateError::EpollCtl(e)),
        }),
{
    match res {
        Ok(_) => Ok(()),
        Err(e) => Err(ActivateError::EpollCtl(e)),
    }
}

/// The feature bits of the device are those of VIRTIO_F_VERSION_1 and VIRTIO_F_IN_ORDER.
pub proof fn features_are_version_1_and_in_order()
    ensures
        VSOCK_FEATURES == 1u64 << crate::uapi::VIRTIO_F_VERSION_1 | 1u64
            << crate::uapi::VIRTIO_F_IN_ORDER,
{
    assert(0x9_0000_0000u64 == 1u64 << 32u32 | 1u64 << 35u32) by (bit_vector);
}

/// The events of an activated device can be told apart by their tokens, which count up from the
/// first one by the numbers of the events.
pub proof fn tokens_tell_events_apart(first_token: u64)
    requires
        first_token + BACKEND_EVENT <= u64::MAX,
    ensures
        ({
            let rxq = first_token + RXQ_EVENT;
            let txq = first_token + TXQ_EVENT;
            let evq = first_token + EVQ_EVENT;
            let backend = first_token + BACKEND_EVENT;
            rxq < txq < evq < backend && backend - rxq < crate::defs::EVENT_COUNT
        }),
{
}

/// An activated device has its queues' events watched for input, and its backend for what that asks
/// for, each under its own token.
pub proof fn events_are_watched_under_their_tokens(
    config: EpollConfig,
    evts: Seq<i32>,
    backend_fd: i32,
    backend_evset: EventSet,
)
    ensures
        ({
            let regs = registrations(config, evts, backend_fd, backend_evset);
            &&& regs.len() == 4
            &&& forall|i: int|
                0 <= i < 4 ==> (#[trigger] regs[i]).epoll_fd == config.epoll_raw_fd
            &&& forall|i: int|
                0 <= i < 3 ==> (#[trigger] regs[i]).fd == evts[i] && regs[i].evset.bits == 1
            &&& regs[0].token == config.rxq_token
            &&& regs[1].token == config.txq_token
            &&& regs[2].token == config.evq_token
            &&& regs[3].fd == backend_fd
            &&& regs[3].evset == backend_evset
            &&& regs[3].token == config.backend_token
        }),
{
}

} // verus!
