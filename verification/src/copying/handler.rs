//! The handler of the copying device's events.

use vstd::prelude::*;

use crate::copying::chain::{read_pkt_from_desc_chain, rx_room};
use crate::copying::muxer::{SendStep, VsockMuxer};
use crate::copying::packet::{VsockError, VsockPacket};
use crate::desc::DescriptorChain;
use crate::error::{DeviceError, IoError, QueueEvent};
use crate::packet::VSOCK_PKT_HDR_SIZE;
use crate::queue::{QueueView, UsedDesc, VirtQueue};
use crate::virtio::VIRTIO_MMIO_INT_VRING;

verus! {

/// The guest has made a buffer available to receive a frame into.
pub const RX_QUEUE_EVENT: u16 = 0;

/// The transmit queue has a frame that is ready to send from the guest.
pub const TX_QUEUE_EVENT: u16 = 1;

/// The event queue has a buffer available.
pub const EVENT_QUEUE_EVENT: u16 = 2;

/// Number of events supported by this implementation.
pub const VSOCK_EVENTS_COUNT: usize = 3;

/// What is to be done after an event.
#[derive(Clone, Copy, Debug, PartialEq, Eq, Structural)]
pub enum QueueWork {
    /// Nothing.
    Idle,
    /// Have `process_rx` make use of the buffers in the RX queue.
    ProcessRx,
    /// Have `process_tx` make use of the buffers in the TX queue, and then `process_rx` of those in
    /// the RX queue.
    ProcessTx,
}

/// An RX descriptor chain that a packet is to be written to.
pub struct RxInFlight {
    pub head: DescriptorChain,
    pub pkt: VsockPacket,
}

/// How the walk of the RX queue goes on.
#[derive(Clone, Copy, Debug, PartialEq, Eq, Structural)]
pub enum RxNext {
    /// `process_rx` is to be called again.
    Again,
    /// The walk is over.
    Stop,
}

/// The chains that the driver is to be told were used, and whether it is to be interrupted.
#[derive(Debug)]
pub struct UsedBuffers {
    pub rx: Vec<UsedDesc>,
    pub tx: Vec<UsedDesc>,
    pub interrupt: bool,
}

/// What the activated device runs on: its queues, the file descriptors of their events, and its
/// muxer.
pub struct VsockEpollHandler {
    pub rxvq: VirtQueue,
    pub rxvq_evt: i32,
    pub txvq: VirtQueue,
    pub txvq_evt: i32,
    pub evq: VirtQueue,
    pub evq_evt: i32,
    pub cid: u64,
    pub muxer: VsockMuxer,
}

/// The chains of a TX queue that hold packets, in the order of the queue.
pub open spec fn tx_heads(avail: Seq<DescriptorChain>) -> Seq<DescriptorChain>
    decreases avail.len(),
{
    if avail.len() == 0 {
        Seq::empty()
    } else if crate::copying::chain::holds_packet(avail[0]) {
        seq![avail[0]] + tx_heads(avail.skip(1))
    } else {
        tx_heads(avail.skip(1))
    }
}

/// Whether the first `n` chains of a TX queue were dropped, since they hold no packet, and then
/// `head` was taken, which holds one. If there is no `head`, all chains of the queue were dropped.
pub open spec fn tx_taken_at(
    before: Seq<DescriptorChain>,
    head: Option<DescriptorChain>,
    after: Seq<DescriptorChain>,
    n: int,
) -> bool {
    &&& 0 <= n <= before.len()
    &&& forall|i: int|
        0 <= i < n ==> !crate::copying::chain::holds_packet(#[trigger] before[i])
    &&& match head {
        Some(head) => {
            &&& n < before.len()
            &&& head == before[n]
            &&& crate::copying::chain::holds_packet(head)
            &&& after == before.skip(n + 1)
        },
        None => n == before.len() && after == Seq::<DescriptorChain>::empty(),
    }
}

/// Whether `head` was taken from a TX queue: the first chain that holds a packet. All before it
/// were dropped. If there is no such chain, none is left.
pub open spec fn tx_taken(
    before: Seq<DescriptorChain>,
    head: Option<DescriptorChain>,
    after: Seq<DescriptorChain>,
) -> bool {
    exists|n: int| #[trigger] tx_taken_at(before, head, after, n)
}

/// What handling a device event gives, if reading the event of its queue gave `res`.
pub open spec fn handled(device_event: u16, res: Result<u64, IoError>) -> Result<
    QueueWork,
    DeviceError,
> {
    match crate::epoll_handler::queue_of(device_event) {
        Some(queue) => match res {
            Ok(_) => Ok(
                match queue {
                    QueueEvent::Rx => QueueWork::ProcessRx,
                    QueueEvent::Tx => QueueWork::ProcessTx,
                    QueueEvent::Ev => QueueWork::Idle,
                },
            ),
            Err(underlying) => Err(
                DeviceError::FailedReadingQueue { event_type: queue.name(), underlying },
            ),
        },
        None => Err(DeviceError::UnknownEvent { device: "vsock", event: device_event }),
    }
}

impl VsockEpollHandler {
    /// Get the interrupt status to be stored before the driver is signalled that we have used some
    /// of its buffers.
    pub fn irq_status(status: usize) -> (ret: usize)
        ensures
            ret == crate::epoll_handler::status_with_vring(status),
    {
        status | VIRTIO_MMIO_INT_VRING
    }

    /// Find out if the driver was signalled, from what writing the interrupt event gave.
    pub fn signal_used_queue(res: Result<(), IoError>) -> (ret: Result<(), DeviceError>)
        ensures
            ret == (match res {
                Ok(_) => Ok::<(), DeviceError>(()),
                Err(e) => Err::<(), DeviceError>(DeviceError::FailedSignalingUsedQueue(e)),
            }),
    {
        match res {
            Ok(_) => Ok(()),
            Err(e) => Err(DeviceError::FailedSignalingUsedQueue(e)),
        }
    }

    /// Walk the RX queue: take its next chain, and get the packet to be written to it. The walk is
    /// over if nothing comes back, because there is no chain, or no packet. In the latter case, the
    /// chain is not put back.
    ///
    /// Once the packet was written, or could not be, the outcome is to be handed to `rx_written`.
    pub fn process_rx(&mut self) -> (ret: Option<RxInFlight>)
        requires
            old(self).rxvq@.avail.len() > 0 ==> crate::copying::chain::chain_len(
                old(self).rxvq@.avail[0].next,
            ) <= usize::MAX,
        ensures
            final(self).muxer.conns() == old(self).muxer.conns(),
            *final(self) == (VsockEpollHandler {
                rxvq: final(self).rxvq,
                muxer: final(self).muxer,
                ..*old(self)
            }),
            old(self).rxvq@.avail.len() == 0 ==> ret is None && final(self).rxvq@ == old(
                self,
            ).rxvq@ && final(self).muxer == old(self).muxer,
            old(self).rxvq@.avail.len() > 0 ==> {
                let rxq = old(self).muxer.rxq();
                &&& final(self).rxvq@ == old(self).rxvq@.popped()
                &&& ret is Some <==> rxq.len() > 0
                &&& ret is None ==> final(self).muxer.rxq() == rxq
                &&& ret is Some ==> {
                    &&& ret->0.head == old(self).rxvq@.avail[0]
                    &&& ret->0.pkt == rxq[0]
                    &&& final(self).muxer.rxq() == rxq.skip(1)
                }
            },
    {
        let head = match self.rxvq.pop() {
            Some(head) => head,
            None => return None,
        };
        match self.muxer.recv(rx_room(&head)) {
            Some(pkt) => Some(RxInFlight { head, pkt }),
            None => None,
        }
    }

    /// Settle an RX descriptor chain, once a packet with `data_len` as the data length in its
    /// header was written to it, or could not be: it is used, or it is put back, and the walk is
    /// over.
    pub fn rx_written(
        &mut self,
        head: DescriptorChain,
        data_len: u32,
        res: Result<(), VsockError>,
    ) -> (ret: RxNext)
        requires
            data_len + VSOCK_PKT_HDR_SIZE <= u32::MAX,
        ensures
            *final(self) == (VsockEpollHandler { rxvq: final(self).rxvq, ..*old(self) }),
            final(self).rxvq@ == crate::epoll_handler::rx_settled(
                old(self).rxvq@,
                head,
                data_len,
                res is Ok,
            ),
            ret == (if res is Ok {
                RxNext::Again
            } else {
                RxNext::Stop
            }),
    {
        match res {
            Ok(_) => {
                self.rxvq.add_used(head.index, data_len + VSOCK_PKT_HDR_SIZE as u32);
                RxNext::Again
            },
            Err(_) => {
                self.rxvq.go_to_previous_position(head);
                RxNext::Stop
            },
        }
    }

    /// Walk the TX queue: have the muxer send the next packet that its chains hold. Chains that
    /// hold none are dropped, without being used. This fails if the muxer does not know what to do
    /// with the packet.
    ///
    /// Once the step is taken, this is to be called again. There is no chain left if nothing comes
    /// back, and `process_rx` is to be called then.
    pub fn process_tx(&mut self) -> (ret: Result<Option<SendStep>, VsockError>)
        requires
            old(self).txvq@.wf(),
        ensures
            final(self).txvq@.wf(),
            *final(self) == (VsockEpollHandler { txvq: final(self).txvq, ..*old(self) }),
            match ret {
                Ok(None) => {
                    &&& tx_taken(old(self).txvq@.avail, None, final(self).txvq@.avail)
                    &&& final(self).txvq@.used == old(self).txvq@.used
                },
                Ok(Some(step)) => exists|head: DescriptorChain|
                    {
                        &&& #[trigger] tx_taken(
                            old(self).txvq@.avail,
                            Some(head),
                            final(self).txvq@.avail,
                        )
                        &&& final(self).txvq@.used == old(self).txvq@.with_used(head.index, 0).used
                        &&& known(old(self).muxer.conns(), crate::copying::chain::head_hdr(head))
                        &&& sends(
                            old(self).muxer.conns(),
                            crate::copying::chain::head_hdr(head),
                            crate::copying::chain::chain_bytes(head.next),
                            step,
                        )
                    },
                Err(e) => exists|head: DescriptorChain|
                    {
                        &&& #[trigger] tx_taken(
                            old(self).txvq@.avail,
                            Some(head),
                            final(self).txvq@.avail,
                        )
                        &&& final(self).txvq@.used == old(self).txvq@.used
                        &&& !known(old(self).muxer.conns(), crate::copying::chain::head_hdr(head))
                        &&& e == VsockError::GeneralError
                    },
            },
    {
        let ghost before = self.txvq@;
        let ghost mut n: int = 0;
        assert(before.avail.skip(0) =~= before.avail);
        while self.txvq.avail_len() > 0
            invariant
                0 <= n <= before.avail.len(),
                before == old(self).txvq@,
                before.wf(),
                *self == (VsockEpollHandler { txvq: self.txvq, ..*old(self) }),
                self.txvq@.avail == before.avail.skip(n),
                self.txvq@.used == before.used,
                forall|i: int|
                    0 <= i < n ==> !crate::copying::chain::holds_packet(#[trigger] before.avail[i]),
            decreases before.avail.len() - n,
        {
            let head = match self.txvq.pop() {
                Some(head) => head,
                None => return Ok(None),
            };
            assert(head == before.avail[n]);
            assert(before.avail.skip(n).skip(1) =~= before.avail.skip(n + 1));
            match read_pkt_from_desc_chain(&head) {
                Ok(pkt) => {
                    proof {
                        assert(tx_taken_at(before.avail, Some(head), self.txvq@.avail, n));
                        assert(tx_taken(before.avail, Some(head), self.txvq@.avail));
                    }
                    return match self.muxer.send(pkt) {
                        Ok(step) => {
                            self.txvq.add_used(head.index, 0);
                            assert(tx_taken(before.avail, Some(head), self.txvq@.avail));
                            Ok(Some(step))
                        },
                        Err(e) => Err(e),
                    };
                },
                Err(_) => {
                    // Reading from the TX queue should not fail. If it does, though, we just drop
                    // the packet. It is fine, the vsock driver does it as well.
                    proof {
                        n = n + 1;
                    }
                },
            }
        }
        assert(self.txvq@.avail =~= Seq::<DescriptorChain>::empty());
        assert(tx_taken_at(before.avail, None, self.txvq@.avail, n));
        Ok(None)
    }

    /// Get the chains that the driver has yet to be told were used, once the queues were walked. It
    /// is to be interrupted if and only if a packet was written to any of them.
    pub fn take_used(&mut self) -> (ret: UsedBuffers)
        ensures
            ret.rx@ == old(self).rxvq@.used,
            ret.tx@ == old(self).txvq@.used,
            ret.interrupt == (ret.rx@.len() > 0),
            final(self).rxvq@ == (QueueView { used: Seq::empty(), ..old(self).rxvq@ }),
            final(self).txvq@ == (QueueView { used: Seq::empty(), ..old(self).txvq@ }),
            *final(self) == (VsockEpollHandler {
                rxvq: final(self).rxvq,
                txvq: final(self).txvq,
                ..*old(self)
            }),
    {
        let rx = self.rxvq.take_used();
        let tx = self.txvq.take_used();
        let interrupt = rx.len() > 0;
        UsedBuffers { rx, tx, interrupt }
    }

    /// Find out which file descriptor is to be read before a device event is handled, if any.
    pub fn event_fd(&self, device_event: u16) -> (ret: Option<i32>)
        ensures
            ret == (match crate::epoll_handler::queue_of(device_event) {
                Some(QueueEvent::Rx) => Some(self.rxvq_evt),
                Some(QueueEvent::Tx) => Some(self.txvq_evt),
                Some(QueueEvent::Ev) => Some(self.evq_evt),
                None => None,
            }),
    {
        match device_event {
            RX_QUEUE_EVENT => Some(self.rxvq_evt),
            TX_QUEUE_EVENT => Some(self.txvq_evt),
            EVENT_QUEUE_EVENT => Some(self.evq_evt),
            _ => None,
        }
    }

    /// Respond to a new event, coming from the main epoll loop. If there is a file descriptor to be
    /// read first, `res` is what that gave.
    pub fn handle_event(&self, device_event: u16, res: Result<u64, IoError>) -> (ret: Result<
        QueueWork,
        DeviceError,
    >)
        ensures
            ret == handled(device_event, res),
    {
        match device_event {
            RX_QUEUE_EVENT => match res {
                Ok(_) => Ok(QueueWork::ProcessRx),
                Err(e) => Err(QueueEvent::Rx.failed(e)),
            },
            TX_QUEUE_EVENT => match res {
                Ok(_) => Ok(QueueWork::ProcessTx),
                Err(e) => Err(QueueEvent::Tx.failed(e)),
            },
            EVENT_QUEUE_EVENT => match res {
                Ok(_) => Ok(QueueWork::Idle),
                Err(e) => Err(QueueEvent::Ev.failed(e)),
            },
            other => Err(DeviceError::UnknownEvent { device: "vsock", event: other }),
        }
    }
}

/// Whether the muxer knows what to do with a packet: it belongs to a connection, or asks for one.
pub open spec fn known(
    conns: Map<(u32, u32), crate::copying::muxer::VsockConnection>,
    hdr: crate::packet::VsockPacketHdr,
) -> bool {
    conns.contains_key((hdr.src_port, hdr.dst_port)) || hdr.op == crate::uapi::VSOCK_OP_REQUEST
}

/// Whether `step` is left to be taken for a packet that the muxer knows what to do with.
pub open spec fn sends(
    conns: Map<(u32, u32), crate::copying::muxer::VsockConnection>,
    hdr: crate::packet::VsockPacketHdr,
    buf: Seq<u8>,
    step: SendStep,
) -> bool {
    let key = (hdr.src_port, hdr.dst_port);
    if !conns.contains_key(key) {
        &&& step is Connect
        &&& step->Connect_0.path@ == crate::copying::muxer::host_path(hdr.dst_port)
        &&& step->Connect_0.local_port == hdr.src_port
        &&& step->Connect_0.remote_port == hdr.dst_port
    } else if hdr.op == crate::uapi::VSOCK_OP_RW && conns[key].remote is Some {
        &&& step is Write
        &&& step->Write_0.fd == conns[key].remote->0
        &&& step->Write_0.data@ == buf
    } else {
        step == SendStep::Done
    }
}

/// Chains that hold packets, after some that do not.
proof fn lemma_heads_after(avail: Seq<DescriptorChain>, n: int)
    requires
        0 <= n <= avail.len(),
        forall|i: int| 0 <= i < n ==> !crate::copying::chain::holds_packet(#[trigger] avail[i]),
    ensures
        tx_heads(avail) == tx_heads(avail.skip(n)),
    decreases n,
{
    if n == 0 {
        assert(avail.skip(0) =~= avail);
    } else {
        let rest = avail.skip(1);
        assert forall|i: int| 0 <= i < n - 1 implies !crate::copying::chain::holds_packet(
            #[trigger] rest[i],
        ) by {
            assert(rest[i] == avail[i + 1]);
        }
        lemma_heads_after(rest, n - 1);
        assert(rest.skip(n - 1) =~= avail.skip(n));
        assert(!crate::copying::chain::holds_packet(avail[0]));
    }
}

/// A walk of the TX queue sends the packets of all chains that hold one, each once, in the order of
/// the queue. Afterwards, no chain is left.
///
/// The walk takes `heads` from the queue, whose available chains so go through the states `avails`,
/// until nothing comes of it any more.
pub proof fn tx_walk_sends_everything(
    avails: Seq<Seq<DescriptorChain>>,
    heads: Seq<DescriptorChain>,
)
    requires
        avails.len() == heads.len() + 2,
        forall|i: int|
            0 <= i < heads.len() ==> tx_taken(avails[i], Some(#[trigger] heads[i]), avails[i + 1]),
        tx_taken(avails[heads.len() as int], None, avails[heads.len() as int + 1]),
    ensures
        heads == tx_heads(avails[0]),
        avails.last().len() == 0,
    decreases heads.len(),
{
    if heads.len() == 0 {
        let n = choose|n: int| #[trigger] tx_taken_at(avails[0], None, avails[1], n);
        lemma_heads_after(avails[0], n);
        assert(heads =~= tx_heads(avails[0]));
    } else {
        let later = avails.skip(1);
        let rest = heads.skip(1);
        assert(tx_taken(avails[0], Some(heads[0]), avails[1]));
        let n = choose|n: int| #[trigger] tx_taken_at(avails[0], Some(heads[0]), avails[1], n);
        lemma_heads_after(avails[0], n);
        assert(avails[0].skip(n)[0] == heads[0]);
        assert(avails[0].skip(n).skip(1) =~= avails[1]);
        assert forall|i: int| 0 <= i < rest.len() implies tx_taken(
            later[i],
            Some(#[trigger] rest[i]),
            later[i + 1],
        ) by {
            assert(tx_taken(avails[i + 1], Some(heads[i + 1]), avails[i + 1 + 1]));
        }
        assert(later[rest.len() as int] == avails[heads.len() as int]);
        assert(later[rest.len() as int + 1] == avails[heads.len() as int + 1]);
        tx_walk_sends_everything(later, rest);
        assert(heads =~= seq![heads[0]] + rest);
        assert(later.last() == avails.last());
    }
}

/// An event of the RX queue has that queue walked, and one of the TX queue has both walked, if its
/// counter could be read. Otherwise, it fails, telling of the queue. There are no other events than
/// those of the three queues.
pub proof fn events_are_handled(device_event: u16, counter: u64, e: IoError)
    ensures
        handled(0, Ok(counter)) == Ok::<QueueWork, DeviceError>(QueueWork::ProcessRx),
        handled(1, Ok(counter)) == Ok::<QueueWork, DeviceError>(QueueWork::ProcessTx),
        handled(2, Ok(counter)) == Ok::<QueueWork, DeviceError>(QueueWork::Idle),
        handled(0, Err(e)) == Err::<QueueWork, DeviceError>(
            DeviceError::FailedReadingQueue { event_type: "rx queue event", underlying: e },
        ),
        handled(1, Err(e)) == Err::<QueueWork, DeviceError>(
            DeviceError::FailedReadingQueue { event_type: "tx queue event", underlying: e },
        ),
        handled(2, Err(e)) == Err::<QueueWork, DeviceError>(
            DeviceError::FailedReadingQueue { event_type: "ev queue event", underlying: e },
        ),
        device_event > 2 ==> handled(device_event, Ok(counter)) == Err::<QueueWork, DeviceError>(
            DeviceError::UnknownEvent { device: "vsock", event: device_event },
        ) && handled(device_event, Err(e)) == handled(device_event, Ok(counter)),
{
}

/// A packet is taken from a TX queue in order: it is that of the first chain that holds one. All
/// chains before that are dropped.
pub proof fn tx_packets_are_taken_in_order(
    before: Seq<DescriptorChain>,
    head: Option<DescriptorChain>,
    after: Seq<DescriptorChain>,
)
    requires
        tx_taken(before, head, after),
    ensures
        head is None ==> after.len() == 0 && forall|i: int|
            0 <= i < before.len() ==> !crate::copying::chain::holds_packet(#[trigger] before[i]),
        head is Some ==> {
            let n = before.len() - after.len() - 1;
            &&& 0 <= n < before.len()
            &&& head->0 == before[n]
            &&& after == before.skip(n + 1)
            &&& crate::copying::chain::holds_packet(before[n])
            &&& forall|i: int|
                0 <= i < n ==> !crate::copying::chain::holds_packet(#[trigger] before[i])
        },
{
}

/// What is done for a packet from the guest: if it belongs to a connection, its data is written to
/// that connection's host stream. If it asks for one, the host socket for its port is connected to.
/// The guest's port is the one that the packet comes from.
pub proof fn packets_reach_their_streams(
    conns: Map<(u32, u32), crate::copying::muxer::VsockConnection>,
    hdr: crate::packet::VsockPacketHdr,
    buf: Seq<u8>,
    step: SendStep,
)
    requires
        sends(conns, hdr, buf, step),
        known(conns, hdr),
    ensures
        ({
            let key = (hdr.src_port, hdr.dst_port);
            let has_stream = conns.contains_key(key) && conns[key].remote is Some;
            &&& step is Connect <==> !conns.contains_key(key)
            &&& step is Connect ==> {
                &&& hdr.op == 1
                &&& step->Connect_0.local_port == hdr.src_port
                &&& step->Connect_0.remote_port == hdr.dst_port
                &&& step->Connect_0.path@ == crate::copying::muxer::host_path(hdr.dst_port)
            }
            &&& step is Write <==> hdr.op == 5 && has_stream
            &&& step is Write ==> {
                &&& step->Write_0.fd == conns[key].remote->0
                &&& step->Write_0.data@ == buf
            }
        }),
{
}

/// The muxer knows what to do with a packet just when it belongs to a connection, or is a request.
pub proof fn requests_and_connections_are_known(
    conns: Map<(u32, u32), crate::copying::muxer::VsockConnection>,
    hdr: crate::packet::VsockPacketHdr,
)
    ensures
        conns.contains_key((hdr.src_port, hdr.dst_port)) ==> known(conns, hdr),
        hdr.op == 1 ==> known(conns, hdr),
        !conns.contains_key((hdr.src_port, hdr.dst_port)) && hdr.op != 1 ==> !known(conns, hdr),
{
}

} // verus!
