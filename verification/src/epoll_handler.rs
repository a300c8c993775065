//! The handler of an activated device's events.

use vstd::prelude::*;

use crate::channel::VsockBackend;
use crate::defs::{BACKEND_EVENT, EVQ_EVENT, RXQ_EVENT, TXQ_EVENT};
use crate::desc::DescriptorChain;
use crate::error::{DeviceError, IoError, QueueEvent, VsockError};
use crate::packet::{PacketView, VsockPacket, VSOCK_PKT_HDR_SIZE};
use crate::queue::{QueueView, UsedDesc, VirtQueue};
use crate::virtio::VIRTIO_MMIO_INT_VRING;

verus! {

/// What an activated device runs on: its queues, the file descriptors of their events, and its
/// backend.
pub struct VsockEpollHandler<B> {
    pub rxvq: VirtQueue,
    pub rxvq_evt: i32,
    pub txvq: VirtQueue,
    pub txvq_evt: i32,
    pub evq: VirtQueue,
    pub evq_evt: i32,
    pub cid: u64,
    pub backend: B,
}

/// An RX queue buffer that the backend was asked to fill, with the packet as far as it is.
pub struct RxInFlight {
    pub head: DescriptorChain,
    pub pkt: VsockPacket,
}

/// How the walk of the RX queue buffers goes on.
#[derive(Debug)]
pub enum RxNext {
    /// The packet is to be written to the buffer with the given index. Then `process_rx` is to be
    /// called again.
    Again { index: u16, pkt: VsockPacket },
    /// The walk is over.
    Stop,
}

/// The buffers that the driver is to be told were used, and whether it is to be interrupted.
#[derive(Debug)]
pub struct UsedBuffers {
    pub rx: Vec<UsedDesc>,
    pub tx: Vec<UsedDesc>,
    pub interrupt: bool,
}

/// Whether the first `n` chains of an RX queue were taken: `head` is the last of them, and all
/// before it were malformed, and used unwritten. If there is no `head`, all chains of the queue
/// were.
pub open spec fn rx_taken_at(
    before: QueueView,
    head: Option<DescriptorChain>,
    after: QueueView,
    n: int,
) -> bool {
    &&& 0 <= n <= before.avail.len()
    &&& after.used == before.used + crate::queue::used_unwritten(before.avail.take(n))
    &&& forall|i: int| 0 <= i < n ==> crate::packet::rx_packet(#[trigger] before.avail[i]) is Err
    &&& match head {
        Some(head) => {
            &&& n < before.avail.len()
            &&& head == before.avail[n]
            &&& crate::packet::rx_packet(head) is Ok
            &&& after.avail == before.avail.skip(n + 1)
        },
        None => n == before.avail.len() && after.avail == Seq::<DescriptorChain>::empty(),
    }
}

/// Whether `head` was taken from an RX queue: the first chain that makes room for a packet. All
/// before it were used unwritten. If there is no such chain, none is left.
pub open spec fn rx_taken(
    before: QueueView,
    head: Option<DescriptorChain>,
    after: QueueView,
) -> bool {
    exists|n: int| #[trigger] rx_taken_at(before, head, after, n)
}

/// An RX queue, once the chain that was taken from it is settled: used, with a packet header and
/// `len` bytes of data written to it, or put back.
pub open spec fn rx_settled(
    queue: QueueView,
    head: DescriptorChain,
    len: u32,
    got: bool,
) -> QueueView {
    if got {
        queue.with_used(head.index, (len + VSOCK_PKT_HDR_SIZE) as u32)
    } else {
        queue.put_back(head)
    }
}

/// Whether the first `n` chains of a TX queue were taken, and used unwritten: the last of them
/// holds `pkt`, and all before it were malformed. If there is no `pkt`, all chains of the queue
/// were.
pub open spec fn tx_taken_at(
    before: QueueView,
    pkt: Option<PacketView>,
    after: QueueView,
    n: int,
) -> bool {
    &&& 0 <= n <= before.avail.len()
    &&& after.avail == before.avail.skip(n)
    &&& after.used == before.used + crate::queue::used_unwritten(before.avail.take(n))
    &&& match pkt {
        Some(pkt) => {
            &&& n > 0
            &&& crate::packet::tx_packet(before.avail[n - 1]) == Ok::<PacketView, VsockError>(pkt)
            &&& forall|i: int|
                0 <= i < n - 1 ==> crate::packet::tx_packet(#[trigger] before.avail[i]) is Err
        },
        None => {
            &&& n == before.avail.len()
            &&& forall|i: int|
                0 <= i < n ==> crate::packet::tx_packet(#[trigger] before.avail[i]) is Err
        },
    }
}

/// Whether `pkt` was taken from a TX queue: the first packet that its chains hold. That chain and
/// all before it were used. If there is no such packet, no chain is left.
pub open spec fn tx_taken(before: QueueView, pkt: Option<PacketView>, after: QueueView) -> bool {
    exists|n: int| #[trigger] tx_taken_at(before, pkt, after, n)
}

/// The packets that the chains of a TX queue hold, in the order of the queue.
pub open spec fn tx_packets(avail: Seq<DescriptorChain>) -> Seq<PacketView>
    decreases avail.len(),
{
    if avail.len() == 0 {
        Seq::empty()
    } else {
        match crate::packet::tx_packet(avail[0]) {
            Ok(pkt) => seq![pkt] + tx_packets(avail.skip(1)),
            Err(_) => tx_packets(avail.skip(1)),
        }
    }
}

/// One more chain is used unwritten.
proof fn lemma_unwritten(queue: QueueView, n: int)
    requires
        0 <= n < queue.avail.len(),
    ensures
        (queue.used + crate::queue::used_unwritten(queue.avail.take(n))).push(
            UsedDesc { index: queue.avail[n].index, len: 0 },
        ) == queue.used + crate::queue::used_unwritten(queue.avail.take(n + 1)),
{
    assert((queue.used + crate::queue::used_unwritten(queue.avail.take(n))).push(
        UsedDesc { index: queue.avail[n].index, len: 0 },
    ) =~= queue.used + crate::queue::used_unwritten(queue.avail.take(n + 1)));
}

/// The queue whose event is to be read to handle a device event, if there is one.
pub open spec fn queue_of(device_event: u16) -> Option<QueueEvent> {
    if device_event == RXQ_EVENT {
        Some(QueueEvent::Rx)
    } else if device_event == TXQ_EVENT {
        Some(QueueEvent::Tx)
    } else if device_event == EVQ_EVENT {
        Some(QueueEvent::Ev)
    } else {
        None
    }
}

/// The interrupt status that tells the driver of used buffers.
pub open spec fn status_with_vring(status: usize) -> usize {
    status | VIRTIO_MMIO_INT_VRING
}

impl<B: VsockBackend> VsockEpollHandler<B> {
    /// The file descriptor of a queue's event.
    pub open spec fn evt_of(&self, queue: QueueEvent) -> i32 {
        match queue {
            QueueEvent::Rx => self.rxvq_evt,
            QueueEvent::Tx => self.txvq_evt,
            QueueEvent::Ev => self.evq_evt,
        }
    }

    /// Get the interrupt status to be stored before the driver is signalled that we have used some
    /// virtio buffers that it had previously made available.
    pub fn irq_status(status: usize) -> (ret: usize)
        ensures
            ret == status_with_vring(status),
    {
        status | VIRTIO_MMIO_INT_VRING
    }

    /// Find out if the driver was signalled, from what writing the interrupt event gave.
    pub fn signal_used_queue(res: Result<(), IoError>) -> (ret: Result<(), DeviceError>)
        ensures
            ret == (match res {
                Ok(_) => Ok::<(), DeviceError>(()),
                Err(e) => Err::<(), DeviceError>(DeviceError::FailedSignalingUsedQueue(e)),
            }),
    {
        match res {
            Ok(_) => Ok(()),
            Err(e) => Err(DeviceError::FailedSignalingUsedQueue(e)),
        }
    }

    /// Walk the driver-provided RX queue buffers, and attempt to fill up the next one with any data
    /// that the backend has pending. Buffers that are malformed are returned to the driver
    /// unwritten.
    ///
    /// Once what the backend has left to be done is done, the outcome is to be handed to `rx_done`,
    /// which tells if this is to be called again. There is no buffer left if nothing comes back.
    pub fn process_rx(&mut self, now: u64) -> (ret: Option<(RxInFlight, B::Recv)>)
        requires
            old(self).rxvq@.wf(),
            old(self).backend.channel_wf(),
        ensures
            final(self).rxvq@.wf(),
            final(self).backend.channel_wf(),
            *final(self) == (VsockEpollHandler {
                rxvq: final(self).rxvq,
                backend: final(self).backend,
                ..*old(self)
            }),
            match ret {
                None => rx_taken(old(self).rxvq@, None, final(self).rxvq@) && final(self).backend
                    == old(self).backend,
                Some((rx, recv)) => {
                    &&& rx_taken(old(self).rxvq@, Some(rx.head), final(self).rxvq@)
                    &&& rx.head.wf()
                    &&& B::received(
                        old(self).backend,
                        crate::packet::rx_packet(rx.head)->Ok_0,
                        now,
                        final(self).backend,
                        rx.pkt@,
                        recv,
                    )
                },
            },
    {
        let ghost before = self.rxvq@;
        let ghost mut n: int = 0;
        proof {
            assert(before.avail.skip(0) =~= before.avail);
            assert(before.used + crate::queue::used_unwritten(before.avail.take(0))
                =~= before.used);
        }
        while self.rxvq.avail_len() > 0
            invariant
                0 <= n <= before.avail.len(),
                before == old(self).rxvq@,
                before.wf(),
                old(self).backend.channel_wf(),
                *self == (VsockEpollHandler { rxvq: self.rxvq, ..*old(self) }),
                self.rxvq@.avail == before.avail.skip(n),
                self.rxvq@.used == before.used + crate::queue::used_unwritten(before.avail.take(n)),
                forall|i: int|
                    0 <= i < n ==> crate::packet::rx_packet(#[trigger] before.avail[i]) is Err,
            decreases before.avail.len() - n,
        {
            let head = match self.rxvq.pop() {
                Some(head) => head,
                None => return None,
            };
            assert(head == before.avail[n]);
            assert(before.avail.skip(n).skip(1) =~= before.avail.skip(n + 1));
            match VsockPacket::from_rx_virtq_head(&head) {
                Ok(pkt) => {
                    let mut pkt = pkt;
                    let recv = self.backend.recv_pkt(&mut pkt, now);
                    proof {
                        assert(rx_taken_at(before, Some(head), self.rxvq@, n));
                    }
                    return Some((RxInFlight { head, pkt }, recv));
                },
                Err(_) => {
                    self.rxvq.add_used(head.index, 0);
                    proof {
                        lemma_unwritten(before, n);
                        n = n + 1;
                    }
                },
            }
        }
        assert(self.rxvq@.avail =~= Seq::<DescriptorChain>::empty());
        assert(rx_taken_at(before, None, self.rxvq@, n));
        None
    }

    /// Settle an RX queue buffer: if the backend had a packet for it, the buffer is returned to the
    /// driver, with that packet in it. Otherwise, it is put back into the queue, and the walk is
    /// over.
    pub fn rx_done(&mut self, rx: RxInFlight, got: bool) -> (ret: RxNext)
        requires
            old(self).rxvq@.wf(),
            rx.head.wf(),
            got ==> rx.pkt@.hdr.len + VSOCK_PKT_HDR_SIZE <= u32::MAX,
        ensures
            final(self).rxvq@.wf(),
            *final(self) == (VsockEpollHandler { rxvq: final(self).rxvq, ..*old(self) }),
            final(self).rxvq@ == rx_settled(old(self).rxvq@, rx.head, rx.pkt@.hdr.len, got),
            ret == (if got {
                RxNext::Again { index: rx.head.index, pkt: rx.pkt }
            } else {
                RxNext::Stop
            }),
    {
        if got {
            let len: u32 = rx.pkt.hdr.get().len + VSOCK_PKT_HDR_SIZE as u32;
            self.rxvq.add_used(rx.head.index, len);
            RxNext::Again { index: rx.head.index, pkt: rx.pkt }
        } else {
            self.rxvq.go_to_previous_position(rx.head);
            RxNext::Stop
        }
    }

    /// Walk the driver-provided TX queue buffers, package up the next one as a vsock packet, and
    /// send it to the backend for processing. All buffers are returned to the driver, those that
    /// are malformed, too.
    ///
    /// Once what the backend has left to be done is done, this is to be called again. There is no
    /// buffer left if nothing comes back.
    pub fn process_tx(&mut self, now: u64) -> (ret: Option<B::Sent>)
        requires
            old(self).txvq@.wf(),
            old(self).backend.channel_wf(),
        ensures
            final(self).txvq@.wf(),
            final(self).backend.channel_wf(),
            *final(self) == (VsockEpollHandler {
                txvq: final(self).txvq,
                backend: final(self).backend,
                ..*old(self)
            }),
            match ret {
                None => tx_taken(old(self).txvq@, None, final(self).txvq@) && final(self).backend
                    == old(self).backend,
                Some(sent) => exists|pkt: PacketView|
                    {
                        &&& #[trigger] tx_taken(old(self).txvq@, Some(pkt), final(self).txvq@)
                        &&& B::sent(old(self).backend, pkt, now, final(self).backend, sent)
                    },
            },
    {
        let ghost before = self.txvq@;
        let ghost mut n: int = 0;
        proof {
            assert(before.avail.skip(0) =~= before.avail);
            assert(before.used + crate::queue::used_unwritten(before.avail.take(0))
                =~= before.used);
        }
        while self.txvq.avail_len() > 0
            invariant
                0 <= n <= before.avail.len(),
                before == old(self).txvq@,
                before.wf(),
                old(self).backend.channel_wf(),
                *self == (VsockEpollHandler { txvq: self.txvq, ..*old(self) }),
                self.txvq@.avail == before.avail.skip(n),
                self.txvq@.used == before.used + crate::queue::used_unwritten(before.avail.take(n)),
                forall|i: int|
                    0 <= i < n ==> crate::packet::tx_packet(#[trigger] before.avail[i]) is Err,
            decreases before.avail.len() - n,
        {
            let head = match self.txvq.pop() {
                Some(head) => head,
                None => return None,
            };
            assert(head == before.avail[n]);
            assert(before.avail.skip(n).skip(1) =~= before.avail.skip(n + 1));
            self.txvq.add_used(head.index, 0);
            proof {
                lemma_unwritten(before, n);
            }
            if let Ok(pkt) = VsockPacket::from_tx_virtq_head(&head) {
                proof {
                    crate::packet::tx_packet_holds_its_data(head);
                }
                let sent = self.backend.send_pkt(&pkt, now);
                proof {
                    assert(tx_taken_at(before, Some(pkt@), self.txvq@, n + 1));
                    assert(tx_taken(before, Some(pkt@), self.txvq@));
                }
                return Some(sent);
            }
            proof {
                n = n + 1;
            }
        }
        assert(tx_taken_at(before, None, self.txvq@, n));
        None
    }

    /// Get the buffers that the driver has yet to be told were used, once the queues were walked.
    /// It is to be interrupted if and only if there are any.
    pub fn take_used(&mut self) -> (ret: UsedBuffers)
        ensures
            ret.rx@ == old(self).rxvq@.used,
            ret.tx@ == old(self).txvq@.used,
            ret.interrupt == (ret.rx@.len() > 0 || ret.tx@.len() > 0),
            final(self).rxvq@ == (QueueView { used: Seq::empty(), ..old(self).rxvq@ }),
            final(self).txvq@ == (QueueView { used: Seq::empty(), ..old(self).txvq@ }),
            *final(self) == (VsockEpollHandler {
                rxvq: final(self).rxvq,
                txvq: final(self).txvq,
                ..*old(self)
            }),
    {
        let rx = self.rxvq.take_used();
        let tx = self.txvq.take_used();
        let interrupt = rx.len() > 0 || tx.len() > 0;
        UsedBuffers { rx, tx, interrupt }
    }

    /// Find out which file descriptor is to be read before a device event is handled, if any.
    pub fn event_fd(&self, device_event: u16) -> (ret: Option<i32>)
        ensures
            ret == (match queue_of(device_event) {
                Some(queue) => Some(self.evt_of(queue)),
                None => None,
            }),
    {
        match device_event {
            RXQ_EVENT => Some(self.rxvq_evt),
            TXQ_EVENT => Some(self.txvq_evt),
            EVQ_EVENT => Some(self.evq_evt),
            _ => None,
        }
    }

    /// Respond to a new event, coming from the main epoll loop. If there is a file descriptor to be
    /// read first, `res` is what that gave.
    pub fn handle_event(&mut self, device_event: u16, res: Result<u64, IoError>) -> (ret: Result<
        (),
        DeviceError,
    >)
        ensures
            *final(self) == *old(self),
            ret == handled(device_event, res),
    {
        match device_event {
            RXQ_EVENT => {
                if let Err(e) = res {
                    return Err(QueueEvent::Rx.failed(e));
                }
            },
            TXQ_EVENT => {
                if let Err(e) = res {
                    return Err(QueueEvent::Tx.failed(e));
                }
            },
            EVQ_EVENT => {
                if let Err(e) = res {
                    return Err(QueueEvent::Ev.failed(e));
                }
            },
            BACKEND_EVENT => (),
            other => {
                return Err(DeviceError::UnknownEvent { device: "vsock", event: other });
            },
        }
        Ok(())
    }
}

/// What handling a device event gives, if reading the event of its queue gave `res`.
pub open spec fn handled(device_event: u16, res: Result<u64, IoError>) -> Result<(), DeviceError> {
    match queue_of(device_event) {
        Some(queue) => match res {
            Ok(_) => Ok(()),
            Err(underlying) => Err(
                DeviceError::FailedReadingQueue { event_type: queue.name(), underlying },
            ),
        },
        None => if device_event == BACKEND_EVENT {
            Ok(())
        } else {
            Err(DeviceError::UnknownEvent { device: "vsock", event: device_event })
        },
    }
}

/// Packets skipped over a malformed prefix of a queue's chains.
proof fn lemma_packets_after(avail: Seq<DescriptorChain>, n: int)
    requires
        0 <= n <= avail.len(),
        forall|i: int| 0 <= i < n ==> crate::packet::tx_packet(#[trigger] avail[i]) is Err,
    ensures
        tx_packets(avail) == tx_packets(avail.skip(n)),
    decreases n,
{
    if n == 0 {
        assert(avail.skip(0) =~= avail);
    } else {
        let rest = avail.skip(1);
        assert forall|i: int| 0 <= i < n - 1 implies crate::packet::tx_packet(
            #[trigger] rest[i],
        ) is Err by {
            assert(rest[i] == avail[i + 1]);
        }
        lemma_packets_after(rest, n - 1);
        assert(rest.skip(n - 1) =~= avail.skip(n));
        assert(crate::packet::tx_packet(avail[0]) is Err);
    }
}

/// Taking a packet from a TX queue takes the first of its packets, and has chains used in order.
proof fn lemma_tx_taken(before: QueueView, pkt: Option<PacketView>, after: QueueView)
    requires
        tx_taken(before, pkt, after),
    ensures
        crate::queue::advanced(before, after),
        tx_packets(before.avail) == (match pkt {
            Some(pkt) => seq![pkt] + tx_packets(after.avail),
            None => Seq::empty(),
        }),
        pkt is None ==> after.avail.len() == 0,
{
    let n = choose|n: int| #[trigger] tx_taken_at(before, pkt, after, n);
    assert(before.used.is_prefix_of(after.used)) by {
        assert(before.used =~= after.used.subrange(0, before.used.len() as int));
    }
    match pkt {
        Some(p) => {
            lemma_packets_after(before.avail, n - 1);
            let rest = before.avail.skip(n - 1);
            assert(rest[0] == before.avail[n - 1]);
            assert(rest.skip(1) =~= before.avail.skip(n));
        },
        None => {
            lemma_packets_after(before.avail, n);
        },
    }
}

/// A walk of the TX queue makes each of its chains into a packet, but for malformed ones, and sends
/// each packet once, in the order of the queue. Afterwards, no chain is left, and each was used,
/// once and in that order.
///
/// The walk takes `pkts` from the queue, which so goes through the states `queues`, until nothing
/// comes of it any more.
pub proof fn tx_walk_sends_everything(queues: Seq<QueueView>, pkts: Seq<PacketView>)
    requires
        queues.len() == pkts.len() + 2,
        forall|i: int|
            0 <= i < pkts.len() ==> tx_taken(queues[i], Some(#[trigger] pkts[i]), queues[i + 1]),
        tx_taken(queues[pkts.len() as int], None, queues[pkts.len() as int + 1]),
    ensures
        pkts == tx_packets(queues[0].avail),
        queues.last().avail.len() == 0,
        crate::queue::advanced(queues[0], queues.last()),
    decreases pkts.len(),
{
    if pkts.len() == 0 {
        lemma_tx_taken(queues[0], None, queues[1]);
        assert(pkts =~= tx_packets(queues[0].avail));
    } else {
        let later = queues.skip(1);
        let rest = pkts.skip(1);
        assert(tx_taken(queues[0], Some(pkts[0]), queues[1]));
        lemma_tx_taken(queues[0], Some(pkts[0]), queues[1]);
        assert forall|i: int| 0 <= i < rest.len() implies tx_taken(
            later[i],
            Some(#[trigger] rest[i]),
            later[i + 1],
        ) by {
            assert(tx_taken(queues[i + 1], Some(pkts[i + 1]), queues[i + 1 + 1]));
        }
        assert(later[rest.len() as int] == queues[pkts.len() as int]);
        assert(later[rest.len() as int + 1] == queues[pkts.len() as int + 1]);
        tx_walk_sends_everything(later, rest);
        assert(pkts =~= seq![pkts[0]] + rest);
        assert(later.last() == queues.last());
        crate::queue::lemma_advanced_twice(queues[0], queues[1], queues.last());
    }
}

/// Taking a chain from an RX queue has those before it used in order.
proof fn lemma_rx_taken(before: QueueView, head: Option<DescriptorChain>, after: QueueView)
    requires
        rx_taken(before, head, after),
    ensures
        head is None ==> crate::queue::advanced(before, after) && after.avail.len() == 0,
        head is Some ==> {
            let index = head->0.index;
            &&& forall|len: u32| crate::queue::advanced(before, #[trigger] after.with_used(index, len))
            &&& crate::queue::advanced(before, after.put_back(head->0))
        },
{
    let n = choose|n: int| #[trigger] rx_taken_at(before, head, after, n);
    let old_len = before.used.len() as int;
    assert(before.used =~= after.used.subrange(0, old_len));
    match head {
        None => {
            assert(after.avail =~= before.avail.skip(n));
        },
        Some(head) => {
            assert forall|len: u32| crate::queue::advanced(
                before,
                #[trigger] after.with_used(head.index, len),
            ) by {
                let next = after.with_used(head.index, len);
                assert(before.used =~= next.used.subrange(0, old_len));
            }
            assert(after.put_back(head).avail =~= before.avail.skip(n));
        },
    }
}

/// Whether a round of the RX queue's walk took `head` from the queue, and settled it.
pub open spec fn rx_round(
    before: QueueView,
    head: DescriptorChain,
    len: u32,
    got: bool,
    after: QueueView,
) -> bool {
    exists|taken: QueueView| #[trigger]
        rx_taken(before, Some(head), taken) && after == rx_settled(taken, head, len, got)
}

/// A walk of the RX queue fills its chains, each once and in the order of the queue, until either
/// no chain is left, or the backend has nothing more. In the latter case, the chain that could not
/// be filled is still the next one.
///
/// Each round `i` of the walk takes `heads[i]`, for which the backend has a packet with `lens[i]`
/// bytes of data, and so the queue goes through the states `queues`. Then either no chain is taken
/// any more, or the backend has nothing for `missed`.
pub proof fn rx_walk_fills_until_done(
    queues: Seq<QueueView>,
    heads: Seq<DescriptorChain>,
    lens: Seq<u32>,
    missed: Option<DescriptorChain>,
)
    requires
        queues.len() == heads.len() + 2,
        lens.len() == heads.len(),
        forall|i: int|
            0 <= i < heads.len() ==> rx_round(
                queues[i],
                #[trigger] heads[i],
                lens[i],
                true,
                queues[i + 1],
            ),
        match missed {
            None => rx_taken(queues[heads.len() as int], None, queues[heads.len() as int + 1]),
            Some(head) => rx_round(
                queues[heads.len() as int],
                head,
                0,
                false,
                queues[heads.len() as int + 1],
            ),
        },
    ensures
        crate::queue::advanced(queues[0], queues.last()),
        match missed {
            None => queues.last().avail.len() == 0,
            Some(head) => queues.last().avail.len() > 0 && queues.last().avail[0] == head,
        },
        forall|i: int|
            0 <= i < heads.len() ==> queues[i + 1].used.last() == (UsedDesc {
                index: (#[trigger] heads[i]).index,
                len: (lens[i] + VSOCK_PKT_HDR_SIZE) as u32,
            }),
    decreases heads.len(),
{
    if heads.len() == 0 {
        match missed {
            None => lemma_rx_taken(queues[0], None, queues[1]),
            Some(head) => {
                let taken = choose|taken: QueueView| #[trigger]
                    rx_taken(queues[0], Some(head), taken) && queues[1] == rx_settled(
                        taken,
                        head,
                        0,
                        false,
                    );
                lemma_rx_taken(queues[0], Some(head), taken);
            },
        }
    } else {
        let later = queues.skip(1);
        let rest = heads.skip(1);
        let more = lens.skip(1);
        assert(rx_round(queues[0], heads[0], lens[0], true, queues[1]));
        let taken = choose|taken: QueueView| #[trigger]
            rx_taken(queues[0], Some(heads[0]), taken) && queues[1] == rx_settled(
                taken,
                heads[0],
                lens[0],
                true,
            );
        lemma_rx_taken(queues[0], Some(heads[0]), taken);
        assert forall|i: int| 0 <= i < rest.len() implies rx_round(
            later[i],
            #[trigger] rest[i],
            more[i],
            true,
            later[i + 1],
        ) by {
            assert(rx_round(queues[i + 1], heads[i + 1], lens[i + 1], true, queues[i + 1 + 1]));
        }
        assert(later[rest.len() as int] == queues[heads.len() as int]);
        assert(later[rest.len() as int + 1] == queues[heads.len() as int + 1]);
        rx_walk_fills_until_done(later, rest, more, missed);
        assert(later.last() == queues.last());
        crate::queue::lemma_advanced_twice(queues[0], queues[1], queues.last());
        assert forall|i: int| 0 <= i < heads.len() implies queues[i + 1].used.last() == (UsedDesc {
            index: (#[trigger] heads[i]).index,
            len: (lens[i] + VSOCK_PKT_HDR_SIZE) as u32,
        }) by {
            if i > 0 {
                assert(rest[i - 1] == heads[i]);
                assert(later[i - 1 + 1] == queues[i + 1]);
            }
        }
    }
}

/// An event of one of the queues is handled if its counter could be read, and fails otherwise,
/// telling of the queue. An event of the backend is handled in any case. There are no other events.
pub proof fn events_are_handled(device_event: u16, counter: u64, e: IoError)
    ensures
        device_event <= 3 ==> handled(device_event, Ok(counter)) == Ok::<(), DeviceError>(()),
        handled(0, Err(e)) == Err::<(), DeviceError>(
            DeviceError::FailedReadingQueue { event_type: "rx queue event", underlying: e },
        ),
        handled(1, Err(e)) == Err::<(), DeviceError>(
            DeviceError::FailedReadingQueue { event_type: "tx queue event", underlying: e },
        ),
        handled(2, Err(e)) == Err::<(), DeviceError>(
            DeviceError::FailedReadingQueue { event_type: "ev queue event", underlying: e },
        ),
        handled(3, Err(e)) == Ok::<(), DeviceError>(()),
        device_event > 3 ==> handled(device_event, Ok(counter)) == Err::<(), DeviceError>(
            DeviceError::UnknownEvent { device: "vsock", event: device_event },
        ) && handled(device_event, Err(e)) == handled(device_event, Ok(counter)),
{
}

/// The event descriptor that is read for an event is that of the event's queue.
pub proof fn events_are_read_from_their_queues<B: VsockBackend>(handler: VsockEpollHandler<B>)
    ensures
        queue_of(0) is Some && handler.evt_of(queue_of(0)->0) == handler.rxvq_evt,
        queue_of(1) is Some && handler.evt_of(queue_of(1)->0) == handler.txvq_evt,
        queue_of(2) is Some && handler.evt_of(queue_of(2)->0) == handler.evq_evt,
        forall|event: u16| event > 2 ==> (#[trigger] queue_of(event)) is None,
{
}

/// Telling the driver of used buffers sets the lowest bit of the interrupt status, and no other.
pub proof fn interrupt_status_tells_of_used_buffers(status: usize, mask: usize)
    requires
        mask & 1 == 0,
    ensures
        status_with_vring(status) & 1 == 1,
        status_with_vring(status) & mask == status & mask,
{
    assert((status | 1) & 1 == 1 && (status | 1) & mask == status & mask) by (bit_vector)
        requires
            mask & 1 == 0,
    ;
}

/// An RX buffer that was filled is used, with the length of the header and the data. One that was
/// not is the next one again.
pub proof fn filled_buffer_is_used(queue: QueueView, head: DescriptorChain, len: u32)
    requires
        len + 44 <= u32::MAX,
    ensures
        rx_settled(queue, head, len, true).avail == queue.avail,
        rx_settled(queue, head, len, true).used == queue.used.push(
            UsedDesc { index: head.index, len: (len + 44) as u32 },
        ),
        rx_settled(queue, head, len, false).avail == seq![head] + queue.avail,
        rx_settled(queue, head, len, false).used == queue.used,
{
}

/// A packet is taken from a TX queue in order: it is that of the first chain that holds one. That
/// chain and all before it are used, in order and with no bytes written to them.
pub proof fn tx_packets_are_taken_in_order(
    before: QueueView,
    pkt: Option<PacketView>,
    after: QueueView,
)
    requires
        tx_taken(before, pkt, after),
    ensures
        crate::queue::advanced(before, after),
        forall|i: int|
            before.used.len() <= i < after.used.len() ==> (#[trigger] after.used[i]).len == 0,
        ({
            let n = after.used.len() - before.used.len();
            let bad = if pkt is Some {
                n - 1
            } else {
                n
            };
            &&& forall|i: int|
                0 <= i < bad ==> crate::packet::tx_packet(#[trigger] before.avail[i]) is Err
            &&& pkt is Some ==> n > 0 && crate::packet::tx_packet(before.avail[n - 1]) == Ok::<
                PacketView,
                VsockError,
            >(pkt->0)
            &&& pkt is None ==> after.avail.len() == 0
        }),
{
    lemma_tx_taken(before, pkt, after);
    let n = choose|n: int| #[trigger] tx_taken_at(before, pkt, after, n);
    crate::queue::unwritten_chains_have_no_bytes(before.avail.take(n));
    assert forall|i: int| before.used.len() <= i < after.used.len() implies (
    #[trigger] after.used[i]).len == 0 by {
        let used = crate::queue::used_unwritten(before.avail.take(n));
        assert(after.used[i] == used[i - before.used.len()]);
    }
}

/// A buffer is taken from an RX queue in order: it is the first chain that has room for a packet.
/// All before it are used, in order and with no bytes written to them.
pub proof fn rx_buffers_are_taken_in_order(
    before: QueueView,
    head: Option<DescriptorChain>,
    after: QueueView,
)
    requires
        rx_taken(before, head, after),
    ensures
        ({
            let n = after.used.len() - before.used.len();
            &&& 0 <= n <= before.avail.len()
            &&& before.used.is_prefix_of(after.used)
            &&& forall|i: int|
                0 <= i < n ==> {
                    &&& crate::packet::rx_packet(#[trigger] before.avail[i]) is Err
                    &&& after.used[before.used.len() + i].index == before.avail[i].index
                    &&& after.used[before.used.len() + i].len == 0
                }
            &&& head is Some ==> {
                &&& n < before.avail.len()
                &&& head->0 == before.avail[n]
                &&& crate::packet::rx_packet(head->0) is Ok
                &&& after.avail == before.avail.skip(n + 1)
            }
            &&& head is None ==> n == before.avail.len() && after.avail.len() == 0
        }),
{
    let n = choose|n: int| #[trigger] rx_taken_at(before, head, after, n);
    let used = crate::queue::used_unwritten(before.avail.take(n));
    crate::queue::unwritten_chains_have_no_bytes(before.avail.take(n));
    assert(before.used =~= after.used.subrange(0, before.used.len() as int));
    assert forall|i: int| 0 <= i < n implies {
        &&& crate::packet::rx_packet(#[trigger] before.avail[i]) is Err
        &&& after.used[before.used.len() + i].index == before.avail[i].index
        &&& after.used[before.used.len() + i].len == 0
    } by {
        assert(after.used[before.used.len() + i] == used[i]);
    }
}

} // verus!
