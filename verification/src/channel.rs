//! What a vsock device asks of its backend.

use vstd::prelude::*;

use crate::events::EventSet;
use crate::packet::{PacketView, VsockPacket};

verus! {

/// Something that wants to be told of the events on a file descriptor.
pub trait VsockEpollListener: Sized {
    /// What is left to be done after an event.
    type Notified;

    /// Whether the listener is well formed.
    spec fn listener_wf(&self) -> bool;

    /// The file descriptor.
    spec fn polled_fd(&self) -> i32;

    /// The events that the listener wants to be told of.
    spec fn polled_evset(&self) -> EventSet;

    /// Whether telling `before` of events may leave it as `after`, with `ret` left to be done.
    spec fn notified(before: Self, evset: EventSet, after: Self, ret: Self::Notified) -> bool;

    /// Get the file descriptor.
    fn get_polled_fd(&self) -> (ret: i32)
        ensures
            ret == self.polled_fd(),
    ;

    /// Get the events that the listener wants to be told of.
    fn get_polled_evset(&self) -> (ret: EventSet)
        requires
            self.listener_wf(),
        ensures
            ret == self.polled_evset(),
    ;

    /// Tell the listener of events.
    fn notify(&mut self, evset: EventSet) -> (ret: Self::Notified)
        requires
            old(self).listener_wf(),
        ensures
            final(self).listener_wf(),
            Self::notified(*old(self), evset, *final(self), ret),
    ;
}

/// Something that exchanges packets with the guest.
pub trait VsockChannel: Sized {
    /// What is left to be done to receive a packet.
    type Recv;

    /// What is left to be done to send a packet.
    type Sent;

    /// Whether the channel is well formed.
    spec fn channel_wf(&self) -> bool;

    /// Whether `before` may give a packet at the time `now`, to be filled into `room`, and so
    /// become `after`, with the packet as `pkt`, and `ret` left to be done.
    spec fn received(
        before: Self,
        room: PacketView,
        now: u64,
        after: Self,
        pkt: PacketView,
        ret: Self::Recv,
    ) -> bool;

    /// Whether `before` may take the packet `pkt` at the time `now`, and so become `after`, with
    /// `ret` left to be done.
    spec fn sent(before: Self, pkt: PacketView, now: u64, after: Self, ret: Self::Sent) -> bool;

    /// Receive a packet for the guest, at the time `now`.
    fn recv_pkt(&mut self, pkt: &mut VsockPacket, now: u64) -> (ret: Self::Recv)
        requires
            old(self).channel_wf(),
            old(pkt)@.buf is Some,
        ensures
            final(self).channel_wf(),
            Self::received(*old(self), old(pkt)@, now, *final(self), final(pkt)@, ret),
    ;

    /// Send a packet from the guest, at the time `now`.
    fn send_pkt(&mut self, pkt: &VsockPacket, now: u64) -> (ret: Self::Sent)
        requires
            old(self).channel_wf(),
            pkt@.data_fits(),
        ensures
            final(self).channel_wf(),
            Self::sent(*old(self), pkt@, now, *final(self), ret),
    ;
}

/// The backend of a vsock device.
pub trait VsockBackend: VsockChannel + VsockEpollListener + Send {

}

} // verus!
