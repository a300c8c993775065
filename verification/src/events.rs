//! Sets of epoll events.

use vstd::prelude::*;

verus! {

/// The associated file is available for read operations.
pub const EPOLLIN: u32 = 0x001;

/// The associated file is available for write operations.
pub const EPOLLOUT: u32 = 0x004;

/// A set of epoll events, by their bits.
#[derive(Clone, Copy, Debug, PartialEq, Eq, Structural)]
pub struct EventSet {
    pub bits: u32,
}

/// Wrapper of `epoll::Events::contains`: whether all bits of `other` are set in `set`.
#[verifier::external_body]
fn events_contain(set: u32, other: u32) -> (ret: bool)
    ensures
        ret == (set & other == other),
{
    epoll::Events::from_bits_retain(set).contains(epoll::Events::from_bits_retain(other))
}

/// Wrapper of `epoll::Events::insert`: the bits that are set in `set` or in `other`.
#[verifier::external_body]
fn events_insert(set: u32, other: u32) -> (ret: u32)
    ensures
        ret == set | other,
{
    let mut events = epoll::Events::from_bits_retain(set);
    events.insert(epoll::Events::from_bits_retain(other));
    events.bits()
}

/// Wrapper of `epoll::Events::is_empty`: whether no bit is set.
#[verifier::external_body]
fn events_empty(set: u32) -> (ret: bool)
    ensures
        ret == (set == 0),
{
    epoll::Events::from_bits_retain(set).is_empty()
}

impl EventSet {
    /// The set that holds all the events in `bits`.
    pub open spec fn of(bits: u32) -> EventSet {
        EventSet { bits }
    }

    /// Whether the set holds all the events in `flags`.
    pub open spec fn has(self, flags: u32) -> bool {
        self.bits & flags == flags
    }

    /// The set with the events in `flags` added.
    pub open spec fn with(self, flags: u32) -> EventSet {
        EventSet { bits: self.bits | flags }
    }

    /// The set that holds no event.
    pub fn empty() -> (ret: EventSet)
        ensures
            ret == EventSet::of(0),
    {
        EventSet { bits: 0 }
    }

    /// Check if the set holds no event.
    pub fn is_empty(&self) -> (ret: bool)
        ensures
            ret == (*self == EventSet::of(0)),
    {
        events_empty(self.bits)
    }

    /// Check if the set holds all the events in `flags`.
    pub fn contains(&self, flags: u32) -> (ret: bool)
        ensures
            ret == self.has(flags),
    {
        events_contain(self.bits, flags)
    }

    /// Add the events in `flags`.
    pub fn insert(&mut self, flags: u32)
        ensures
            *final(self) == old(self).with(flags),
    {
        self.bits = events_insert(self.bits, flags);
    }
}

} // verus!
