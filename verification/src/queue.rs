//! Virtio queues, as far as the device works on them: the descriptor chains that the driver has
//! made available, and those that are to be returned to it as used.

use std::collections::VecDeque;

use vstd::prelude::*;

use crate::desc::DescriptorChain;

verus! {

/// A descriptor chain that the driver is to be told was used, with this many bytes written to it.
#[derive(Clone, Copy, Debug, PartialEq, Eq, Structural)]
pub struct UsedDesc {
    /// Index of the chain's first descriptor.
    pub index: u16,
    /// Number of bytes written to the chain's buffers.
    pub len: u32,
}

/// What a queue holds.
#[verifier::ext_equal]
pub struct QueueView {
    /// The available chains, next one first.
    pub avail: Seq<DescriptorChain>,
    /// The used chains, first one first.
    pub used: Seq<UsedDesc>,
}

impl QueueView {
    /// The available chains are well formed.
    pub open spec fn wf(self) -> bool {
        forall|i: int| 0 <= i < self.avail.len() ==> (#[trigger] self.avail[i]).wf()
    }

    /// The queue without its next chain.
    pub open spec fn popped(self) -> QueueView {
        QueueView { avail: self.avail.skip(1), ..self }
    }

    /// The queue with a chain put back in front.
    pub open spec fn put_back(self, head: DescriptorChain) -> QueueView {
        QueueView { avail: seq![head] + self.avail, ..self }
    }

    /// The queue with another used chain.
    pub open spec fn with_used(self, index: u16, len: u32) -> QueueView {
        QueueView { used: self.used.push(UsedDesc { index, len }), ..self }
    }
}

/// A virtio queue.
pub struct VirtQueue {
    avail: VecDeque<DescriptorChain>,
    used: Vec<UsedDesc>,
}

impl View for VirtQueue {
    type V = QueueView;

    closed spec fn view(&self) -> QueueView {
        QueueView { avail: self.avail@, used: self.used@ }
    }
}

impl VirtQueue {
    /// Create a queue with no chains.
    pub fn new() -> (ret: VirtQueue)
        ensures
            ret@ == (QueueView { avail: Seq::empty(), used: Seq::empty() }),
    {
        VirtQueue { avail: VecDeque::new(), used: Vec::new() }
    }

    /// Take in a chain that the driver has made available.
    pub fn add_avail(&mut self, head: DescriptorChain)
        ensures
            final(self)@ == (QueueView { avail: old(self)@.avail.push(head), ..old(self)@ }),
    {
        self.avail.push_back(head);
    }

    /// Get the number of available chains.
    pub fn avail_len(&self) -> (ret: usize)
        ensures
            ret == self@.avail.len(),
    {
        self.avail.len()
    }

    /// Take the next available chain.
    pub fn pop(&mut self) -> (ret: Option<DescriptorChain>)
        ensures
            old(self)@.avail.len() == 0 ==> ret is None && final(self)@ == old(self)@,
            old(self)@.avail.len() > 0 ==> ret == Some(old(self)@.avail[0]) && final(self)@ == old(
                self,
            )@.popped(),
    {
        let ghost before = self.avail@;
        let ret = self.avail.pop_front();
        if ret.is_some() {
            assert(self.avail@ =~= before.skip(1));
        }
        ret
    }

    /// Put back the chain that was taken last.
    pub fn go_to_previous_position(&mut self, head: DescriptorChain)
        ensures
            final(self)@ == old(self)@.put_back(head),
    {
        let ghost before = self.avail@;
        self.avail.push_front(head);
        assert(self.avail@ =~= seq![head] + before);
    }

    /// Have a chain returned to the driver as used.
    pub fn add_used(&mut self, index: u16, len: u32)
        ensures
            final(self)@ == old(self)@.with_used(index, len),
    {
        self.used.push(UsedDesc { index, len });
    }

    /// Get the used chains that the driver has yet to be told of.
    pub fn take_used(&mut self) -> (ret: Vec<UsedDesc>)
        ensures
            ret@ == old(self)@.used,
            final(self)@ == (QueueView { used: Seq::empty(), ..old(self)@ }),
    {
        let mut ret: Vec<UsedDesc> = Vec::new();
        ret.append(&mut self.used);
        ret
    }
}

/// The used chains that some chains become, if nothing is written to any of them.
pub open spec fn used_unwritten(chains: Seq<DescriptorChain>) -> Seq<UsedDesc> {
    chains.map_values(|head: DescriptorChain| UsedDesc { index: head.index, len: 0 })
}

/// Whether a queue got from `before` to `after` by having its next chains used, each once and in
/// the order of the queue.
pub open spec fn advanced(before: QueueView, after: QueueView) -> bool {
    let n = after.used.len() - before.used.len();
    &&& 0 <= n <= before.avail.len()
    &&& after.avail == before.avail.skip(n)
    &&& before.used.is_prefix_of(after.used)
    &&& forall|i: int|
        0 <= i < n ==> (#[trigger] after.used[before.used.len() + i]).index
            == before.avail[i].index
}

/// Chains that are used in two goes are used in the order of the queue.
pub proof fn lemma_advanced_twice(before: QueueView, mid: QueueView, after: QueueView)
    requires
        advanced(before, mid),
        advanced(mid, after),
    ensures
        advanced(before, after),
{
    let m = mid.used.len() - before.used.len();
    let n = after.used.len() - mid.used.len();
    assert(before.avail.skip(m).skip(n) =~= before.avail.skip(m + n));
    assert(before.used.is_prefix_of(after.used)) by {
        assert forall|i: int| 0 <= i < before.used.len() implies before.used[i] == after.used[i] by {
            assert(mid.used[i] == before.used[i]);
            assert(after.used[i] == mid.used[i]);
        }
        assert(before.used =~= after.used.subrange(0, before.used.len() as int));
    }
    assert forall|i: int| 0 <= i < m + n implies (#[trigger] after.used[before.used.len()
        + i]).index == before.avail[i].index by {
        if i < m {
            assert(after.used[before.used.len() + i] == mid.used[before.used.len() + i]);
        } else {
            assert(after.used[mid.used.len() + (i - m)].index == mid.avail[i - m].index);
        }
    }
}

/// The driver's chains are taken in the order in which they were made available. One that is put
/// back is the next one again. Used chains are returned in the order in which they were used.
pub proof fn chains_are_taken_in_order(
    queue: QueueView,
    head: DescriptorChain,
    index: u16,
    len: u32,
)
    requires
        queue.avail.len() > 0,
    ensures
        queue.avail == seq![queue.avail[0]] + queue.popped().avail,
        queue.popped().used == queue.used,
        queue.put_back(head).avail == seq![head] + queue.avail,
        queue.put_back(head).used == queue.used,
        queue.popped().put_back(queue.avail[0]) == queue,
        queue.with_used(index, len).used == queue.used.push(UsedDesc { index, len }),
        queue.with_used(index, len).avail == queue.avail,
{
    assert(queue.avail =~= seq![queue.avail[0]] + queue.popped().avail);
    assert(queue.popped().put_back(queue.avail[0]) =~= queue);
}

/// Chains that are used unwritten are returned with no bytes, each under its own index.
pub proof fn unwritten_chains_have_no_bytes(chains: Seq<DescriptorChain>)
    ensures
        used_unwritten(chains).len() == chains.len(),
        forall|i: int|
            0 <= i < chains.len() ==> {
                &&& (#[trigger] used_unwritten(chains)[i]).index == chains[i].index
                &&& used_unwritten(chains)[i].len == 0
            },
{
}

} // verus!
