//! What a connection still has to tell its peer.

use vstd::prelude::*;

verus! {

/// A kind of RX (host -> guest) packet that a connection can owe its peer.
#[derive(Clone, Copy, Debug, PartialEq, Eq, Structural)]
pub enum PendingRx {
    /// A connection request.
    Request,
    /// A connection response.
    Response,
    /// A forceful termination.
    Rst,
    /// Data.
    Rw,
    /// A credit update.
    CreditUpdate,
}

impl PendingRx {
    /// The bit that stands for this kind.
    pub open spec fn mask(self) -> u16 {
        match self {
            PendingRx::Request => 1,
            PendingRx::Response => 2,
            PendingRx::Rst => 4,
            PendingRx::Rw => 8,
            PendingRx::CreditUpdate => 16,
        }
    }

    /// Get the bit that stands for this kind.
    pub fn into_mask(self) -> (ret: u16)
        ensures
            ret == self.mask(),
    {
        match self {
            PendingRx::Request => 1,
            PendingRx::Response => 2,
            PendingRx::Rst => 4,
            PendingRx::Rw => 8,
            PendingRx::CreditUpdate => 16,
        }
    }
}

/// How setting and clearing bit `m` affects bit `k`.
proof fn lemma_bits(data: u16, m: u16, k: u16)
    by (bit_vector)
    requires
        m == 1 || m == 2 || m == 4 || m == 8 || m == 16,
        k == 1 || k == 2 || k == 4 || k == 8 || k == 16,
        data < 32,
    ensures
        ((data | m) & k != 0) == (data & k != 0 || m == k),
        ((data & !m) & k != 0) == (data & k != 0 && m != k),
        (m & k != 0) == (m == k),
        data | m < 32,
        data & !m < 32,
{
}

/// A set of kinds of RX packets.
#[derive(Debug)]
pub struct PendingRxSet {
    data: u16,
}

impl View for PendingRxSet {
    type V = Set<PendingRx>;

    closed spec fn view(&self) -> Set<PendingRx> {
        Set::new(|it: PendingRx| self.data & it.mask() != 0)
    }
}

impl PendingRxSet {
    /// Only bits that stand for some kind are set.
    pub closed spec fn wf(self) -> bool {
        self.data < 32
    }

    /// Create the set that holds just `it`.
    pub fn from(it: PendingRx) -> (ret: PendingRxSet)
        ensures
            ret.wf(),
            ret@ == Set::empty().insert(it),
    {
        let ret = PendingRxSet { data: it.into_mask() };
        proof {
            assert forall|k: PendingRx| ret@.contains(k) == (k == it) by {
                lemma_bits(0, it.mask(), k.mask());
            }
            assert(ret@ =~= Set::empty().insert(it));
        }
        ret
    }

    /// Add `it` to the set.
    pub fn insert(&mut self, it: PendingRx)
        requires
            old(self).wf(),
        ensures
            final(self).wf(),
            final(self)@ == old(self)@.insert(it),
    {
        let ghost before = *self;
        self.data = self.data | it.into_mask();
        proof {
            lemma_bits(before.data, it.mask(), it.mask());
            assert forall|k: PendingRx|
                self@.contains(k) == (before@.contains(k) || k == it) by {
                lemma_bits(before.data, it.mask(), k.mask());
            }
            assert(self@ =~= before@.insert(it));
        }
    }

    /// Remove `it` from the set, and tell if it was there.
    pub fn remove(&mut self, it: PendingRx) -> (ret: bool)
        requires
            old(self).wf(),
        ensures
            final(self).wf(),
            final(self)@ == old(self)@.remove(it),
            ret == old(self)@.contains(it),
    {
        let ghost before = *self;
        let ret = self.contains(it);
        self.data = self.data & !it.into_mask();
        proof {
            lemma_bits(before.data, it.mask(), it.mask());
            assert forall|k: PendingRx|
                self@.contains(k) == (before@.contains(k) && k != it) by {
                lemma_bits(before.data, it.mask(), k.mask());
            }
            assert(self@ =~= before@.remove(it));
        }
        ret
    }

    /// Check if `it` is in the set.
    pub fn contains(&self, it: PendingRx) -> (ret: bool)
        ensures
            ret == self@.contains(it),
    {
        self.data & it.into_mask() != 0
    }

    /// Check if the set is empty.
    pub fn is_empty(&self) -> (ret: bool)
        requires
            self.wf(),
        ensures
            ret == (self@ == Set::<PendingRx>::empty()),
    {
        proof {
            let data = self.data;
            assert(data == 0 ==> data & 1 == 0 && data & 2 == 0 && data & 4 == 0 && data & 8 == 0
                && data & 16 == 0) by (bit_vector);
            assert(data < 32 && data & 1 == 0 && data & 2 == 0 && data & 4 == 0 && data & 8 == 0
                && data & 16 == 0 ==> data == 0) by (bit_vector);
            if data == 0 {
                assert(self@ =~= Set::<PendingRx>::empty());
            } else {
                assert(self@.contains(PendingRx::Request) || self@.contains(PendingRx::Response)
                    || self@.contains(PendingRx::Rst) || self@.contains(PendingRx::Rw)
                    || self@.contains(PendingRx::CreditUpdate));
            }
        }
        self.data == 0
    }
}

} // verus!
