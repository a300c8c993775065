//! The part of a virtio device that the driver negotiates with: features and configuration space.

use byteorder::{ByteOrder, LittleEndian};
use vstd::prelude::*;

verus! {

/// Interrupt status bit: the device has used a buffer in at least one of the queues.
pub const VIRTIO_MMIO_INT_VRING: usize = 1;

/// Wrapper of `byteorder::LittleEndian::write_u32`: the first 4 bytes of `buf` become those of `n`,
/// least significant byte first. The call panics on a shorter `buf`.
#[verifier::external_body]
fn write_u32(buf: &mut [u8], n: u32)
    requires
        old(buf)@.len() >= 4,
    ensures
        final(buf)@ == crate::le::le_bytes(n as nat, 4) + old(buf)@.skip(4),
{
    LittleEndian::write_u32(buf, n)
}

/// Wrapper of `byteorder::LittleEndian::write_u64`: the first 8 bytes of `buf` become those of `n`,
/// least significant byte first. The call panics on a shorter `buf`.
#[verifier::external_body]
fn write_u64(buf: &mut [u8], n: u64)
    requires
        old(buf)@.len() >= 8,
    ensures
        final(buf)@ == crate::le::le_bytes(n as nat, 8) + old(buf)@.skip(8),
{
    LittleEndian::write_u64(buf, n)
}

/// The half of a feature set that a page holds: page 0 the lower 32 bits, page 1 the upper ones.
pub open spec fn feature_page(features: u64, page: u32) -> u32 {
    if page == 0 {
        (features % 0x1_0000_0000) as u32
    } else if page == 1 {
        (features / 0x1_0000_0000) as u32
    } else {
        0
    }
}

/// The features that `value` stands for on a page.
pub open spec fn page_features(page: u32, value: u32) -> u64 {
    if page == 0 {
        value as u64
    } else if page == 1 {
        (value * 0x1_0000_0000) as u64
    } else {
        0
    }
}

/// What a read of `len` bytes at `offset` of the configuration space gives, if it is a valid one:
/// the configuration space holds the guest's CID, to be read as a whole, or by its halves.
pub open spec fn config_bytes(cid: u64, offset: u64, len: nat) -> Option<Seq<u8>> {
    if offset == 0 && len == 8 {
        Some(crate::le::le_bytes(cid as nat, 8))
    } else if offset == 0 && len == 4 {
        Some(crate::le::le_bytes((cid % 0x1_0000_0000) as nat, 4))
    } else if offset == 4 && len == 4 {
        Some(crate::le::le_bytes((cid / 0x1_0000_0000) as nat, 4))
    } else {
        None
    }
}

/// What the driver negotiates with a vsock device.
#[verifier::ext_equal]
pub struct NegotiationView {
    /// The guest's CID.
    pub cid: u64,
    /// The features that the device has.
    pub avail: u64,
    /// The features that the driver has acknowledged.
    pub acked: u64,
    /// The part of the configuration space that the driver may write to.
    pub config: Seq<u8>,
}

/// The features and the configuration space of a vsock device.
pub struct Negotiation {
    cid: u64,
    avail_features: u64,
    acked_features: u64,
    config_space: Vec<u8>,
}

impl View for Negotiation {
    type V = NegotiationView;

    closed spec fn view(&self) -> NegotiationView {
        NegotiationView {
            cid: self.cid,
            avail: self.avail_features,
            acked: self.acked_features,
            config: self.config_space@,
        }
    }
}

impl Negotiation {
    /// Start out with the given CID and features, none of them acknowledged.
    pub fn new(cid: u64, avail_features: u64) -> (ret: Negotiation)
        ensures
            ret@ == (NegotiationView { cid, avail: avail_features, acked: 0, config: Seq::empty() }),
    {
        Negotiation { cid, avail_features, acked_features: 0, config_space: Vec::new() }
    }

    /// Get the guest's CID.
    pub fn cid(&self) -> (ret: u64)
        ensures
            ret == self@.cid,
    {
        self.cid
    }

    /// Get the features that the driver has acknowledged.
    pub fn acked(&self) -> (ret: u64)
        ensures
            ret == self@.acked,
    {
        self.acked_features
    }

    /// Get a page of the features that the device has.
    pub fn features(&self, page: u32) -> (ret: u32)
        ensures
            ret == feature_page(self@.avail, page),
    {
        match page {
            0 => (self.avail_features % 0x1_0000_0000) as u32,
            1 => (self.avail_features / 0x1_0000_0000) as u32,
            _ => 0,
        }
    }

    /// Note the features on a page that the driver acknowledges. Those that the device does not
    /// have do not count.
    pub fn ack_features(&mut self, page: u32, value: u32)
        ensures
            final(self)@ == (NegotiationView {
                acked: old(self)@.acked | (page_features(page, value) & old(self)@.avail),
                ..old(self)@
            }),
    {
        let mut v: u64 = match page {
            0 => value as u64,
            1 => value as u64 * 0x1_0000_0000,
            _ => 0,
        };
        let avail: u64 = self.avail_features;
        let unrequested: u64 = v & !avail;
        proof {
            assert(v & !(v & !avail) == v & avail) by (bit_vector);
            assert(v & !avail == 0 ==> v & avail == v) by (bit_vector);
        }
        if unrequested != 0 {
            v = v & !unrequested;
        }
        self.acked_features = self.acked_features | v;
    }

    /// Read from the configuration space. An invalid read leaves `data` alone.
    pub fn read_config(&self, offset: u64, data: &mut [u8])
        ensures
            final(data)@ == (match config_bytes(self@.cid, offset, old(data)@.len()) {
                Some(bytes) => bytes,
                None => old(data)@,
            }),
    {
        let ghost before = data@;
        let len: usize = data.len();
        proof {
            crate::le::lemma_bytes_len(self.cid as nat, 8);
            crate::le::lemma_bytes_len((self.cid % 0x1_0000_0000) as nat, 4);
            crate::le::lemma_bytes_len((self.cid / 0x1_0000_0000) as nat, 4);
            if before.len() == 8 {
                assert(crate::le::le_bytes(self.cid as nat, 8) + before.skip(8)
                    =~= crate::le::le_bytes(self.cid as nat, 8));
            }
            if before.len() == 4 {
                let low = crate::le::le_bytes((self.cid % 0x1_0000_0000) as nat, 4);
                let high = crate::le::le_bytes((self.cid / 0x1_0000_0000) as nat, 4);
                assert(low + before.skip(4) =~= low);
                assert(high + before.skip(4) =~= high);
            }
        }
        if offset == 0 && len == 8 {
            write_u64(data, self.cid);
        } else if offset == 0 && len == 4 {
            write_u32(data, (self.cid % 0x1_0000_0000) as u32);
        } else if offset == 4 && len == 4 {
            write_u32(data, (self.cid / 0x1_0000_0000) as u32);
        }
    }

    /// Write to the configuration space. A write past its end is refused.
    pub fn write_config(&mut self, offset: u64, data: &[u8])
        requires
            offset + data@.len() <= u64::MAX,
            offset + data@.len() <= old(self)@.config.len() ==> offset + data@.len()
                == old(self)@.config.len(),
        ensures
            offset + data@.len() > old(self)@.config.len() ==> final(self)@ == old(self)@,
            offset + data@.len() <= old(self)@.config.len() ==> final(self)@ == (NegotiationView {
                config: old(self)@.config.take(offset as int) + data@,
                ..old(self)@
            }),
    {
        let ghost before = self@.config;
        let data_len: u64 = data.len() as u64;
        let config_len: u64 = self.config_space.len() as u64;
        if offset + data_len > config_len {
            return;
        }
        let from: usize = offset as usize;
        let mut i: usize = 0;
        let size: usize = data.len();
        let end: usize = self.config_space.len();
        while i < size
            invariant
                i <= size == data@.len(),
                from + size == end == before.len(),
                self.config_space@.len() == before.len(),
                self.config_space@ =~= before.take(from as int) + data@.take(i as int)
                    + before.skip(from + i),
                self@ == (NegotiationView { config: self.config_space@, ..old(self)@ }),
            decreases size - i,
        {
            self.config_space.set(from + i, data[i]);
            i = i + 1;
        }
        assert(self.config_space@ =~= before.take(from as int) + data@);
    }
}

/// The driver never gets to acknowledge a feature that the device does not have.
pub proof fn acked_features_are_available(before: NegotiationView, page: u32, value: u32)
    requires
        before.acked & before.avail == before.acked,
    ensures
        ({
            let acked = before.acked | (page_features(page, value) & before.avail);
            acked & before.avail == acked
        }),
{
    let acked = before.acked;
    let avail = before.avail;
    let v = page_features(page, value);
    assert((acked | (v & avail)) & avail == (acked | (v & avail))) by (bit_vector)
        requires
            acked & avail == acked,
    ;
}

/// Acknowledging what a device offers, page by page, acknowledges all of it.
pub proof fn all_features_can_be_acked(avail: u64)
    ensures
        page_features(0, feature_page(avail, 0)) | page_features(1, feature_page(avail, 1))
            == avail,
{
    let low = avail % 0x1_0000_0000;
    let high = avail / 0x1_0000_0000;
    assert(page_features(0, feature_page(avail, 0)) == low);
    assert(page_features(1, feature_page(avail, 1)) == (high * 0x1_0000_0000) as u64);
    assert((avail % 0x1_0000_0000u64) | (((avail / 0x1_0000_0000u64) * 0x1_0000_0000u64) as u64)
        == avail) by (bit_vector);
}

/// Reading the CID by its halves gives the same bytes as reading it as a whole.
pub proof fn config_halves_make_the_whole(cid: u64)
    ensures
        config_bytes(cid, 0, 8)->0 == config_bytes(cid, 0, 4)->0 + config_bytes(cid, 4, 4)->0,
{
    crate::le::lemma_spans();
    lemma_split((cid % 0x1_0000_0000) as nat, (cid / 0x1_0000_0000) as nat, 4);
    assert(cid == (cid % 0x1_0000_0000) + 0x1_0000_0000 * (cid / 0x1_0000_0000));
}

/// The bytes of an integer are those of its lower part, followed by those of its upper part.
proof fn lemma_split(low: nat, high: nat, n: nat)
    requires
        low < crate::le::span(n),
    ensures
        crate::le::le_bytes(low + crate::le::span(n) * high, n + 4) == crate::le::le_bytes(low, n)
            + crate::le::le_bytes(high, 4),
    decreases n,
{
    if n == 0 {
        assert(crate::le::span(0) * high == high);
        assert(crate::le::le_bytes(low, 0) + crate::le::le_bytes(high, 4) =~= crate::le::le_bytes(
            high,
            4,
        ));
    } else {
        let m = (n - 1) as nat;
        let x = low + crate::le::span(n) * high;
        lemma_split(low / 256, high, m);
        assert(crate::le::span(n) * high == 256 * (crate::le::span(m) * high)) by {
            vstd::arithmetic::mul::lemma_mul_is_associative(
                256,
                crate::le::span(m) as int,
                high as int,
            );
        }
        assert(x % 256 == low % 256);
        assert(x / 256 == low / 256 + crate::le::span(m) * high);
        assert(crate::le::le_bytes(x, n + 4) =~= seq![(x % 256) as u8] + crate::le::le_bytes(
            x / 256,
            m + 4,
        ));
        assert(crate::le::le_bytes(low, n) =~= seq![(low % 256) as u8] + crate::le::le_bytes(
            low / 256,
            m,
        ));
        assert(crate::le::le_bytes(x, n + 4) =~= crate::le::le_bytes(low, n)
            + crate::le::le_bytes(high, 4));
    }
}

/// A device's features are told in two pages of 32 bits each, and acknowledged in the same way.
/// There are no other pages.
pub proof fn pages_make_up_the_features(features: u64, page: u32, value: u32)
    ensures
        feature_page(features, 0) + 0x1_0000_0000 * feature_page(features, 1) == features,
        page > 1 ==> feature_page(features, page) == 0 && page_features(page, value) == 0,
        page_features(0, value) == value,
        page_features(1, value) == 0x1_0000_0000 * value,
{
}

/// The configuration space holds the guest's CID, least significant byte first. It can be read as a
/// whole, or by its halves, and in no other way.
pub proof fn config_space_holds_the_cid(cid: u64, offset: u64, len: nat)
    ensures
        config_bytes(cid, offset, len) is Some <==> offset == 0 && len == 8 || offset == 0 && len
            == 4 || offset == 4 && len == 4,
        config_bytes(cid, offset, len) is Some ==> config_bytes(cid, offset, len)->0.len() == len,
        ({
            let b = config_bytes(cid, 0, 8)->0;
            cid == b[0] + 0x100 * b[1] + 0x1_0000 * b[2] + 0x100_0000 * b[3] + 0x1_0000_0000 * b[4]
                + 0x100_0000_0000 * b[5] + 0x1_0000_0000_0000 * b[6] + 0x100_0000_0000_0000 * b[7]
        }),
        config_bytes(cid, 0, 8)->0 == config_bytes(cid, 0, 4)->0 + config_bytes(cid, 4, 4)->0,
{
    let b = config_bytes(cid, 0, 8)->0;
    crate::le::lemma_spans();
    crate::le::lemma_bytes_len(cid as nat, 8);
    crate::le::lemma_bytes_len((cid % 0x1_0000_0000) as nat, 4);
    crate::le::lemma_bytes_len((cid / 0x1_0000_0000) as nat, 4);
    crate::le::value_of_bytes(cid as nat, 8);
    crate::le::least_significant_byte_first(b, 0);
    assert(b.subrange(0, 8) =~= b);
    config_halves_make_the_whole(cid);
}

} // verus!
