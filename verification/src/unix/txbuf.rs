//! A fixed-size ring buffer for TX (guest -> host) data that the host cannot take yet.

use vstd::prelude::*;

use crate::error::IoError;
use crate::unix::defs::CONN_TX_BUF_SIZE;
use crate::unix::error::Error;

verus! {

/// Number of values of the ring counters.
pub const COUNTER_SPAN: u64 = 0x1_0000_0000;

/// What a TX buffer holds.
#[verifier::ext_equal]
pub struct TxBufView {
    /// The buffered bytes, oldest first.
    pub bytes: Seq<u8>,
    /// The ring offset of the oldest byte.
    pub pos: int,
}

impl TxBufView {
    /// A buffer that has not been written to.
    pub open spec fn fresh() -> TxBufView {
        TxBufView { bytes: Seq::empty(), pos: 0 }
    }

    /// Number of buffered bytes that precede the end of the ring: those that one write can take.
    pub open spec fn front_len(self) -> int {
        if self.bytes.len() < CONN_TX_BUF_SIZE - self.pos {
            self.bytes.len() as int
        } else {
            CONN_TX_BUF_SIZE - self.pos
        }
    }

    /// The bytes that the next write is to be given.
    pub open spec fn front(self) -> Seq<u8> {
        self.bytes.take(self.front_len())
    }

    /// Whether `n` more bytes fit.
    pub open spec fn fits(self, n: nat) -> bool {
        self.bytes.len() + n <= CONN_TX_BUF_SIZE
    }

    /// The buffer once `data` is appended.
    pub open spec fn pushed(self, data: Seq<u8>) -> TxBufView {
        TxBufView { bytes: self.bytes + data, pos: self.pos }
    }

    /// The buffer once its `n` oldest bytes are gone.
    pub open spec fn drained(self, n: int) -> TxBufView {
        TxBufView { bytes: self.bytes.skip(n), pos: (self.pos + n) % CONN_TX_BUF_SIZE as int }
    }

    /// The offset is within the ring, and the bytes fit it.
    pub open spec fn wf(self) -> bool {
        &&& self.bytes.len() <= CONN_TX_BUF_SIZE
        &&& 0 <= self.pos < CONN_TX_BUF_SIZE
    }
}

/// The number of bytes that a sink write took: none if it would have blocked.
pub open spec fn taken(res: Result<usize, IoError>) -> int {
    match res {
        Ok(n) => n as int,
        Err(_) => 0,
    }
}

/// Whether a sink write failed for good, rather than for lack of room.
pub open spec fn failed(res: Result<usize, IoError>) -> bool {
    res is Err && res->Err_0 != IoError::WouldBlock
}

/// One step of a flush.
#[derive(Clone, Copy, Debug, PartialEq, Eq, Structural)]
pub struct FlushStep {
    /// Number of bytes that left the buffer.
    pub written: usize,
    /// Whether the flush goes on with another write.
    pub again: bool,
}

/// The TX buffer.
pub struct TxBuf {
    data: Vec<u8>,
    head: u32,
    tail: u32,
}

impl View for TxBuf {
    type V = TxBufView;

    closed spec fn view(&self) -> TxBufView {
        TxBufView {
            bytes: Seq::new(
                self.count(),
                |i: int| self.data@[(self.tail + i) % CONN_TX_BUF_SIZE as int],
            ),
            pos: self.tail as int % CONN_TX_BUF_SIZE as int,
        }
    }
}

impl TxBuf {
    spec fn count(self) -> nat {
        if self.head >= self.tail {
            (self.head - self.tail) as nat
        } else {
            (self.head - self.tail + COUNTER_SPAN) as nat
        }
    }

    /// The storage has the ring's size and the counters are at most that far apart.
    pub closed spec fn wf(self) -> bool {
        &&& self.data@.len() == CONN_TX_BUF_SIZE
        &&& self.count() <= CONN_TX_BUF_SIZE
    }

    /// A well-formed buffer has a well-formed content.
    pub proof fn lemma_wf_view(self)
        requires
            self.wf(),
        ensures
            self@.wf(),
    {
    }

    /// Create an empty TX buffer.
    pub fn new() -> (ret: TxBuf)
        ensures
            ret.wf(),
            ret@ == TxBufView::fresh(),
    {
        TxBuf { data: vec![0u8; CONN_TX_BUF_SIZE], head: 0, tail: 0 }
    }

    /// Get the number of buffered bytes.
    pub fn len(&self) -> (ret: usize)
        requires
            self.wf(),
        ensures
            ret == self@.bytes.len(),
            ret <= CONN_TX_BUF_SIZE,
    {
        self.head.wrapping_sub(self.tail) as usize
    }

    /// Append `buf`, or leave the buffer alone if there is no room for all of it.
    pub fn push(&mut self, buf: &[u8]) -> (ret: Result<(), Error>)
        requires
            old(self).wf(),
        ensures
            final(self).wf(),
            old(self)@.fits(buf@.len()) ==> ret is Ok && final(self)@ == old(self)@.pushed(buf@),
            !old(self)@.fits(buf@.len()) ==> ret == Err::<(), Error>(Error::BufferFull)
                && final(self)@ == old(self)@,
    {
        if buf.len() > CONN_TX_BUF_SIZE - self.len() {
            return Err(Error::BufferFull);
        }
        let ghost before = *self;
        let mut i: usize = 0;
        while i < buf.len()
            invariant
                i <= buf@.len(),
                before.wf(),
                before.count() + buf@.len() <= CONN_TX_BUF_SIZE,
                self.head == before.head,
                self.tail == before.tail,
                self.data@.len() == CONN_TX_BUF_SIZE,
                forall|j: int|
                    0 <= j < before.count() ==> self.data@[#[trigger] slot(before.tail, j)]
                        == before.data@[slot(before.tail, j)],
                forall|j: int|
                    0 <= j < i ==> self.data@[#[trigger] slot(before.tail, before.count() + j)]
                        == buf@[j],
            decreases buf@.len() - i,
        {
            let ofs: usize = self.head.wrapping_add(i as u32) as usize % CONN_TX_BUF_SIZE;
            assert(ofs == slot(before.tail, before.count() + i));
            self.data.set(ofs, buf[i]);
            i = i + 1;
        }
        self.head = self.head.wrapping_add(buf.len() as u32);
        proof {
            assert(self.count() == before.count() + buf@.len());
            assert forall|j: int| 0 <= j < self.count() implies self@.bytes[j]
                == before@.pushed(buf@).bytes[j] by {
                assert(self@.bytes[j] == self.data@[slot(before.tail, j)]);
                if j >= before.count() {
                    let k = j - before.count();
                    assert(self.data@[slot(before.tail, before.count() + k)] == buf@[k]);
                }
            }
            assert(self@ =~= before@.pushed(buf@));
        }
        Ok(())
    }

    /// Get the bytes that the next sink write of a flush is to be given.
    pub fn flush_chunk(&self) -> (ret: &[u8])
        requires
            self.wf(),
        ensures
            ret@ == self@.front(),
    {
        let ofs: usize = self.tail as usize % CONN_TX_BUF_SIZE;
        let avail: usize = CONN_TX_BUF_SIZE - ofs;
        let len: usize = self.len();
        let n: usize = if len < avail { len } else { avail };
        let ret = vstd::slice::slice_subrange(self.data.as_slice(), ofs, ofs + n);
        assert(ret@ =~= self@.front());
        ret
    }

    /// Account for the sink write of `flush_chunk()`, whose outcome is `res`.
    ///
    /// Bytes that the sink took leave the buffer. A sink that would have blocked took none. The
    /// flush goes on as long as the sink takes all that it is given and there is more to give.
    pub fn flush(&mut self, res: Result<usize, IoError>) -> (ret: Result<FlushStep, Error>)
        requires
            old(self).wf(),
            res is Ok ==> res->Ok_0 <= old(self)@.front_len(),
        ensures
            final(self).wf(),
            final(self)@ == old(self)@.drained(taken(res)),
            failed(res) ==> ret == Err::<FlushStep, Error>(Error::IoError(res->Err_0)),
            !failed(res) ==> ret == Ok::<FlushStep, Error>(
                (FlushStep {
                    written: taken(res) as usize,
                    again: taken(res) == old(self)@.front_len() && final(self)@.bytes.len() > 0,
                }),
            ),
    {
        let chunk_len: usize = self.flush_chunk().len();
        let written: usize = match res {
            Ok(n) => n,
            Err(IoError::WouldBlock) => 0,
            Err(e) => {
                assert(self@.drained(0) =~= self@);
                return Err(Error::IoError(e));
            },
        };
        let ghost before = *self;
        self.tail = self.tail.wrapping_add(written as u32);
        proof {
            let after = *self;
            assert(after.count() == before.count() - written);
            assert forall|i: int| 0 <= i < after.count() implies slot(after.tail, i) == slot(
                before.tail,
                written + i,
            ) by {
                lemma_slot_wraps(before.tail + written + i);
            }
            lemma_slot_wraps(before.tail + written);
            vstd::arithmetic::div_mod::lemma_add_mod_noop_right(
                written as int,
                before.tail as int,
                CONN_TX_BUF_SIZE as int,
            );
            assert forall|i: int| 0 <= i < after.count() implies after@.bytes[i]
                == before@.bytes.skip(written as int)[i] by {
                assert(after@.bytes[i] == after.data@[slot(after.tail, i)]);
            }
            assert(after@.bytes =~= before@.bytes.skip(written as int));
            assert(after@.pos == before@.drained(written as int).pos);
        }
        Ok(FlushStep { written, again: written == chunk_len && self.len() > 0 })
    }

    /// Check if the buffer is empty.
    pub fn is_empty(&self) -> (ret: bool)
        requires
            self.wf(),
        ensures
            ret == (self@.bytes.len() == 0),
    {
        self.len() == 0
    }
}

/// The ring offset `i` bytes past counter value `tail`.
spec fn slot(tail: u32, i: int) -> int {
    (tail + i) % CONN_TX_BUF_SIZE as int
}

/// Ring offsets survive a wrap of the counters.
proof fn lemma_slot_wraps(x: int)
    ensures
        (x - COUNTER_SPAN) % CONN_TX_BUF_SIZE as int == x % CONN_TX_BUF_SIZE as int,
{
    let ring = CONN_TX_BUF_SIZE as int;
    assert(x - COUNTER_SPAN == ring * -16384 + x);
    vstd::arithmetic::div_mod::lemma_mod_multiples_vanish(-16384, x, ring);
}

/// A flush takes at most two writes: if the sink takes all of the first, then what is left, if
/// anything, is one chunk.
pub proof fn flush_ends_within_two_writes(buf: TxBufView)
    requires
        buf.wf(),
    ensures
        ({
            let rest = buf.drained(buf.front_len());
            rest.front() == rest.bytes && rest.drained(rest.front_len()).bytes.len() == 0
        }),
{
    let rest = buf.drained(buf.front_len());
    if rest.bytes.len() > 0 {
        assert(buf.pos + buf.front_len() == CONN_TX_BUF_SIZE);
        vstd::arithmetic::div_mod::lemma_mod_self_0(CONN_TX_BUF_SIZE as int);
        assert(rest.pos == 0);
    }
    assert(rest.front() =~= rest.bytes);
}

/// The buffer is a FIFO: whatever is written out and what is then left make up, in order, what was
/// there and what was pushed.
pub proof fn fifo(buf: TxBufView, data: Seq<u8>, n: int)
    requires
        buf.wf(),
        buf.fits(data.len()),
        0 <= n <= buf.pushed(data).front_len(),
    ensures
        buf.pushed(data).front().take(n) + buf.pushed(data).drained(n).bytes == buf.bytes + data,
{
    assert(buf.pushed(data).front().take(n) + buf.pushed(data).drained(n).bytes =~= buf.bytes
        + data);
}

/// Bytes that are buffered stay there, in order, until a write has taken them. A write is given the
/// oldest ones, up to where the ring wraps around. There is room for 256 KiB.
pub proof fn ring_keeps_bytes_in_order(buf: TxBufView, data: Seq<u8>, n: int)
    requires
        buf.wf(),
        0 <= n <= buf.front().len(),
    ensures
        buf.fits(data.len()) <==> buf.bytes.len() + data.len() <= 262144,
        buf.pushed(data).bytes == buf.bytes + data,
        buf.pushed(data).pos == buf.pos,
        buf.front().len() == buf.bytes.len() || buf.front().len() == 262144 - buf.pos,
        buf.front().len() <= buf.bytes.len(),
        buf.front().len() + buf.pos <= 262144,
        forall|i: int| 0 <= i < buf.front().len() ==> #[trigger] buf.front()[i] == buf.bytes[i],
        buf.drained(n).bytes == buf.bytes.skip(n),
        buf.drained(n).pos == (buf.pos + n) % 262144,
        TxBufView::fresh().bytes.len() == 0,
        TxBufView::fresh().pos == 0,
{
}

/// A write takes the bytes that it says it has taken, and none if it fails. It has failed for good
/// unless it would only have blocked.
pub proof fn writes_take_what_they_say(n: usize, code: i32)
    ensures
        taken(Ok(n)) == n,
        !failed(Ok(n)),
        taken(Err(IoError::WouldBlock)) == 0,
        !failed(Err(IoError::WouldBlock)),
        taken(Err(IoError::Os(code))) == 0,
        failed(Err(IoError::Os(code))),
{
}

} // verus!
