//! Little-endian integers.

use vstd::prelude::*;

verus! {

/// The number of values that `n` bytes can hold.
pub open spec fn span(n: nat) -> nat
    decreases n,
{
    if n == 0 {
        1
    } else {
        256 * span((n - 1) as nat)
    }
}

/// The integer that `bytes` hold, least significant byte first.
pub open spec fn le_value(bytes: Seq<u8>) -> nat
    decreases bytes.len(),
{
    if bytes.len() == 0 {
        0
    } else {
        bytes[0] as nat + 256 * le_value(bytes.skip(1))
    }
}

/// The `n` bytes of `x`, least significant byte first.
pub open spec fn le_bytes(x: nat, n: nat) -> Seq<u8>
    decreases n,
{
    if n == 0 {
        Seq::empty()
    } else {
        seq![(x % 256) as u8] + le_bytes(x / 256, (n - 1) as nat)
    }
}

/// `n` bytes hold less than `span(n)`.
pub proof fn lemma_value_bound(bytes: Seq<u8>)
    ensures
        le_value(bytes) < span(bytes.len()),
    decreases bytes.len(),
{
    if bytes.len() > 0 {
        lemma_value_bound(bytes.skip(1));
    }
}

/// `le_bytes` gives as many bytes as it is asked for.
pub proof fn lemma_bytes_len(x: nat, n: nat)
    ensures
        le_bytes(x, n).len() == n,
    decreases n,
{
    if n > 0 {
        lemma_bytes_len(x / 256, (n - 1) as nat);
    }
}

/// Reading back the bytes of an integer gives the integer.
pub proof fn value_of_bytes(x: nat, n: nat)
    requires
        x < span(n),
    ensures
        le_value(le_bytes(x, n)) == x,
    decreases n,
{
    if n > 0 {
        let m = (n - 1) as nat;
        value_of_bytes(x / 256, m);
        lemma_bytes_len(x / 256, m);
        assert(le_bytes(x, n).skip(1) =~= le_bytes(x / 256, m));
    }
}

/// The bytes of the integer that some bytes hold are those bytes.
pub proof fn bytes_of_value(bytes: Seq<u8>)
    ensures
        le_bytes(le_value(bytes), bytes.len()) == bytes,
    decreases bytes.len(),
{
    if bytes.len() > 0 {
        let rest = bytes.skip(1);
        bytes_of_value(rest);
        assert(le_value(bytes) / 256 == le_value(rest));
        assert(le_value(bytes) % 256 == bytes[0]);
        assert(le_bytes(le_value(bytes), bytes.len()) =~= bytes);
    } else {
        assert(le_bytes(le_value(bytes), bytes.len()) =~= bytes);
    }
}

/// The spans of the integer types.
pub proof fn lemma_spans()
    ensures
        span(2) == 0x1_0000,
        span(4) == 0x1_0000_0000,
        span(7) == 0x100_0000_0000_0000,
        span(8) == 0x1_0000_0000_0000_0000,
{
    reveal_with_fuel(span, 9);
}

/// Fewer bytes hold less.
pub proof fn lemma_span_grows(m: nat, n: nat)
    requires
        m <= n,
    ensures
        span(m) <= span(n),
    decreases n,
{
    if m < n {
        lemma_span_grows(m, (n - 1) as nat);
    }
}

/// Read the integer in the `n` bytes of `buf` from offset `at` on.
pub fn read_le(buf: &[u8], at: usize, n: usize) -> (ret: u64)
    requires
        at + n <= buf@.len(),
        n <= 8,
    ensures
        ret == le_value(buf@.subrange(at as int, at + n)),
        ret < span(n as nat),
{
    let size: usize = buf.len();
    let mut i: usize = n;
    let mut acc: u64 = 0;
    assert(le_value(buf@.subrange(at + n, at + n)) == 0);
    while i > 0
        invariant
            i <= n <= 8,
            at + n <= size == buf@.len(),
            acc == le_value(buf@.subrange(at + i, at + n)),
        decreases i,
    {
        proof {
            let rest = buf@.subrange(at + i, at + n);
            lemma_value_bound(rest);
            lemma_span_grows(rest.len(), 7);
            lemma_spans();
            assert(buf@.subrange(at + i - 1, at + n).skip(1) =~= rest);
        }
        i = i - 1;
        acc = buf[at + i] as u64 + acc * 256;
    }
    proof {
        lemma_value_bound(buf@.subrange(at as int, at + n));
    }
    acc
}

/// Write the `n` bytes of `x` to `buf`, from offset `at` on.
pub fn write_le(buf: &mut [u8], at: usize, n: usize, x: u64)
    requires
        at + n <= old(buf)@.len(),
    ensures
        final(buf)@ == old(buf)@.take(at as int) + le_bytes(x as nat, n as nat) + old(buf)@.skip(
            at + n,
        ),
{
    let ghost before = buf@;
    let size: usize = buf.len();
    let mut i: usize = 0;
    let mut rest: u64 = x;
    proof {
        lemma_bytes_len(x as nat, n as nat);
    }
    while i < n
        invariant
            i <= n,
            at + n <= size == before.len(),
            buf@.len() == before.len(),
            le_bytes(x as nat, n as nat).len() == n,
            le_bytes(rest as nat, (n - i) as nat) == le_bytes(x as nat, n as nat).skip(i as int),
            buf@ =~= before.take(at as int) + le_bytes(x as nat, n as nat).take(i as int)
                + before.skip(at + i),
        decreases n - i,
    {
        let ghost all = le_bytes(x as nat, n as nat);
        proof {
            lemma_bytes_len((rest / 256) as nat, (n - i - 1) as nat);
            assert(all.skip(i as int)[0] == (rest % 256) as u8);
            assert(all.skip(i + 1) =~= all.skip(i as int).skip(1));
            assert(all.skip(i as int).skip(1) =~= le_bytes((rest / 256) as nat, (n - i - 1) as nat));
        }
        buf[at + i] = (rest % 256) as u8;
        rest = rest / 256;
        i = i + 1;
    }
    assert(le_bytes(x as nat, n as nat).take(n as int) =~= le_bytes(x as nat, n as nat));
}

/// The integer in some bytes is the first byte, plus 256 times the integer in the others.
proof fn lemma_first_byte(b: Seq<u8>, from: int, to: int)
    requires
        0 <= from < to <= b.len(),
    ensures
        le_value(b.subrange(from, to)) == b[from] + 256 * le_value(b.subrange(from + 1, to)),
{
    assert(b.subrange(from, to).skip(1) =~= b.subrange(from + 1, to));
}

/// Integers of two, four and eight bytes have their least significant byte first.
pub proof fn least_significant_byte_first(b: Seq<u8>, at: int)
    requires
        0 <= at,
    ensures
        at + 2 <= b.len() ==> le_value(b.subrange(at, at + 2)) == b[at] + 0x100 * b[at + 1],
        at + 4 <= b.len() ==> le_value(b.subrange(at, at + 4)) == b[at] + 0x100 * b[at + 1]
            + 0x1_0000 * b[at + 2] + 0x100_0000 * b[at + 3],
        at + 8 <= b.len() ==> le_value(b.subrange(at, at + 8)) == b[at] + 0x100 * b[at + 1]
            + 0x1_0000 * b[at + 2] + 0x100_0000 * b[at + 3] + 0x1_0000_0000 * b[at + 4]
            + 0x100_0000_0000 * b[at + 5] + 0x1_0000_0000_0000 * b[at + 6] + 0x100_0000_0000_0000
            * b[at + 7],
{
    if at + 2 <= b.len() {
        lemma_first_byte(b, at, at + 2);
        lemma_first_byte(b, at + 1, at + 2);
    }
    if at + 4 <= b.len() {
        lemma_first_byte(b, at, at + 4);
        lemma_first_byte(b, at + 1, at + 4);
        lemma_first_byte(b, at + 2, at + 4);
        lemma_first_byte(b, at + 3, at + 4);
    }
    if at + 8 <= b.len() {
        lemma_first_byte(b, at, at + 8);
        lemma_first_byte(b, at + 1, at + 8);
        lemma_first_byte(b, at + 2, at + 8);
        lemma_first_byte(b, at + 3, at + 8);
        lemma_first_byte(b, at + 4, at + 8);
        lemma_first_byte(b, at + 5, at + 8);
        lemma_first_byte(b, at + 6, at + 8);
        lemma_first_byte(b, at + 7, at + 8);
    }
}

} // verus!
