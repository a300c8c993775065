//! The request by which a host stream names the guest port that it wants to be connected to.
//!
//! The host writes `CONNECT <port><EOL>`. White space around the request is ignored, and the
//! number of the port alone is understood, too.

use vstd::prelude::*;

use crate::unix::error::Error;

verus! {

/// Whether the bytes `c` are the UTF-8 encoding of one white space character.
pub open spec fn is_space(c: Seq<u8>) -> bool {
    ||| c.len() == 1 && (9 <= c[0] <= 13 || c[0] == 32)
    ||| c.len() == 2 && c[0] == 0xc2 && (c[1] == 0x85 || c[1] == 0xa0)
    ||| c.len() == 3 && c[0] == 0xe1 && c[1] == 0x9a && c[2] == 0x80
    ||| c.len() == 3 && c[0] == 0xe2 && c[1] == 0x80 && (0x80 <= c[2] <= 0x8a || c[2] == 0xa8
        || c[2] == 0xa9 || c[2] == 0xaf)
    ||| c.len() == 3 && c[0] == 0xe2 && c[1] == 0x81 && c[2] == 0x9f
    ||| c.len() == 3 && c[0] == 0xe3 && c[1] == 0x80 && c[2] == 0x80
}

/// The length of the white space character that `s` starts with, or 0.
pub open spec fn front_space(s: Seq<u8>) -> nat {
    if s.len() >= 1 && is_space(s.take(1)) {
        1
    } else if s.len() >= 2 && is_space(s.take(2)) {
        2
    } else if s.len() >= 3 && is_space(s.take(3)) {
        3
    } else {
        0
    }
}

/// The length of the white space character that `s` ends with, or 0.
pub open spec fn back_space(s: Seq<u8>) -> nat {
    if s.len() >= 1 && is_space(s.skip(s.len() - 1)) {
        1
    } else if s.len() >= 2 && is_space(s.skip(s.len() - 2)) {
        2
    } else if s.len() >= 3 && is_space(s.skip(s.len() - 3)) {
        3
    } else {
        0
    }
}

/// `s` without the white space that it starts with.
pub open spec fn trim_start(s: Seq<u8>) -> Seq<u8>
    decreases s.len(),
{
    if front_space(s) == 0 {
        s
    } else {
        trim_start(s.skip(front_space(s) as int))
    }
}

/// `s` without the white space that it ends with.
pub open spec fn trim_end(s: Seq<u8>) -> Seq<u8>
    decreases s.len(),
{
    if back_space(s) == 0 {
        s
    } else {
        trim_end(s.take(s.len() - back_space(s)))
    }
}

/// The text `CONNECT `.
pub open spec fn connect_word() -> Seq<u8> {
    seq![67u8, 79u8, 78u8, 78u8, 69u8, 67u8, 84u8, 32u8]
}

/// `s` without the plus sign that it may start with.
pub open spec fn unsigned(s: Seq<u8>) -> Seq<u8> {
    if s.len() > 0 && s[0] == 43 {
        s.skip(1)
    } else {
        s
    }
}

/// The number that `s` writes out, if it does: digits, with an optional plus sign before them.
pub open spec fn port_number(s: Seq<u8>) -> Option<u32> {
    let digits = unsigned(s);
    if digits.len() > 0 && crate::text::all_digits(digits) && crate::text::number(digits)
        <= u32::MAX {
        Some(crate::text::number(digits) as u32)
    } else {
        None
    }
}

/// The port that a request asks for, if it is a valid one.
pub open spec fn requested_port(data: Seq<u8>) -> Option<u32> {
    let request = trim_end(trim_start(data));
    if connect_word().is_prefix_of(request) {
        port_number(request.skip(8))
    } else {
        port_number(request)
    }
}

/// Check if the bytes from `from` to `to` encode one white space character.
fn space_between(data: &[u8], from: usize, to: usize) -> (ret: bool)
    requires
        from < to <= data@.len(),
        to - from <= 3,
    ensures
        ret == is_space(data@.subrange(from as int, to as int)),
{
    let a: u8 = data[from];
    if to - from == 1 {
        return (9 <= a && a <= 13) || a == 32;
    }
    let b: u8 = data[from + 1];
    if to - from == 2 {
        return a == 0xc2 && (b == 0x85 || b == 0xa0);
    }
    let c: u8 = data[from + 2];
    (a == 0xe1 && b == 0x9a && c == 0x80) || (a == 0xe2 && b == 0x80 && ((0x80 <= c && c <= 0x8a)
        || c == 0xa8 || c == 0xa9 || c == 0xaf)) || (a == 0xe2 && b == 0x81 && c == 0x9f) || (a
        == 0xe3 && b == 0x80 && c == 0x80)
}

/// Find where the data starts, but for white space.
fn skip_front(data: &[u8]) -> (ret: usize)
    ensures
        ret <= data@.len(),
        data@.skip(ret as int) == trim_start(data@),
{
    let mut lo: usize = 0;
    let size: usize = data.len();
    assert(data@.skip(0) =~= data@);
    while lo < size
        invariant
            lo <= size,
            size == data@.len(),
            trim_start(data@.skip(lo as int)) == trim_start(data@),
        decreases size - lo,
    {
        let ghost rest = data@.skip(lo as int);
        proof {
            assert(rest.take(1) =~= data@.subrange(lo as int, lo + 1));
            if size - lo >= 2 {
                assert(rest.take(2) =~= data@.subrange(lo as int, lo + 2));
            }
            if size - lo >= 3 {
                assert(rest.take(3) =~= data@.subrange(lo as int, lo + 3));
            }
        }
        let n: usize = if space_between(data, lo, lo + 1) {
            1
        } else if size - lo >= 2 && space_between(data, lo, lo + 2) {
            2
        } else if size - lo >= 3 && space_between(data, lo, lo + 3) {
            3
        } else {
            return lo;
        };
        assert(rest.skip(n as int) =~= data@.skip(lo + n));
        lo = lo + n;
    }
    lo
}

/// Find where the data from `lo` on ends, but for white space.
fn skip_back(data: &[u8], lo: usize) -> (ret: usize)
    requires
        lo <= data@.len(),
    ensures
        lo <= ret <= data@.len(),
        data@.subrange(lo as int, ret as int) == trim_end(data@.skip(lo as int)),
{
    let mut hi: usize = data.len();
    assert(data@.subrange(lo as int, hi as int) =~= data@.skip(lo as int));
    while lo < hi
        invariant
            lo <= hi <= data@.len(),
            trim_end(data@.subrange(lo as int, hi as int)) == trim_end(data@.skip(lo as int)),
        decreases hi - lo,
    {
        let ghost rest = data@.subrange(lo as int, hi as int);
        proof {
            assert(rest.skip(rest.len() - 1) =~= data@.subrange(hi - 1, hi as int));
            if hi - lo >= 2 {
                assert(rest.skip(rest.len() - 2) =~= data@.subrange(hi - 2, hi as int));
            }
            if hi - lo >= 3 {
                assert(rest.skip(rest.len() - 3) =~= data@.subrange(hi - 3, hi as int));
            }
        }
        let n: usize = if space_between(data, hi - 1, hi) {
            1
        } else if hi - lo >= 2 && space_between(data, hi - 2, hi) {
            2
        } else if hi - lo >= 3 && space_between(data, hi - 3, hi) {
            3
        } else {
            return hi;
        };
        assert(rest.take(rest.len() - n) =~= data@.subrange(lo as int, hi - n));
        hi = hi - n;
    }
    hi
}

/// Check if the data between `lo` and `hi` starts with `CONNECT `.
fn has_connect_word(data: &[u8], lo: usize, hi: usize) -> (ret: bool)
    requires
        lo <= hi <= data@.len(),
    ensures
        ret == connect_word().is_prefix_of(data@.subrange(lo as int, hi as int)),
{
    let ghost request = data@.subrange(lo as int, hi as int);
    if hi - lo < 8 {
        return false;
    }
    let ret = data[lo] == 67 && data[lo + 1] == 79 && data[lo + 2] == 78 && data[lo + 3] == 78
        && data[lo + 4] == 69 && data[lo + 5] == 67 && data[lo + 6] == 84 && data[lo + 7] == 32;
    proof {
        if ret {
            assert(connect_word() =~= request.subrange(0, 8));
        } else if connect_word().is_prefix_of(request) {
            assert(connect_word() == request.subrange(0, 8));
            assert(forall|i: int| 0 <= i < 8 ==> connect_word()[i] == data@[lo + i]);
            assert(connect_word()[0] == 67 && connect_word()[1] == 79 && connect_word()[2] == 78);
            assert(connect_word()[3] == 78 && connect_word()[4] == 69 && connect_word()[5] == 67);
            assert(connect_word()[6] == 84 && connect_word()[7] == 32);
        }
    }
    ret
}

/// Read the number that the data between `lo` and `hi` writes out.
fn parse_number(data: &[u8], lo: usize, hi: usize) -> (ret: Option<u32>)
    requires
        lo <= hi <= data@.len(),
    ensures
        ret == port_number(data@.subrange(lo as int, hi as int)),
{
    let ghost text = data@.subrange(lo as int, hi as int);
    let from: usize = if lo < hi && data[lo] == 43 {
        lo + 1
    } else {
        lo
    };
    let ghost digits = data@.subrange(from as int, hi as int);
    assert(digits =~= unsigned(text));
    if from == hi {
        return None;
    }
    let mut value: u64 = 0;
    let mut i: usize = from;
    assert(data@.subrange(from as int, from as int) =~= Seq::<u8>::empty());
    while i < hi
        invariant
            from <= i <= hi <= data@.len(),
            digits == data@.subrange(from as int, hi as int),
            digits == unsigned(data@.subrange(lo as int, hi as int)),
            value <= u32::MAX ==> value == crate::text::number(
                data@.subrange(from as int, i as int),
            ),
            value > u32::MAX ==> crate::text::number(data@.subrange(from as int, i as int))
                > u32::MAX,
            value <= 0x1_0000_0000,
            forall|j: int| 0 <= j < i - from ==> crate::text::is_digit(#[trigger] digits[j]),
        decreases hi - i,
    {
        let b: u8 = data[i];
        assert(digits[i - from] == b);
        if b < 48 || b > 57 {
            assert(!crate::text::is_digit(digits[i - from]));
            return None;
        }
        let ghost seen = data@.subrange(from as int, i as int);
        let ghost now = data@.subrange(from as int, i + 1);
        assert(now.drop_last() =~= seen);
        assert(now.last() == b);
        if value <= 0xffff_ffff {
            value = value * 10 + (b - 48) as u64;
            if value > 0xffff_ffff {
                value = 0x1_0000_0000;
            }
        }
        i = i + 1;
    }
    assert(data@.subrange(from as int, hi as int) == digits);
    assert(crate::text::all_digits(digits));
    if value > 0xffff_ffff {
        None
    } else {
        Some(value as u32)
    }
}

/// Get the port that a request asks for.
pub fn parse_port_request(data: &[u8]) -> (ret: Result<u32, Error>)
    ensures
        ret == (match requested_port(data@) {
            Some(port) => Ok::<u32, Error>(port),
            None => Err::<u32, Error>(Error::InvalidPortRequest),
        }),
{
    let lo: usize = skip_front(data);
    let hi: usize = skip_back(data, lo);
    let ghost request = data@.subrange(lo as int, hi as int);
    let port = if has_connect_word(data, lo, hi) {
        assert(request.skip(8) =~= data@.subrange(lo + 8, hi as int));
        parse_number(data, lo + 8, hi)
    } else {
        parse_number(data, lo, hi)
    };
    match port {
        Some(port) => Ok(port),
        None => Err(Error::InvalidPortRequest),
    }
}

/// The request that the host makes to be connected to a guest port.
pub open spec fn connect_request(port: u32) -> Seq<u8> {
    connect_word() + crate::text::decimal(port as nat) + seq![10u8]
}

/// Whatever the port, the request for it is understood as such.
pub proof fn request_is_understood(port: u32)
    ensures
        requested_port(connect_request(port)) == Some(port),
{
    let digits = crate::text::decimal(port as nat);
    crate::text::number_of_decimal(port as nat);
    let body = connect_word() + digits;
    let data = connect_request(port);
    assert(trim_start(data) == data) by {
        assert(data.take(1)[0] == 67);
        assert(data.take(2)[0] == 67);
        assert(data.take(3)[0] == 67);
    }
    assert(trim_end(data) == body) by {
        reveal_with_fuel(trim_end, 2);
        assert(data.skip(data.len() - 1)[0] == 10);
        assert(back_space(data) == 1);
        assert(data.take(data.len() - 1) =~= body);
        let last = digits[digits.len() - 1];
        assert(crate::text::is_digit(last));
        assert(body.skip(body.len() - 1)[0] == last);
        assert(body.skip(body.len() - 2)[1] == last);
        assert(body.skip(body.len() - 3)[2] == last);
        assert(back_space(body) == 0);
    }
    assert(connect_word().is_prefix_of(body)) by {
        assert(body.subrange(0, 8) =~= connect_word());
    }
    assert(body.skip(8) =~= digits);
    assert(crate::text::is_digit(digits[0]));
}

/// The UTF-8 encoding of a code point, if that takes no more than three bytes.
pub open spec fn utf8(c: nat) -> Seq<u8> {
    if c < 0x80 {
        seq![c as u8]
    } else if c < 0x800 {
        seq![(0xc0 + c / 64) as u8, (0x80 + c % 64) as u8]
    } else {
        seq![(0xe0 + c / 4096) as u8, (0x80 + c / 64 % 64) as u8, (0x80 + c % 64) as u8]
    }
}

/// White space is what Unicode takes to be white space.
pub proof fn white_space_is_that_of_unicode(c: nat)
    requires
        c < 0x1_0000,
    ensures
        is_space(utf8(c)) <==> {
            ||| 9 <= c <= 13
            ||| c == 0x20
            ||| c == 0x85
            ||| c == 0xa0
            ||| c == 0x1680
            ||| 0x2000 <= c <= 0x200a
            ||| c == 0x2028
            ||| c == 0x2029
            ||| c == 0x202f
            ||| c == 0x205f
            ||| c == 0x3000
        },
{
}

/// Some characters, one after the other.
pub open spec fn joined(chars: Seq<Seq<u8>>) -> Seq<u8>
    decreases chars.len(),
{
    if chars.len() == 0 {
        Seq::empty()
    } else {
        chars[0] + joined(chars.skip(1))
    }
}

/// Whether all of some characters are white space.
pub open spec fn all_space(chars: Seq<Seq<u8>>) -> bool {
    forall|i: int| 0 <= i < chars.len() ==> is_space(#[trigger] chars[i])
}

/// Characters are joined from either end.
proof fn lemma_joined_last(chars: Seq<Seq<u8>>)
    requires
        chars.len() > 0,
    ensures
        joined(chars) == joined(chars.drop_last()) + chars.last(),
    decreases chars.len(),
{
    if chars.len() == 1 {
        assert(chars.skip(1) =~= Seq::<Seq<u8>>::empty());
        assert(chars.drop_last() =~= Seq::<Seq<u8>>::empty());
        assert(joined(chars) =~= joined(chars.drop_last()) + chars.last());
    } else {
        lemma_joined_last(chars.skip(1));
        assert(chars.skip(1).drop_last() =~= chars.drop_last().skip(1));
        assert(chars.skip(1).last() == chars.last());
        assert(chars.drop_last()[0] == chars[0]);
        assert(joined(chars) =~= joined(chars.drop_last()) + chars.last());
    }
}

/// White space in front of something else is trimmed.
proof fn lemma_front_trimmed(chars: Seq<Seq<u8>>, rest: Seq<u8>)
    requires
        all_space(chars),
        front_space(rest) == 0,
    ensures
        trim_start(joined(chars) + rest) == rest,
    decreases chars.len(),
{
    if chars.len() == 0 {
        assert(joined(chars) + rest =~= rest);
    } else {
        let c = chars[0];
        let tail = joined(chars.skip(1)) + rest;
        let s = joined(chars) + rest;
        assert(s =~= c + tail);
        assert(s.take(c.len() as int) =~= c);
        assert(s.take(1)[0] == c[0]);
        if s.len() >= 2 {
            assert(s.take(2)[0] == c[0]);
        }
        assert(front_space(s) == c.len());
        assert(s.skip(c.len() as int) =~= tail);
        assert forall|i: int| 0 <= i < chars.skip(1).len() implies is_space(
            #[trigger] chars.skip(1)[i],
        ) by {
            assert(is_space(chars[i + 1]));
        }
        lemma_front_trimmed(chars.skip(1), rest);
    }
}

/// White space behind something else is trimmed.
proof fn lemma_back_trimmed(rest: Seq<u8>, chars: Seq<Seq<u8>>)
    requires
        all_space(chars),
        back_space(rest) == 0,
    ensures
        trim_end(rest + joined(chars)) == rest,
    decreases chars.len(),
{
    if chars.len() == 0 {
        assert(rest + joined(chars) =~= rest);
    } else {
        let c = chars.last();
        let less = chars.drop_last();
        let tail = rest + joined(less);
        let s = rest + joined(chars);
        lemma_joined_last(chars);
        assert(is_space(chars[chars.len() - 1]));
        assert(s =~= tail + c);
        assert(s.skip(s.len() - c.len()) =~= c);
        assert(s.skip(s.len() - 1)[0] == c[c.len() - 1]);
        if c.len() >= 2 {
            assert(s.skip(s.len() - 2)[0] == c[c.len() - 2]);
        }
        assert(back_space(s) == c.len());
        assert(s.take(s.len() - c.len()) =~= tail);
        assert forall|i: int| 0 <= i < less.len() implies is_space(#[trigger] less[i]) by {
            assert(is_space(chars[i]));
        }
        lemma_back_trimmed(rest, less);
    }
}

/// A request: white space, the word `CONNECT ` or not, a plus sign or not, digits, and white space.
pub open spec fn request_text(
    front: Seq<Seq<u8>>,
    word: bool,
    plus: bool,
    digits: Seq<u8>,
    back: Seq<Seq<u8>>,
) -> Seq<u8> {
    joined(front) + (if word {
        seq![67u8, 79u8, 78u8, 78u8, 69u8, 67u8, 84u8, 32u8]
    } else {
        Seq::empty()
    }) + (if plus {
        seq![43u8]
    } else {
        Seq::empty()
    }) + digits + joined(back)
}

/// A request is understood as the port whose digits it has, with or without the word `CONNECT `,
/// and whatever white space is around it.
pub proof fn every_request_is_understood(
    front: Seq<Seq<u8>>,
    word: bool,
    plus: bool,
    digits: Seq<u8>,
    back: Seq<Seq<u8>>,
)
    requires
        all_space(front),
        all_space(back),
        digits.len() > 0,
        crate::text::all_digits(digits),
        crate::text::number(digits) <= u32::MAX,
    ensures
        requested_port(request_text(front, word, plus, digits, back)) == Some(
            crate::text::number(digits) as u32,
        ),
{
    let data = request_text(front, word, plus, digits, back);
    let sign = if plus {
        seq![43u8]
    } else {
        Seq::empty()
    };
    let number = sign + digits;
    let core = if word {
        connect_word() + number
    } else {
        number
    };
    let tail = core + joined(back);
    let last = digits[digits.len() - 1];
    assert(crate::text::is_digit(digits[0]));
    assert(crate::text::is_digit(last));
    assert(data =~= joined(front) + tail);
    assert(tail[0] == core[0]);
    assert(tail.take(1)[0] == core[0]);
    if tail.len() >= 2 {
        assert(tail.take(2)[0] == core[0]);
    }
    if tail.len() >= 3 {
        assert(tail.take(3)[0] == core[0]);
    }
    assert(front_space(tail) == 0);
    lemma_front_trimmed(front, tail);
    assert(core[core.len() - 1] == last);
    assert(core.skip(core.len() - 1)[0] == last);
    if core.len() >= 2 {
        assert(core.skip(core.len() - 2)[1] == last);
    }
    if core.len() >= 3 {
        assert(core.skip(core.len() - 3)[2] == last);
    }
    assert(back_space(core) == 0);
    lemma_back_trimmed(core, back);
    if word {
        assert(core.subrange(0, 8) =~= connect_word());
        assert(core.skip(8) =~= number);
    } else {
        assert(core[0] != 67);
        if connect_word().is_prefix_of(core) {
            assert(connect_word()[0] == core[0]);
        }
    }
    assert(unsigned(number) =~= digits);
}

/// The number of the port alone, followed by an end of line, is understood as a request for it.
pub proof fn bare_port_is_understood(port: u32)
    ensures
        requested_port(crate::text::decimal(port as nat) + seq![10u8]) == Some(port),
{
    let digits = crate::text::decimal(port as nat);
    let back = seq![seq![10u8]];
    crate::text::number_of_decimal(port as nat);
    assert(joined(back) =~= seq![10u8]) by {
        assert(back.skip(1) =~= Seq::<Seq<u8>>::empty());
        assert(joined(back.skip(1)) =~= Seq::<u8>::empty());
    }
    every_request_is_understood(Seq::empty(), false, false, digits, back);
    assert(request_text(Seq::empty(), false, false, digits, back) =~= digits + seq![10u8]);
}

/// What is trimmed in front is white space.
proof fn lemma_trimmed_front(data: Seq<u8>) -> (chars: Seq<Seq<u8>>)
    ensures
        all_space(chars),
        data == joined(chars) + trim_start(data),
    decreases data.len(),
{
    let n = front_space(data) as int;
    if n == 0 {
        let chars = Seq::<Seq<u8>>::empty();
        assert(data =~= joined(chars) + trim_start(data));
        chars
    } else {
        let rest = lemma_trimmed_front(data.skip(n));
        let chars = seq![data.take(n)] + rest;
        assert(chars.skip(1) =~= rest);
        assert forall|i: int| 0 <= i < chars.len() implies is_space(#[trigger] chars[i]) by {
            if i > 0 {
                assert(is_space(rest[i - 1]));
            }
        }
        assert(data =~= data.take(n) + data.skip(n));
        assert(data =~= joined(chars) + trim_start(data));
        chars
    }
}

/// What is trimmed behind is white space.
proof fn lemma_trimmed_back(data: Seq<u8>) -> (chars: Seq<Seq<u8>>)
    ensures
        all_space(chars),
        data == trim_end(data) + joined(chars),
    decreases data.len(),
{
    let n = back_space(data) as int;
    if n == 0 {
        let chars = Seq::<Seq<u8>>::empty();
        assert(data =~= trim_end(data) + joined(chars));
        chars
    } else {
        let rest = lemma_trimmed_back(data.take(data.len() - n));
        let chars = rest.push(data.skip(data.len() - n));
        lemma_joined_last(chars);
        assert(chars.drop_last() =~= rest);
        assert forall|i: int| 0 <= i < chars.len() implies is_space(#[trigger] chars[i]) by {
            if i < rest.len() {
                assert(is_space(rest[i]));
            }
        }
        assert(data =~= data.take(data.len() - n) + data.skip(data.len() - n));
        assert(data =~= trim_end(data) + joined(chars));
        chars
    }
}

/// Nothing but a request is understood as one: whatever names a port has the form of a request, and
/// the digits of that port.
pub proof fn only_requests_are_understood(data: Seq<u8>)
    requires
        requested_port(data) is Some,
    ensures
        exists|front: Seq<Seq<u8>>, word: bool, plus: bool, digits: Seq<u8>, back: Seq<Seq<u8>>|
            {
                &&& data == #[trigger] request_text(front, word, plus, digits, back)
                &&& all_space(front)
                &&& all_space(back)
                &&& digits.len() > 0
                &&& crate::text::all_digits(digits)
                &&& crate::text::number(digits) == requested_port(data)->0
            },
{
    let front = lemma_trimmed_front(data);
    let mid = trim_start(data);
    let back = lemma_trimmed_back(mid);
    let core = trim_end(mid);
    let word = connect_word().is_prefix_of(core);
    let number = if word {
        core.skip(8)
    } else {
        core
    };
    let plus = number.len() > 0 && number[0] == 43;
    let digits = unsigned(number);
    if word {
        assert(connect_word() == core.subrange(0, 8));
        assert(core =~= connect_word() + number);
    }
    if plus {
        assert(number =~= seq![43u8] + digits);
    }
    assert(data =~= request_text(front, word, plus, digits, back));
}

} // verus!
