use vstd::prelude::*;
use vstd::slice::{slice_subrange, slice_to_vec};
use vstd::string::StringSliceAdditionalSpecFns;
use vstd::utf8::{encode_utf8, encode_utf8_decode_utf8};

verus! {

/// Characters of a text that may be absent.
pub open spec fn str_view(text: Option<&str>) -> Option<Seq<char>> {
    match text {
        Some(t) => Some(t@),
        None => None,
    }
}

/// Bytes of a byte string that may be absent.
pub open spec fn bytes_view(bytes: Option<&[u8]>) -> Option<Seq<u8>> {
    match bytes {
        Some(b) => Some(b@),
        None => None,
    }
}

/// Whether two byte strings hold the same bytes.
pub fn bytes_equal(left: &[u8], right: &[u8]) -> (equal: bool)
    ensures
        equal == (left@ == right@),
{
    if left.len() != right.len() {
        return false;
    }
    let mut index: usize = 0;
    while index < left.len()
        invariant
            left@.len() == right@.len(),
            index <= left@.len(),
            forall|k: int| 0 <= k < index ==> left@[k] == right@[k],
        decreases left@.len() - index,
    {
        if left[index] != right[index] {
            return false;
        }
        index += 1;
    }
    assert(left@ =~= right@);
    true
}

/// Two texts are equal exactly when their UTF-8 encodings are equal.
pub proof fn lemma_encoding_is_injective(left: Seq<char>, right: Seq<char>)
    ensures
        (encode_utf8(left) == encode_utf8(right)) == (left == right),
{
    encode_utf8_decode_utf8(left);
    encode_utf8_decode_utf8(right);
}

/// Whether two texts hold the same characters.
pub fn str_equal(left: &str, right: &str) -> (equal: bool)
    ensures
        equal == (left@ == right@),
{
    proof {
        lemma_encoding_is_injective(left@, right@);
    }
    bytes_equal(left.as_bytes(), right.as_bytes())
}

/// Appends `tail` to `buffer`.
pub fn append_bytes(buffer: &mut Vec<u8>, tail: &[u8])
    ensures
        final(buffer)@ == old(buffer)@ + tail@,
{
    let ghost before = buffer@;
    let mut index: usize = 0;
    while index < tail.len()
        invariant
            index <= tail@.len(),
            buffer@ == before + tail@.subrange(0, index as int),
        decreases tail@.len() - index,
    {
        buffer.push(tail[index]);
        index += 1;
        assert(buffer@ =~= before + tail@.subrange(0, index as int));
    }
    assert(tail@.subrange(0, tail@.len() as int) =~= tail@);
}

/// Byte strings that a list of buffers holds.
pub open spec fn contents(buffers: Seq<Vec<u8>>) -> Seq<Seq<u8>> {
    Seq::new(buffers.len(), |i: int| buffers[i]@)
}

/// Each of `lines` with `prefix` put before it.
pub open spec fn prefixed(prefix: Seq<u8>, lines: Seq<Seq<u8>>) -> Seq<Seq<u8>> {
    Seq::new(lines.len(), |i: int| prefix + lines[i])
}

/// Position of the first line feed at or after `start`, and the length of
/// `bytes` where there is none.
pub open spec fn line_end(bytes: Seq<u8>, start: int) -> int
    decreases bytes.len() - start,
{
    if start < 0 || start >= bytes.len() {
        bytes.len() as int
    } else if bytes[start] == 0x0a {
        start
    } else {
        line_end(bytes, start + 1)
    }
}

/// A line without the carriage return that may close it.
pub open spec fn without_carriage_return(line: Seq<u8>) -> Seq<u8> {
    if line.len() > 0 && line.last() == 0x0d {
        line.drop_last()
    } else {
        line
    }
}

/// The lines of `bytes` from `start` on. A line ends at a line feed, which
/// is left out together with a carriage return just before it; what follows
/// the last line feed is a line too, unless it is empty.
pub open spec fn lines_from(bytes: Seq<u8>, start: int) -> Seq<Seq<u8>>
    decreases bytes.len() - start,
{
    if start < 0 || start >= bytes.len() {
        seq![]
    } else {
        let end = line_end(bytes, start);
        if end >= bytes.len() {
            seq![bytes.subrange(start, bytes.len() as int)]
        } else {
            proof {
                lemma_line_end(bytes, start);
            }
            seq![without_carriage_return(bytes.subrange(start, end))] + lines_from(bytes, end + 1)
        }
    }
}

/// The lines of `bytes`.
pub open spec fn lines_of(bytes: Seq<u8>) -> Seq<Seq<u8>> {
    lines_from(bytes, 0)
}

/// The end of a line lies between its start and the end of the bytes, no
/// line feed stands before it, and one stands at it unless the bytes end.
pub proof fn lemma_line_end(bytes: Seq<u8>, start: int)
    requires
        0 <= start <= bytes.len(),
    ensures
        start <= line_end(bytes, start) <= bytes.len(),
        forall|k: int| start <= k < line_end(bytes, start) ==> bytes[k] != 0x0a,
        line_end(bytes, start) < bytes.len() ==> bytes[line_end(bytes, start)] == 0x0a,
    decreases bytes.len() - start,
{
    if start < bytes.len() && bytes[start] != 0x0a {
        lemma_line_end(bytes, start + 1);
    }
}

/// Splits `bytes` into its lines.
pub fn split_lines(bytes: &[u8]) -> (lines: Vec<Vec<u8>>)
    ensures
        contents(lines@) == lines_of(bytes@),
{
    let mut lines: Vec<Vec<u8>> = Vec::new();
    let mut start: usize = 0;
    assert(contents(lines@) + lines_from(bytes@, 0) =~= lines_of(bytes@));
    while start < bytes.len()
        invariant
            start <= bytes@.len(),
            contents(lines@) + lines_from(bytes@, start as int) == lines_of(bytes@),
        decreases bytes@.len() - start,
    {
        let mut end: usize = start;
        while end < bytes.len() && bytes[end] != 0x0a
            invariant
                start <= end <= bytes@.len(),
                line_end(bytes@, start as int) == line_end(bytes@, end as int),
            decreases bytes@.len() - end,
        {
            end += 1;
        }
        let ghost done = contents(lines@);
        let ghost rest = lines_from(bytes@, start as int);
        if end == bytes.len() {
            lines.push(slice_to_vec(slice_subrange(bytes, start, end)));
            assert(contents(lines@) =~= done + rest);
            start = end;
            assert(contents(lines@) + lines_from(bytes@, start as int) =~= done + rest);
        } else {
            let stop: usize = if end > start && bytes[end - 1] == 0x0d {
                end - 1
            } else {
                end
            };
            let ghost whole = bytes@.subrange(start as int, end as int);
            assert(bytes@.subrange(start as int, stop as int) =~= without_carriage_return(whole));
            lines.push(slice_to_vec(slice_subrange(bytes, start, stop)));
            start = end + 1;
            assert(contents(lines@) + lines_from(bytes@, start as int) =~= done + rest);
        }
    }
    assert(contents(lines@) + lines_from(bytes@, start as int) =~= contents(lines@));
    lines
}

/// Decimal digits of `n`, the most significant first.
pub open spec fn decimal_digits(n: nat) -> Seq<u8>
    decreases n,
{
    if n < 10 {
        seq![(0x30 + n) as u8]
    } else {
        decimal_digits(n / 10).push((0x30 + n % 10) as u8)
    }
}

/// Decimal spelling of `n`, with a minus sign before a negative number.
pub open spec fn decimal(n: int) -> Seq<u8> {
    if n < 0 {
        seq![0x2du8] + decimal_digits((-n) as nat)
    } else {
        decimal_digits(n as nat)
    }
}

/// Appends the decimal digits of `n` to `buffer`.
fn append_digits(buffer: &mut Vec<u8>, n: u32)
    ensures
        final(buffer)@ == old(buffer)@ + decimal_digits(n as nat),
    decreases n,
{
    if n >= 10 {
        append_digits(buffer, n / 10);
    }
    let digit: u8 = 0x30 + (n % 10) as u8;
    buffer.push(digit);
    assert(buffer@ =~= old(buffer)@ + decimal_digits(n as nat));
}

/// Appends the decimal spelling of `n` to `buffer`.
pub fn append_decimal(buffer: &mut Vec<u8>, n: i32)
    ensures
        final(buffer)@ == old(buffer)@ + decimal(n as int),
{
    if n < 0 {
        buffer.push(0x2d);
        let magnitude: u32 = if n == i32::MIN {
            0x8000_0000
        } else {
            (-n) as u32
        };
        append_digits(buffer, magnitude);
        assert(buffer@ =~= old(buffer)@ + decimal(n as int));
    } else {
        append_digits(buffer, n as u32);
    }
}

} // verus!
