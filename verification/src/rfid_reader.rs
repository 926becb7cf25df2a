//! Frames of an RDM6300 tag reader.
//!
//! A frame is fourteen bytes: a start byte, ten characters of message (two
//! of version, eight of tag, all hexadecimal), two characters of checksum and
//! an end byte. The checksum is the exclusive or of the message's five
//! character pairs.

use vstd::prelude::*;
use vstd::slice::{slice_subrange, slice_to_vec};
use bytes::BytesMut;

verus! {

/// The byte that starts a frame.
pub const START: u8 = 2;

/// The byte that ends a frame.
pub const END: u8 = 3;

/// The length of a frame.
pub const FRAME_LEN: usize = 14;

/// `bytes::BytesMut`, the buffer that the serial line fills. Nothing is
/// known of it but what the three calls below say.
#[verifier::external_type_specification]
#[verifier::external_body]
pub struct ExBytesMut(bytes::BytesMut);

/// The bytes that a buffer holds, in order: what `BytesMut::as_ref` shows.
pub uninterp spec fn buffered(src: bytes::BytesMut) -> Seq<u8>;

/// `BytesMut::as_ref`: the slice it returns is the buffer's bytes, all of
/// them, in order.
#[verifier::external_body]
fn as_slice(src: &BytesMut) -> (bytes: &[u8])
    ensures
        bytes@ == buffered(*src),
{
    src.as_ref()
}

/// `BytesMut::split_to`: the buffer keeps its bytes from `at` on, and the
/// buffer that is returned holds those before `at`. The call panics where
/// `at` is beyond the buffer's length.
#[verifier::external_body]
fn split_to(src: &mut BytesMut, at: usize) -> (front: BytesMut)
    requires
        at <= buffered(*old(src)).len(),
    ensures
        buffered(front) == buffered(*old(src)).take(at as int),
        buffered(*final(src)) == buffered(*old(src)).skip(at as int),
{
    src.split_to(at)
}

/// `BytesMut::clear`: the buffer holds nothing afterwards.
#[verifier::external_body]
fn clear(src: &mut BytesMut)
    ensures
        buffered(*final(src)) == Seq::<u8>::empty(),
{
    src.clear()
}

/// Why the head of the buffer was no frame.
#[derive(Debug, PartialEq, Eq)]
pub enum FrameError {
    /// These bytes stood before a start byte and were dropped.
    Garbage(Vec<u8>),
    /// No byte in the buffer could start a frame; all were dropped.
    AllBad,
    /// The frame's checksum is not that of its message; the frame was dropped.
    ChecksumMismatch,
}

/// What a look at the head of the buffer gave.
#[derive(Debug, PartialEq, Eq)]
pub struct Scan {
    /// How many bytes leave the buffer.
    pub consumed: usize,
    /// A tag, nothing yet, or an error.
    pub outcome: Result<Option<u32>, FrameError>,
}

/// Whether `index` is where `byte` first stands in `buf`.
pub open spec fn is_first(buf: Seq<u8>, byte: u8, index: int) -> bool {
    &&& 0 <= index < buf.len()
    &&& buf[index] == byte
    &&& forall|j: int| 0 <= j < index ==> buf[j] != byte
}

/// Where `byte` first stands in `buf`, if it does.
pub open spec fn first_index(buf: Seq<u8>, byte: u8) -> Option<int> {
    if exists|i: int| is_first(buf, byte, i) {
        Some(choose|i: int| is_first(buf, byte, i))
    } else {
        None
    }
}

/// What a character is worth as a hexadecimal digit.
pub open spec fn hex_value(byte: u8) -> Option<int> {
    if 0x30 <= byte <= 0x39 {
        Some(byte - 0x30)
    } else if 0x41 <= byte <= 0x46 {
        Some(byte - 0x41 + 10)
    } else if 0x61 <= byte <= 0x66 {
        Some(byte - 0x61 + 10)
    } else {
        None
    }
}

/// What `digits` are worth as a hexadecimal number, if each is a digit.
pub open spec fn hex_digits(digits: Seq<u8>) -> Option<int>
    decreases digits.len(),
{
    if digits.len() == 0 {
        Some(0)
    } else {
        match (hex_digits(digits.drop_last()), hex_value(digits.last())) {
            (Some(high), Some(low)) => Some(16 * high + low),
            _ => None,
        }
    }
}

/// What `text` is worth as a hexadecimal number: a plus sign may come
/// first, at least one digit must follow, and nothing else may stand in it.
/// Any other text is worth 0.
pub open spec fn hex_number(text: Seq<u8>) -> int {
    let digits = if text.len() > 0 && text[0] == 0x2b {
        text.drop_first()
    } else {
        text
    };
    if digits.len() == 0 {
        0
    } else {
        match hex_digits(digits) {
            Some(value) => value,
            None => 0,
        }
    }
}

/// What the character pair number `pair` of `message` is worth.
pub open spec fn pair_value(message: Seq<u8>, pair: int) -> u16 {
    hex_number(message.subrange(2 * pair, 2 * pair + 2)) as u16
}

/// The checksum of a message of ten characters: the exclusive or of its
/// five pairs.
pub open spec fn checksum(message: Seq<u8>) -> u16 {
    0u16 ^ pair_value(message, 0) ^ pair_value(message, 1) ^ pair_value(message, 2) ^ pair_value(
        message,
        3,
    ) ^ pair_value(message, 4)
}

/// Whether `buf` begins with a frame, as far as its length and its first
/// and last byte tell.
pub open spec fn is_framed(buf: Seq<u8>) -> bool {
    buf.len() >= FRAME_LEN && buf[0] == START && buf[FRAME_LEN - 1] == END
}

/// Where the search for a start byte begins when `buf` does not begin with
/// a frame: behind a first byte that is a start byte, else at the front.
pub open spec fn search_from(buf: Seq<u8>) -> int {
    if buf.len() > 0 && buf[0] == START {
        1
    } else {
        0
    }
}

/// How many bytes leave a buffer that holds `buf`: none while fewer than a
/// frame are there; a frame; or all that stand before the next start byte.
pub open spec fn consumed(buf: Seq<u8>) -> int {
    if buf.len() < FRAME_LEN {
        0
    } else if is_framed(buf) {
        FRAME_LEN as int
    } else {
        match first_index(buf.skip(search_from(buf)), START) {
            Some(n) => search_from(buf) + n,
            None => buf.len() as int,
        }
    }
}

/// Whether `outcome` is what a look at a buffer that holds `buf` gives.
pub open spec fn is_outcome(buf: Seq<u8>, outcome: Result<Option<u32>, FrameError>) -> bool {
    if buf.len() < FRAME_LEN {
        outcome == Ok::<Option<u32>, FrameError>(None)
    } else if is_framed(buf) {
        if hex_number(buf.subrange(11, 13)) != checksum(buf.subrange(1, 11)) {
            outcome == Err::<Option<u32>, FrameError>(FrameError::ChecksumMismatch)
        } else {
            outcome == Ok::<Option<u32>, FrameError>(Some(hex_number(buf.subrange(3, 11)) as u32))
        }
    } else {
        match first_index(buf.skip(search_from(buf)), START) {
            Some(n) => outcome matches Err(FrameError::Garbage(garbage)) && garbage@
                == buf.subrange(search_from(buf), search_from(buf) + n),
            None => outcome == Err::<Option<u32>, FrameError>(FrameError::AllBad),
        }
    }
}

/// The first place in `buf` at which `byte` stands.
pub fn find_byte(buf: &[u8], byte: u8) -> (index: Option<usize>)
    ensures
        match index {
            Some(i) => first_index(buf@, byte) == Some(i as int),
            None => first_index(buf@, byte) is None,
        },
{
    let mut i: usize = 0;
    while i < buf.len()
        invariant
            i <= buf.len(),
            forall|j: int| 0 <= j < i ==> buf@[j] != byte,
        decreases buf.len() - i,
    {
        if buf[i] == byte {
            assert(is_first(buf@, byte, i as int));
            return Some(i);
        }
        i += 1;
    }
    None
}

/// The largest number that `count` hexadecimal digits can hold, and one more.
spec fn digits_limit(count: int) -> int {
    if count <= 0 {
        1
    } else if count == 1 {
        0x10
    } else if count == 2 {
        0x100
    } else if count == 3 {
        0x1000
    } else if count == 4 {
        0x1_0000
    } else if count == 5 {
        0x10_0000
    } else if count == 6 {
        0x100_0000
    } else if count == 7 {
        0x1000_0000
    } else {
        0x1_0000_0000
    }
}

/// What a character is worth as a hexadecimal digit.
fn digit(byte: u8) -> (value: Option<u8>)
    ensures
        match value {
            Some(v) => hex_value(byte) == Some(v as int),
            None => hex_value(byte) is None,
        },
{
    if 0x30 <= byte && byte <= 0x39 {
        Some(byte - 0x30)
    } else if 0x41 <= byte && byte <= 0x46 {
        Some(byte - 0x41 + 10)
    } else if 0x61 <= byte && byte <= 0x66 {
        Some(byte - 0x61 + 10)
    } else {
        None
    }
}

/// A longer row of digits is worth no less than any row it begins with.
proof fn lemma_digits_grow(digits: Seq<u8>, shorter: int)
    requires
        0 <= shorter <= digits.len(),
    ensures
        match hex_digits(digits) {
            Some(value) => hex_digits(digits.take(shorter)) matches Some(less) && 0 <= less <= value,
            None => true,
        },
    decreases digits.len(),
{
    if shorter == digits.len() {
        assert(digits.take(shorter) =~= digits);
        if digits.len() > 0 {
            lemma_digits_grow(digits.drop_last(), digits.len() - 1);
        }
    } else {
        lemma_digits_grow(digits.drop_last(), shorter);
        assert(digits.drop_last().take(shorter) =~= digits.take(shorter));
    }
}

/// Reads `text` as a hexadecimal number. A text that is none, or that is
/// worth more than 32 bits hold, gives 0.
pub fn parse_hex(text: &[u8]) -> (value: u32)
    ensures
        value == (if hex_number(text@) <= u32::MAX {
            hex_number(text@)
        } else {
            0
        }),
{
    let start: usize = if text.len() > 0 && text[0] == 0x2b {
        1
    } else {
        0
    };
    let ghost digits = text@.subrange(start as int, text@.len() as int);
    assert(start == 0 ==> digits == text@);
    assert(start == 1 ==> digits == text@.drop_first());
    if start == text.len() {
        return 0;
    }
    let mut value: u32 = 0;
    let mut i: usize = start;
    while i < text.len()
        invariant
            start <= i <= text.len(),
            digits == text@.subrange(start as int, text@.len() as int),
            digits.len() > 0,
            hex_number(text@) == (match hex_digits(digits) {
                Some(value) => value,
                None => 0,
            }),
            hex_digits(digits.take(i - start)) == Some(value as int),
        decreases text.len() - i,
    {
        proof {
            let shorter = digits.take(i - start);
            let longer = digits.take(i + 1 - start);
            assert(longer.drop_last() == shorter);
            assert(longer.last() == text@[i as int]);
            lemma_digits_grow(digits, i + 1 - start);
        }
        match digit(text[i]) {
            None => {
                assert(hex_digits(digits.take(i + 1 - start)) is None);
                return 0;
            },
            Some(low) => {
                if value > (u32::MAX - low as u32) / 16 {
                    assert(hex_digits(digits.take(i + 1 - start)) == Some(16 * value + low));
                    return 0;
                }
                value = 16 * value + low as u32;
            },
        }
        i += 1;
    }
    assert(digits.take(text.len() - start) == digits);
    value
}

/// Computes the checksum of a message. The message must be ten characters
/// long.
pub fn compute_checksum(s: &[u8]) -> (sum: Option<u16>)
    ensures
        s@.len() != 10 ==> sum is None,
        s@.len() == 10 ==> sum == Some(checksum(s@)),
{
    if s.len() != 10 {
        return None;
    }
    let mut acc: u16 = 0;
    acc = acc ^ pair(s, 0);
    acc = acc ^ pair(s, 1);
    acc = acc ^ pair(s, 2);
    acc = acc ^ pair(s, 3);
    acc = acc ^ pair(s, 4);
    Some(acc)
}

/// What the character pair number `index` of a message is worth.
fn pair(s: &[u8], index: usize) -> (value: u16)
    requires
        s@.len() == 10,
        index < 5,
    ensures
        value == pair_value(s@, index as int),
{
    let text = slice_subrange(s, 2 * index, 2 * index + 2);
    let value = parse_hex(text);
    proof {
        lemma_short_number(text@);
    }
    value as u16
}

/// A hexadecimal number of `text.len()` characters stays below the limit of
/// that many digits.
proof fn lemma_short_number(text: Seq<u8>)
    requires
        text.len() <= 8,
    ensures
        0 <= hex_number(text) < digits_limit(text.len() as int),
{
    let digits = if text.len() > 0 && text[0] == 0x2b {
        text.drop_first()
    } else {
        text
    };
    lemma_digits_limit(digits);
}

/// The worth of up to eight hexadecimal digits stays below the limit of
/// their number.
proof fn lemma_digits_limit(digits: Seq<u8>)
    requires
        digits.len() <= 8,
    ensures
        match hex_digits(digits) {
            Some(value) => 0 <= value < digits_limit(digits.len() as int),
            None => true,
        },
    decreases digits.len(),
{
    if digits.len() > 0 {
        lemma_digits_limit(digits.drop_last());
    }
}

/// Looks at `buf` for a frame at its head.
///
/// With fewer than fourteen bytes there is nothing to say yet, and nothing
/// leaves the buffer. Fourteen bytes between a start and an end byte are a
/// frame and leave the buffer: they give the tag, or a checksum error.
/// Anything else is dropped up to the next byte that could start a frame, a
/// first byte that is itself a start byte being skipped.
pub fn decode_frame(buf: &[u8]) -> (scan: Scan)
    ensures
        scan.consumed == consumed(buf@),
        scan.consumed <= buf@.len(),
        is_outcome(buf@, scan.outcome),
{
    if buf.len() < FRAME_LEN {
        return Scan { consumed: 0, outcome: Ok(None) };
    }
    if buf[0] == START && buf[FRAME_LEN - 1] == END {
        let message = slice_subrange(buf, 1, 11);
        let stated = parse_hex(slice_subrange(buf, 11, 13));
        let outcome = match compute_checksum(message) {
            Some(sum) => {
                proof {
                    lemma_short_number(buf@.subrange(11, 13));
                    lemma_short_number(buf@.subrange(3, 11));
                }
                if stated != sum as u32 {
                    Err(FrameError::ChecksumMismatch)
                } else {
                    Ok(Some(parse_hex(slice_subrange(buf, 3, 11))))
                }
            },
            None => Err(FrameError::ChecksumMismatch),
        };
        return Scan { consumed: FRAME_LEN, outcome };
    }
    let from: usize = if buf[0] == START {
        1
    } else {
        0
    };
    let rest = slice_subrange(buf, from, buf.len());
    match find_byte(rest, START) {
        Some(n) => {
            let garbage = slice_to_vec(slice_subrange(buf, from, from + n));
            Scan { consumed: from + n, outcome: Err(FrameError::Garbage(garbage)) }
        },
        None => Scan { consumed: buf.len(), outcome: Err(FrameError::AllBad) },
    }
}

/// Takes the next frame off `src`.
///
/// What leaves the buffer and what is returned are those of
/// [`decode_frame`] on the buffer's bytes.
pub fn decode(src: &mut BytesMut) -> (outcome: Result<Option<u32>, FrameError>)
    ensures
        buffered(*final(src)) == buffered(*old(src)).skip(consumed(buffered(*old(src)))),
        is_outcome(buffered(*old(src)), outcome),
{
    let scan = decode_frame(as_slice(src));
    let all_bad: bool = match &scan.outcome {
        Err(FrameError::AllBad) => true,
        _ => false,
    };
    if all_bad {
        clear(src);
        assert(buffered(*old(src)).skip(buffered(*old(src)).len() as int) =~= Seq::<u8>::empty());
    } else if scan.consumed > 0 {
        let _ = split_to(src, scan.consumed);
    } else {
        assert(buffered(*old(src)).skip(0) =~= buffered(*old(src)));
    }
    scan.outcome
}

} // verus!
