//! Reading the image: big-endian words and zero-terminated byte strings.

use byteorder::{BigEndian, ByteOrder};
use vstd::prelude::*;
use vstd::slice::slice_subrange;

verus! {

/// The unsigned number that the first four bytes of `bytes` spell, most
/// significant byte first.
pub open spec fn spec_be_u32(bytes: Seq<u8>) -> int
    recommends
        bytes.len() >= 4,
{
    bytes[0] as int * 0x100_0000 + bytes[1] as int * 0x1_0000 + bytes[2] as int * 0x100
        + bytes[3] as int
}

/// Where a scan that starts at `start` stops: at the first zero byte at or
/// after `start`, or at the end of `image` when there is none.
pub open spec fn spec_scan_end(image: Seq<u8>, start: int) -> int
    decreases image.len() - start,
{
    if start < 0 || start >= image.len() || image[start] == 0 {
        start
    } else {
        spec_scan_end(image, start + 1)
    }
}

/// The bytes of the string that starts at `start`: all bytes from there up to
/// the first zero byte, which is left out, or up to the end of `image`.
pub open spec fn spec_c_string(image: Seq<u8>, start: int) -> Seq<u8> {
    image.subrange(start, spec_scan_end(image, start))
}

/// The end of a scan lies between its start and the end of the image, no
/// byte before it is zero, and it is the end of the image or a zero byte.
/// No other position has these three properties.
pub proof fn lemma_scan_end(image: Seq<u8>, start: int)
    requires
        0 <= start <= image.len(),
    ensures
        start <= spec_scan_end(image, start) <= image.len(),
        forall|k: int| start <= k < spec_scan_end(image, start) ==> image[k] != 0,
        spec_scan_end(image, start) == image.len() || image[spec_scan_end(image, start)] == 0,
        forall|end: int|
            start <= end <= image.len() && (forall|k: int| start <= k < end ==> image[k] != 0) && (
            end == image.len() || image[end] == 0) ==> end == spec_scan_end(image, start),
    decreases image.len() - start,
{
    if start < image.len() && image[start] != 0 {
        lemma_scan_end(image, start + 1);
        let stop = spec_scan_end(image, start);
        assert forall|k: int| start <= k < stop implies image[k] != 0 by {
            if k > start {
                assert(start + 1 <= k < spec_scan_end(image, start + 1));
            }
        }
        assert forall|end: int|
            start <= end <= image.len() && (forall|k: int| start <= k < end ==> image[k] != 0) && (
            end == image.len() || image[end] == 0) implies end == stop by {
            assert(end != start);
            assert(forall|k: int| start + 1 <= k < end ==> image[k] != 0);
        }
    }
}

/// A string with no zero byte before the end of the image runs to the end of
/// the image.
pub proof fn lemma_unterminated_string(image: Seq<u8>, start: int)
    requires
        0 <= start <= image.len(),
        forall|k: int| start <= k < image.len() ==> image[k] != 0,
    ensures
        spec_scan_end(image, start) == image.len(),
        spec_c_string(image, start) == image.subrange(start, image.len() as int),
{
    lemma_scan_end(image, start);
}

/// A string holds no zero byte, and what lies behind its terminator has no
/// part in it.
pub proof fn lemma_c_string_stops_at_zero(image: Seq<u8>, start: int, zero: int)
    requires
        0 <= start <= zero < image.len(),
        image[zero] == 0,
        forall|k: int| start <= k < zero ==> image[k] != 0,
    ensures
        spec_c_string(image, start) == image.subrange(start, zero),
{
    lemma_scan_end(image, start);
}

/// Reads an unsigned 32-bit number, most significant byte first, from the
/// start of `buf`.
///
/// Calls `byteorder::BigEndian::read_u32`. Trusted: that the result is the
/// number which the first four bytes spell in big-endian order. `read_u32`
/// panics on fewer than four bytes, which `requires` leaves out.
#[verifier::external_body]
fn read_u32_be(buf: &[u8]) -> (value: u32)
    requires
        buf@.len() >= 4,
    ensures
        value as int == spec_be_u32(buf@),
{
    BigEndian::read_u32(buf)
}

/// Reads the big-endian 32-bit number that lies at offset `at` of `bytes`.
/// `None` when fewer than four bytes lie there.
pub fn be_u32_at(bytes: &[u8], at: usize) -> (value: Option<u32>)
    ensures
        value is Some <==> at + 4 <= bytes@.len(),
        value matches Some(v) ==> v as int == spec_be_u32(bytes@.subrange(at as int, at + 4)),
{
    if at > bytes.len() || bytes.len() - at < 4 {
        None
    } else {
        let word = slice_subrange(bytes, at, at + 4);
        Some(read_u32_be(word))
    }
}

/// Collects the zero-terminated string that starts at `offset` of `image`:
/// the bytes from `offset` up to the first zero byte, without it, or up to
/// the end of the image when no zero byte follows. `None` when `offset` lies
/// past the end of the image. An offset equal to the length of the image
/// gives the empty string.
pub fn read_c_string(image: &[u8], offset: usize) -> (bytes: Option<Vec<u8>>)
    ensures
        bytes is Some <==> offset <= image@.len(),
        bytes matches Some(b) ==> b@ == spec_c_string(image@, offset as int),
        bytes matches Some(b) ==> offset + b@.len() <= image@.len(),
        bytes matches Some(b) ==> forall|k: int| 0 <= k < b@.len() ==> b@[k] != 0,
        bytes matches Some(b) ==> offset + b@.len() == image@.len() || image@[offset + b@.len()]
            == 0,
{
    if offset > image.len() {
        return None;
    }
    let mut collected: Vec<u8> = Vec::new();
    let mut at: usize = offset;
    while at < image.len() && image[at] != 0
        invariant
            offset <= at <= image@.len(),
            collected@ == image@.subrange(offset as int, at as int),
            spec_scan_end(image@, offset as int) == spec_scan_end(image@, at as int),
        decreases image@.len() - at,
    {
        collected.push(image[at]);
        at = at + 1;
    }
    proof {
        lemma_scan_end(image@, offset as int);
    }
    Some(collected)
}

} // verus!
