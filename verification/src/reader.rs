//! Primitive field reader: fixed-width big-endian integers, raw byte spans
//! and bit fields, read from the front of a slice.
//!
//! The reads themselves are nom's streaming parsers.  Each is reached through
//! one function of this module whose contract states, over byte sequences,
//! what the parser returns; the rest of the crate is verified against those
//! contracts.

use vstd::prelude::*;
use vstd::arithmetic::power2::pow2;
use vstd::string::StringSliceAdditionalSpecFns;
use vstd::utf8::valid_utf8;
use crate::error::DecodeError;
use crate::error::Decoded;
use crate::error::SpecDecoded;
use crate::error::yields;
use crate::error::yields_view;

verus! {

/// The big-endian value of the two bytes of `s` that start at `at`.
pub open spec fn be16(s: Seq<u8>, at: int) -> int {
    s[at] * 0x100 + s[at + 1]
}

/// The big-endian value of the four bytes of `s` that start at `at`.
pub open spec fn be32(s: Seq<u8>, at: int) -> int {
    s[at] * 0x100_0000 + s[at + 1] * 0x1_0000 + s[at + 2] * 0x100 + s[at + 3]
}

/// One byte from the front of `s`.
pub open spec fn spec_be_u8(s: Seq<u8>) -> SpecDecoded<u8> {
    if s.len() < 1 {
        Err(DecodeError::Incomplete)
    } else {
        Ok((s.skip(1), s[0]))
    }
}

/// A big-endian 16-bit integer from the front of `s`.
pub open spec fn spec_be_u16(s: Seq<u8>) -> SpecDecoded<u16> {
    if s.len() < 2 {
        Err(DecodeError::Incomplete)
    } else {
        Ok((s.skip(2), be16(s, 0) as u16))
    }
}

/// A big-endian 32-bit integer from the front of `s`.
pub open spec fn spec_be_u32(s: Seq<u8>) -> SpecDecoded<u32> {
    if s.len() < 4 {
        Err(DecodeError::Incomplete)
    } else {
        Ok((s.skip(4), be32(s, 0) as u32))
    }
}

/// Reads one byte with `nom::number::streaming::be_u8`.
///
/// Trusted: on an empty input nom reports `Incomplete`; otherwise it returns
/// the first byte and the input without it.
#[verifier::external_body]
pub(crate) fn be_u8<'a>(input: &'a [u8]) -> (r: Decoded<'a, u8>)
    ensures
        yields(r, spec_be_u8(input@)),
{
    match nom::number::streaming::be_u8::<&[u8], nom::error::Error<&[u8]>>(input) {
        Ok((rest, value)) => Ok((rest, value)),
        Err(nom::Err::Incomplete(_)) => Err(DecodeError::Incomplete),
        Err(_) => Err(DecodeError::Malformed),
    }
}

/// Reads a big-endian `u16` with `nom::number::streaming::be_u16`.
///
/// Trusted: with fewer than two bytes nom reports `Incomplete`; otherwise it
/// returns the first two bytes, most significant first, and the input
/// without them.
#[verifier::external_body]
pub(crate) fn be_u16<'a>(input: &'a [u8]) -> (r: Decoded<'a, u16>)
    ensures
        yields(r, spec_be_u16(input@)),
{
    match nom::number::streaming::be_u16::<&[u8], nom::error::Error<&[u8]>>(input) {
        Ok((rest, value)) => Ok((rest, value)),
        Err(nom::Err::Incomplete(_)) => Err(DecodeError::Incomplete),
        Err(_) => Err(DecodeError::Malformed),
    }
}

/// Reads a big-endian `u32` with `nom::number::streaming::be_u32`.
///
/// Trusted: with fewer than four bytes nom reports `Incomplete`; otherwise
/// it returns the first four bytes, most significant first, and the input
/// without them.
#[verifier::external_body]
pub(crate) fn be_u32<'a>(input: &'a [u8]) -> (r: Decoded<'a, u32>)
    ensures
        yields(r, spec_be_u32(input@)),
{
    match nom::number::streaming::be_u32::<&[u8], nom::error::Error<&[u8]>>(input) {
        Ok((rest, value)) => Ok((rest, value)),
        Err(nom::Err::Incomplete(_)) => Err(DecodeError::Incomplete),
        Err(_) => Err(DecodeError::Malformed),
    }
}

/// A span of `count` bytes from the front of `s`: the rest, then the span.
pub open spec fn spec_take(s: Seq<u8>, count: nat) -> SpecDecoded<Seq<u8>> {
    if s.len() < count {
        Err(DecodeError::Incomplete)
    } else {
        Ok((s.skip(count as int), s.take(count as int)))
    }
}

/// Splits `count` bytes off the front of `input` with
/// `nom::bytes::streaming::take`.
///
/// Trusted: with fewer than `count` bytes nom reports `Incomplete`; otherwise
/// it splits the input at `count` and returns the suffix as the rest and the
/// prefix as the value.
#[verifier::external_body]
pub(crate) fn take<'a>(input: &'a [u8], count: usize) -> (r: Decoded<'a, &'a [u8]>)
    ensures
        yields_view(r, spec_take(input@, count as nat)),
{
    match nom::bytes::streaming::take::<usize, &[u8], nom::error::Error<&[u8]>>(count)(input) {
        Ok((rest, span)) => Ok((rest, span)),
        Err(nom::Err::Incomplete(_)) => Err(DecodeError::Incomplete),
        Err(_) => Err(DecodeError::Malformed),
    }
}

/// The big-endian value of the first `n` bytes of `s`.
pub open spec fn prefix_value(s: Seq<u8>, n: nat) -> nat
    decreases n,
{
    if n == 0 {
        0
    } else {
        prefix_value(s, (n - 1) as nat) * 256 + s[n - 1] as nat
    }
}

/// The value of the `count` bits of `s` that start `offset` bits into it,
/// the most significant bit of each byte first: the big-endian value of the
/// bytes that hold those bits, without the bits after the field and without
/// the bits before it.
pub open spec fn bit_field(s: Seq<u8>, offset: nat, count: nat) -> nat {
    let n = (offset + count + 7) / 8;
    (prefix_value(s, n) / pow2((8 * n - offset - count) as nat)) % pow2(count)
}

/// A position in a bit stream: the bytes not yet fully read, and the number
/// of bits of the first of them that have been read already.
pub type BitCursor<'a> = (&'a [u8], usize);

/// A field of `count` bits read `offset` bits into `s`: the bytes that are
/// not yet fully read, the offset into the first of them, and the field.
pub open spec fn spec_take_bits(s: Seq<u8>, offset: nat, count: nat) -> Result<
    (Seq<u8>, nat, nat),
    DecodeError,
> {
    if count == 0 {
        Ok((s, offset, 0))
    } else if s.len() * 8 < offset + count {
        Err(DecodeError::Incomplete)
    } else {
        Ok(
            (
                s.skip(((offset + count) / 8) as int),
                (offset + count) % 8,
                bit_field(s, offset, count),
            ),
        )
    }
}

/// Reads `count` bits at `bit_offset` bits into `input` with
/// `nom::bits::streaming::take`, as a `u32`.
///
/// Trusted: nom returns zero and the cursor unchanged for a count of zero,
/// reports `Incomplete` when the input holds fewer than `bit_offset + count`
/// bits, and otherwise accumulates the field most significant bit first,
/// drops the bytes that were read to their end and returns the offset into
/// the first byte that is left.  The bounds keep its shifts within a `u32`
/// and its count of the bits of the input within a `usize`.
#[verifier::external_body]
pub(crate) fn take_bits<'a>(input: &'a [u8], bit_offset: usize, count: usize) -> (r: Result<
    (BitCursor<'a>, u32),
    DecodeError,
>)
    requires
        bit_offset < 8,
        count <= 32,
        input@.len() * 8 <= usize::MAX,
    ensures
        match (r, spec_take_bits(input@, bit_offset as nat, count as nat)) {
            (Ok(((rest, end), value)), Ok((spec_rest, spec_end, spec_value))) => rest@ == spec_rest
                && end == spec_end && value == spec_value,
            (Err(e), Err(spec_e)) => e == spec_e,
            _ => false,
        },
{
    match nom::bits::streaming::take::<&[u8], u32, usize, nom::error::Error<BitCursor>>(count)(
        (input, bit_offset),
    ) {
        Ok((cursor, value)) => Ok((cursor, value)),
        Err(nom::Err::Incomplete(_)) => Err(DecodeError::Incomplete),
        Err(_) => Err(DecodeError::Malformed),
    }
}

/// Whether the bit of weight `weight`, a power of two, is set in `word`.
pub open spec fn bit_set(word: int, weight: int) -> bool {
    (word / weight) % 2 == 1
}

/// Checks that `bytes` are UTF-8 with `std::str::from_utf8` and returns them
/// as text.
///
/// Trusted: the standard library accepts exactly the well-formed UTF-8
/// sequences, and the string slice it returns is made of the bytes it was
/// given.
#[verifier::external_body]
pub(crate) fn utf8_text<'a>(bytes: &'a [u8]) -> (r: Option<&'a str>)
    ensures
        r is Some <==> valid_utf8(bytes@),
        r matches Some(text) ==> text.spec_bytes() == bytes@,
{
    match std::str::from_utf8(bytes) {
        Ok(text) => Some(text),
        Err(_) => None,
    }
}

} // verus!
