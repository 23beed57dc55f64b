//! Big-endian field extraction and UTF-8 decoding.
//!
//! The executable readers delegate to the `byteorder` crate and to
//! `String::from_utf8`; their contracts restate what those functions are
//! documented (and shown by their source) to compute.

use vstd::prelude::*;

verus! {

/// The unsigned 32-bit value spelled by the four bytes at `pos`, most
/// significant byte first.
pub open spec fn spec_u32_be(data: Seq<u8>, pos: int) -> u32 {
    (data[pos] as u32) << 24 | (data[pos + 1] as u32) << 16 | (data[pos + 2] as u32) << 8
        | (data[pos + 3] as u32)
}

/// The unsigned 64-bit value spelled by the eight bytes at `pos`, most
/// significant byte first.
pub open spec fn spec_u64_be(data: Seq<u8>, pos: int) -> u64 {
    (data[pos] as u64) << 56 | (data[pos + 1] as u64) << 48 | (data[pos + 2] as u64) << 40
        | (data[pos + 3] as u64) << 32 | (data[pos + 4] as u64) << 24
        | (data[pos + 5] as u64) << 16 | (data[pos + 6] as u64) << 8 | (data[pos + 7] as u64)
}

/// Relies on byteorder's `BigEndian::read_u32`: the first four bytes of the
/// slice, most significant first (`u32::from_be_bytes`).
#[verifier::external_body]
pub(crate) fn read_u32_be(data: &[u8], pos: usize) -> (r: u32)
    requires
        pos + 4 <= data.len(),
    ensures
        r == spec_u32_be(data@, pos as int),
{
    <byteorder::BigEndian as byteorder::ByteOrder>::read_u32(&data[pos..pos + 4])
}

/// Relies on byteorder's `BigEndian::read_u64`: the first eight bytes of the
/// slice, most significant first (`u64::from_be_bytes`).
#[verifier::external_body]
pub(crate) fn read_u64_be(data: &[u8], pos: usize) -> (r: u64)
    requires
        pos + 8 <= data.len(),
    ensures
        r == spec_u64_be(data@, pos as int),
{
    <byteorder::BigEndian as byteorder::ByteOrder>::read_u64(&data[pos..pos + 8])
}

/// The characters of `b` decoded as UTF-8, or `None` where `b` is not valid
/// UTF-8. A pure function of the bytes alone.
pub uninterp spec fn utf8_decode(b: Seq<u8>) -> Option<Seq<char>>;

/// Relies on `String::from_utf8`: succeeds exactly on valid UTF-8 and decodes
/// the bytes to their character sequence, a function of the bytes alone.
#[verifier::external_body]
pub(crate) fn string_from_utf8(b: Vec<u8>) -> (r: Option<String>)
    ensures
        r is Some <==> utf8_decode(b@) is Some,
        r matches Some(s) ==> utf8_decode(b@) == Some(s@),
{
    match String::from_utf8(b) {
        Ok(s) => Some(s),
        Err(_) => None,
    }
}

} // verus!
