//! The typed errors that the decoders surface.

use vstd::prelude::*;

verus! {

/// Everything that can go wrong while decoding a header or container record.
///
/// Each decoder returns its error to the immediate caller; none retries
/// internally, and a corrupt sub-structure aborts only the containing parse
/// call.
#[derive(Clone, Copy, Debug, PartialEq, Eq, Structural)]
pub enum LoftyError {
    /// The input ended before a required field could be read.
    Truncated,
    /// The first bytes do not spell `"ID3"`.
    FakeTag,
    /// An unsupported ID3v2 major version, carrying the major and minor byte.
    BadId3v2Version(u8, u8),
    /// An ID3v2.2 tag with the compression flag set: no scheme was ever
    /// defined for it, so the tag must be rejected.
    CompressedId3v2,
    /// An ID3v2 extended header whose size field is below the 6-byte minimum.
    BadExtendedHeaderSize,
    /// An ID3v2 tag whose size is zero or not above its extended size.
    BadTagSize,
    /// A value beyond the 28-bit ceiling that a synchsafe integer can carry.
    TooMuchData,
    /// An MPEG frame header with the reserved version bit pattern.
    InvalidMpegVersion,
    /// An MPEG frame header with the reserved layer bit pattern.
    ReservedLayer,
    /// A Xing/Info header inside a buffer of fewer than 16 bytes.
    BadXingSize,
    /// A Xing/Info header without the frame-count and byte-size flag bits.
    MissingXingFlags,
    /// A VBRI header inside a buffer of fewer than 32 bytes.
    BadVbriSize,
    /// An atom whose raw 32-bit length field is below the 8-byte minimum.
    BadAtomLength,
    /// A freeform atom without the expected `"mean"` or `"name"` child.
    MissingFreeformAtom,
    /// A freeform payload that is not valid UTF-8.
    NotUtf8FreeformAtom,
}

} // verus!
