//! The ID3v2 tag header codec: synchsafe integer arithmetic and the 10-byte
//! header with its optional extended header.

use vstd::prelude::*;

use crate::bytes::spec_u32_be;
use crate::bytes::read_u32_be;
use crate::error::LoftyError;

verus! {

/// The ID3v2 version
#[derive(PartialEq, Eq, Debug, Clone, Copy, Structural)]
pub enum Id3v2Version {
    /// ID3v2.2
    V2,
    /// ID3v2.3
    V3,
    /// ID3v2.4
    V4,
}

/// The restrictions that an ID3v2.4 extended header may place on a writer,
/// decoded from its single restriction byte.
#[derive(PartialEq, Eq, Debug, Clone, Copy, Structural)]
pub struct TagRestrictions {
    /// Tag size restriction (two bits)
    pub tag_size: u8,
    /// Whether text is restricted to Latin-1 or UTF-8
    pub text_encoding: bool,
    /// Text field size restriction (two bits)
    pub text_size: u8,
    /// Whether images are restricted to PNG or JPEG
    pub image_encoding: bool,
    /// Image size restriction (two bits)
    pub image_size: u8,
}

/// The bit layout of the restriction byte: `%ppqrrstt`, with `p` the tag
/// size, `q` the text encoding, `r` the text size, `s` the image encoding
/// and `t` the image size restriction.
pub open spec fn spec_restrictions_from_byte(byte: u8) -> TagRestrictions {
    TagRestrictions {
        tag_size: (byte >> 6) & 3,
        text_encoding: byte & 0x20 == 0x20,
        text_size: (byte >> 3) & 3,
        image_encoding: byte & 0x04 == 0x04,
        image_size: byte & 3,
    }
}

impl TagRestrictions {
    /// Decodes the restriction byte of an extended header.
    pub fn from_byte(byte: u8) -> (r: Self)
        ensures
            r == spec_restrictions_from_byte(byte),
    {
        TagRestrictions {
            tag_size: (byte >> 6) & 3,
            text_encoding: byte & 0x20 == 0x20,
            text_size: (byte >> 3) & 3,
            image_encoding: byte & 0x04 == 0x04,
            image_size: byte & 3,
        }
    }
}

/// The flags of an ID3v2 tag header.
///
/// `experimental` and `footer` are only defined for versions 3 and 4 and are
/// always `false` for version 2; `restrictions` is present only where the
/// extended header announces it.
#[derive(PartialEq, Eq, Debug, Clone, Copy)]
pub struct Id3v2TagFlags {
    /// Whether the tag content is unsynchronised
    pub unsynchronisation: bool,
    /// Whether the tag is in an experimental stage
    pub experimental: bool,
    /// Whether a footer follows the tag
    pub footer: bool,
    /// Whether the extended header carries a CRC
    pub crc: bool,
    /// The restrictions of the extended header, where announced
    pub restrictions: Option<TagRestrictions>,
}

/// A decoded ID3v2 tag header.
#[derive(PartialEq, Eq, Debug, Clone, Copy)]
pub struct Id3v2Header {
    /// The major version of the tag
    pub version: Id3v2Version,
    /// The header's flags
    pub flags: Id3v2TagFlags,
    /// The size of the tag, excluding the 10 header bytes
    pub size: u32,
    /// The size of the extended header, zero where there is none
    pub extended_size: u32,
}

/// Whether the version recognises the experimental, footer and extended
/// header flag bits: only versions 3 and 4 do.
pub open spec fn spec_is_v34(version: Id3v2Version) -> bool {
    version == Id3v2Version::V3 || version == Id3v2Version::V4
}

/// The flags struct read from the header's flag byte, before the extended
/// header contributes the CRC and restriction fields.
pub open spec fn spec_flags_parsed(
    version: Id3v2Version,
    flags: u8,
    crc: bool,
    restrictions: Option<TagRestrictions>,
) -> Id3v2TagFlags {
    Id3v2TagFlags {
        unsynchronisation: flags & 0x80 == 0x80,
        experimental: spec_is_v34(version) && flags & 0x20 == 0x20,
        footer: spec_is_v34(version) && flags & 0x10 == 0x10,
        crc,
        restrictions,
    }
}

/// The final validation every header passes: the tag size must be non-zero
/// and strictly above the extended size.
pub open spec fn spec_finish_header(
    version: Id3v2Version,
    flags: u8,
    size: u32,
    extended_size: u32,
    crc: bool,
    restrictions: Option<TagRestrictions>,
) -> Result<Id3v2Header, LoftyError> {
    if extended_size >= size || size == 0 {
        Err(LoftyError::BadTagSize)
    } else {
        Ok(
            Id3v2Header {
                version,
                flags: spec_flags_parsed(version, flags, crc, restrictions),
                size,
                extended_size,
            },
        )
    }
}

/// The extended header that follows the 10 header bytes where the extended
/// header flag is set: a synchsafe size of at least 6, one flag-count byte,
/// one flag byte, then a 6-byte CRC blob and a 2-byte restriction record,
/// each only where its flag bit announces it.
pub open spec fn spec_read_extended(
    b: Seq<u8>,
    version: Id3v2Version,
    flags: u8,
    size: u32,
) -> Result<Id3v2Header, LoftyError> {
    if b.len() < 14 {
        Err(LoftyError::Truncated)
    } else {
        let extended_size = spec_unsynch_u32(spec_u32_be(b, 10));
        if extended_size < 6 {
            Err(LoftyError::BadExtendedHeaderSize)
        } else if b.len() < 16 {
            Err(LoftyError::Truncated)
        } else {
            let extended_flags = b[15];
            let crc = extended_flags & 0x20 == 0x20;
            let after_crc: int = if crc {
                22
            } else {
                16
            };
            if b.len() < after_crc {
                Err(LoftyError::Truncated)
            } else if extended_flags & 0x10 == 0x10 {
                if b.len() < after_crc + 2 {
                    Err(LoftyError::Truncated)
                } else {
                    let restrictions = Some(spec_restrictions_from_byte(b[after_crc + 1]));
                    spec_finish_header(version, flags, size, extended_size, crc, restrictions)
                }
            } else {
                spec_finish_header(version, flags, size, extended_size, crc, None)
            }
        }
    }
}

/// The whole header parse: the `"ID3"` magic, the major version, the flag
/// byte (rejecting a compressed ID3v2.2 tag), the synchsafe tag size, and
/// the optional extended header.
pub open spec fn spec_read_id3v2_header(b: Seq<u8>) -> Result<Id3v2Header, LoftyError> {
    if b.len() < 10 {
        Err(LoftyError::Truncated)
    } else if !(b[0] == 0x49 && b[1] == 0x44 && b[2] == 0x33) {
        Err(LoftyError::FakeTag)
    } else if b[3] != 2 && b[3] != 3 && b[3] != 4 {
        Err(LoftyError::BadId3v2Version(b[3], b[4]))
    } else {
        let version = if b[3] == 2 {
            Id3v2Version::V2
        } else if b[3] == 3 {
            Id3v2Version::V3
        } else {
            Id3v2Version::V4
        };
        let flags = b[5];
        if version == Id3v2Version::V2 && flags & 0x40 == 0x40 {
            Err(LoftyError::CompressedId3v2)
        } else {
            let size = spec_unsynch_u32(spec_u32_be(b, 6));
            if spec_is_v34(version) && flags & 0x40 == 0x40 {
                spec_read_extended(b, version, flags, size)
            } else {
                spec_finish_header(version, flags, size, 0, false, None)
            }
        }
    }
}

/// Every header that parses satisfies the type's invariant: a non-zero tag
/// size strictly above the extended size.
pub proof fn lemma_id3v2_header_invariant(b: Seq<u8>)
    ensures
        spec_read_id3v2_header(b) matches Ok(h) ==> 0 < h.size && h.extended_size < h.size,
{
}

/// Parses an ID3v2 tag header from the start of `bytes`.
///
/// `bytes` must begin with the 10 header bytes; where the extended header
/// flag is set, the extended header bytes must follow. Succeeds or fails
/// exactly as [`spec_read_id3v2_header`] says.
pub fn read_id3v2_header(bytes: &[u8]) -> (r: Result<Id3v2Header, LoftyError>)
    ensures
        r == spec_read_id3v2_header(bytes@),
{
    if bytes.len() < 10 {
        return Err(LoftyError::Truncated);
    }
    if !(bytes[0] == 0x49 && bytes[1] == 0x44 && bytes[2] == 0x33) {
        return Err(LoftyError::FakeTag);
    }
    let major = bytes[3];
    if major != 2 && major != 3 && major != 4 {
        return Err(LoftyError::BadId3v2Version(major, bytes[4]));
    }
    let version = if major == 2 {
        Id3v2Version::V2
    } else if major == 3 {
        Id3v2Version::V3
    } else {
        Id3v2Version::V4
    };
    let flags = bytes[5];

    // ID3v2.2 reserved bit 6 for compression but never defined a scheme:
    // such a tag must be rejected rather than silently mis-decoded.
    if version == Id3v2Version::V2 && flags & 0x40 == 0x40 {
        return Err(LoftyError::CompressedId3v2);
    }

    let size = unsynch_u32(read_u32_be(bytes, 6));
    let is_v34 = version == Id3v2Version::V3 || version == Id3v2Version::V4;

    let mut extended_size: u32 = 0;
    let mut crc = false;
    let mut restrictions: Option<TagRestrictions> = None;

    if is_v34 && flags & 0x40 == 0x40 {
        if bytes.len() < 14 {
            return Err(LoftyError::Truncated);
        }
        extended_size = unsynch_u32(read_u32_be(bytes, 10));
        if extended_size < 6 {
            return Err(LoftyError::BadExtendedHeaderSize);
        }
        // One byte holds the number of flag bytes (always 1), one the flags.
        if bytes.len() < 16 {
            return Err(LoftyError::Truncated);
        }
        let extended_flags = bytes[15];
        let mut pos: usize = 16;
        if extended_flags & 0x20 == 0x20 {
            crc = true;
            // The 5-byte CRC and its length byte are discarded.
            if bytes.len() < 22 {
                return Err(LoftyError::Truncated);
            }
            pos = 22;
        }
        if extended_flags & 0x10 == 0x10 {
            // One length byte (always 1), then the restriction byte.
            if bytes.len() < pos + 2 {
                return Err(LoftyError::Truncated);
            }
            restrictions = Some(TagRestrictions::from_byte(bytes[pos + 1]));
        }
    }

    if extended_size >= size || size == 0 {
        return Err(LoftyError::BadTagSize);
    }

    Ok(
        Id3v2Header {
            version,
            flags: Id3v2TagFlags {
                unsynchronisation: flags & 0x80 == 0x80,
                experimental: is_v34 && flags & 0x20 == 0x20,
                footer: is_v34 && flags & 0x10 == 0x10,
                crc,
                restrictions,
            },
            size,
            extended_size,
        },
    )
}

/// The value that a synchsafe-encoded 32-bit word stands for: each byte
/// carries seven significant bits, so the four payload nibbles are packed
/// back together by dropping one spacer bit per byte.
pub open spec fn spec_unsynch_u32(n: u32) -> u32 {
    n & 0xFF | (n & 0xFF00) >> 1 | (n & 0xFF_0000) >> 2 | (n & 0xFF00_0000) >> 3
}

/// The synchsafe encoding of `n`: the 28 significant bits spread over four
/// bytes, leaving the top bit of each byte clear.
pub open spec fn spec_synch_u32(n: u32) -> u32 {
    let a = n & 0x7F | (n & 0xFFFF_FF80) << 1;
    let b = a & 0x7FFF | (a & 0xFFFF_8000) << 1;
    b & 0x7F_FFFF | (b & 0xFF80_0000) << 1
}

/// Decodes a synchsafe integer: a 32-bit value whose every byte has its top
/// bit clear, so that the byte sequence can never hold a false frame-sync
/// pattern.
pub fn unsynch_u32(n: u32) -> (r: u32)
    ensures
        r == spec_unsynch_u32(n),
{
    n & 0xFF | (n & 0xFF00) >> 1 | (n & 0xFF_0000) >> 2 | (n & 0xFF00_0000) >> 3
}

/// Encodes `n` as a synchsafe integer, used when writing a tag back.
///
/// Fails with [`LoftyError::TooMuchData`] exactly when `n` exceeds
/// `0x1000_0000`, the ceiling the encoder accepts.
pub fn synch_u32(n: u32) -> (r: Result<u32, LoftyError>)
    ensures
        n > 0x1000_0000 <==> r == Err::<u32, LoftyError>(LoftyError::TooMuchData),
        n <= 0x1000_0000 <==> r == Ok::<u32, LoftyError>(spec_synch_u32(n)),
{
    if n > 0x1000_0000 {
        return Err(LoftyError::TooMuchData);
    }
    let mut x: u32 = n & 0x7F | (n & 0xFFFF_FF80) << 1;
    x = x & 0x7FFF | (x & 0xFFFF_8000) << 1;
    x = x & 0x7F_FFFF | (x & 0xFF80_0000) << 1;
    Ok(x)
}

/// Decoding inverts encoding: every value in the 28-bit synchsafe domain
/// survives a `synch_u32` / `unsynch_u32` round trip unchanged.
pub proof fn lemma_synch_round_trip(n: u32)
    requires
        n <= 0x0FFF_FFFF,
    ensures
        spec_unsynch_u32(spec_synch_u32(n)) == n,
{
    assert(n <= 0x0FFF_FFFF ==> spec_unsynch_u32(spec_synch_u32(n)) == n) by (bit_vector);
}

/// A synchsafe encoding never carries a set top bit in any of its four
/// bytes, for every value in the 28-bit domain.
pub proof fn lemma_synch_top_bits_clear(n: u32)
    requires
        n <= 0x0FFF_FFFF,
    ensures
        spec_synch_u32(n) & 0x8080_8080 == 0,
{
    assert(n <= 0x0FFF_FFFF ==> spec_synch_u32(n) & 0x8080_8080 == 0) by (bit_vector);
}

/// Encoding inverts decoding on every well-formed synchsafe word (one with
/// the top bit of each byte clear): writing back an unchanged size field
/// reproduces its bytes exactly.
pub proof fn lemma_unsynch_round_trip(x: u32)
    requires
        x & 0x8080_8080 == 0,
    ensures
        spec_synch_u32(spec_unsynch_u32(x)) == x,
{
    assert(x & 0x8080_8080 == 0 ==> spec_synch_u32(spec_unsynch_u32(x)) == x) by (bit_vector);
}

} // verus!
