use lofty::error::LoftyError;
use lofty::id3v2::Id3v2Version;
use lofty::id3v2::read_id3v2_header;
use lofty::id3v2::synch_u32;
use lofty::id3v2::unsynch_u32;

#[test]
fn synch_round_trip() {
    for n in [
        0u32,
        1,
        0x7F,
        0x80,
        0x3FFF,
        0x4000,
        0x1F_FFFF,
        0x20_0000,
        0x0FFF_FFFF,
    ] {
        assert_eq!(unsynch_u32(synch_u32(n).unwrap()), n);
    }
}

#[test]
fn synch_exact_values() {
    assert_eq!(synch_u32(0x0FFF_FFFF), Ok(0x7F7F_7F7F));
    assert_eq!(synch_u32(128), Ok(0x100));
    assert_eq!(synch_u32(0), Ok(0));
    assert_eq!(unsynch_u32(0x7F7F_7F7F), 0x0FFF_FFFF);
    assert_eq!(unsynch_u32(0x100), 128);
    assert_eq!(unsynch_u32(0x0000_0201), 257);
}

#[test]
fn unsynch_round_trip_on_synchsafe_words() {
    for x in [0u32, 0x100, 0x201, 0x7F7F, 0x7F7F_7F7F] {
        assert_eq!(synch_u32(unsynch_u32(x)), Ok(x));
    }
}

#[test]
fn synch_rejects_oversized() {
    assert_eq!(synch_u32(0x1000_0001), Err(LoftyError::TooMuchData));
    assert_eq!(synch_u32(u32::MAX), Err(LoftyError::TooMuchData));
    assert!(synch_u32(0x1000_0000).is_ok());
}

#[test]
fn synch_top_bits_clear() {
    for n in [0u32, 1, 0x7F, 0x80, 0xFFFF, 0x0FFF_FFFF] {
        let s = synch_u32(n).unwrap();
        for byte in s.to_be_bytes() {
            assert_eq!(byte & 0x80, 0);
        }
    }
}

#[test]
fn header_bad_version() {
    let bytes = [b'I', b'D', b'3', 5, 7, 0, 0, 0, 2, 1];
    assert_eq!(
        read_id3v2_header(&bytes),
        Err(LoftyError::BadId3v2Version(5, 7))
    );
}

#[test]
fn header_fake_tag() {
    let bytes = [b'X', b'D', b'3', 4, 0, 0, 0, 0, 2, 1];
    assert_eq!(read_id3v2_header(&bytes), Err(LoftyError::FakeTag));
}

#[test]
fn header_truncated() {
    let bytes = [b'I', b'D', b'3', 4, 0];
    assert_eq!(read_id3v2_header(&bytes), Err(LoftyError::Truncated));
}

#[test]
fn header_compressed_v2_rejected() {
    let bytes = [b'I', b'D', b'3', 2, 0, 0x40, 0, 0, 2, 1];
    assert_eq!(read_id3v2_header(&bytes), Err(LoftyError::CompressedId3v2));
}

#[test]
fn header_v4_plain() {
    let bytes = [b'I', b'D', b'3', 4, 0, 0, 0, 0, 2, 1];
    let h = read_id3v2_header(&bytes).unwrap();
    assert_eq!(h.version, Id3v2Version::V4);
    assert_eq!(h.size, 257);
    assert_eq!(h.extended_size, 0);
    assert!(!h.flags.unsynchronisation);
    assert!(!h.flags.experimental);
    assert!(!h.flags.footer);
    assert!(!h.flags.crc);
    assert!(h.flags.restrictions.is_none());
}

#[test]
fn header_v2_ignores_v3_flag_bits() {
    // Bits 5 and 4 are only defined for versions 3 and 4.
    let bytes = [b'I', b'D', b'3', 2, 0, 0xB0, 0, 0, 2, 1];
    let h = read_id3v2_header(&bytes).unwrap();
    assert_eq!(h.version, Id3v2Version::V2);
    assert!(h.flags.unsynchronisation);
    assert!(!h.flags.experimental);
    assert!(!h.flags.footer);
}

#[test]
fn header_v4_flag_bits() {
    let bytes = [b'I', b'D', b'3', 4, 0, 0xB0, 0, 0, 2, 1];
    let h = read_id3v2_header(&bytes).unwrap();
    assert!(h.flags.unsynchronisation);
    assert!(h.flags.experimental);
    assert!(h.flags.footer);
}

#[test]
fn header_zero_size_rejected() {
    let bytes = [b'I', b'D', b'3', 4, 0, 0, 0, 0, 0, 0];
    assert_eq!(read_id3v2_header(&bytes), Err(LoftyError::BadTagSize));
}

#[test]
fn header_extended_plain() {
    let bytes = [
        b'I', b'D', b'3', 4, 0, 0x40, 0, 0, 1, 0, // size 128
        0, 0, 0, 6,    // extended size 6
        1,    // number of flag bytes
        0,    // extended flags
    ];
    let h = read_id3v2_header(&bytes).unwrap();
    assert_eq!(h.size, 128);
    assert_eq!(h.extended_size, 6);
    assert!(!h.flags.crc);
    assert!(h.flags.restrictions.is_none());
}

#[test]
fn header_extended_too_small() {
    let bytes = [
        b'I', b'D', b'3', 4, 0, 0x40, 0, 0, 1, 0, 0, 0, 0, 5, 1, 0,
    ];
    assert_eq!(
        read_id3v2_header(&bytes),
        Err(LoftyError::BadExtendedHeaderSize)
    );
}

#[test]
fn header_extended_crc() {
    let bytes = [
        b'I', b'D', b'3', 4, 0, 0x40, 0, 0, 1, 0, // size 128
        0, 0, 0, 12,   // extended size
        1,    // number of flag bytes
        0x20, // extended flags: CRC present
        1, 2, 3, 4, 5, 6, // CRC length byte and blob, discarded
    ];
    let h = read_id3v2_header(&bytes).unwrap();
    assert!(h.flags.crc);
    assert!(h.flags.restrictions.is_none());
}

#[test]
fn header_extended_restrictions() {
    let bytes = [
        b'I', b'D', b'3', 4, 0, 0x40, 0, 0, 1, 0, // size 128
        0, 0, 0, 8,    // extended size
        1,    // number of flag bytes
        0x10, // extended flags: restrictions present
        1,    // restriction data length, always 1
        0xFF, // every restriction set
    ];
    let h = read_id3v2_header(&bytes).unwrap();
    assert!(!h.flags.crc);
    let r = h.flags.restrictions.unwrap();
    assert_eq!(r.tag_size, 3);
    assert!(r.text_encoding);
    assert_eq!(r.text_size, 3);
    assert!(r.image_encoding);
    assert_eq!(r.image_size, 3);
}

#[test]
fn header_extended_not_above_size_rejected() {
    // The extended size must stay strictly below the tag size.
    let bytes = [
        b'I', b'D', b'3', 4, 0, 0x40, 0, 0, 0, 6, // size 6
        0, 0, 0, 6, // extended size 6
        1, 0,
    ];
    assert_eq!(read_id3v2_header(&bytes), Err(LoftyError::BadTagSize));
}
