use lofty::error::LoftyError;
use lofty::mp4::AtomIdent;
use lofty::mp4::AtomInfo;
use lofty::mp4::parse_freeform;

#[test]
fn atom_plain() {
    let mut data = vec![0u8; 16];
    data[..4].copy_from_slice(&[0, 0, 0, 16]);
    data[4..8].copy_from_slice(b"moov");
    let (atom, next) = AtomInfo::read(&data, 0).unwrap();
    assert_eq!(atom.start, 0);
    assert_eq!(atom.len, 16);
    assert!(!atom.extended);
    assert_eq!(atom.ident, AtomIdent::Fourcc(*b"moov"));
    assert_eq!(next, 8);
}

#[test]
fn atom_length_below_minimum() {
    let data = [0, 0, 0, 5, b'f', b'r', b'e', b'e'];
    assert_eq!(AtomInfo::read(&data, 0), Err(LoftyError::BadAtomLength));
}

#[test]
fn atom_to_end_of_stream() {
    let mut data = vec![0u8; 100];
    data[20..24].copy_from_slice(&[0, 0, 0, 0]);
    data[24..28].copy_from_slice(b"free");
    let (atom, next) = AtomInfo::read(&data, 20).unwrap();
    assert_eq!(atom.start, 20);
    assert_eq!(atom.len, 80);
    assert!(!atom.extended);
    assert_eq!(atom.ident, AtomIdent::Fourcc(*b"free"));
    assert_eq!(next, 28);
}

#[test]
fn atom_extended_length() {
    let mut data = vec![0u8; 24];
    data[..4].copy_from_slice(&[0, 0, 0, 1]);
    data[4..8].copy_from_slice(b"mdat");
    data[8..16].copy_from_slice(&[0, 0, 0, 0, 0, 0, 0, 24]);
    let (atom, next) = AtomInfo::read(&data, 0).unwrap();
    assert_eq!(atom.len, 24);
    assert!(atom.extended);
    assert_eq!(next, 16);
}

#[test]
fn atom_truncated() {
    let data = [0, 0, 0, 16, b'm'];
    assert_eq!(AtomInfo::read(&data, 0), Err(LoftyError::Truncated));
    assert_eq!(AtomInfo::read(&[], 0), Err(LoftyError::Truncated));
}

fn freeform_children() -> Vec<u8> {
    let mut data = Vec::new();
    // "mean" child: length 20 with payload "com.test"
    data.extend_from_slice(&[0, 0, 0, 20]);
    data.extend_from_slice(b"mean");
    data.extend_from_slice(&[0, 0, 0, 0]);
    data.extend_from_slice(b"com.test");
    // "name" child: length 16 with payload "subt"
    data.extend_from_slice(&[0, 0, 0, 16]);
    data.extend_from_slice(b"name");
    data.extend_from_slice(&[0, 0, 0, 0]);
    data.extend_from_slice(b"subt");
    data
}

#[test]
fn atom_freeform() {
    let mut data = Vec::new();
    data.extend_from_slice(&[0, 0, 0, 44]);
    data.extend_from_slice(b"----");
    data.extend_from_slice(&freeform_children());
    let (atom, next) = AtomInfo::read(&data, 0).unwrap();
    assert_eq!(atom.start, 0);
    assert_eq!(atom.len, 44);
    assert!(!atom.extended);
    assert_eq!(
        atom.ident,
        AtomIdent::Freeform {
            mean: String::from("com.test"),
            name: String::from("subt"),
        }
    );
    assert_eq!(next, 44);
}

#[test]
fn parse_freeform_children_only() {
    let data = freeform_children();
    let (ident, next) = parse_freeform(&data, 0).unwrap();
    assert_eq!(
        ident,
        AtomIdent::Freeform {
            mean: String::from("com.test"),
            name: String::from("subt"),
        }
    );
    assert_eq!(next, 36);
}

#[test]
fn freeform_missing_mean() {
    let mut data = Vec::new();
    data.extend_from_slice(&[0, 0, 0, 28]);
    data.extend_from_slice(b"----");
    // A "free" child where "mean" is expected.
    data.extend_from_slice(&[0, 0, 0, 20]);
    data.extend_from_slice(b"free");
    data.extend_from_slice(&[0, 0, 0, 0]);
    data.extend_from_slice(b"com.test");
    assert_eq!(AtomInfo::read(&data, 0), Err(LoftyError::MissingFreeformAtom));
}

#[test]
fn freeform_bad_utf8() {
    let mut data = Vec::new();
    data.extend_from_slice(&[0, 0, 0, 22]);
    data.extend_from_slice(b"----");
    data.extend_from_slice(&[0, 0, 0, 14]);
    data.extend_from_slice(b"mean");
    data.extend_from_slice(&[0, 0, 0, 0]);
    data.extend_from_slice(&[0xC3, 0x28]);
    assert_eq!(AtomInfo::read(&data, 0), Err(LoftyError::NotUtf8FreeformAtom));
}

#[test]
fn freeform_truncated_payload() {
    let mut data = Vec::new();
    data.extend_from_slice(&[0, 0, 0, 44]);
    data.extend_from_slice(b"----");
    // The "mean" child claims 64 payload bytes that are not there.
    data.extend_from_slice(&[0, 0, 0, 64]);
    data.extend_from_slice(b"mean");
    data.extend_from_slice(&[0, 0, 0, 0]);
    data.extend_from_slice(b"com.test");
    assert_eq!(AtomInfo::read(&data, 0), Err(LoftyError::Truncated));
}
