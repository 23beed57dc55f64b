//! The MP4-style atom (box) header reader, including the freeform
//! (reverse-DNS) identifier convention.
//!
//! The reader is a pure function from a byte stream and a cursor position to
//! one header record plus the next position: callers advance by the atom's
//! length themselves to reach the next sibling.

use vstd::prelude::*;

use crate::bytes::read_u32_be;
use crate::bytes::read_u64_be;
use crate::bytes::spec_u32_be;
use crate::bytes::spec_u64_be;
use crate::bytes::string_from_utf8;
use crate::bytes::utf8_decode;
use crate::error::LoftyError;

verus! {

/// Represents an `MP4` atom identifier
#[derive(Eq, PartialEq, Debug, Clone)]
pub enum AtomIdent {
    /// A four byte identifier
    ///
    /// Many FOURCCs start with `0xA9` and should be human-readable.
    Fourcc([u8; 4]),
    /// A freeform identifier: the fourcc `"----"` followed by a `"mean"`
    /// child naming a reverse-DNS namespace and a `"name"` child naming the
    /// key.
    Freeform {
        /// A string using a reverse DNS naming convention
        mean: String,
        /// A string identifying the atom
        name: String,
    },
}

/// A decoded atom header.
///
/// Only the header is consumed, never the body; `len` counts the whole atom,
/// so a caller reaches the next sibling by advancing `len` minus the header
/// bytes already consumed.
#[derive(Debug, Clone, PartialEq, Eq)]
pub struct AtomInfo {
    /// The stream position at which the atom starts
    pub start: u64,
    /// The resolved length of the atom
    pub len: u64,
    /// Whether the length came from a 64-bit extended length field
    pub extended: bool,
    /// The atom's identifier
    pub ident: AtomIdent,
}

/// The mathematical shape of an atom identifier.
pub enum SpecAtomIdent {
    /// A four byte identifier
    Fourcc(Seq<u8>),
    /// A freeform identifier with its two decoded strings
    Freeform { mean: Seq<char>, name: Seq<char> },
}

/// The mathematical shape of a decoded atom header.
pub struct SpecAtomInfo {
    /// The stream position at which the atom starts
    pub start: int,
    /// The resolved length of the atom
    pub len: int,
    /// Whether the length came from a 64-bit extended length field
    pub extended: bool,
    /// The atom's identifier
    pub ident: SpecAtomIdent,
}

impl View for AtomIdent {
    type V = SpecAtomIdent;

    open spec fn view(&self) -> SpecAtomIdent {
        match self {
            AtomIdent::Fourcc(fourcc) => SpecAtomIdent::Fourcc(fourcc@),
            AtomIdent::Freeform { mean, name } => SpecAtomIdent::Freeform {
                mean: mean@,
                name: name@,
            },
        }
    }
}

impl View for AtomInfo {
    type V = SpecAtomInfo;

    open spec fn view(&self) -> SpecAtomInfo {
        SpecAtomInfo {
            start: self.start as int,
            len: self.len as int,
            extended: self.extended,
            ident: self.ident@,
        }
    }
}

/// Whether the four bytes at `pos` spell the given fourcc.
pub open spec fn spec_fourcc_at(data: Seq<u8>, pos: int, c0: u8, c1: u8, c2: u8, c3: u8) -> bool {
    data[pos] == c0 && data[pos + 1] == c1 && data[pos + 2] == c2 && data[pos + 3] == c3
}

/// The length resolution every atom header ends with: a raw length of 0
/// extends the atom from its start to the end of the stream, 1 announces a 64-bit extended
/// length, any other value below 8 is malformed, and the rest stand for
/// themselves. `cur` is the position after everything read so far.
pub open spec fn spec_resolve_atom_len(
    data: Seq<u8>,
    start: int,
    rawlen: u32,
    cur: int,
    ident: SpecAtomIdent,
) -> Result<(SpecAtomInfo, int), LoftyError> {
    if rawlen == 0 {
        Ok((SpecAtomInfo { start, len: data.len() - start, extended: false, ident }, cur))
    } else if rawlen == 1 {
        if cur + 8 > data.len() {
            Err(LoftyError::Truncated)
        } else {
            Ok(
                (
                    SpecAtomInfo {
                        start,
                        len: spec_u64_be(data, cur) as int,
                        extended: true,
                        ident,
                    },
                    cur + 8,
                ),
            )
        }
    } else if rawlen < 8 {
        Err(LoftyError::BadAtomLength)
    } else {
        Ok((SpecAtomInfo { start, len: rawlen as int, extended: false, ident }, cur))
    }
}

/// Where the payload of a freeform child atom starting at `q` ends: past its
/// 8 or 16 header bytes, the 4 version and flag bytes, and the
/// `length - 12` payload bytes. Meaningful only where the chunk parses; the
/// parse functions clamp it before recursing on it.
pub open spec fn spec_plain_chunk_end(data: Seq<u8>, q: int) -> int {
    let rawlen = spec_u32_be(data, q);
    let pm: int = if rawlen == 1 {
        q + 16
    } else {
        q + 8
    };
    let clen: int = if rawlen == 0 {
        data.len() - q
    } else if rawlen == 1 {
        spec_u64_be(data, q + 8) as int
    } else {
        rawlen as int
    };
    pm + 4 + (clen - 12)
}

/// One child of a freeform atom: a whole atom header read at `q`, which must
/// carry the expected fourcc, followed by 4 version and flag bytes and a
/// UTF-8 payload of its length minus the 12 bytes already read.
pub open spec fn spec_freeform_chunk(
    data: Seq<u8>,
    q: int,
    c0: u8,
    c1: u8,
    c2: u8,
    c3: u8,
) -> Result<Seq<char>, LoftyError>
    decreases data.len() - q, 1int,
{
    match spec_read_atom(data, q) {
        Err(e) => Err(e),
        Ok((atom, pm)) => match atom.ident {
            SpecAtomIdent::Fourcc(f) => if f.len() == 4 && f[0] == c0 && f[1] == c1 && f[2] == c2
                && f[3] == c3 {
                if atom.len < 12 {
                    Err(LoftyError::BadAtomLength)
                } else if pm + 4 + (atom.len - 12) > data.len() {
                    Err(LoftyError::Truncated)
                } else {
                    match utf8_decode(data.subrange(pm + 4, pm + 4 + (atom.len - 12))) {
                        Option::None => Err(LoftyError::NotUtf8FreeformAtom),
                        Option::Some(cs) => Ok(cs),
                    }
                }
            } else {
                Err(LoftyError::MissingFreeformAtom)
            },
            SpecAtomIdent::Freeform { .. } => Err(LoftyError::MissingFreeformAtom),
        },
    }
}

/// The two children a freeform atom must carry, `"mean"` then `"name"`, in
/// sequence. Returns the decoded identifier and the position after the
/// second child.
pub open spec fn spec_parse_freeform(data: Seq<u8>, pos: int) -> Result<
    (SpecAtomIdent, int),
    LoftyError,
>
    decreases data.len() - pos, 2int,
{
    match spec_freeform_chunk(data, pos, 0x6D, 0x65, 0x61, 0x6E) {
        Err(e) => Err(e),
        Ok(mean_cs) => {
            let p1 = spec_plain_chunk_end(data, pos);
            // Clamped only for well-foundedness: where the first chunk
            // parsed, its end lies in this range already.
            let hi: int = if data.len() < pos {
                pos
            } else {
                data.len() as int
            };
            let p1c: int = if p1 < pos {
                pos
            } else if p1 > hi {
                hi
            } else {
                p1
            };
            match spec_freeform_chunk(data, p1c, 0x6E, 0x61, 0x6D, 0x65) {
                Err(e) => Err(e),
                Ok(name_cs) => Ok(
                    (
                        SpecAtomIdent::Freeform { mean: mean_cs, name: name_cs },
                        spec_plain_chunk_end(data, p1c),
                    ),
                ),
            }
        },
    }
}

/// The whole atom header parse at `pos`: a 4-byte big-endian raw length, a
/// 4-byte identifier, the freeform children where the identifier is
/// `"----"`, and the length resolution.
pub open spec fn spec_read_atom(data: Seq<u8>, pos: int) -> Result<(SpecAtomInfo, int), LoftyError>
    decreases data.len() - pos, 0int,
{
    if pos + 8 > data.len() {
        Err(LoftyError::Truncated)
    } else {
        let rawlen = spec_u32_be(data, pos);
        if spec_fourcc_at(data, pos + 4, 0x2D, 0x2D, 0x2D, 0x2D) {
            match spec_parse_freeform(data, pos + 8) {
                Err(e) => Err(e),
                Ok((ident, cur)) => spec_resolve_atom_len(data, pos, rawlen, cur, ident),
            }
        } else {
            spec_resolve_atom_len(
                data,
                pos,
                rawlen,
                pos + 8,
                SpecAtomIdent::Fourcc(data.subrange(pos + 4, pos + 8)),
            )
        }
    }
}

/// Every atom that parses without the sentinel length values 0 and 1
/// satisfies the type's invariant: its length covers at least the 8 header
/// bytes.
pub proof fn lemma_atom_len_invariant(data: Seq<u8>, pos: int)
    ensures
        spec_read_atom(data, pos) matches Ok(r) ==> ((!r.0.extended && spec_u32_be(data, pos)
            != 0) ==> r.0.len >= 8),
{
}

fn resolve_atom_len(
    data: &[u8],
    start: usize,
    rawlen: u32,
    cur: usize,
    ident: AtomIdent,
) -> (r: Result<(AtomInfo, usize), LoftyError>)
    requires
        start <= cur <= data@.len(),
    ensures
        (match (r, spec_resolve_atom_len(data@, start as int, rawlen, cur as int, ident@)) {
            (Ok((atom, next)), Ok((satom, snext))) => atom@ == satom && next == snext,
            (Err(e), Err(se)) => e == se,
            _ => false,
        }),
        r matches Ok((atom, next)) ==> cur <= next <= data@.len(),
{
    if rawlen == 0 {
        // The atom extends from its start to the end of the stream.
        let len: u64 = (data.len() - start) as u64;
        Ok((AtomInfo { start: start as u64, len, extended: false, ident }, cur))
    } else if rawlen == 1 {
        // A 64-bit extended length follows.
        if data.len() < 8 || cur > data.len() - 8 {
            return Err(LoftyError::Truncated);
        }
        let len = read_u64_be(data, cur);
        Ok((AtomInfo { start: start as u64, len, extended: true, ident }, cur + 8))
    } else if rawlen < 8 {
        // Every atom needs at least 4 bytes of length and 4 of identifier.
        Err(LoftyError::BadAtomLength)
    } else {
        Ok((AtomInfo { start: start as u64, len: rawlen as u64, extended: false, ident }, cur))
    }
}

impl AtomInfo {
    /// Reads one atom header at position `pos` of `data` and returns it with
    /// the position of the first unread byte.
    ///
    /// Succeeds or fails exactly as [`spec_read_atom`] says; on success the
    /// next position lies past the 8 header bytes and within the stream.
    pub fn read(data: &[u8], pos: usize) -> (r: Result<(AtomInfo, usize), LoftyError>)
        ensures
            (match (r, spec_read_atom(data@, pos as int)) {
                (Ok((atom, next)), Ok((satom, snext))) => atom@ == satom && next == snext,
                (Err(e), Err(se)) => e == se,
                _ => false,
            }),
            r matches Ok((atom, next)) ==> pos + 8 <= next <= data@.len(),
        decreases data@.len() - pos, 0int,
    {
        if data.len() < 8 || pos > data.len() - 8 {
            return Err(LoftyError::Truncated);
        }
        let rawlen = read_u32_be(data, pos);
        let c0 = data[pos + 4];
        let c1 = data[pos + 5];
        let c2 = data[pos + 6];
        let c3 = data[pos + 7];
        if c0 == 0x2D && c1 == 0x2D && c2 == 0x2D && c3 == 0x2D {
            // Encountered a freeform identifier.
            match parse_freeform(data, pos + 8) {
                Err(e) => Err(e),
                Ok((ident, cur)) => resolve_atom_len(data, pos, rawlen, cur, ident),
            }
        } else {
            let fourcc = [c0, c1, c2, c3];
            proof {
                assert(fourcc@ =~= data@.subrange(pos + 4, pos + 8));
            }
            resolve_atom_len(data, pos, rawlen, pos + 8, AtomIdent::Fourcc(fourcc))
        }
    }
}

/// Parses the `"mean"` and `"name"` children that a `"----"` identifier
/// announces, returning the freeform identifier and the position after the
/// second child.
pub fn parse_freeform(data: &[u8], pos: usize) -> (r: Result<(AtomIdent, usize), LoftyError>)
    ensures
        (match (r, spec_parse_freeform(data@, pos as int)) {
            (Ok((ident, next)), Ok((si, snext))) => ident@ == si && next == snext,
            (Err(e), Err(se)) => e == se,
            _ => false,
        }),
        r matches Ok((ident, next)) ==> pos + 24 <= next <= data@.len(),
    decreases data@.len() - pos, 2int,
{
    let (mean, p1) = match freeform_chunk(data, pos, 0x6D, 0x65, 0x61, 0x6E) {
        Err(e) => {
            return Err(e);
        },
        Ok(v) => v,
    };
    let (name, p2) = match freeform_chunk(data, p1, 0x6E, 0x61, 0x6D, 0x65) {
        Err(e) => {
            return Err(e);
        },
        Ok(v) => v,
    };
    Ok((AtomIdent::Freeform { mean, name }, p2))
}

fn freeform_chunk(data: &[u8], pos: usize, c0: u8, c1: u8, c2: u8, c3: u8) -> (r: Result<
    (String, usize),
    LoftyError,
>)
    ensures
        (match (r, spec_freeform_chunk(data@, pos as int, c0, c1, c2, c3)) {
            (Ok((s, next)), Ok(cs)) => s@ == cs && next == spec_plain_chunk_end(
                data@,
                pos as int,
            ),
            (Err(e), Err(se)) => e == se,
            _ => false,
        }),
        r matches Ok((s, next)) ==> pos + 12 <= next <= data@.len(),
    decreases data@.len() - pos, 1int,
{
    let (atom, pm) = match AtomInfo::read(data, pos) {
        Err(e) => {
            return Err(e);
        },
        Ok(v) => v,
    };
    match &atom.ident {
        AtomIdent::Fourcc(f) => {
            if f[0] == c0 && f[1] == c1 && f[2] == c2 && f[3] == c3 {
                if atom.len < 12 {
                    return Err(LoftyError::BadAtomLength);
                }
                // The size, identifier, and version/flags were already read
                // (12 bytes); the payload is the length past them.
                let avail: usize = data.len() - pm;
                if avail < 4 || atom.len - 12 > (avail - 4) as u64 {
                    return Err(LoftyError::Truncated);
                }
                let count: usize = (atom.len - 12) as usize;
                proof {
                    assert(atom.len - 12 <= avail - 4);
                    assert(count == atom.len - 12);
                    assert(pm + 4 + count <= data@.len());
                }
                let mut content: Vec<u8> = Vec::new();
                let mut k: usize = 0;
                while k < count
                    invariant
                        k <= count,
                        pm + 4 + count <= data@.len(),
                        data@.len() <= usize::MAX,
                        content@ =~= data@.subrange(pm + 4, pm + 4 + k),
                    decreases count - k,
                {
                    content.push(data[pm + 4 + k]);
                    k = k + 1;
                }
                proof {
                    assert(content@ =~= data@.subrange(
                        pm + 4,
                        pm + 4 + (atom@.len - 12),
                    ));
                }
                match string_from_utf8(content) {
                    Some(s) => Ok((s, pm + 4 + count)),
                    None => Err(LoftyError::NotUtf8FreeformAtom),
                }
            } else {
                Err(LoftyError::MissingFreeformAtom)
            }
        },
        AtomIdent::Freeform { .. } => Err(LoftyError::MissingFreeformAtom),
    }
}

} // verus!
