//! Locating and reading the texture header inside a raw record.
//!
//! A record's header starts at the first zero byte (a sentinel). Relative to
//! that position the header holds a 16-bit width, a 16-bit height, a one-byte
//! encoding discriminator and, for indexed encodings only, a 16-bit palette
//! entry count. Multi-byte fields are read in the platform's byte order.

use vstd::prelude::*;

verus! {

/// Byte order used for the multi-byte fields of a header.
#[derive(Clone, Copy, Debug, PartialEq, Eq, Structural)]
pub enum ByteOrder {
    Little,
    Big,
}

/// Number of color entries in a trailing palette.
#[derive(Clone, Copy, Debug, PartialEq, Eq, Structural)]
pub enum PaletteSize {
    Entries16,
    Entries256,
}

/// How a record's pixel bytes are encoded.
#[derive(Clone, Copy, Debug, PartialEq, Eq, Structural)]
pub enum Encoding {
    /// Pixel bytes hold color values directly.
    Direct,
    /// Pixel bytes hold indices into a trailing palette.
    Indexed(PaletteSize),
}

/// Why a record could not be processed.
#[derive(Clone, Copy, Debug, PartialEq, Eq, Structural)]
pub enum TextureError {
    /// The record has no sentinel byte, is too short for its header or
    /// palette, or one of its header fields has no known meaning.
    MalformedRecord,
    /// The header parsed, but its combination of encoding and palette size is
    /// not decodable on the given platform.
    UnsupportedFormat,
}

/// Geometry and encoding of one texture record.
#[derive(Clone, Copy, Debug, PartialEq, Eq, Structural)]
pub struct TextureHeader {
    pub width: u16,
    pub height: u16,
    pub encoding: Encoding,
}

/// Header-relative offset of the 16-bit width field.
pub const WIDTH_OFFSET: usize = 3;

/// Header-relative offset of the 16-bit height field.
pub const HEIGHT_OFFSET: usize = 5;

/// Header-relative offset of the one-byte encoding discriminator.
pub const DISCRIMINANT_OFFSET: usize = 7;

/// Header-relative offset of the 16-bit palette entry count (indexed only).
pub const PALETTE_COUNT_OFFSET: usize = 9;

/// Discriminator value for directly encoded pixel bytes.
pub const DIRECT_DISCRIMINANT: u8 = 0;

/// Discriminator value for palette-indexed pixel bytes.
pub const INDEXED_DISCRIMINANT: u8 = 2;

/// Bytes needed past the header start to read a direct header.
pub const DIRECT_HEADER_LEN: usize = 8;

/// Bytes needed past the header start to read an indexed header.
pub const INDEXED_HEADER_LEN: usize = 11;

/// Entry count announced by a small palette.
pub const SMALL_PALETTE_ENTRIES: u16 = 16;

/// Entry count announced by a large palette.
pub const LARGE_PALETTE_ENTRIES: u16 = 256;

/// Holds exactly when `s` has a zero byte somewhere.
pub open spec fn has_zero(s: Seq<u8>) -> bool {
    exists|i: int| 0 <= i < s.len() && s[i] == 0
}

/// Holds at `i` exactly when `i` is the position of the first zero byte of `s`.
pub open spec fn is_first_zero(s: Seq<u8>, i: int) -> bool {
    &&& 0 <= i < s.len()
    &&& s[i] == 0
    &&& forall|j: int| 0 <= j < i ==> s[j] != 0
}

/// Position of the first zero byte of `s`; meaningful only when `has_zero(s)`.
pub open spec fn header_start(s: Seq<u8>) -> int {
    choose|i: int| is_first_zero(s, i)
}

/// The 16-bit value stored at byte offset `i` of `s` in the given byte order.
pub open spec fn u16_field(s: Seq<u8>, i: int, order: ByteOrder) -> int {
    match order {
        ByteOrder::Little => s[i] + 256 * s[i + 1],
        ByteOrder::Big => 256 * s[i] + s[i + 1],
    }
}

/// The header parsed from record bytes `s` in byte order `order`, or `None`
/// when the record is malformed: no sentinel byte, too short for the fields
/// the discriminator calls for, a discriminator outside the known two, or an
/// indexed palette count other than the two supported sizes.
pub open spec fn spec_parse_header(s: Seq<u8>, order: ByteOrder) -> Option<TextureHeader> {
    if !has_zero(s) {
        None
    } else {
        let p = header_start(s);
        if s.len() < p + DIRECT_HEADER_LEN {
            None
        } else {
            let width = u16_field(s, p + WIDTH_OFFSET, order) as u16;
            let height = u16_field(s, p + HEIGHT_OFFSET, order) as u16;
            if s[p + DISCRIMINANT_OFFSET] == DIRECT_DISCRIMINANT {
                Some(TextureHeader { width, height, encoding: Encoding::Direct })
            } else if s[p + DISCRIMINANT_OFFSET] == INDEXED_DISCRIMINANT {
                if s.len() < p + INDEXED_HEADER_LEN {
                    None
                } else {
                    let count = u16_field(s, p + PALETTE_COUNT_OFFSET, order);
                    if count == SMALL_PALETTE_ENTRIES {
                        Some(
                            TextureHeader {
                                width,
                                height,
                                encoding: Encoding::Indexed(PaletteSize::Entries16),
                            },
                        )
                    } else if count == LARGE_PALETTE_ENTRIES {
                        Some(
                            TextureHeader {
                                width,
                                height,
                                encoding: Encoding::Indexed(PaletteSize::Entries256),
                            },
                        )
                    } else {
                        None
                    }
                }
            } else {
                None
            }
        }
    }
}

/// A sequence with a zero byte has a first one, so `header_start` names a
/// position that satisfies `is_first_zero`.
pub proof fn lemma_header_start_is_first_zero(s: Seq<u8>)
    requires
        has_zero(s),
    ensures
        is_first_zero(s, header_start(s)),
{
    let k = choose|i: int| 0 <= i < s.len() && s[i] == 0;
    lemma_first_zero_exists(s, k);
}

/// Below any zero position there is a first zero position.
proof fn lemma_first_zero_exists(s: Seq<u8>, k: int)
    requires
        0 <= k < s.len(),
        s[k] == 0,
    ensures
        exists|i: int| is_first_zero(s, i),
    decreases k,
{
    if forall|j: int| 0 <= j < k ==> s[j] != 0 {
        assert(is_first_zero(s, k));
    } else {
        let j = choose|j: int| 0 <= j < k && s[j] == 0;
        lemma_first_zero_exists(s, j);
    }
}

/// The first zero position is unique, so any position satisfying
/// `is_first_zero` is `header_start`.
pub proof fn lemma_first_zero_unique(s: Seq<u8>, i: int)
    requires
        is_first_zero(s, i),
    ensures
        has_zero(s),
        header_start(s) == i,
{
    assert(has_zero(s));
    let q = header_start(s);
    assert(is_first_zero(s, q));
    if q < i {
        assert(s[q] != 0);
    } else if i < q {
        assert(s[i] != 0);
    }
}

/// Scans for the sentinel zero byte that marks the start of the header.
pub fn find_first_zero(record: &[u8]) -> (r: Option<usize>)
    ensures
        match r {
            Some(i) => is_first_zero(record@, i as int),
            None => !has_zero(record@),
        },
{
    let mut i: usize = 0;
    while i < record.len()
        invariant
            0 <= i <= record@.len(),
            forall|j: int| 0 <= j < i ==> record@[j] != 0,
        decreases record@.len() - i,
    {
        if record[i] == 0 {
            return Some(i);
        }
        i = i + 1;
    }
    None
}

/// Reads the 16-bit field at byte offset `i` in the given byte order.
fn read_u16(record: &[u8], i: usize, order: ByteOrder) -> (r: u16)
    requires
        i + 2 <= record@.len(),
    ensures
        r as int == u16_field(record@, i as int, order),
{
    let lo_byte = record[i];
    let hi_byte = record[i + 1];
    match order {
        ByteOrder::Little => lo_byte as u16 + 256 * (hi_byte as u16),
        ByteOrder::Big => 256 * (lo_byte as u16) + hi_byte as u16,
    }
}

/// Locates the header at the first zero byte of `record` and reads geometry,
/// encoding discriminator and, for indexed encodings, the palette entry
/// count, all in byte order `order`.
///
/// Returns exactly the header that `spec_parse_header` gives, and fails with
/// `MalformedRecord` exactly when that is `None`.
pub fn parse_header(record: &[u8], order: ByteOrder) -> (r: Result<TextureHeader, TextureError>)
    ensures
        match spec_parse_header(record@, order) {
            Some(h) => r == Ok::<TextureHeader, TextureError>(h),
            None => r == Err::<TextureHeader, TextureError>(TextureError::MalformedRecord),
        },
{
    let p = match find_first_zero(record) {
        Some(p) => p,
        None => {
            return Err(TextureError::MalformedRecord);
        },
    };
    proof {
        lemma_first_zero_unique(record@, p as int);
    }
    if record.len() - p < DIRECT_HEADER_LEN {
        return Err(TextureError::MalformedRecord);
    }
    let width = read_u16(record, p + WIDTH_OFFSET, order);
    let height = read_u16(record, p + HEIGHT_OFFSET, order);
    let discriminant = record[p + DISCRIMINANT_OFFSET];
    if discriminant == DIRECT_DISCRIMINANT {
        Ok(TextureHeader { width, height, encoding: Encoding::Direct })
    } else if discriminant == INDEXED_DISCRIMINANT {
        if record.len() - p < INDEXED_HEADER_LEN {
            return Err(TextureError::MalformedRecord);
        }
        let count = read_u16(record, p + PALETTE_COUNT_OFFSET, order);
        if count == SMALL_PALETTE_ENTRIES {
            Ok(TextureHeader { width, height, encoding: Encoding::Indexed(PaletteSize::Entries16) })
        } else if count == LARGE_PALETTE_ENTRIES {
            Ok(
                TextureHeader {
                    width,
                    height,
                    encoding: Encoding::Indexed(PaletteSize::Entries256),
                },
            )
        } else {
            Err(TextureError::MalformedRecord)
        }
    } else {
        Err(TextureError::MalformedRecord)
    }
}

} // verus!

