//! Locating the fixed-size trailing palette region of an indexed record.

use vstd::prelude::*;
use crate::header::PaletteSize;
use crate::header::TextureError;

verus! {

/// Bytes in a small trailing palette.
pub const SMALL_PALETTE_BYTES: usize = 64;

/// Bytes in a large trailing palette.
pub const LARGE_PALETTE_BYTES: usize = 1024;

/// Length in bytes of the trailing palette region for each palette size.
pub open spec fn spec_palette_byte_len(size: PaletteSize) -> int {
    match size {
        PaletteSize::Entries16 => SMALL_PALETTE_BYTES as int,
        PaletteSize::Entries256 => LARGE_PALETTE_BYTES as int,
    }
}

/// Length in bytes of the trailing palette region for each palette size.
pub fn palette_byte_len(size: PaletteSize) -> (r: usize)
    ensures
        r == spec_palette_byte_len(size),
{
    match size {
        PaletteSize::Entries16 => SMALL_PALETTE_BYTES,
        PaletteSize::Entries256 => LARGE_PALETTE_BYTES,
    }
}

/// Borrows the trailing palette region of `record`: its last 64 bytes for a
/// small palette, its last 1024 bytes for a large one. Fails with
/// `MalformedRecord` exactly when the record is shorter than that region.
pub fn locate_palette(record: &[u8], size: PaletteSize) -> (r: Result<&[u8], TextureError>)
    ensures
        match r {
            Ok(palette) => {
                &&& record@.len() >= spec_palette_byte_len(size)
                &&& palette@ == record@.subrange(
                    record@.len() - spec_palette_byte_len(size),
                    record@.len() as int,
                )
                &&& palette@.len() == spec_palette_byte_len(size)
            },
            Err(e) => {
                &&& e == TextureError::MalformedRecord
                &&& record@.len() < spec_palette_byte_len(size)
            },
        },
{
    let n = palette_byte_len(size);
    if record.len() < n {
        Err(TextureError::MalformedRecord)
    } else {
        Ok(vstd::slice::slice_subrange(record, record.len() - n, record.len()))
    }
}

} // verus!
