//! The decoded RGBA image a pixel-decode routine hands back, and the alpha
//! policy applied to it before output.

use vstd::prelude::*;
use crate::alpha::alpha_excluded;
use crate::alpha::spec_alpha_excluded;
use crate::header::TextureError;

verus! {

/// Bytes each RGBA pixel occupies.
pub const BYTES_PER_PIXEL: usize = 4;

/// Alpha channel value of a fully opaque pixel.
pub const OPAQUE_ALPHA: u8 = 255;

/// An RGBA pixel grid: `data` holds four bytes per pixel, rows first, with
/// the alpha channel in each pixel's last byte.
#[derive(Debug, PartialEq, Eq)]
pub struct DecodedImage {
    pub width: u32,
    pub height: u32,
    pub data: Vec<u8>,
}

impl DecodedImage {
    /// The grid is well formed: it holds exactly four bytes for each of its
    /// `width * height` pixels.
    pub open spec fn wf(self) -> bool {
        self.data@.len() == BYTES_PER_PIXEL * self.width * self.height
    }
}

/// Wraps the pixel bytes a decode routine produced into an image of the
/// stated geometry. Fails with `MalformedRecord` exactly when the routine
/// handed back anything but four bytes per pixel, so every image built here
/// has exactly `width * height` pixels.
pub fn from_pixels(width: u32, height: u32, data: Vec<u8>) -> (r: Result<
    DecodedImage,
    TextureError,
>)
    ensures
        match r {
            Ok(img) => {
                &&& data@.len() == BYTES_PER_PIXEL * width * height
                &&& img.width == width
                &&& img.height == height
                &&& img.data@ == data@
                &&& img.wf()
            },
            Err(e) => {
                &&& e == TextureError::MalformedRecord
                &&& data@.len() != BYTES_PER_PIXEL * width * height
            },
        },
{
    if has_pixel_len(width, height, data.len()) {
        Ok(DecodedImage { width, height, data })
    } else {
        Err(TextureError::MalformedRecord)
    }
}

/// Whether `len` is exactly four bytes for each of `width * height` pixels.
pub fn has_pixel_len(width: u32, height: u32, len: usize) -> (r: bool)
    ensures
        r == (len == BYTES_PER_PIXEL * width * height),
{
    let w64: u64 = width as u64;
    let h64: u64 = height as u64;
    proof {
        assert(w64 * h64 <= u64::MAX) by (nonlinear_arith)
            requires
                w64 < 0x1_0000_0000,
                h64 < 0x1_0000_0000,
        ;
        assert((BYTES_PER_PIXEL as int) * (width as int) * (height as int) == (
        BYTES_PER_PIXEL as int) * ((width as int) * (height as int))) by (nonlinear_arith);
    }
    let expected: u128 = (BYTES_PER_PIXEL as u128) * ((w64 * h64) as u128);
    (len as u128) == expected
}

/// Forces the alpha byte of every pixel of `data` to fully opaque, leaving
/// all color bytes unchanged.
fn force_opaque(data: &mut Vec<u8>)
    ensures
        final(data)@.len() == old(data)@.len(),
        forall|i: int|
            0 <= i < final(data)@.len() ==> final(data)@[i] == (if i % (BYTES_PER_PIXEL as int)
                == BYTES_PER_PIXEL - 1 {
                OPAQUE_ALPHA
            } else {
                old(data)@[i]
            }),
{
    let mut i: usize = BYTES_PER_PIXEL - 1;
    while i < data.len()
        invariant
            data@.len() == old(data)@.len(),
            i % BYTES_PER_PIXEL == BYTES_PER_PIXEL - 1,
            forall|j: int|
                0 <= j < data@.len() ==> data@[j] == (if j % (BYTES_PER_PIXEL as int)
                    == BYTES_PER_PIXEL - 1 && j < i {
                    OPAQUE_ALPHA
                } else {
                    old(data)@[j]
                }),
        decreases data@.len() + BYTES_PER_PIXEL - i,
    {
        data[i] = OPAQUE_ALPHA;
        i = i + BYTES_PER_PIXEL;
    }
}

/// Applies the alpha policy to a decoded image. When `identifier` is in the
/// exclusion set, every pixel's alpha byte is forced to fully opaque and its
/// color bytes are kept; otherwise the image is left untouched.
pub fn resolve_alpha(image: &mut DecodedImage, identifier: u32)
    ensures
        final(image).width == old(image).width,
        final(image).height == old(image).height,
        final(image).data@.len() == old(image).data@.len(),
        spec_alpha_excluded(identifier) ==> forall|i: int|
            0 <= i < final(image).data@.len() ==> final(image).data@[i] == (if i % (
            BYTES_PER_PIXEL as int) == BYTES_PER_PIXEL - 1 {
                OPAQUE_ALPHA
            } else {
                old(image).data@[i]
            }),
        !spec_alpha_excluded(identifier) ==> *final(image) == *old(image),
{
    if alpha_excluded(identifier) {
        force_opaque(&mut image.data);
    }
}

} // verus!
