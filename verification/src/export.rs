//! Handing a decoded pixel grid to the `image` crate's RGBA buffer type, the
//! representation the output writer persists.

use vstd::prelude::*;
use crate::decoded::BYTES_PER_PIXEL;
use crate::decoded::DecodedImage;
use crate::decoded::has_pixel_len;

verus! {

/// An RGBA buffer of the `image` crate, held opaquely: Verus sees it only
/// through `export_bytes` and `export_dims`.
#[verifier::external_body]
pub struct RgbaExport {
    inner: image::RgbaImage,
}

/// The raw bytes an exported buffer holds, four per pixel.
pub uninterp spec fn export_bytes(img: RgbaExport) -> Seq<u8>;

/// The pixel dimensions an exported buffer was built with.
pub uninterp spec fn export_dims(img: RgbaExport) -> (u32, u32);

/// Relies on `image::ImageBuffer::from_raw`: a buffer of exactly four bytes
/// per pixel is accepted and stored unchanged, with the given dimensions.
#[verifier::external_body]
fn rgba_from_raw_exact(width: u32, height: u32, data: Vec<u8>) -> (r: RgbaExport)
    requires
        data@.len() == BYTES_PER_PIXEL * width * height,
    ensures
        export_bytes(r) == data@,
        export_dims(r) == (width, height),
{
    RgbaExport { inner: image::RgbaImage::from_raw(width, height, data).unwrap() }
}

/// Relies on `image::ImageBuffer::dimensions`: returns the width and height
/// the buffer was built with.
#[verifier::external_body]
fn rgba_dimensions(img: &RgbaExport) -> (r: (u32, u32))
    ensures
        r == export_dims(*img),
{
    img.inner.dimensions()
}

/// Relies on `image::ImageBuffer::into_raw`: returns the stored buffer
/// unchanged.
#[verifier::external_body]
fn rgba_into_raw(img: RgbaExport) -> (r: Vec<u8>)
    ensures
        r@ == export_bytes(img),
{
    img.inner.into_raw()
}

/// Hands a decoded image to the `image` crate. Succeeds exactly when the
/// image is well formed, and the exported buffer then holds the image's bytes
/// and dimensions unchanged.
pub fn to_rgba_export(img: DecodedImage) -> (r: Option<RgbaExport>)
    ensures
        match r {
            Some(e) => {
                &&& img.wf()
                &&& export_bytes(e) == img.data@
                &&& export_dims(e) == (img.width, img.height)
            },
            None => !img.wf(),
        },
{
    if has_pixel_len(img.width, img.height, img.data.len()) {
        Some(rgba_from_raw_exact(img.width, img.height, img.data))
    } else {
        None
    }
}

/// Reads an exported buffer back into a plain pixel grid: the fields are
/// exactly the bytes and dimensions the buffer holds.
pub fn from_rgba_export(img: RgbaExport) -> (r: DecodedImage)
    ensures
        (r.width, r.height) == export_dims(img),
        r.data@ == export_bytes(img),
{
    let dims = rgba_dimensions(&img);
    let data = rgba_into_raw(img);
    DecodedImage { width: dims.0, height: dims.1, data }
}

} // verus!
