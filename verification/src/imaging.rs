//! Trusted boundary to the `image` crate: resampling, encoding, decoding.
//!
//! Every function here is an `external_body` wrapper around one outside
//! call; Verus believes the stated contracts, which say no more than the
//! outside source shows.  Results that would take pages to state exactly
//! (a Lanczos resample, an encoder's byte stream) are given names instead,
//! and all reasoning about them happens in verified callers that take the
//! result as an argument.

use vstd::prelude::*;

use crate::errors::CompositorError;
use crate::raster::RasterImage;

verus! {

/// The pixels of the Lanczos3 resample of an RGBA8 buffer of dimensions
/// `w x h` to dimensions `nw x nh`; a function of its arguments alone.
pub uninterp spec fn resample_of(pixels: Seq<u8>, w: u32, h: u32, nw: u32, nh: u32) -> Seq<u8>;

/// The PNG encoding of an RGBA8 buffer of dimensions `w x h`.
pub uninterp spec fn png_encoding_of(pixels: Seq<u8>, w: u32, h: u32) -> Seq<u8>;

/// The JPEG encoding of an RGBA8 buffer of dimensions `w x h`.
pub uninterp spec fn jpeg_encoding_of(pixels: Seq<u8>, w: u32, h: u32) -> Seq<u8>;

/// The GIF encoding of an RGBA8 buffer of dimensions `w x h`.
pub uninterp spec fn gif_encoding_of(pixels: Seq<u8>, w: u32, h: u32) -> Seq<u8>;

/// What decoding a byte string yields: `None` when no decoder accepts
/// it, otherwise the decoded width, height and RGBA8 pixels; a function
/// of the bytes alone.
pub uninterp spec fn decoded_of(bytes: Seq<u8>) -> Option<(u32, u32, Seq<u8>)>;

/// Relies on `image::imageops::resize` with the Lanczos3 filter: the
/// result has exactly the requested dimensions, and its pixels are a
/// function of the source pixels and both dimension pairs alone.
#[verifier::external_body]
pub(crate) fn resample_rgba(img: &RasterImage, nw: u32, nh: u32) -> (r: RasterImage)
    requires
        img.wf(),
    ensures
        r.width == nw,
        r.height == nh,
        r.wf(),
        r.pixels@ == resample_of(img.pixels@, img.width, img.height, nw, nh),
{
    let buf = image::RgbaImage::from_raw(img.width, img.height, img.pixels.clone())
        .expect("buffer length matches the dimensions");
    let out = image::imageops::resize(&buf, nw, nh, image::imageops::FilterType::Lanczos3);
    RasterImage { width: nw, height: nh, pixels: out.into_raw() }
}

/// Relies on `image::DynamicImage::write_to` with `ImageFormat::Png`:
/// encoding an in-memory RGBA8 image to a byte vector; the bytes are a
/// function of the pixels and dimensions alone.  The PNG encoder refuses
/// empty images and nothing else within the format's dimension range,
/// and writing to an in-memory cursor cannot fail, so encoding succeeds
/// on every non-empty image with both dimensions below `2^31`.
#[verifier::external_body]
pub(crate) fn encode_png(img: &RasterImage) -> (r: Option<Vec<u8>>)
    requires
        img.wf(),
    ensures
        r is Some ==> r->0@ == png_encoding_of(img.pixels@, img.width, img.height),
        1 <= img.width <= 0x7FFF_FFFF && 1 <= img.height <= 0x7FFF_FFFF ==> r is Some,
{
    let buf = image::RgbaImage::from_raw(img.width, img.height, img.pixels.clone())?;
    let mut cursor = std::io::Cursor::new(Vec::new());
    let dynimg = image::DynamicImage::ImageRgba8(buf);
    dynimg.write_to(&mut cursor, image::ImageFormat::Png).ok()?;
    Some(cursor.into_inner())
}

/// Relies on `image::DynamicImage::write_to` with `ImageFormat::Jpeg`,
/// which converts the image to an encoder-supported colour type itself.
/// The JPEG encoder refuses dimensions outside `1..=65535` and nothing
/// else, so encoding succeeds on every image within that range.
#[verifier::external_body]
pub(crate) fn encode_jpeg(img: &RasterImage) -> (r: Option<Vec<u8>>)
    requires
        img.wf(),
    ensures
        r is Some ==> r->0@ == jpeg_encoding_of(img.pixels@, img.width, img.height),
        1 <= img.width <= 65535 && 1 <= img.height <= 65535 ==> r is Some,
{
    let buf = image::RgbaImage::from_raw(img.width, img.height, img.pixels.clone())?;
    let mut cursor = std::io::Cursor::new(Vec::new());
    let dynimg = image::DynamicImage::ImageRgba8(buf);
    dynimg.write_to(&mut cursor, image::ImageFormat::Jpeg).ok()?;
    Some(cursor.into_inner())
}

/// Relies on `image::DynamicImage::write_to` with `ImageFormat::Gif`.
/// GIF stores dimensions in sixteen bits and the encoder refuses larger
/// ones and nothing else, so encoding succeeds on every image with both
/// dimensions in `1..=65535`.
#[verifier::external_body]
pub(crate) fn encode_gif(img: &RasterImage) -> (r: Option<Vec<u8>>)
    requires
        img.wf(),
    ensures
        r is Some ==> r->0@ == gif_encoding_of(img.pixels@, img.width, img.height),
        1 <= img.width <= 65535 && 1 <= img.height <= 65535 ==> r is Some,
{
    let buf = image::RgbaImage::from_raw(img.width, img.height, img.pixels.clone())?;
    let mut cursor = std::io::Cursor::new(Vec::new());
    let dynimg = image::DynamicImage::ImageRgba8(buf);
    dynimg.write_to(&mut cursor, image::ImageFormat::Gif).ok()?;
    Some(cursor.into_inner())
}

/// Relies on `image::load_from_memory` and `DynamicImage::to_rgba8`:
/// what comes back depends on the bytes alone; a successful decode
/// yields an RGBA8 buffer of exactly four bytes per pixel of the decoded
/// dimensions.
#[verifier::external_body]
pub(crate) fn decode_rgba(bytes: &Vec<u8>) -> (r: Option<RasterImage>)
    ensures
        r is Some <==> decoded_of(bytes@) is Some,
        r matches Some(img) ==> {
            let d = decoded_of(bytes@)->0;
            &&& img.wf()
            &&& img.width == d.0
            &&& img.height == d.1
            &&& img.pixels@ == d.2
        },
{
    let dynimg = image::load_from_memory(bytes.as_slice()).ok()?;
    let buf = dynimg.to_rgba8();
    let (width, height) = buf.dimensions();
    Some(RasterImage { width, height, pixels: buf.into_raw() })
}

/// Decodes encoded image bytes into a well-formed RGBA8 raster: exactly
/// the bytes some decoder accepts come back as `Ok`, carrying the
/// decoded dimensions and pixels; everything else is a decode error.
pub fn decode_image(bytes: &Vec<u8>) -> (r: Result<RasterImage, CompositorError>)
    ensures
        r is Ok <==> decoded_of(bytes@) is Some,
        r matches Ok(img) ==> {
            let d = decoded_of(bytes@)->0;
            &&& img.wf()
            &&& img.width == d.0
            &&& img.height == d.1
            &&& img.pixels@ == d.2
        },
        r is Err ==> r == Result::<RasterImage, CompositorError>::Err(CompositorError::Decode),
{
    match decode_rgba(bytes) {
        Some(img) => Ok(img),
        None => Err(CompositorError::Decode),
    }
}

} // verus!
