//! Output formats: which encoders exist and how an extension selects one.
//!
//! The format is derived from the file extension a caller supplies; an
//! extension with no encoder is refused before any pixel work happens.

use vstd::prelude::*;
use vstd::string::StringSliceAdditionalSpecFns;

use crate::errors::CompositorError;

verus! {

/// An output encoding the compositor can produce.
#[derive(Clone, Copy, Debug, PartialEq, Eq, Structural)]
pub enum OutputFormat {
    Png,
    Jpeg,
    Gif,
}

/// The UTF-8 bytes of `"png"`.
pub open spec fn png_ext_bytes() -> Seq<u8> {
    seq![112u8, 110u8, 103u8]
}

/// The UTF-8 bytes of `"jpg"`.
pub open spec fn jpg_ext_bytes() -> Seq<u8> {
    seq![106u8, 112u8, 103u8]
}

/// The UTF-8 bytes of `"jpeg"`.
pub open spec fn jpeg_ext_bytes() -> Seq<u8> {
    seq![106u8, 112u8, 101u8, 103u8]
}

/// The UTF-8 bytes of `"gif"`.
pub open spec fn gif_ext_bytes() -> Seq<u8> {
    seq![103u8, 105u8, 102u8]
}

/// The dimensions each encoder accepts: PNG refuses empty images and the
/// format caps dimensions below `2^31`; JPEG and GIF store dimensions in
/// sixteen bits.
pub open spec fn encoder_accepts(fmt: OutputFormat, w: u32, h: u32) -> bool {
    match fmt {
        OutputFormat::Png => 1 <= w <= 0x7FFF_FFFF && 1 <= h <= 0x7FFF_FFFF,
        OutputFormat::Jpeg => 1 <= w <= 65535 && 1 <= h <= 65535,
        OutputFormat::Gif => 1 <= w <= 65535 && 1 <= h <= 65535,
    }
}

/// Which format an extension's bytes select, if any.
pub open spec fn spec_format_from_extension(ext: Seq<u8>) -> Option<OutputFormat> {
    if ext == png_ext_bytes() {
        Some(OutputFormat::Png)
    } else if ext == jpg_ext_bytes() || ext == jpeg_ext_bytes() {
        Some(OutputFormat::Jpeg)
    } else if ext == gif_ext_bytes() {
        Some(OutputFormat::Gif)
    } else {
        None
    }
}

/// Derives the output format from a file extension (without the dot).
///
/// Exactly `png`, `jpg`, `jpeg` and `gif` are accepted; anything else is
/// refused with `UnsupportedFormat` and no pixel work is attempted.
pub fn format_from_extension(ext: &str) -> (r: Result<OutputFormat, CompositorError>)
    ensures
        spec_format_from_extension(ext.spec_bytes()) is Some ==> r
            == Result::<OutputFormat, CompositorError>::Ok(
            spec_format_from_extension(ext.spec_bytes())->0,
        ),
        spec_format_from_extension(ext.spec_bytes()) is None ==> r
            == Result::<OutputFormat, CompositorError>::Err(CompositorError::UnsupportedFormat),
{
    let b: &[u8] = ext.as_bytes();
    let n: usize = b.len();
    if n == 3 && b[0] == 112 && b[1] == 110 && b[2] == 103 {
        proof {
            assert(ext.spec_bytes() =~= png_ext_bytes());
        }
        Ok(OutputFormat::Png)
    } else if n == 3 && b[0] == 106 && b[1] == 112 && b[2] == 103 {
        proof {
            assert(ext.spec_bytes() =~= jpg_ext_bytes());
        }
        Ok(OutputFormat::Jpeg)
    } else if n == 4 && b[0] == 106 && b[1] == 112 && b[2] == 101 && b[3] == 103 {
        proof {
            assert(ext.spec_bytes() =~= jpeg_ext_bytes());
        }
        Ok(OutputFormat::Jpeg)
    } else if n == 3 && b[0] == 103 && b[1] == 105 && b[2] == 102 {
        proof {
            assert(ext.spec_bytes() =~= gif_ext_bytes());
        }
        Ok(OutputFormat::Gif)
    } else {
        Err(CompositorError::UnsupportedFormat)
    }
}

} // verus!
