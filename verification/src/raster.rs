//! Source rasters: the already-decoded sample planes that the normalizer
//! flattens into the canonical 8-bit RGB buffer.

use vstd::prelude::*;
use crate::pixel::{Pixel, apply_alpha_spec, apply_alpha16_spec, u16_to_u8_spec};

verus! {

/// An already-decoded raster in one of the supported integer encodings.
///
/// `data` holds the samples row-major, interleaved per pixel (so a
/// `Rgb8` raster stores `width * height * 3` bytes). Floating-point
/// encodings are not representable here: a caller converts them to
/// 8-bit samples before handing the raster over. A raster that was
/// decoded into any other encoding is passed as `Unsupported`, which
/// the normalizer rejects with an explicit error.
#[allow(inconsistent_fields)]
pub enum Raster {
    Gray8 { width: u32, height: u32, data: Vec<u8> },
    GrayAlpha8 { width: u32, height: u32, data: Vec<u8> },
    Rgb8 { width: u32, height: u32, data: Vec<u8> },
    Rgba8 { width: u32, height: u32, data: Vec<u8> },
    Gray16 { width: u32, height: u32, data: Vec<u16> },
    GrayAlpha16 { width: u32, height: u32, data: Vec<u16> },
    Rgb16 { width: u32, height: u32, data: Vec<u16> },
    Rgba16 { width: u32, height: u32, data: Vec<u16> },
    Unsupported,
}

/// Why a raster could not be normalized.
#[derive(Debug, Clone, Copy, PartialEq, Eq, Structural)]
pub enum ImageError {
    /// The raster's encoding is not one of the supported ones.
    UnsupportedFormat,
    /// The raster's sample count does not match its dimensions, or a
    /// dimension is zero.
    InvalidDimensions,
}

/// Samples per pixel of each encoding; 0 for `Unsupported`.
pub open spec fn raster_channels(r: Raster) -> int {
    match r {
        Raster::Gray8 { .. } => 1,
        Raster::GrayAlpha8 { .. } => 2,
        Raster::Rgb8 { .. } => 3,
        Raster::Rgba8 { .. } => 4,
        Raster::Gray16 { .. } => 1,
        Raster::GrayAlpha16 { .. } => 2,
        Raster::Rgb16 { .. } => 3,
        Raster::Rgba16 { .. } => 4,
        Raster::Unsupported => 0,
    }
}

pub open spec fn raster_width(r: Raster) -> int {
    match r {
        Raster::Gray8 { width, .. } => width as int,
        Raster::GrayAlpha8 { width, .. } => width as int,
        Raster::Rgb8 { width, .. } => width as int,
        Raster::Rgba8 { width, .. } => width as int,
        Raster::Gray16 { width, .. } => width as int,
        Raster::GrayAlpha16 { width, .. } => width as int,
        Raster::Rgb16 { width, .. } => width as int,
        Raster::Rgba16 { width, .. } => width as int,
        Raster::Unsupported => 0,
    }
}

pub open spec fn raster_height(r: Raster) -> int {
    match r {
        Raster::Gray8 { height, .. } => height as int,
        Raster::GrayAlpha8 { height, .. } => height as int,
        Raster::Rgb8 { height, .. } => height as int,
        Raster::Rgba8 { height, .. } => height as int,
        Raster::Gray16 { height, .. } => height as int,
        Raster::GrayAlpha16 { height, .. } => height as int,
        Raster::Rgb16 { height, .. } => height as int,
        Raster::Rgba16 { height, .. } => height as int,
        Raster::Unsupported => 0,
    }
}

/// Number of samples the raster holds.
pub open spec fn raster_len(r: Raster) -> int {
    match r {
        Raster::Gray8 { data, .. } => data@.len() as int,
        Raster::GrayAlpha8 { data, .. } => data@.len() as int,
        Raster::Rgb8 { data, .. } => data@.len() as int,
        Raster::Rgba8 { data, .. } => data@.len() as int,
        Raster::Gray16 { data, .. } => data@.len() as int,
        Raster::GrayAlpha16 { data, .. } => data@.len() as int,
        Raster::Rgb16 { data, .. } => data@.len() as int,
        Raster::Rgba16 { data, .. } => data@.len() as int,
        Raster::Unsupported => 0,
    }
}

/// A supported raster is well-formed when both dimensions are positive
/// and the sample count matches `width * height * channels`.
pub open spec fn raster_wf(r: Raster) -> bool {
    &&& !(r is Unsupported)
    &&& raster_width(r) >= 1
    &&& raster_height(r) >= 1
    &&& raster_len(r) == raster_width(r) * raster_height(r) * raster_channels(r)
}

/// The canonical pixel that normalization produces for pixel index `i`
/// (row-major) of a well-formed raster: alpha composited over black by
/// integer truncation, then 16-bit samples truncated to their high byte.
pub open spec fn raster_pixel(r: Raster, i: int) -> Pixel {
    match r {
        Raster::Gray8 { data, .. } => {
            let v = data@[i];
            Pixel { r: v, g: v, b: v }
        },
        Raster::GrayAlpha8 { data, .. } => {
            let v = apply_alpha_spec(data@[2 * i] as int, data@[2 * i + 1] as int) as u8;
            Pixel { r: v, g: v, b: v }
        },
        Raster::Rgb8 { data, .. } => {
            Pixel { r: data@[3 * i], g: data@[3 * i + 1], b: data@[3 * i + 2] }
        },
        Raster::Rgba8 { data, .. } => {
            let a = data@[4 * i + 3] as int;
            Pixel {
                r: apply_alpha_spec(data@[4 * i] as int, a) as u8,
                g: apply_alpha_spec(data@[4 * i + 1] as int, a) as u8,
                b: apply_alpha_spec(data@[4 * i + 2] as int, a) as u8,
            }
        },
        Raster::Gray16 { data, .. } => {
            let v = u16_to_u8_spec(data@[i] as int) as u8;
            Pixel { r: v, g: v, b: v }
        },
        Raster::GrayAlpha16 { data, .. } => {
            let v = u16_to_u8_spec(
                apply_alpha16_spec(data@[2 * i] as int, data@[2 * i + 1] as int),
            ) as u8;
            Pixel { r: v, g: v, b: v }
        },
        Raster::Rgb16 { data, .. } => {
            Pixel {
                r: u16_to_u8_spec(data@[3 * i] as int) as u8,
                g: u16_to_u8_spec(data@[3 * i + 1] as int) as u8,
                b: u16_to_u8_spec(data@[3 * i + 2] as int) as u8,
            }
        },
        Raster::Rgba16 { data, .. } => {
            let a = data@[4 * i + 3] as int;
            Pixel {
                r: u16_to_u8_spec(apply_alpha16_spec(data@[4 * i] as int, a)) as u8,
                g: u16_to_u8_spec(apply_alpha16_spec(data@[4 * i + 1] as int, a)) as u8,
                b: u16_to_u8_spec(apply_alpha16_spec(data@[4 * i + 2] as int, a)) as u8,
            }
        },
        Raster::Unsupported => Pixel::zero_spec(),
    }
}

/// Fully transparent gray pixels composite to black: in a well-formed
/// gray-plus-alpha raster, a pixel whose alpha sample is 0 normalizes
/// to the zero pixel whatever its gray sample holds.
pub proof fn lemma_zero_alpha_is_black(r: Raster, i: int)
    requires
        raster_wf(r),
        0 <= i < raster_width(r) * raster_height(r),
        r matches Raster::GrayAlpha8 { data, .. } && data@[2 * i + 1] == 0,
    ensures
        raster_pixel(r, i) == Pixel::zero_spec(),
{
    match r {
        Raster::GrayAlpha8 { data, .. } => {
            let v = data@[2 * i] as int;
            assert(v * 0 == 0) by (nonlinear_arith);
        },
        _ => {},
    }
}

/// The same holds of every channel of an 8-bit RGBA pixel: alpha 0
/// normalizes to the zero pixel whatever the color samples hold.
pub proof fn lemma_zero_alpha_rgba_is_black(r: Raster, i: int)
    requires
        raster_wf(r),
        0 <= i < raster_width(r) * raster_height(r),
        r matches Raster::Rgba8 { data, .. } && data@[4 * i + 3] == 0,
    ensures
        raster_pixel(r, i) == Pixel::zero_spec(),
{
    match r {
        Raster::Rgba8 { data, .. } => {
            let d = data@;
            assert((d[4 * i] as int) * 0 == 0) by (nonlinear_arith);
            assert((d[4 * i + 1] as int) * 0 == 0) by (nonlinear_arith);
            assert((d[4 * i + 2] as int) * 0 == 0) by (nonlinear_arith);
        },
        _ => {},
    }
}

} // verus!
