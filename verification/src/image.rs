//! The canonical image buffer and the normalizer that produces it.

use vstd::prelude::*;
use crate::pixel::{Pixel, apply_alpha, apply_alpha16, u16_to_u8};
use crate::raster::{
    Raster, ImageError, raster_wf, raster_width, raster_height, raster_pixel,
};
use crate::zoom::{Zoom, ZOOM_NUM_MAX, ZOOM_DEN_MAX};

verus! {

/// Map a non-negative logical coordinate to a source coordinate:
/// `floor(t / (num/den))`, i.e. one logical pixel covers `1/zoom`
/// source pixels along each axis.
pub open spec fn src_coord(t: int, num: int, den: int) -> int {
    t * den / num
}

/// A dimension scaled by the zoom, rounded to the nearest integer
/// (halves rounding up): `round(d * num / den)`.
pub open spec fn scaled_dim(d: int, num: int, den: int) -> int {
    (2 * d * num + den) / (2 * den)
}

/// Clamp a non-negative mathematical integer into the `usize` range.
pub open spec fn clamp_usize(x: int) -> int {
    if x > usize::MAX {
        usize::MAX as int
    } else {
        x
    }
}

/// At zoom 1 (the rational 100/100), a scaled dimension is the
/// dimension itself.
pub proof fn lemma_scaled_one(d: int)
    requires
        d >= 0,
    ensures
        scaled_dim(d, 100, 100) == d,
{
    assert((2 * d * 100 + 100) / (200 as int) == d) by (nonlinear_arith)
        requires
            d >= 0,
    ;
}

/// The canonical image: an immutable row-major store of normalized
/// pixels with positive dimensions, `pixels.len() == width * height`.
#[derive(Debug)]
pub struct Image {
    pixels: Vec<Pixel>,
    width: usize,
    height: usize,
}

impl Image {
    pub closed spec fn spec_width(&self) -> int {
        self.width as int
    }

    pub closed spec fn spec_height(&self) -> int {
        self.height as int
    }

    pub closed spec fn spec_pixels(&self) -> Seq<Pixel> {
        self.pixels@
    }

    /// Well-formedness: positive dimensions that fit the decoder's
    /// 32-bit range, and exactly one stored pixel per coordinate.
    pub open spec fn wf(&self) -> bool {
        &&& 1 <= self.spec_width() <= 0xffff_ffff
        &&& 1 <= self.spec_height() <= 0xffff_ffff
        &&& self.spec_pixels().len() == self.spec_width() * self.spec_height()
    }
}

/// What normalization returns for a given raster: the canonical buffer
/// whose pixel `i` is `raster_pixel(r, i)` when the raster is supported
/// and well-formed, and the matching error otherwise — if and only if.
pub open spec fn normalizes_to(r: Raster, res: Result<Image, ImageError>) -> bool {
    match res {
        Ok(im) => {
            &&& raster_wf(r)
            &&& im.wf()
            &&& im.spec_width() == raster_width(r)
            &&& im.spec_height() == raster_height(r)
            &&& forall|i: int|
                0 <= i < im.spec_pixels().len() ==> im.spec_pixels()[i] == raster_pixel(r, i)
        },
        Err(e) => {
            if r is Unsupported {
                e == ImageError::UnsupportedFormat
            } else {
                !raster_wf(r) && e == ImageError::InvalidDimensions
            }
        },
    }
}

/// Checks the dimension/sample-count precondition shared by every
/// integer encoding: positive dimensions and `len == w * h * channels`.
/// Returns the pixel count `w * h` on success.
fn checked_pixel_count(width: u32, height: u32, channels: u32, len: usize) -> (res: Option<usize>)
    requires
        1 <= channels <= 4,
    ensures
        match res {
            Some(n) => {
                &&& width >= 1 && height >= 1
                &&& n == (width as int) * (height as int)
                &&& len == n * (channels as int)
            },
            None => {
                width == 0 || height == 0 || len != (width as int) * (height as int) * (
                channels as int)
            },
        },
{
    if width == 0 || height == 0 {
        return None;
    }
    proof {
        assert((width as int) * (height as int) <= 0xffff_ffff * 0xffff_ffff) by (nonlinear_arith)
            requires
                width <= 0xffff_ffffu32,
                height <= 0xffff_ffffu32,
        ;
        assert((width as int) * (height as int) >= 1) by (nonlinear_arith)
            requires
                width >= 1,
                height >= 1,
        ;
        assert(((width as int) * (height as int)) * (channels as int) <= ((width as int) * (
        height as int)) * 4) by (nonlinear_arith)
            requires
                channels <= 4,
                (width as int) * (height as int) >= 0,
        ;
    }
    let need: u128 = (width as u128) * (height as u128) * (channels as u128);
    if (len as u128) != need {
        return None;
    }
    proof {
        let wh = (width as int) * (height as int);
        assert(wh <= wh * (channels as int)) by (nonlinear_arith)
            requires
                wh >= 1,
                channels >= 1,
        ;
    }
    Some((width as usize) * (height as usize))
}

impl Image {
    /// Normalize a single-channel 8-bit raster: each gray sample `v`
    /// becomes the pixel `(v, v, v)`.
    #[verifier::loop_isolation(false)]
    pub fn new_gray8(width: u32, height: u32, data: Vec<u8>) -> (res: Result<Image, ImageError>)
        ensures
            normalizes_to(Raster::Gray8 { width, height, data }, res),
    {
        let ghost r = Raster::Gray8 { width, height, data };
        let n = match checked_pixel_count(width, height, 1, data.len()) {
            Some(n) => n,
            None => { return Err(ImageError::InvalidDimensions) },
        };
        let mut pixels: Vec<Pixel> = Vec::new();
        let mut i: usize = 0;
        while i < n
            invariant
                pixels@.len() == i,
                i <= n,
                forall|j: int| 0 <= j < i ==> pixels@[j] == raster_pixel(r, j),
            decreases n - i,
        {
            let v = data[i];
            pixels.push(Pixel { r: v, g: v, b: v });
            i = i + 1;
        }
        Ok(Image { pixels, width: width as usize, height: height as usize })
    }

    /// Normalize a gray-plus-alpha 8-bit raster: the gray sample is
    /// composited over black, `floor(v * a / 255)`.
    #[verifier::loop_isolation(false)]
    pub fn new_grayalpha8(width: u32, height: u32, data: Vec<u8>) -> (res: Result<
        Image,
        ImageError,
    >)
        ensures
            normalizes_to(Raster::GrayAlpha8 { width, height, data }, res),
    {
        let ghost r = Raster::GrayAlpha8 { width, height, data };
        let n = match checked_pixel_count(width, height, 2, data.len()) {
            Some(n) => n,
            None => { return Err(ImageError::InvalidDimensions) },
        };
        let mut pixels: Vec<Pixel> = Vec::new();
        let mut i: usize = 0;
        while i < n
            invariant
                pixels@.len() == i,
                i <= n,
                forall|j: int| 0 <= j < i ==> pixels@[j] == raster_pixel(r, j),
            decreases n - i,
        {
            let v = apply_alpha(data[2 * i], data[2 * i + 1]);
            pixels.push(Pixel { r: v, g: v, b: v });
            i = i + 1;
        }
        Ok(Image { pixels, width: width as usize, height: height as usize })
    }

    /// Normalize a three-channel 8-bit raster: pass-through.
    #[verifier::loop_isolation(false)]
    pub fn new_rgb8(width: u32, height: u32, data: Vec<u8>) -> (res: Result<Image, ImageError>)
        ensures
            normalizes_to(Raster::Rgb8 { width, height, data }, res),
    {
        let ghost r = Raster::Rgb8 { width, height, data };
        let n = match checked_pixel_count(width, height, 3, data.len()) {
            Some(n) => n,
            None => { return Err(ImageError::InvalidDimensions) },
        };
        let mut pixels: Vec<Pixel> = Vec::new();
        let mut i: usize = 0;
        while i < n
            invariant
                pixels@.len() == i,
                i <= n,
                forall|j: int| 0 <= j < i ==> pixels@[j] == raster_pixel(r, j),
            decreases n - i,
        {
            pixels.push(Pixel { r: data[3 * i], g: data[3 * i + 1], b: data[3 * i + 2] });
            i = i + 1;
        }
        Ok(Image { pixels, width: width as usize, height: height as usize })
    }

    /// Normalize a four-channel 8-bit raster: every color channel is
    /// composited over black with the pixel's alpha.
    #[verifier::loop_isolation(false)]
    pub fn new_rgba8(width: u32, height: u32, data: Vec<u8>) -> (res: Result<Image, ImageError>)
        ensures
            normalizes_to(Raster::Rgba8 { width, height, data }, res),
    {
        let ghost r = Raster::Rgba8 { width, height, data };
        let n = match checked_pixel_count(width, height, 4, data.len()) {
            Some(n) => n,
            None => { return Err(ImageError::InvalidDimensions) },
        };
        let mut pixels: Vec<Pixel> = Vec::new();
        let mut i: usize = 0;
        while i < n
            invariant
                pixels@.len() == i,
                i <= n,
                forall|j: int| 0 <= j < i ==> pixels@[j] == raster_pixel(r, j),
            decreases n - i,
        {
            let a = data[4 * i + 3];
            pixels.push(
                Pixel {
                    r: apply_alpha(data[4 * i], a),
                    g: apply_alpha(data[4 * i + 1], a),
                    b: apply_alpha(data[4 * i + 2], a),
                },
            );
            i = i + 1;
        }
        Ok(Image { pixels, width: width as usize, height: height as usize })
    }

    /// Normalize a single-channel 16-bit raster: keep the high byte.
    #[verifier::loop_isolation(false)]
    pub fn new_gray16(width: u32, height: u32, data: Vec<u16>) -> (res: Result<Image, ImageError>)
        ensures
            normalizes_to(Raster::Gray16 { width, height, data }, res),
    {
        let ghost r = Raster::Gray16 { width, height, data };
        let n = match checked_pixel_count(width, height, 1, data.len()) {
            Some(n) => n,
            None => { return Err(ImageError::InvalidDimensions) },
        };
        let mut pixels: Vec<Pixel> = Vec::new();
        let mut i: usize = 0;
        while i < n
            invariant
                pixels@.len() == i,
                i <= n,
                forall|j: int| 0 <= j < i ==> pixels@[j] == raster_pixel(r, j),
            decreases n - i,
        {
            let v = u16_to_u8(data[i]);
            pixels.push(Pixel { r: v, g: v, b: v });
            i = i + 1;
        }
        Ok(Image { pixels, width: width as usize, height: height as usize })
    }

    /// Normalize a gray-plus-alpha 16-bit raster: composite in the
    /// 16-bit range, then keep the high byte.
    #[verifier::loop_isolation(false)]
    pub fn new_grayalpha16(width: u32, height: u32, data: Vec<u16>) -> (res: Result<
        Image,
        ImageError,
    >)
        ensures
            normalizes_to(Raster::GrayAlpha16 { width, height, data }, res),
    {
        let ghost r = Raster::GrayAlpha16 { width, height, data };
        let n = match checked_pixel_count(width, height, 2, data.len()) {
            Some(n) => n,
            None => { return Err(ImageError::InvalidDimensions) },
        };
        let mut pixels: Vec<Pixel> = Vec::new();
        let mut i: usize = 0;
        while i < n
            invariant
                pixels@.len() == i,
                i <= n,
                forall|j: int| 0 <= j < i ==> pixels@[j] == raster_pixel(r, j),
            decreases n - i,
        {
            let v = u16_to_u8(apply_alpha16(data[2 * i], data[2 * i + 1]));
            pixels.push(Pixel { r: v, g: v, b: v });
            i = i + 1;
        }
        Ok(Image { pixels, width: width as usize, height: height as usize })
    }

    /// Normalize a three-channel 16-bit raster: keep each high byte.
    #[verifier::loop_isolation(false)]
    pub fn new_rgb16(width: u32, height: u32, data: Vec<u16>) -> (res: Result<Image, ImageError>)
        ensures
            normalizes_to(Raster::Rgb16 { width, height, data }, res),
    {
        let ghost r = Raster::Rgb16 { width, height, data };
        let n = match checked_pixel_count(width, height, 3, data.len()) {
            Some(n) => n,
            None => { return Err(ImageError::InvalidDimensions) },
        };
        let mut pixels: Vec<Pixel> = Vec::new();
        let mut i: usize = 0;
        while i < n
            invariant
                pixels@.len() == i,
                i <= n,
                forall|j: int| 0 <= j < i ==> pixels@[j] == raster_pixel(r, j),
            decreases n - i,
        {
            pixels.push(
                Pixel {
                    r: u16_to_u8(data[3 * i]),
                    g: u16_to_u8(data[3 * i + 1]),
                    b: u16_to_u8(data[3 * i + 2]),
                },
            );
            i = i + 1;
        }
        Ok(Image { pixels, width: width as usize, height: height as usize })
    }

    /// Normalize a four-channel 16-bit raster: composite each color
    /// channel in the 16-bit range, then keep the high byte.
    #[verifier::loop_isolation(false)]
    pub fn new_rgba16(width: u32, height: u32, data: Vec<u16>) -> (res: Result<Image, ImageError>)
        ensures
            normalizes_to(Raster::Rgba16 { width, height, data }, res),
    {
        let ghost r = Raster::Rgba16 { width, height, data };
        let n = match checked_pixel_count(width, height, 4, data.len()) {
            Some(n) => n,
            None => { return Err(ImageError::InvalidDimensions) },
        };
        let mut pixels: Vec<Pixel> = Vec::new();
        let mut i: usize = 0;
        while i < n
            invariant
                pixels@.len() == i,
                i <= n,
                forall|j: int| 0 <= j < i ==> pixels@[j] == raster_pixel(r, j),
            decreases n - i,
        {
            let a = data[4 * i + 3];
            pixels.push(
                Pixel {
                    r: u16_to_u8(apply_alpha16(data[4 * i], a)),
                    g: u16_to_u8(apply_alpha16(data[4 * i + 1], a)),
                    b: u16_to_u8(apply_alpha16(data[4 * i + 2], a)),
                },
            );
            i = i + 1;
        }
        Ok(Image { pixels, width: width as usize, height: height as usize })
    }

    /// Normalize any supported raster; an `Unsupported` raster is the
    /// one distinct fatal encoding error.
    pub fn new(raster: Raster) -> (res: Result<Image, ImageError>)
        ensures
            normalizes_to(raster, res),
    {
        match raster {
            Raster::Gray8 { width, height, data } => Self::new_gray8(width, height, data),
            Raster::GrayAlpha8 { width, height, data } => Self::new_grayalpha8(
                width,
                height,
                data,
            ),
            Raster::Rgb8 { width, height, data } => Self::new_rgb8(width, height, data),
            Raster::Rgba8 { width, height, data } => Self::new_rgba8(width, height, data),
            Raster::Gray16 { width, height, data } => Self::new_gray16(width, height, data),
            Raster::GrayAlpha16 { width, height, data } => Self::new_grayalpha16(
                width,
                height,
                data,
            ),
            Raster::Rgb16 { width, height, data } => Self::new_rgb16(width, height, data),
            Raster::Rgba16 { width, height, data } => Self::new_rgba16(width, height, data),
            Raster::Unsupported => Err(ImageError::UnsupportedFormat),
        }
    }

    /// Load an already-decoded raster into the canonical buffer.
    pub fn load(raster: Raster) -> (res: Result<Image, ImageError>)
        ensures
            normalizes_to(raster, res),
    {
        Self::new(raster)
    }

    /// The pixel a logical coordinate samples at the given zoom:
    /// nearest-neighbor at `floor(pos / zoom)`, and the zero pixel
    /// for any coordinate that falls outside the image.
    pub open spec fn sample_spec(&self, x: int, y: int, zoom: Zoom) -> Pixel {
        let sx = src_coord(x, zoom.spec_num(), zoom.spec_den());
        let sy = src_coord(y, zoom.spec_num(), zoom.spec_den());
        if sx >= self.spec_width() || sy >= self.spec_height() {
            Pixel::zero_spec()
        } else {
            self.spec_pixels()[sy * self.spec_width() + sx]
        }
    }

    /// Sample the image at a logical coordinate: the stored pixel at
    /// `(floor(x/zoom), floor(y/zoom))`, or the zero pixel when that
    /// source coordinate lies at or past an image edge.
    pub fn pixel(&self, pos: (usize, usize), zoom: Zoom) -> (p: Pixel)
        requires
            self.wf(),
            zoom.wf(),
        ensures
            p == self.sample_spec(pos.0 as int, pos.1 as int, zoom),
    {
        proof {
            assert((pos.0 as int) * (zoom.spec_den() as int) <= (usize::MAX as int) * (
            ZOOM_DEN_MAX as int)) by (nonlinear_arith)
                requires
                    0 <= pos.0 <= usize::MAX,
                    0 <= zoom.spec_den() <= ZOOM_DEN_MAX,
            ;
            assert((pos.1 as int) * (zoom.spec_den() as int) <= (usize::MAX as int) * (
            ZOOM_DEN_MAX as int)) by (nonlinear_arith)
                requires
                    0 <= pos.1 <= usize::MAX,
                    0 <= zoom.spec_den() <= ZOOM_DEN_MAX,
            ;
        }
        let num = zoom.num();
        let den = zoom.den();
        let sx128 = (pos.0 as u128) * (den as u128) / (num as u128);
        let sy128 = (pos.1 as u128) * (den as u128) / (num as u128);
        if sx128 >= self.width as u128 || sy128 >= self.height as u128 {
            Pixel::zero()
        } else {
            let sx = sx128 as usize;
            let sy = sy128 as usize;
            let total = self.pixels.len();
            proof {
                assert(sy * self.spec_width() + sx < self.spec_height() * self.spec_width())
                    by (nonlinear_arith)
                    requires
                        0 <= sx < self.spec_width(),
                        0 <= sy < self.spec_height(),
                ;
                assert(self.spec_height() * self.spec_width() == self.spec_width()
                    * self.spec_height()) by (nonlinear_arith);
                assert(sy * self.spec_width() + sx < total);
            }
            self.pixels[sy * self.width + sx]
        }
    }

    /// The image's nominal size at the given zoom: each dimension
    /// scaled by the zoom and rounded to the nearest integer, then
    /// clamped into the `usize` range.
    pub fn size(&self, zoom: Zoom) -> (s: (usize, usize))
        requires
            self.wf(),
            zoom.wf(),
        ensures
            s.0 == clamp_usize(scaled_dim(self.spec_width(), zoom.spec_num(), zoom.spec_den())),
            s.1 == clamp_usize(scaled_dim(self.spec_height(), zoom.spec_num(), zoom.spec_den())),
            scaled_dim(self.spec_width(), zoom.spec_num(), zoom.spec_den()) >= 0,
            scaled_dim(self.spec_height(), zoom.spec_num(), zoom.spec_den()) >= 0,
    {
        proof {
            assert(2 * self.spec_width() * zoom.spec_num() <= 2 * 0xffff_ffff * (
            ZOOM_NUM_MAX as int)) by (nonlinear_arith)
                requires
                    0 <= self.spec_width() <= 0xffff_ffff,
                    0 <= zoom.spec_num() <= ZOOM_NUM_MAX,
            ;
            assert(2 * self.spec_height() * zoom.spec_num() <= 2 * 0xffff_ffff * (
            ZOOM_NUM_MAX as int)) by (nonlinear_arith)
                requires
                    0 <= self.spec_height() <= 0xffff_ffff,
                    0 <= zoom.spec_num() <= ZOOM_NUM_MAX,
            ;
        }
        let num = zoom.num();
        let den = zoom.den();
        let wn: u128 = 2 * (self.width as u128) * (num as u128) + (den as u128);
        let hn: u128 = 2 * (self.height as u128) * (num as u128) + (den as u128);
        let d2: u128 = 2 * (den as u128);
        let ws = wn / d2;
        let hs = hn / d2;
        let sw = if ws > (usize::MAX as u128) {
            usize::MAX
        } else {
            ws as usize
        };
        let sh = if hs > (usize::MAX as u128) {
            usize::MAX
        } else {
            hs as usize
        };
        (sw, sh)
    }
}

} // verus!
