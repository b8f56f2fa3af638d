//! The canonical pixel: one 8-bit value per color channel, alpha already
//! resolved during normalization.

use vstd::prelude::*;

verus! {

/// A normalized pixel: red, green and blue, each 0..=255. The zero pixel
/// (0, 0, 0) doubles as the "outside the image" sentinel.
#[derive(Debug, Clone, Copy, PartialEq, Eq, Hash, Structural)]
pub struct Pixel {
    pub r: u8,
    pub g: u8,
    pub b: u8,
}

impl Default for Pixel {
    /// The zero pixel.
    fn default() -> (p: Pixel)
        ensures
            p == (Pixel { r: 0, g: 0, b: 0 }),
    {
        Pixel { r: 0, g: 0, b: 0 }
    }
}

impl Pixel {
    /// The zero pixel, as a spec-level constant.
    pub open spec fn zero_spec() -> Pixel {
        Pixel { r: 0, g: 0, b: 0 }
    }

    /// The zero pixel.
    pub fn zero() -> (p: Pixel)
        ensures
            p == Pixel::zero_spec(),
    {
        Pixel { r: 0, g: 0, b: 0 }
    }
}

/// Composite an 8-bit channel over black: `v * a / 255`, truncating.
pub open spec fn apply_alpha_spec(value: int, alpha: int) -> int {
    value * alpha / 255
}

/// Composite a 16-bit channel over black: `v * a / 65535`, truncating.
pub open spec fn apply_alpha16_spec(value: int, alpha: int) -> int {
    value * alpha / 65535
}

/// Truncate a 16-bit channel to 8 bits by keeping the high byte.
pub open spec fn u16_to_u8_spec(value: int) -> int {
    value / 256
}

/// Composite an 8-bit channel value over black with an 8-bit alpha,
/// by integer truncation (never rounding).
pub fn apply_alpha(value: u8, alpha: u8) -> (r: u8)
    ensures
        r == apply_alpha_spec(value as int, alpha as int),
        alpha == 0 ==> r == 0,
{
    proof {
        assert((value as int) * (alpha as int) <= 255 * 255) by (nonlinear_arith)
            requires
                value <= 255,
                alpha <= 255,
        ;
        assert((value as int) * (alpha as int) >= 0) by (nonlinear_arith)
            requires
                value >= 0,
                alpha >= 0,
        ;
    }
    ((value as u32) * (alpha as u32) / 255) as u8
}

/// Composite a 16-bit channel value over black with a 16-bit alpha,
/// by integer truncation (never rounding).
pub fn apply_alpha16(value: u16, alpha: u16) -> (r: u16)
    ensures
        r == apply_alpha16_spec(value as int, alpha as int),
        alpha == 0 ==> r == 0,
{
    proof {
        assert((value as int) * (alpha as int) <= 65535 * 65535) by (nonlinear_arith)
            requires
                value <= 65535,
                alpha <= 65535,
        ;
        assert((value as int) * (alpha as int) >= 0) by (nonlinear_arith)
            requires
                value >= 0,
                alpha >= 0,
        ;
    }
    ((value as u32) * (alpha as u32) / 65535) as u16
}

/// Truncate a 16-bit channel to 8 bits: the high byte, `v >> 8`,
/// which equals `floor(v / 256)`.
pub fn u16_to_u8(value: u16) -> (r: u8)
    ensures
        r == u16_to_u8_spec(value as int),
        r == value >> 8,
{
    proof {
        assert(value >> 8 == value / 256 && value >> 8 <= 255) by (bit_vector);
    }
    (value >> 8) as u8
}

} // verus!
