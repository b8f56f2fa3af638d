//! The zoom factor, held exactly as a rational `num / den`.
//!
//! A destination "logical pixel" covers `1/zoom` source pixels per axis.
//! The denominator is always a positive multiple of 100, so one zoom
//! step of 1/100 is exactly `den / 100` added to or taken from the
//! numerator and the denominator never changes after construction.

use vstd::prelude::*;

verus! {

/// Largest numerator a zoom may hold; a zoom-in step that would pass it
/// leaves the zoom unchanged.
pub const ZOOM_NUM_MAX: u64 = 0x4000_0000_0000_0000;

/// Largest denominator a zoom may hold: 100 times the largest
/// image dimension the decoder can produce.
pub const ZOOM_DEN_MAX: u64 = 100 * 0xffff_ffff;

/// Rational equality by cross-multiplication: `n1/d1 == n2/d2`.
pub open spec fn rat_eq(n1: int, d1: int, n2: int, d2: int) -> bool {
    n1 * d2 == n2 * d1
}

/// Rational order by cross-multiplication: `n1/d1 <= n2/d2`.
pub open spec fn rat_le(n1: int, d1: int, n2: int, d2: int) -> bool {
    n1 * d2 <= n2 * d1
}

/// One zoom step of exactly 1/100 up, saturating at the numerator's
/// range: how a zoom-in command relates the new zoom to the old.
pub open spec fn zoom_step_up(before: Zoom, after: Zoom) -> bool {
    &&& after.spec_den() == before.spec_den()
    &&& if before.spec_num() + before.spec_den() / 100 <= ZOOM_NUM_MAX {
        after.spec_num() == before.spec_num() + before.spec_den() / 100
    } else {
        after.spec_num() == before.spec_num()
    }
}

/// One zoom step of exactly 1/100 down, clamped at the 1/100 floor:
/// how a zoom-out command relates the new zoom to the old.
pub open spec fn zoom_step_down(before: Zoom, after: Zoom) -> bool {
    &&& after.spec_den() == before.spec_den()
    &&& if before.spec_num() >= 2 * (before.spec_den() / 100) {
        after.spec_num() == before.spec_num() - before.spec_den() / 100
    } else {
        after.spec_num() == before.spec_den() / 100
    }
}

/// A positive scale factor `num / den`, exact.
#[derive(Debug, Clone, Copy, PartialEq, Eq, Structural)]
pub struct Zoom {
    num: u64,
    den: u64,
}

impl Zoom {
    pub closed spec fn spec_num(&self) -> int {
        self.num as int
    }

    pub closed spec fn spec_den(&self) -> int {
        self.den as int
    }

    /// Well-formedness: positive numerator within range, and a
    /// denominator that is a positive multiple of 100 within range.
    pub open spec fn wf(&self) -> bool {
        &&& 1 <= self.spec_num() <= ZOOM_NUM_MAX
        &&& 100 <= self.spec_den() <= ZOOM_DEN_MAX
        &&& self.spec_den() % 100 == 0
    }

    /// `self >= 1/100`: the hard floor that zooming out never crosses.
    pub open spec fn at_least_floor(&self) -> bool {
        100 * self.spec_num() >= self.spec_den()
    }

    /// Zoom factor 1.
    pub fn one() -> (z: Zoom)
        ensures
            z.wf(),
            z.at_least_floor(),
            z.spec_num() == 100 && z.spec_den() == 100,
    {
        Zoom { num: 100, den: 100 }
    }

    /// The exact ratio `a / b`, as used by fit-to-window.
    pub fn ratio(a: u32, b: u32) -> (z: Zoom)
        requires
            a >= 1,
            b >= 1,
        ensures
            z.wf(),
            z.spec_num() == 100 * (a as int),
            z.spec_den() == 100 * (b as int),
            rat_eq(z.spec_num(), z.spec_den(), a as int, b as int),
    {
        proof {
            assert((100 * (a as int)) * (b as int) == (a as int) * (100 * (b as int)))
                by (nonlinear_arith);
        }
        Zoom { num: 100 * (a as u64), den: 100 * (b as u64) }
    }

    /// The numerator, for callers outside verified code.
    pub fn num(&self) -> (n: u64)
        ensures
            n == self.spec_num(),
    {
        self.num
    }

    /// The denominator, for callers outside verified code.
    pub fn den(&self) -> (d: u64)
        ensures
            d == self.spec_den(),
    {
        self.den
    }

    /// One zoom step up: exactly `self + 1/100`, unless the numerator
    /// would leave its range, in which case the zoom is unchanged.
    pub fn increased(&self) -> (z: Zoom)
        requires
            self.wf(),
        ensures
            z.wf(),
            zoom_step_up(*self, z),
    {
        let step = self.den / 100;
        if self.num <= ZOOM_NUM_MAX - step {
            Zoom { num: self.num + step, den: self.den }
        } else {
            *self
        }
    }

    /// One zoom step down: exactly `self - 1/100`, clamped so the
    /// result never drops below the 1/100 floor.
    pub fn decreased(&self) -> (z: Zoom)
        requires
            self.wf(),
        ensures
            z.wf(),
            zoom_step_down(*self, z),
            z.at_least_floor(),
    {
        proof {
            assert(self.spec_den() / 100 * 100 == self.spec_den());
        }
        let step = self.den / 100;
        if self.num >= 2 * step {
            Zoom { num: self.num - step, den: self.den }
        } else {
            Zoom { num: step, den: self.den }
        }
    }
}

} // verus!
