//! Navigation state: pan position, centering offset and zoom factor,
//! evolved by discrete input events and by terminal resizes.

use vstd::prelude::*;
use crate::image::{Image, scaled_dim, clamp_usize, lemma_scaled_one};
use crate::zoom::{Zoom, zoom_step_up, zoom_step_down, rat_eq, rat_le};

verus! {

/// Ceiling on each pan component; a pan step that would pass it leaves
/// the pan unchanged, so that renderer coordinate sums always fit.
pub const PAN_MAX: usize = 0x1000_0000;

/// An input event as the session loop sees it. Only presses act;
/// releases and repeats of the same keys, and anything else the
/// terminal reports, leave the state unchanged.
pub enum InputEvent {
    Key { chr: char, pressed: bool },
    Escape { pressed: bool },
    Other,
}

/// The view state: `pan` is the source-pixel coordinate aligned to the
/// viewport origin, `offset` the terminal-cell translation that centers
/// an image smaller than the viewport, `zoom` the scale factor.
/// `base_cols` and `base_rows` keep the terminal size seen at session
/// start; the reset command computes its fit against them.
pub struct ViewState {
    pub pan: (usize, usize),
    pub offset: (usize, usize),
    pub zoom: Zoom,
    pub base_cols: u16,
    pub base_rows: u16,
}

/// The renderer halves vertical resolution, so the logical viewport
/// height is twice the terminal row count.
pub open spec fn logical_rows(rows: int) -> int {
    2 * rows
}

/// The nominal image size exceeds the viewport on some axis, so a
/// fit-to-window zoom is called for.
pub open spec fn fit_needed(w: int, h: int, cols: int, lrows: int) -> bool {
    w > cols || h > lrows
}

/// Fit-to-window picks the width ratio exactly when `cols/w < lrows/h`.
pub open spec fn fit_picks_width(w: int, h: int, cols: int, lrows: int) -> bool {
    cols * h < lrows * w
}

/// Numerator of the fit-to-window zoom `min(cols/w, lrows/h)`.
pub open spec fn fit_num(w: int, h: int, cols: int, lrows: int) -> int {
    if fit_picks_width(w, h, cols, lrows) {
        100 * cols
    } else {
        100 * lrows
    }
}

/// Denominator of the fit-to-window zoom `min(cols/w, lrows/h)`.
pub open spec fn fit_den(w: int, h: int, cols: int, lrows: int) -> int {
    if fit_picks_width(w, h, cols, lrows) {
        100 * w
    } else {
        100 * h
    }
}

/// The zoom a reset produces for this image and viewport: 1 when the
/// nominal image already fits, else the fit-to-window ratio.
pub open spec fn reset_zoom(im: Image, cols: int, lrows: int, z: Zoom) -> bool {
    if fit_needed(im.spec_width(), im.spec_height(), cols, lrows) {
        &&& z.spec_num() == fit_num(im.spec_width(), im.spec_height(), cols, lrows)
        &&& z.spec_den() == fit_den(im.spec_width(), im.spec_height(), cols, lrows)
    } else {
        z.spec_num() == 100 && z.spec_den() == 100
    }
}

/// Fit-to-window is the minimum of the two axis ratios: it is no
/// larger than `cols/w` and no larger than `lrows/h`, and it equals
/// one of the two.
pub proof fn lemma_fit_zoom_is_min(w: int, h: int, cols: int, lrows: int)
    requires
        w >= 1,
        h >= 1,
        cols >= 1,
        lrows >= 1,
    ensures
        rat_le(fit_num(w, h, cols, lrows), fit_den(w, h, cols, lrows), cols, w),
        rat_le(fit_num(w, h, cols, lrows), fit_den(w, h, cols, lrows), lrows, h),
        rat_eq(fit_num(w, h, cols, lrows), fit_den(w, h, cols, lrows), cols, w) || rat_eq(
            fit_num(w, h, cols, lrows),
            fit_den(w, h, cols, lrows),
            lrows,
            h,
        ),
{
    if fit_picks_width(w, h, cols, lrows) {
        assert((100 * cols) * w == cols * (100 * w)) by (nonlinear_arith);
        assert((100 * cols) * h <= lrows * (100 * w)) by (nonlinear_arith)
            requires
                cols * h < lrows * w,
        ;
    } else {
        assert((100 * lrows) * h == lrows * (100 * h)) by (nonlinear_arith);
        assert((100 * lrows) * w <= cols * (100 * h)) by (nonlinear_arith)
            requires
                lrows * w <= cols * h,
        ;
    }
}

/// Everything but the zoom is the same in both states.
pub open spec fn same_but_zoom(b: ViewState, a: ViewState) -> bool {
    &&& a.pan == b.pan
    &&& a.offset == b.offset
    &&& a.base_cols == b.base_cols
    &&& a.base_rows == b.base_rows
}

/// Everything but the pan is the same in both states.
pub open spec fn same_but_pan(b: ViewState, a: ViewState) -> bool {
    &&& a.zoom == b.zoom
    &&& a.offset == b.offset
    &&& a.base_cols == b.base_cols
    &&& a.base_rows == b.base_rows
}

/// The input-driven transition table: what each event does to the
/// state, and when the session quits.
pub open spec fn event_transition(
    b: ViewState,
    im: Image,
    ev: InputEvent,
    a: ViewState,
    quit: bool,
) -> bool {
    match ev {
        InputEvent::Escape { pressed } => a == b && quit == pressed,
        InputEvent::Other => a == b && !quit,
        InputEvent::Key { chr, pressed } => {
            if !pressed {
                a == b && !quit
            } else if chr == 'q' {
                a == b && quit
            } else if chr == '+' || chr == '=' {
                !quit && same_but_zoom(b, a) && zoom_step_up(b.zoom, a.zoom)
            } else if chr == '-' || chr == '_' {
                !quit && same_but_zoom(b, a) && zoom_step_down(b.zoom, a.zoom)
                    && a.zoom.at_least_floor()
            } else if chr == 'h' || chr == 'a' {
                &&& !quit
                &&& same_but_pan(b, a)
                &&& a.pan.1 == b.pan.1
                &&& a.pan.0 == if b.pan.0 > 0 {
                    (b.pan.0 - 1) as usize
                } else {
                    0usize
                }
            } else if chr == 'l' || chr == 'd' {
                &&& !quit
                &&& same_but_pan(b, a)
                &&& a.pan.1 == b.pan.1
                &&& a.pan.0 == if b.pan.0 < PAN_MAX {
                    (b.pan.0 + 1) as usize
                } else {
                    b.pan.0
                }
            } else if chr == 'k' || chr == 'w' {
                &&& !quit
                &&& same_but_pan(b, a)
                &&& a.pan.0 == b.pan.0
                &&& a.pan.1 == if b.pan.1 < PAN_MAX {
                    (b.pan.1 + 1) as usize
                } else {
                    b.pan.1
                }
            } else if chr == 'j' || chr == 's' {
                &&& !quit
                &&& same_but_pan(b, a)
                &&& a.pan.0 == b.pan.0
                &&& a.pan.1 == if b.pan.1 > 0 {
                    (b.pan.1 - 1) as usize
                } else {
                    0usize
                }
            } else if chr == ' ' {
                &&& !quit
                &&& a.pan == (0usize, 0usize)
                &&& a.offset == (0usize, 0usize)
                &&& a.base_cols == b.base_cols
                &&& a.base_rows == b.base_rows
                &&& reset_zoom(im, b.base_cols as int, logical_rows(b.base_rows as int), a.zoom)
            } else {
                a == b && !quit
            }
        },
    }
}

impl ViewState {
    /// Well-formedness: a well-formed zoom, bounded pan and offset,
    /// and a positive recorded base terminal size.
    pub open spec fn wf(&self) -> bool {
        &&& self.zoom.wf()
        &&& self.pan.0 <= PAN_MAX
        &&& self.pan.1 <= PAN_MAX
        &&& self.offset.0 <= 0xffff
        &&& self.offset.1 <= 0x1_ffff
        &&& self.base_cols >= 1
        &&& self.base_rows >= 1
    }

    /// The zoom a session starts with, or returns to on reset: 1 if
    /// the nominal image fits the viewport, else fit-to-window.
    fn fitted_zoom(im: &Image, cols: u16, rows: u16) -> (z: Zoom)
        requires
            im.wf(),
            cols >= 1,
            rows >= 1,
        ensures
            z.wf(),
            reset_zoom(*im, cols as int, logical_rows(rows as int), z),
    {
        let zoom = Zoom::one();
        let (iw, ih) = im.size(zoom);
        proof {
            lemma_scaled_one(im.spec_width());
            lemma_scaled_one(im.spec_height());
        }
        let th: usize = 2 * (rows as usize);
        if iw > cols as usize || ih > th {
            proof {
                assert((cols as int) * (ih as int) <= 0xffff * 0xffff_ffff) by (nonlinear_arith)
                    requires
                        0 <= cols <= 0xffff,
                        0 <= ih <= 0xffff_ffff,
                ;
                assert((th as int) * (iw as int) <= 0x2_0000 * 0xffff_ffff) by (nonlinear_arith)
                    requires
                        0 <= th <= 0x2_0000,
                        0 <= iw <= 0xffff_ffff,
                ;
            }
            let c = (cols as u64) * (ih as u64);
            let t = (th as u64) * (iw as u64);
            if c < t {
                Zoom::ratio(cols as u32, iw as u32)
            } else {
                Zoom::ratio(th as u32, ih as u32)
            }
        } else {
            zoom
        }
    }

    /// Enter the session: zoom 1 or fit-to-window, pan at the origin,
    /// and an offset centering an image smaller than the viewport
    /// (halving the spare columns; quartering the spare logical rows).
    pub fn init(im: &Image, cols: u16, rows: u16) -> (v: ViewState)
        requires
            im.wf(),
            cols >= 1,
            rows >= 1,
        ensures
            v.wf(),
            v.base_cols == cols,
            v.base_rows == rows,
            v.pan == (0usize, 0usize),
            reset_zoom(*im, cols as int, logical_rows(rows as int), v.zoom),
            ({
                let iw = clamp_usize(
                    scaled_dim(im.spec_width(), v.zoom.spec_num(), v.zoom.spec_den()),
                );
                let ih = clamp_usize(
                    scaled_dim(im.spec_height(), v.zoom.spec_num(), v.zoom.spec_den()),
                );
                let lr = logical_rows(rows as int);
                &&& v.offset.0 == if iw < cols as int {
                    (cols as int - iw) / 2
                } else {
                    0int
                }
                &&& v.offset.1 == if ih < lr {
                    (lr - ih) / 4
                } else {
                    0int
                }
            }),
    {
        let zoom = Self::fitted_zoom(im, cols, rows);
        let (iw, ih) = im.size(zoom);
        let th: usize = 2 * (rows as usize);
        let ox: usize = if iw < cols as usize {
            (cols as usize - iw) / 2
        } else {
            0
        };
        let oy: usize = if ih < th {
            (th - ih) / 4
        } else {
            0
        };
        ViewState {
            pan: (0, 0),
            offset: (ox, oy),
            zoom,
            base_cols: cols,
            base_rows: rows,
        }
    }

    /// The per-frame resize reaction: at the current zoom, on each axis
    /// where the nominal image is smaller than the viewport, reset that
    /// pan component and recompute that centering offset. Pan survives
    /// only while the scaled image exceeds the viewport on its axis.
    pub fn adjust(&mut self, im: &Image, cols: u16, rows: u16)
        requires
            old(self).wf(),
            im.wf(),
            cols >= 1,
            rows >= 1,
        ensures
            final(self).wf(),
            final(self).zoom == old(self).zoom,
            final(self).base_cols == old(self).base_cols,
            final(self).base_rows == old(self).base_rows,
            ({
                let iw = clamp_usize(
                    scaled_dim(im.spec_width(), old(self).zoom.spec_num(), old(self).zoom.spec_den()),
                );
                let ih = clamp_usize(
                    scaled_dim(im.spec_height(), old(self).zoom.spec_num(), old(self).zoom.spec_den()),
                );
                let lr = logical_rows(rows as int);
                &&& if iw < cols as int {
                    final(self).pan.0 == 0 && final(self).offset.0 == (cols as int - iw) / 2
                } else {
                    final(self).pan.0 == old(self).pan.0 && final(self).offset.0 == old(
                        self,
                    ).offset.0
                }
                &&& if ih < lr {
                    final(self).pan.1 == 0 && final(self).offset.1 == (lr - ih) / 4
                } else {
                    final(self).pan.1 == old(self).pan.1 && final(self).offset.1 == old(
                        self,
                    ).offset.1
                }
            }),
    {
        let (iw, ih) = im.size(self.zoom);
        let th: usize = 2 * (rows as usize);
        let mut pan = self.pan;
        let mut offset = self.offset;
        if iw < cols as usize {
            pan = (0, pan.1);
            offset = ((cols as usize - iw) / 2, offset.1);
        }
        if ih < th {
            pan = (pan.0, 0);
            offset = (offset.0, (th - ih) / 4);
        }
        self.pan = pan;
        self.offset = offset;
    }

    /// Apply one input event: the navigation transition table. Only a
    /// press of `q` or of escape quits; zoom steps by exactly 1/100,
    /// zooming out never below 1/100; panning left or down stops at 0,
    /// panning right or up is never blocked (up to the pan ceiling).
    pub fn handle_event(&mut self, ev: &InputEvent, im: &Image) -> (quit: bool)
        requires
            old(self).wf(),
            im.wf(),
        ensures
            final(self).wf(),
            event_transition(*old(self), *im, *ev, *final(self), quit),
    {
        match ev {
            InputEvent::Escape { pressed } => *pressed,
            InputEvent::Other => false,
            InputEvent::Key { chr, pressed } => {
                if !*pressed {
                    return false;
                }
                let c = *chr;
                if c == 'q' {
                    return true;
                }
                if c == '+' || c == '=' {
                    self.zoom = self.zoom.increased();
                } else if c == '-' || c == '_' {
                    self.zoom = self.zoom.decreased();
                } else if c == 'h' || c == 'a' {
                    if self.pan.0 > 0 {
                        self.pan = (self.pan.0 - 1, self.pan.1);
                    }
                } else if c == 'l' || c == 'd' {
                    if self.pan.0 < PAN_MAX {
                        self.pan = (self.pan.0 + 1, self.pan.1);
                    }
                } else if c == 'k' || c == 'w' {
                    if self.pan.1 < PAN_MAX {
                        self.pan = (self.pan.0, self.pan.1 + 1);
                    }
                } else if c == 'j' || c == 's' {
                    if self.pan.1 > 0 {
                        self.pan = (self.pan.0, self.pan.1 - 1);
                    }
                } else if c == ' ' {
                    self.zoom = Self::fitted_zoom(im, self.base_cols, self.base_rows);
                    self.pan = (0, 0);
                    self.offset = (0, 0);
                }
                false
            },
        }
    }
}

} // verus!
