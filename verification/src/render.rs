//! The cell renderer: two vertically adjacent samples per terminal
//! cell, encoded as the foreground and background colors of one
//! half-height block glyph, doubling effective vertical resolution.

use vstd::prelude::*;
use vstd::arithmetic::div_mod::lemma_fundamental_div_mod_converse;
use crate::pixel::Pixel;
use crate::image::Image;
use crate::view::ViewState;

verus! {

/// One terminal cell of a rendered frame. `Blank` is the letterbox
/// border (a space on the empty background); `Split` shows the upper
/// sample as the half-block's foreground over the lower sample as its
/// background.
#[derive(Debug, Clone, Copy, PartialEq, Eq, Structural)]
pub enum Cell {
    Blank,
    Split { fg: Pixel, bg: Pixel },
}

/// The cell rendered at terminal column `x`, row `y`: blank inside the
/// letterbox border, else the samples at logical column
/// `(x - offset.x) + pan.x` and logical rows `(y - offset.y) * 2 + pan.y`
/// and the row just below it.
pub open spec fn cell_spec(im: Image, v: ViewState, x: int, y: int) -> Cell {
    if x < v.offset.0 || y < v.offset.1 {
        Cell::Blank
    } else {
        let lx = (x - v.offset.0) + v.pan.0;
        let uy = (y - v.offset.1) * 2 + v.pan.1;
        Cell::Split {
            fg: im.sample_spec(lx, uy, v.zoom),
            bg: im.sample_spec(lx, uy + 1, v.zoom),
        }
    }
}

impl Image {
    /// Render one whole frame for a `cols x rows` terminal grid: the
    /// row-major sequence of cells, cell `i` belonging to column
    /// `i % cols`, row `i / cols`.
    #[verifier::loop_isolation(false)]
    pub fn draw(&self, view: &ViewState, cols: u16, rows: u16) -> (cells: Vec<Cell>)
        requires
            self.wf(),
            view.wf(),
        ensures
            cells@.len() == (cols as int) * (rows as int),
            forall|i: int|
                0 <= i < cells@.len() ==> cells@[i] == cell_spec(
                    *self,
                    *view,
                    i % (cols as int),
                    i / (cols as int),
                ),
    {
        let mut cells: Vec<Cell> = Vec::new();
        let mut y: usize = 0;
        while y < rows as usize
            invariant
                y <= rows as usize,
                cells@.len() == y * (cols as int),
                forall|i: int|
                    0 <= i < cells@.len() ==> cells@[i] == cell_spec(
                        *self,
                        *view,
                        i % (cols as int),
                        i / (cols as int),
                    ),
            decreases rows as usize - y,
        {
            let mut x: usize = 0;
            while x < cols as usize
                invariant
                    x <= cols as usize,
                    y < rows as usize,
                    cells@.len() == y * (cols as int) + x,
                    forall|i: int|
                        0 <= i < cells@.len() ==> cells@[i] == cell_spec(
                            *self,
                            *view,
                            i % (cols as int),
                            i / (cols as int),
                        ),
                decreases cols as usize - x,
            {
                let cell = if x < view.offset.0 || y < view.offset.1 {
                    Cell::Blank
                } else {
                    let lx = (x - view.offset.0) + view.pan.0;
                    let uy = (y - view.offset.1) * 2 + view.pan.1;
                    let fg = self.pixel((lx, uy), view.zoom);
                    let bg = self.pixel((lx, uy + 1), view.zoom);
                    Cell::Split { fg, bg }
                };
                cells.push(cell);
                proof {
                    lemma_fundamental_div_mod_converse(
                        y * (cols as int) + x,
                        cols as int,
                        y as int,
                        x as int,
                    );
                }
                x = x + 1;
            }
            proof {
                assert((y + 1) * (cols as int) == y * (cols as int) + (cols as int))
                    by (nonlinear_arith);
            }
            y = y + 1;
        }
        proof {
            assert((rows as usize) * (cols as int) == (cols as int) * (rows as int))
                by (nonlinear_arith);
        }
        cells
    }
}

} // verus!
