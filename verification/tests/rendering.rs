use termimg::{Cell, Image, Pixel, ViewState, Zoom};

fn px(r: u8, g: u8, b: u8) -> Pixel {
    Pixel { r, g, b }
}

fn checker() -> Image {
    Image::new_rgb8(
        2,
        2,
        vec![255, 0, 0, 0, 255, 0, 0, 0, 255, 255, 255, 255],
    )
    .unwrap()
}

fn plain_view(cols: u16, rows: u16) -> ViewState {
    ViewState {
        pan: (0, 0),
        offset: (0, 0),
        zoom: Zoom::one(),
        base_cols: cols,
        base_rows: rows,
    }
}

#[test]
fn one_cell_stacks_two_source_rows() {
    let im = checker();
    let v = plain_view(2, 1);
    let cells = im.draw(&v, 2, 1);
    assert_eq!(cells.len(), 2);
    assert_eq!(cells[0], Cell::Split { fg: px(255, 0, 0), bg: px(0, 0, 255) });
    assert_eq!(cells[1], Cell::Split { fg: px(0, 255, 0), bg: px(255, 255, 255) });
}

#[test]
fn cells_outside_the_image_are_zero_colored() {
    let im = checker();
    let v = plain_view(4, 2);
    let cells = im.draw(&v, 4, 2);
    assert_eq!(cells.len(), 8);
    // column 2 of row 0 samples past the right edge
    assert_eq!(cells[2], Cell::Split { fg: px(0, 0, 0), bg: px(0, 0, 0) });
    // row 1 samples logical rows 2 and 3, past the bottom edge
    assert_eq!(cells[4], Cell::Split { fg: px(0, 0, 0), bg: px(0, 0, 0) });
}

#[test]
fn offset_cells_are_blank_letterbox() {
    let im = checker();
    let mut v = plain_view(3, 2);
    v.offset = (1, 1);
    let cells = im.draw(&v, 3, 2);
    assert_eq!(cells.len(), 6);
    // all of row 0, and column 0 of row 1, sit inside the border
    assert_eq!(cells[0], Cell::Blank);
    assert_eq!(cells[1], Cell::Blank);
    assert_eq!(cells[2], Cell::Blank);
    assert_eq!(cells[3], Cell::Blank);
    // the first cell past the border shows the image's top-left
    assert_eq!(cells[4], Cell::Split { fg: px(255, 0, 0), bg: px(0, 0, 255) });
}

#[test]
fn pan_shifts_the_sampled_origin() {
    let im = checker();
    let mut v = plain_view(2, 1);
    v.pan = (1, 0);
    let cells = im.draw(&v, 2, 1);
    assert_eq!(cells[0], Cell::Split { fg: px(0, 255, 0), bg: px(255, 255, 255) });
    // one column further, everything is outside
    assert_eq!(cells[1], Cell::Split { fg: px(0, 0, 0), bg: px(0, 0, 0) });
    // vertical pan drops the top source row into the background slot
    v.pan = (0, 1);
    let cells = im.draw(&v, 2, 1);
    assert_eq!(cells[0], Cell::Split { fg: px(0, 0, 255), bg: px(0, 0, 0) });
}

#[test]
fn zoomed_out_frame_shrinks_the_image() {
    let im = checker();
    let mut v = plain_view(2, 1);
    v.zoom = Zoom::ratio(1, 2);
    let cells = im.draw(&v, 2, 1);
    // logical (0,0) -> source (0,0); logical (0,1) -> source (0,2): outside
    assert_eq!(cells[0], Cell::Split { fg: px(255, 0, 0), bg: px(0, 0, 0) });
    // logical (1,0) -> source (2,0): outside
    assert_eq!(cells[1], Cell::Split { fg: px(0, 0, 0), bg: px(0, 0, 0) });
}
