use termimg::{Image, InputEvent, Pixel, ViewState, Zoom};

fn press(chr: char) -> InputEvent {
    InputEvent::Key { chr, pressed: true }
}

fn test_image(width: u32, height: u32) -> Image {
    let data = vec![0u8; (width * height * 3) as usize];
    Image::new_rgb8(width, height, data).unwrap()
}

fn checker() -> Image {
    Image::new_rgb8(
        2,
        2,
        vec![255, 0, 0, 0, 255, 0, 0, 0, 255, 255, 255, 255],
    )
    .unwrap()
}

#[test]
fn sample_inside_returns_the_stored_pixel() {
    let im = checker();
    let z = Zoom::one();
    assert_eq!(im.pixel((0, 0), z), Pixel { r: 255, g: 0, b: 0 });
    assert_eq!(im.pixel((1, 0), z), Pixel { r: 0, g: 255, b: 0 });
    assert_eq!(im.pixel((0, 1), z), Pixel { r: 0, g: 0, b: 255 });
    assert_eq!(im.pixel((1, 1), z), Pixel { r: 255, g: 255, b: 255 });
}

#[test]
fn sample_outside_returns_the_zero_pixel() {
    let im = checker();
    let z = Zoom::one();
    let zero = Pixel { r: 0, g: 0, b: 0 };
    assert_eq!(im.pixel((2, 0), z), zero);
    assert_eq!(im.pixel((0, 2), z), zero);
    assert_eq!(im.pixel((1000, 1000), z), zero);
}

#[test]
fn sample_divides_the_coordinate_by_the_zoom() {
    let im = checker();
    // zoom 2: logical (3, 1) maps to source (1, 0)
    let z2 = Zoom::ratio(2, 1);
    assert_eq!(im.pixel((3, 1), z2), Pixel { r: 0, g: 255, b: 0 });
    // zoom 1/2: logical (1, 0) maps to source (2, 0), outside, and so
    // does logical (0, 1); only (0, 0) still lands inside
    let zh = Zoom::ratio(1, 2);
    assert_eq!(im.pixel((1, 0), zh), Pixel { r: 0, g: 0, b: 0 });
    assert_eq!(im.pixel((0, 1), zh), Pixel { r: 0, g: 0, b: 0 });
    assert_eq!(im.pixel((0, 0), zh), Pixel { r: 255, g: 0, b: 0 });
}

#[test]
fn size_rounds_to_the_nearest_integer() {
    let im = test_image(3, 5);
    assert_eq!(im.size(Zoom::one()), (3, 5));
    // zoom 1/2: 3 * 0.5 = 1.5 rounds up to 2; 5 * 0.5 = 2.5 rounds up to 3
    assert_eq!(im.size(Zoom::ratio(1, 2)), (2, 3));
    assert_eq!(im.size(Zoom::ratio(2, 1)), (6, 10));
}

#[test]
fn zoom_steps_by_one_hundredth() {
    let z = Zoom::one();
    let up = z.increased();
    assert_eq!((up.num(), up.den()), (101, 100));
    let down = z.decreased();
    assert_eq!((down.num(), down.den()), (99, 100));
}

#[test]
fn zoom_never_drops_below_the_floor() {
    let mut z = Zoom::one();
    for _ in 0..500 {
        z = z.decreased();
        assert!(100 * z.num() >= z.den());
    }
    assert_eq!((z.num(), z.den()), (1, 100));
}

#[test]
fn fit_zoom_is_the_smaller_axis_ratio() {
    // nominal 200x100 against an 80x25 terminal (50 logical rows):
    // 80/200 = 0.4 < 50/100 = 0.5, so the width ratio wins
    let im = test_image(200, 100);
    let v = ViewState::init(&im, 80, 25);
    assert_eq!((v.zoom.num(), v.zoom.den()), (8000, 20000));
    // height ratio wins when it is smaller: 100x200 against the same
    let im = test_image(100, 200);
    let v = ViewState::init(&im, 80, 25);
    assert_eq!((v.zoom.num(), v.zoom.den()), (5000, 20000));
}

#[test]
fn fitting_image_keeps_zoom_at_one() {
    let im = test_image(10, 10);
    let v = ViewState::init(&im, 80, 25);
    assert_eq!((v.zoom.num(), v.zoom.den()), (100, 100));
    assert_eq!(v.pan, (0, 0));
    // centering: (80 - 10) / 2 = 35 columns, (50 - 10) / 4 = 10 rows
    assert_eq!(v.offset, (35, 10));
}

#[test]
fn init_offsets_after_a_fit() {
    // 200x100 fit to 80 cols: scaled to 80x40; no spare columns,
    // (50 - 40) / 4 = 2 spare rows of letterbox
    let im = test_image(200, 100);
    let v = ViewState::init(&im, 80, 25);
    assert_eq!(v.offset, (0, 2));
    assert_eq!(v.pan, (0, 0));
}

#[test]
fn pan_left_at_zero_is_a_no_op() {
    let im = test_image(200, 100);
    let mut v = ViewState::init(&im, 80, 25);
    assert_eq!(v.pan.0, 0);
    let quit = v.handle_event(&press('h'), &im);
    assert!(!quit);
    assert_eq!(v.pan, (0, 0));
    let quit = v.handle_event(&press('a'), &im);
    assert!(!quit);
    assert_eq!(v.pan, (0, 0));
}

#[test]
fn pan_right_is_never_blocked() {
    let im = test_image(200, 100);
    let mut v = ViewState::init(&im, 80, 25);
    for i in 1..=300usize {
        v.handle_event(&press('l'), &im);
        assert_eq!(v.pan.0, i);
    }
}

#[test]
fn pan_up_and_down_mirror_left_and_right() {
    let im = test_image(200, 100);
    let mut v = ViewState::init(&im, 80, 25);
    v.handle_event(&press('k'), &im);
    v.handle_event(&press('w'), &im);
    assert_eq!(v.pan, (0, 2));
    v.handle_event(&press('j'), &im);
    assert_eq!(v.pan, (0, 1));
    v.handle_event(&press('s'), &im);
    assert_eq!(v.pan, (0, 0));
    v.handle_event(&press('s'), &im);
    assert_eq!(v.pan, (0, 0));
}

#[test]
fn quit_keys_end_the_session() {
    let im = test_image(4, 4);
    let mut v = ViewState::init(&im, 80, 25);
    assert!(v.handle_event(&press('q'), &im));
    assert!(v.handle_event(&InputEvent::Escape { pressed: true }, &im));
    assert!(!v.handle_event(&InputEvent::Escape { pressed: false }, &im));
    assert!(!v.handle_event(&InputEvent::Other, &im));
}

#[test]
fn releases_and_unknown_keys_change_nothing() {
    let im = test_image(200, 100);
    let mut v = ViewState::init(&im, 80, 25);
    let before = (v.pan, v.offset, (v.zoom.num(), v.zoom.den()));
    assert!(!v.handle_event(&InputEvent::Key { chr: 'q', pressed: false }, &im));
    assert!(!v.handle_event(&InputEvent::Key { chr: 'x', pressed: true }, &im));
    assert!(!v.handle_event(&InputEvent::Key { chr: '-', pressed: false }, &im));
    let after = (v.pan, v.offset, (v.zoom.num(), v.zoom.den()));
    assert_eq!(before, after);
}

#[test]
fn zoom_keys_step_the_zoom() {
    let im = test_image(10, 10);
    let mut v = ViewState::init(&im, 80, 25);
    v.handle_event(&press('+'), &im);
    assert_eq!((v.zoom.num(), v.zoom.den()), (101, 100));
    v.handle_event(&press('='), &im);
    assert_eq!((v.zoom.num(), v.zoom.den()), (102, 100));
    v.handle_event(&press('-'), &im);
    assert_eq!((v.zoom.num(), v.zoom.den()), (101, 100));
    v.handle_event(&press('_'), &im);
    assert_eq!((v.zoom.num(), v.zoom.den()), (100, 100));
}

#[test]
fn zoom_out_through_events_stays_at_the_floor() {
    let im = test_image(10, 10);
    let mut v = ViewState::init(&im, 80, 25);
    for _ in 0..150 {
        v.handle_event(&press('-'), &im);
        assert!(100 * v.zoom.num() >= v.zoom.den());
    }
    assert_eq!((v.zoom.num(), v.zoom.den()), (1, 100));
}

#[test]
fn space_resets_to_the_initial_fit() {
    let im = test_image(200, 100);
    let mut v = ViewState::init(&im, 80, 25);
    v.handle_event(&press('l'), &im);
    v.handle_event(&press('k'), &im);
    v.handle_event(&press('+'), &im);
    v.handle_event(&press(' '), &im);
    assert_eq!(v.pan, (0, 0));
    assert_eq!(v.offset, (0, 0));
    assert_eq!((v.zoom.num(), v.zoom.den()), (8000, 20000));
}

#[test]
fn adjust_recenters_only_where_the_image_fits() {
    // 60x100 against 80 cols x 25 rows (50 logical rows): too tall,
    // so the height ratio 1/2 wins the fit
    let im = test_image(60, 100);
    let mut v = ViewState::init(&im, 80, 25);
    // zoom 50/100: scaled 30x50
    assert_eq!((v.zoom.num(), v.zoom.den()), (5000, 10000));
    v.handle_event(&press('l'), &im);
    v.handle_event(&press('k'), &im);
    assert_eq!(v.pan, (1, 1));
    v.adjust(&im, 80, 25);
    // 30 < 80: pan.x reset, offset.x = (80 - 30) / 2 = 25
    // 50 is not < 50: pan.y and offset.y kept
    assert_eq!(v.pan, (0, 1));
    assert_eq!(v.offset.0, 25);
}

#[test]
fn adjust_keeps_pan_while_the_image_overflows() {
    let im = test_image(200, 100);
    let mut v = ViewState::init(&im, 80, 25);
    // zoom in so the scaled image overflows both axes again
    for _ in 0..100 {
        v.handle_event(&press('+'), &im);
    }
    v.handle_event(&press('l'), &im);
    v.handle_event(&press('k'), &im);
    let pan = v.pan;
    v.adjust(&im, 80, 25);
    assert_eq!(v.pan, pan);
}
