use render_once::placement::{compute_placement, PlacementRect};

// Screen used throughout: 800 x 600.

#[test]
fn unscaled_fit_small_text() {
    let r = compute_placement(100, 50, 736, 536, 800, 600);
    assert_eq!(
        r,
        PlacementRect { x: 350, y: 275, width: 100, height: 50 }
    );
}

#[test]
fn width_pivot_wide_content() {
    // widthRatio = 2.0 > heightRatio = 0.2: width fills its bound
    let r = compute_placement(1000, 100, 500, 500, 800, 600);
    assert_eq!(
        r,
        PlacementRect { x: 150, y: 275, width: 500, height: 50 }
    );
}

#[test]
fn height_pivot_tall_content() {
    // heightRatio = 2.0 > widthRatio = 0.2: height fills its bound
    let r = compute_placement(100, 1000, 500, 500, 800, 600);
    assert_eq!(
        r,
        PlacementRect { x: 375, y: 50, width: 50, height: 500 }
    );
}

#[test]
fn both_overflow_height_pivot() {
    // both ratios exceed one and the height ratio is the larger:
    // width = round(800 / (600/536)) = 715
    let r = compute_placement(800, 600, 736, 536, 800, 600);
    assert_eq!(
        r,
        PlacementRect { x: 42, y: 32, width: 715, height: 536 }
    );
}

#[test]
fn idempotent_identical_calls() {
    let a = compute_placement(800, 600, 736, 536, 800, 600);
    let b = compute_placement(800, 600, 736, 536, 800, 600);
    assert_eq!(a, b);
    let c = compute_placement(1000, 100, 500, 500, 800, 600);
    let d = compute_placement(1000, 100, 500, 500, 800, 600);
    assert_eq!(c, d);
}

#[test]
fn aspect_ratio_within_one_pixel() {
    // height pivot: the width is within one pixel of the exact
    // proportional width, i.e. (w - 1) * ch < cw * h < (w + 1) * ch
    let r = compute_placement(800, 600, 736, 536, 800, 600);
    let (w, h) = (r.width as i64, r.height as i64);
    assert!((w - 1) * 600 < 800 * h);
    assert!(800 * h < (w + 1) * 600);

    // width pivot: same check on the height
    let r = compute_placement(1000, 100, 500, 500, 800, 600);
    let (w, h) = (r.width as i64, r.height as i64);
    assert!((h - 1) * 1000 < 100 * w);
    assert!(100 * w < (h + 1) * 1000);
}

#[test]
fn pivot_axis_fills_bound() {
    assert_eq!(compute_placement(1000, 100, 500, 500, 800, 600).width, 500);
    assert_eq!(compute_placement(100, 1000, 500, 500, 800, 600).height, 500);
    assert_eq!(compute_placement(800, 600, 736, 536, 800, 600).height, 536);
}

#[test]
fn centered_within_one_pixel() {
    let cases = [
        compute_placement(100, 50, 736, 536, 800, 600),
        compute_placement(1000, 100, 500, 500, 800, 600),
        compute_placement(100, 1000, 500, 500, 800, 600),
        compute_placement(800, 600, 736, 536, 800, 600),
    ];
    for r in cases {
        let xmid = r.x as i64 + r.width as i64 / 2;
        let ymid = r.y as i64 + r.height as i64 / 2;
        assert!((xmid - 400).abs() <= 1);
        assert!((ymid - 300).abs() <= 1);
    }
}

#[test]
fn content_exactly_bounds_is_unscaled() {
    let r = compute_placement(736, 536, 736, 536, 800, 600);
    assert_eq!(
        r,
        PlacementRect { x: 32, y: 32, width: 736, height: 536 }
    );
}

#[test]
fn equal_ratios_take_height_pivot() {
    // both ratios are exactly 2: the tie goes to the height axis and the
    // width comes out of the rounding at exactly its bound
    let r = compute_placement(1000, 1000, 500, 500, 800, 600);
    assert_eq!(
        r,
        PlacementRect { x: 150, y: 50, width: 500, height: 500 }
    );
}

#[test]
fn one_pixel_content() {
    let r = compute_placement(1, 1, 736, 536, 800, 600);
    assert_eq!(
        r,
        PlacementRect { x: 399, y: 299, width: 1, height: 1 }
    );
}

#[test]
fn content_wider_than_screen_centers_negative() {
    // bounds larger than the screen: the content fits them unscaled, and
    // centering on the smaller screen pushes the corner off-screen
    let r = compute_placement(1500, 100, 2000, 2000, 800, 600);
    assert_eq!(
        r,
        PlacementRect { x: -350, y: 250, width: 1500, height: 100 }
    );
}
