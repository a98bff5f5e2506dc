//! The fit-to-bounds placement calculator: scale an image down, if needed, so
//! that it fits a bounding region without distorting it, then center it on
//! the full screen.

use vstd::prelude::*;

verus! {

/// Largest dimension the calculator accepts. Placements are expressed in
/// `i32` display coordinates (as windowing libraries expect), so every
/// input dimension must itself fit in an `i32`.
pub const MAX_DIMENSION: u32 = 0x7fff_ffff;

/// A rectangle in display coordinates: the top-left corner and the size,
/// both in pixels. Purely derived data, never mutated after creation.
#[derive(Clone, Copy, Debug, PartialEq, Eq, Structural)]
pub struct PlacementRect {
    pub x: i32,
    pub y: i32,
    pub width: u32,
    pub height: u32,
}

/// The content already fits: both real-valued ratios `content / bounds`
/// are at most one.
pub open spec fn fits_unscaled(cw: int, ch: int, bw: int, bh: int) -> bool {
    cw <= bw && ch <= bh
}

/// The width ratio `cw / bw` strictly exceeds the height ratio `ch / bh`,
/// compared exactly by cross-multiplication.
pub open spec fn width_is_pivot(cw: int, ch: int, bw: int, bh: int) -> bool {
    cw * bh > ch * bw
}

/// `a / b` rounded to the nearest integer, halves rounding up
/// (meaningful for `a >= 0` and `b > 0`).
pub open spec fn round_div(a: int, b: int) -> int {
    (a + b / 2) / b
}

/// Width of the content after fitting it to the bounds.
pub open spec fn fitted_width(cw: int, ch: int, bw: int, bh: int) -> int {
    if fits_unscaled(cw, ch, bw, bh) {
        cw
    } else if width_is_pivot(cw, ch, bw, bh) {
        bw
    } else {
        round_div(cw * bh, ch)
    }
}

/// Height of the content after fitting it to the bounds.
pub open spec fn fitted_height(cw: int, ch: int, bw: int, bh: int) -> int {
    if fits_unscaled(cw, ch, bw, bh) {
        ch
    } else if width_is_pivot(cw, ch, bw, bh) {
        round_div(ch * bw, cw)
    } else {
        bh
    }
}

/// Half of `d`, rounded toward zero: what `d / 2` computes on machine
/// integers, for either sign of `d`.
pub open spec fn half_toward_zero(d: int) -> int {
    if d >= 0 {
        d / 2
    } else {
        -((-d) / 2)
    }
}

/// The offset that centers a span of length `len` inside a span of length
/// `outer`; negative when `len` exceeds `outer`.
pub open spec fn centering_offset(outer: int, len: int) -> int {
    half_toward_zero(outer - len)
}

/// The product of two dimensions, each at most `MAX_DIMENSION`, fits
/// comfortably in a `u64`.
proof fn lemma_dim_product_bound(x: int, y: int)
    by (nonlinear_arith)
    requires
        0 <= x <= 0x7fff_ffff,
        0 <= y <= 0x7fff_ffff,
    ensures
        x * y <= 0x3fff_ffff_0000_0001,
{
}

/// When the exact scaled length `n / b` stays within the bound `q`,
/// rounding it to the nearest integer cannot exceed `q`.
proof fn lemma_scaled_below_bound(n: int, b: int, q: int)
    by (nonlinear_arith)
    requires
        0 < b,
        0 <= n,
        n <= b * q,
    ensures
        0 <= (n + b / 2) / b <= q,
{
}

/// Fit the content size to the bounds (scaling down uniformly if either
/// dimension overflows, the more constraining axis as the pivot), then
/// center the result on the full screen. The screen dimensions enter the
/// centering alone, so a caller can reserve a margin purely by passing
/// smaller bounds. Undefined for non-positive sizes, which the caller
/// rules out.
pub fn compute_placement(
    content_width: u32,
    content_height: u32,
    bounds_width: u32,
    bounds_height: u32,
    screen_width: u32,
    screen_height: u32,
) -> (r: PlacementRect)
    requires
        0 < content_width <= MAX_DIMENSION,
        0 < content_height <= MAX_DIMENSION,
        0 < bounds_width <= MAX_DIMENSION,
        0 < bounds_height <= MAX_DIMENSION,
        0 < screen_width <= MAX_DIMENSION,
        0 < screen_height <= MAX_DIMENSION,
    ensures
        r.width == fitted_width(
            content_width as int,
            content_height as int,
            bounds_width as int,
            bounds_height as int,
        ),
        r.height == fitted_height(
            content_width as int,
            content_height as int,
            bounds_width as int,
            bounds_height as int,
        ),
        r.x == centering_offset(screen_width as int, r.width as int),
        r.y == centering_offset(screen_height as int, r.height as int),
        r.width <= MAX_DIMENSION,
        r.height <= MAX_DIMENSION,
{
    proof {
        lemma_dim_product_bound(content_height as int, bounds_width as int);
        lemma_dim_product_bound(content_width as int, bounds_height as int);
    }
    let cw: u64 = content_width as u64;
    let ch: u64 = content_height as u64;
    let bw: u64 = bounds_width as u64;
    let bh: u64 = bounds_height as u64;

    let (w, h): (u32, u32) = if content_width <= bounds_width && content_height <= bounds_height {
        (content_width, content_height)
    } else if cw * bh > ch * bw {
        // width is the more constraining axis: it fills its bound and the
        // height shrinks in proportion, rounded to the nearest pixel
        let scaled: u64 = (ch * bw + cw / 2) / cw;
        proof {
            lemma_scaled_below_bound(
                content_height as int * bounds_width as int,
                content_width as int,
                bounds_height as int,
            );
        }
        (bounds_width, scaled as u32)
    } else {
        // height is the more constraining axis
        let scaled: u64 = (cw * bh + ch / 2) / ch;
        proof {
            lemma_scaled_below_bound(
                content_width as int * bounds_height as int,
                content_height as int,
                bounds_width as int,
            );
        }
        (scaled as u32, bounds_height)
    };

    let x: i32 = if screen_width >= w {
        ((screen_width - w) / 2) as i32
    } else {
        -(((w - screen_width) / 2) as i32)
    };
    let y: i32 = if screen_height >= h {
        ((screen_height - h) / 2) as i32
    } else {
        -(((h - screen_height) / 2) as i32)
    };
    PlacementRect { x, y, width: w, height: h }
}

/// Unscaled fit: content that already fits inside the bounds is returned
/// at its own size.
pub proof fn lemma_unscaled_fit(cw: int, ch: int, bw: int, bh: int)
    requires
        0 < cw,
        0 < ch,
        0 < bw,
        0 < bh,
        cw <= bw,
        ch <= bh,
    ensures
        fitted_width(cw, ch, bw, bh) == cw,
        fitted_height(cw, ch, bw, bh) == ch,
{
}

/// Pivot fills its bound: for overflowing content, the axis with the
/// larger ratio exactly fills its bound while the other axis stays within
/// its bound.
pub proof fn lemma_pivot_fills_bound(cw: int, ch: int, bw: int, bh: int)
    requires
        0 < cw,
        0 < ch,
        0 < bw,
        0 < bh,
        !fits_unscaled(cw, ch, bw, bh),
    ensures
        width_is_pivot(cw, ch, bw, bh) ==> fitted_width(cw, ch, bw, bh) == bw
            && fitted_height(cw, ch, bw, bh) <= bh,
        !width_is_pivot(cw, ch, bw, bh) ==> fitted_height(cw, ch, bw, bh) == bh
            && fitted_width(cw, ch, bw, bh) <= bw,
{
    if width_is_pivot(cw, ch, bw, bh) {
        lemma_scaled_below_bound(ch * bw, cw, bh);
    } else {
        lemma_scaled_below_bound(cw * bh, ch, bw);
    }
}

/// The rounded quotient differs from the exact quotient by less than one:
/// `(n + b/2) / b` lies strictly within one of the rational `n / b`.
proof fn lemma_round_div_close(n: int, b: int)
    by (nonlinear_arith)
    requires
        0 < b,
        0 <= n,
    ensures
        ((n + b / 2) / b - 1) * b < n,
        n < ((n + b / 2) / b + 1) * b,
{
}

/// Aspect preservation: for overflowing content the fitted size keeps the
/// content's width/height ratio to within one pixel of rounding on the
/// scaled axis. On the pivot axis the fit is exact, and the scaled axis
/// differs from the exact proportional length by less than one: cross
/// products with the content size agree that closely.
pub proof fn lemma_aspect_preserved(cw: int, ch: int, bw: int, bh: int)
    requires
        0 < cw,
        0 < ch,
        0 < bw,
        0 < bh,
        !fits_unscaled(cw, ch, bw, bh),
    ensures
        width_is_pivot(cw, ch, bw, bh) ==> ({
            let w = fitted_width(cw, ch, bw, bh);
            let h = fitted_height(cw, ch, bw, bh);
            (h - 1) * cw < ch * w < (h + 1) * cw
        }),
        !width_is_pivot(cw, ch, bw, bh) ==> ({
            let w = fitted_width(cw, ch, bw, bh);
            let h = fitted_height(cw, ch, bw, bh);
            (w - 1) * ch < cw * h < (w + 1) * ch
        }),
{
    if width_is_pivot(cw, ch, bw, bh) {
        lemma_round_div_close(ch * bw, cw);
    } else {
        lemma_round_div_close(cw * bh, ch);
    }
}

/// For a span no longer than the enclosing one, the centering offset puts
/// the span's midpoint within one pixel below the enclosing midpoint.
proof fn lemma_center_sum_low(o: int, l: int)
    by (nonlinear_arith)
    requires
        0 <= o - l,
    ensures
        -1 <= (o - l) / 2 + l / 2 - o / 2 <= 0,
{
}

/// For a span longer than the enclosing one, the centering offset puts
/// the span's midpoint within one pixel above the enclosing midpoint.
proof fn lemma_center_sum_high(o: int, l: int)
    by (nonlinear_arith)
    requires
        o - l < 0,
    ensures
        0 <= -((l - o) / 2) + l / 2 - o / 2 <= 1,
{
}

/// Centering: a span placed at the centering offset has its integer
/// midpoint `offset + len / 2` within one pixel of the enclosing span's
/// midpoint `outer / 2`.
pub proof fn lemma_centered(outer: int, len: int)
    requires
        0 < outer,
        0 <= len,
    ensures
        -1 <= centering_offset(outer, len) + len / 2 - outer / 2 <= 1,
{
    if outer - len >= 0 {
        lemma_center_sum_low(outer, len);
    } else {
        lemma_center_sum_high(outer, len);
    }
}

/// Idempotence: the placement contract pins the rectangle completely, so
/// any two results that satisfy it for the same inputs are identical.
pub proof fn lemma_placement_deterministic(
    r1: PlacementRect,
    r2: PlacementRect,
    cw: int,
    ch: int,
    bw: int,
    bh: int,
    sw: int,
    sh: int,
)
    requires
        r1.width == fitted_width(cw, ch, bw, bh),
        r1.height == fitted_height(cw, ch, bw, bh),
        r1.x == centering_offset(sw, r1.width as int),
        r1.y == centering_offset(sh, r1.height as int),
        r2.width == fitted_width(cw, ch, bw, bh),
        r2.height == fitted_height(cw, ch, bw, bh),
        r2.x == centering_offset(sw, r2.width as int),
        r2.y == centering_offset(sh, r2.height as int),
    ensures
        r1 == r2,
{
}

} // verus!
