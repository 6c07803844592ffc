//! Mapping between screen space and image space.
//!
//! Screen space is measured in display points, image space in pixels. The
//! display keeps the image's aspect ratio, so a single width-driven ratio
//! (`bounds.width / img_w`) scales both axes.
use vstd::prelude::*;

verus! {

/// A point in screen space.
#[derive(Clone, Copy, Debug, PartialEq, Eq, Structural)]
pub struct Point {
    pub x: i64,
    pub y: i64,
}

/// The screen rectangle in which the image is displayed.
#[derive(Clone, Copy, Debug, PartialEq, Eq, Structural)]
pub struct Bounds {
    pub x: i32,
    pub y: i32,
    pub width: u32,
    pub height: u32,
}

/// The image extent, in pixels, that a mapping projects onto the screen.
pub open spec fn mapping_ok(bounds: Bounds, img_w: u32, img_h: u32) -> bool {
    &&& bounds.width > 0
    &&& img_w > 0
    // the projected height of the image fits a screen dimension
    &&& img_h as int * bounds.width as int <= u32::MAX as int * img_w as int
}

/// `v` forced into `[0, hi]`.
pub open spec fn clamp_spec(v: int, hi: int) -> int {
    if v < 0 { 0 } else if v > hi { hi } else { v }
}

/// A screen offset `d` (from the display origin) converted to image pixels, unclamped.
pub open spec fn to_image_axis(d: int, bounds: Bounds, img_w: u32) -> int {
    d * img_w as int / bounds.width as int
}

/// An image coordinate `v` converted to a screen offset from the display origin:
/// the first whole screen offset at or past the pixel edge (rounded up).
pub open spec fn to_screen_axis(v: int, bounds: Bounds, img_w: u32) -> int {
    (v * bounds.width as int + img_w as int - 1) / img_w as int
}

/// The image point under screen point `p`, clamped into `[0, img_w] x [0, img_h]`.
pub open spec fn screen_to_image_spec(bounds: Bounds, img_w: u32, img_h: u32, p: Point) -> (int, int) {
    (
        clamp_spec(to_image_axis(p.x - bounds.x, bounds, img_w), img_w as int),
        clamp_spec(to_image_axis(p.y - bounds.y, bounds, img_w), img_h as int),
    )
}

/// The screen point onto which image point `(x, y)` is displayed.
pub open spec fn image_to_screen_spec(bounds: Bounds, img_w: u32, x: int, y: int) -> (int, int) {
    (bounds.x + to_screen_axis(x, bounds, img_w), bounds.y + to_screen_axis(y, bounds, img_w))
}

fn axis_to_image(d: i128, img_w: u32, bounds_w: u32, hi: u32) -> (r: u32)
    requires
        bounds_w > 0,
        -0x1_0000_0000_0000_0000 <= d <= 0x1_0000_0000_0000_0000,
    ensures
        r as int == clamp_spec(d * img_w as int / bounds_w as int, hi as int),
{
    if d < 0 {
        proof {
            assert(d * img_w as int <= 0) by (nonlinear_arith)
                requires d < 0;
            assert(d * img_w as int / bounds_w as int <= 0) by (nonlinear_arith)
                requires d * img_w as int <= 0, bounds_w > 0;
        }
        return 0;
    }
    assert(0 <= d * img_w as int <= 0x1_0000_0000_0000_0000 * 0x1_0000_0000) by (nonlinear_arith)
        requires 0 <= d <= 0x1_0000_0000_0000_0000, img_w <= 0xffff_ffff;
    let q: i128 = d * (img_w as i128) / (bounds_w as i128);
    if q > hi as i128 {
        hi
    } else {
        assert(q >= 0) by (nonlinear_arith)
            requires q == d * img_w as int / bounds_w as int, d >= 0, bounds_w > 0;
        q as u32
    }
}

/// Converts screen point `p` to image coordinates, clamping into the image.
pub fn screen_to_image(bounds: &Bounds, img_w: u32, img_h: u32, p: Point) -> (r: (u32, u32))
    requires
        mapping_ok(*bounds, img_w, img_h),
    ensures
        (r.0 as int, r.1 as int) == screen_to_image_spec(*bounds, img_w, img_h, p),
{
    let x = axis_to_image(p.x as i128 - bounds.x as i128, img_w, bounds.width, img_w);
    let y = axis_to_image(p.y as i128 - bounds.y as i128, img_w, bounds.width, img_h);
    (x, y)
}

/// Converts image point `(x, y)` to the screen point on which it is displayed.
pub fn image_to_screen(bounds: &Bounds, img_w: u32, img_h: u32, x: u32, y: u32) -> (r: Point)
    requires
        mapping_ok(*bounds, img_w, img_h),
        x <= img_w,
        y <= img_h,
    ensures
        (r.x as int, r.y as int) == image_to_screen_spec(*bounds, img_w, x as int, y as int),
        bounds.x <= r.x <= bounds.x + u32::MAX,
        bounds.y <= r.y <= bounds.y + u32::MAX,
{
    let bw = bounds.width as u64;
    let iw = img_w as u64;
    proof {
        assert(img_w as int * bounds.width as int <= u32::MAX as int * img_w as int) by (nonlinear_arith)
            requires bounds.width <= u32::MAX, img_w >= 0;
        lemma_screen_axis_bound(x as int, img_w as int, *bounds, img_w);
        lemma_screen_axis_bound(y as int, img_h as int, *bounds, img_w);
    }
    let sx = ((x as u64) * bw + iw - 1) / iw;
    let sy = ((y as u64) * bw + iw - 1) / iw;
    Point { x: bounds.x as i64 + sx as i64, y: bounds.y as i64 + sy as i64 }
}

proof fn lemma_screen_axis_bound(v: int, hi: int, bounds: Bounds, img_w: u32)
    requires
        img_w > 0,
        0 <= v <= hi,
        hi * bounds.width as int <= u32::MAX as int * img_w as int,
    ensures
        0 <= v * bounds.width as int <= 0xffff_ffff * 0xffff_ffff,
        v * bounds.width as int + img_w as int - 1 <= u64::MAX,
        0 <= to_screen_axis(v, bounds, img_w) <= u32::MAX,
{
    let bw = bounds.width as int;
    let iw = img_w as int;
    assert(0 <= v * bw <= hi * bw) by (nonlinear_arith)
        requires 0 <= v <= hi, bw >= 0;
    assert((v * bw + iw - 1) / iw <= u32::MAX) by (nonlinear_arith)
        requires v * bw <= u32::MAX as int * iw, iw > 0;
    assert((v * bw + iw - 1) / iw >= 0) by (nonlinear_arith)
        requires v * bw >= 0, iw > 0;
    assert(hi * bw <= 0xffff_ffff * 0xffff_ffff) by (nonlinear_arith)
        requires hi * bw <= u32::MAX as int * iw, iw <= 0xffff_ffff, hi >= 0, bw >= 0;
}

/// The projection onto the screen keeps the order of image coordinates.
pub proof fn lemma_screen_monotone(bounds: Bounds, img_w: u32, a: int, b: int)
    requires
        img_w > 0,
        a <= b,
    ensures
        to_screen_axis(a, bounds, img_w) <= to_screen_axis(b, bounds, img_w),
{
    let bw = bounds.width as int;
    let iw = img_w as int;
    assert(a * bw <= b * bw) by (nonlinear_arith)
        requires a <= b, bw >= 0;
    assert((a * bw + iw - 1) / iw <= (b * bw + iw - 1) / iw) by (nonlinear_arith)
        requires a * bw <= b * bw, iw > 0;
}

/// Projecting an image point onto the screen and back gives it again, up to the
/// rounding of integer display points: the result is never less than the point,
/// and lies less than one screen point (`img_w / bounds.width` pixels) past it.
/// Where the display is at least as wide as the image, the result is exact.
pub proof fn lemma_round_trip(bounds: Bounds, img_w: u32, img_h: u32, x: int, y: int)
    requires
        mapping_ok(bounds, img_w, img_h),
        0 <= x <= img_w,
        0 <= y <= img_h,
    ensures
        ({
            let s = image_to_screen_spec(bounds, img_w, x, y);
            let r = screen_to_image_spec(bounds, img_w, img_h, Point { x: s.0 as i64, y: s.1 as i64 });
            &&& x <= r.0 && (r.0 - x) * bounds.width < img_w
            &&& y <= r.1 && (r.1 - y) * bounds.width < img_w
            &&& bounds.width >= img_w ==> r == (x, y)
        }),
{
    assert(img_w as int * bounds.width as int <= u32::MAX as int * img_w as int) by (nonlinear_arith)
        requires bounds.width <= u32::MAX, img_w >= 0;
    lemma_screen_axis_bound(x, img_w as int, bounds, img_w);
    lemma_screen_axis_bound(y, img_h as int, bounds, img_w);
    lemma_axis_round_trip(x, img_w as int, bounds, img_w);
    lemma_axis_round_trip(y, img_h as int, bounds, img_w);
}

proof fn lemma_axis_round_trip(v: int, hi: int, bounds: Bounds, img_w: u32)
    requires
        bounds.width > 0,
        img_w > 0,
        0 <= v <= hi,
    ensures
        ({
            let r = clamp_spec(to_image_axis(to_screen_axis(v, bounds, img_w), bounds, img_w), hi);
            &&& v <= r && (r - v) * bounds.width < img_w
            &&& bounds.width >= img_w ==> r == v
        }),
{
    let bw = bounds.width as int;
    let iw = img_w as int;
    let d = (v * bw + iw - 1) / iw;
    assert(d * iw >= v * bw && d * iw < v * bw + iw) by (nonlinear_arith)
        requires d == (v * bw + iw - 1) / iw, iw > 0;
    let q = d * iw / bw;
    assert(q * bw <= d * iw && q * bw > d * iw - bw) by (nonlinear_arith)
        requires q == d * iw / bw, bw > 0;
    assert(v <= q) by (nonlinear_arith)
        requires q * bw > d * iw - bw, d * iw >= v * bw, bw > 0;
    assert((q - v) * bw < iw) by (nonlinear_arith)
        requires q * bw <= d * iw, d * iw < v * bw + iw;
    assert(d >= 0);
    let r = clamp_spec(q, hi);
    assert((r - v) * bw <= (q - v) * bw) by (nonlinear_arith)
        requires v <= r <= q, bw > 0;
    if bw >= iw {
        assert(q - v < 1) by (nonlinear_arith)
            requires (q - v) * bw < iw, bw >= iw, iw > 0;
    }
}

} // verus!
