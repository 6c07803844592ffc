//! Zoom level and pan offset of the image view. Zoom factors are held in
//! thousandths: 1000 is 100%.
use vstd::prelude::*;

verus! {

/// One whole zoom factor, in thousandths.
pub const ZOOM_UNIT: u32 = 1000;

/// The zoom level, its limits and the pan offset of the view.
#[derive(Clone, Copy, Debug)]
pub struct ZoomableContainer {
    pub zoom: u32,
    pub min_zoom: u32,
    pub max_zoom: u32,
    pub offset: (i64, i64),
}

/// `v` forced into `[lo, hi]`.
pub open spec fn clamp_zoom(v: int, lo: int, hi: int) -> int {
    if v < lo { lo } else if v > hi { hi } else { v }
}

/// `a + b`, held at the ends of the `i64` range.
pub open spec fn saturating_sum(a: int, b: int) -> int {
    if a + b < i64::MIN { i64::MIN as int } else if a + b > i64::MAX { i64::MAX as int } else { a + b }
}

fn clamp_exec(v: u64, lo: u32, hi: u32) -> (r: u32)
    requires
        lo <= hi,
    ensures
        r as int == clamp_zoom(v as int, lo as int, hi as int),
{
    if v < lo as u64 {
        lo
    } else if v > hi as u64 {
        hi
    } else {
        v as u32
    }
}

fn saturating_add_exec(a: i64, b: i64) -> (r: i64)
    ensures
        r as int == saturating_sum(a as int, b as int),
{
    let s: i128 = a as i128 + b as i128;
    if s < i64::MIN as i128 {
        i64::MIN
    } else if s > i64::MAX as i128 {
        i64::MAX
    } else {
        s as i64
    }
}

impl ZoomableContainer {
    pub open spec fn wf(self) -> bool {
        self.min_zoom <= self.max_zoom
    }

    /// 100% zoom, limited to between 10% and 1000%, and no offset.
    pub fn new() -> (r: Self)
        ensures
            r.wf(),
            r.zoom == ZOOM_UNIT,
            r.min_zoom == 100,
            r.max_zoom == 10 * ZOOM_UNIT,
            r.offset == (0i64, 0i64),
    {
        ZoomableContainer { zoom: ZOOM_UNIT, min_zoom: 100, max_zoom: 10 * ZOOM_UNIT, offset: (0, 0) }
    }

    /// The same view at `zoom`, held within the limits.
    pub fn with_zoom(self, zoom: u32) -> (r: Self)
        requires
            self.wf(),
        ensures
            r == (Self { zoom: clamp_zoom(zoom as int, self.min_zoom as int, self.max_zoom as int) as u32, ..self }),
    {
        let mut r = self;
        r.zoom = clamp_exec(zoom as u64, self.min_zoom, self.max_zoom);
        r
    }

    /// Multiplies the zoom by `factor` (in thousandths, rounded down), held
    /// within the limits.
    pub fn zoom_in(&mut self, factor: u32)
        requires
            old(self).wf(),
        ensures
            *final(self) == (Self {
                zoom: clamp_zoom(
                    old(self).zoom * factor / ZOOM_UNIT as int,
                    old(self).min_zoom as int,
                    old(self).max_zoom as int,
                ) as u32,
                ..*old(self)
            }),
    {
        let (a, b) = (self.zoom as u64, factor as u64);
        assert(a * b <= 0xffff_ffff * 0xffff_ffff) by (nonlinear_arith)
            requires a <= 0xffff_ffff, b <= 0xffff_ffff;
        let z = a * b / ZOOM_UNIT as u64;
        self.zoom = clamp_exec(z, self.min_zoom, self.max_zoom);
    }

    /// Multiplies the zoom by `factor` (in thousandths, below one to zoom out),
    /// held within the limits.
    pub fn zoom_out(&mut self, factor: u32)
        requires
            old(self).wf(),
        ensures
            *final(self) == (Self {
                zoom: clamp_zoom(
                    old(self).zoom * factor / ZOOM_UNIT as int,
                    old(self).min_zoom as int,
                    old(self).max_zoom as int,
                ) as u32,
                ..*old(self)
            }),
    {
        self.zoom_in(factor);
    }

    /// Back to 100% with no offset; the limits stay.
    pub fn reset(&mut self)
        ensures
            *final(self) == (Self { zoom: ZOOM_UNIT, offset: (0i64, 0i64), ..*old(self) }),
    {
        self.zoom = ZOOM_UNIT;
        self.offset = (0, 0);
    }

    /// Moves the view by `(dx, dy)`.
    pub fn pan(&mut self, dx: i64, dy: i64)
        ensures
            final(self).offset.0 as int == saturating_sum(old(self).offset.0 as int, dx as int),
            final(self).offset.1 as int == saturating_sum(old(self).offset.1 as int, dy as int),
            final(self).zoom == old(self).zoom,
            final(self).min_zoom == old(self).min_zoom,
            final(self).max_zoom == old(self).max_zoom,
    {
        self.offset = (saturating_add_exec(self.offset.0, dx), saturating_add_exec(self.offset.1, dy));
    }
}

impl Default for ZoomableContainer {
    fn default() -> (r: Self)
        ensures
            r.wf(),
            r.zoom == ZOOM_UNIT,
            r.min_zoom == 100,
            r.max_zoom == 10 * ZOOM_UNIT,
            r.offset == (0i64, 0i64),
    {
        Self::new()
    }
}

} // verus!
