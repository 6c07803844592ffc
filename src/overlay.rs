//! The crop overlay over a displayed image: hit-testing of the selection's
//! handles, pointer events, cursor shapes and the quads that draw it.
use vstd::prelude::*;
use crate::geometry::{
    Bounds, Point, mapping_ok, screen_to_image_spec, image_to_screen_spec,
};
use crate::selection::{CropSelection, DragHandle, DragState, Rect};

verus! {

/// Half the side of the square around a handle that a press can hit, in
/// screen points, whatever the zoom; larger than the drawn handle.
pub const HANDLE_HIT_HALF: i64 = 14;

/// Side of a drawn handle square, in screen points.
pub const HANDLE_SIZE: i64 = 14;

/// Thickness of the selection border, in screen points.
pub const BORDER_WIDTH: i64 = 2;

/// Draws the crop selection UI over an image of `img_width` by `img_height` pixels.
#[derive(Clone, Copy, Debug, PartialEq, Eq, Structural)]
pub struct CropOverlay {
    pub img_width: u32,
    pub img_height: u32,
    pub selection: CropSelection,
}

/// A pointer event as delivered by the host, with the cursor position where known.
#[derive(Clone, Copy, Debug, PartialEq, Eq, Structural)]
pub enum PointerEvent {
    ButtonPressed { position: Option<Point> },
    CursorMoved { position: Option<Point> },
    ButtonReleased,
    Other,
}

/// What the overlay asks its host to do with the selection, in image coordinates.
#[derive(Clone, Copy, Debug, PartialEq, Eq, Structural)]
pub enum CropMessage {
    DragStart { x: u32, y: u32, handle: DragHandle },
    DragMove { x: u32, y: u32 },
    DragEnd,
}

/// The pointer shape to show.
#[derive(Clone, Copy, Debug, PartialEq, Eq, Structural)]
pub enum CursorStyle {
    Idle,
    Crosshair,
    ResizingDiagonallyDown,
    ResizingDiagonallyUp,
    ResizingVertically,
    ResizingHorizontally,
    Grabbing,
}

/// `p` lies in the half-open screen rectangle `bounds`.
pub open spec fn bounds_contain(bounds: Bounds, p: Point) -> bool {
    &&& bounds.x <= p.x < bounds.x + bounds.width
    &&& bounds.y <= p.y < bounds.y + bounds.height
}

/// `p` lies in the hit square centred on `(cx, cy)`.
pub open spec fn in_hit_zone(p: Point, cx: int, cy: int) -> bool {
    &&& cx - HANDLE_HIT_HALF <= p.x <= cx + HANDLE_HIT_HALF
    &&& cy - HANDLE_HIT_HALF <= p.y <= cy + HANDLE_HIT_HALF
}

/// `p` lies in the hit square centred on `(cx2 / 2, cy2 / 2)`; the centre is
/// given doubled so that it can fall halfway between two screen points.
pub open spec fn in_hit_zone2(p: Point, cx2: int, cy2: int) -> bool {
    &&& cx2 - 2 * HANDLE_HIT_HALF <= 2 * p.x <= cx2 + 2 * HANDLE_HIT_HALF
    &&& cy2 - 2 * HANDLE_HIT_HALF <= 2 * p.y <= cy2 + 2 * HANDLE_HIT_HALF
}

/// The doubled screen point on which `handle` of rectangle `r` sits: corners
/// on the projected corners, edge handles exactly halfway along the projected
/// edges.
pub open spec fn handle_center2(bounds: Bounds, img_w: u32, r: Rect, handle: DragHandle) -> (int, int) {
    let tl = image_to_screen_spec(bounds, img_w, r.x as int, r.y as int);
    let br = image_to_screen_spec(bounds, img_w, r.x + r.width, r.y + r.height);
    let (l, t, rt, b) = (tl.0, tl.1, br.0, br.1);
    match handle {
        DragHandle::TopLeft => (2 * l, 2 * t),
        DragHandle::TopRight => (2 * rt, 2 * t),
        DragHandle::BottomLeft => (2 * l, 2 * b),
        DragHandle::BottomRight => (2 * rt, 2 * b),
        DragHandle::Top => (l + rt, 2 * t),
        DragHandle::Bottom => (l + rt, 2 * b),
        DragHandle::Left => (2 * l, t + b),
        DragHandle::Right => (2 * rt, t + b),
        _ => (2 * l, 2 * t),
    }
}

/// `p` is in the hit zone of `handle` of rectangle `r`, displayed in `bounds`.
pub open spec fn hits(bounds: Bounds, img_w: u32, r: Rect, handle: DragHandle, p: Point) -> bool {
    let c2 = handle_center2(bounds, img_w, r, handle);
    in_hit_zone2(p, c2.0, c2.1)
}

/// `p` lies in the screen projection of `r` (half-open).
pub open spec fn inside_selection(bounds: Bounds, img_w: u32, r: Rect, p: Point) -> bool {
    let tl = image_to_screen_spec(bounds, img_w, r.x as int, r.y as int);
    let br = image_to_screen_spec(bounds, img_w, r.x + r.width, r.y + r.height);
    tl.0 <= p.x < br.0 && tl.1 <= p.y < br.1
}

/// The zone that `p` lands on: corners first, then edge midpoints, then the
/// inside of the selection, in that order.
pub open spec fn hit_spec(bounds: Bounds, img_w: u32, region: Option<Rect>, p: Point) -> DragHandle {
    match region {
        None => DragHandle::NoHandle,
        Some(r) => {
            if hits(bounds, img_w, r, DragHandle::TopLeft, p) {
                DragHandle::TopLeft
            } else if hits(bounds, img_w, r, DragHandle::TopRight, p) {
                DragHandle::TopRight
            } else if hits(bounds, img_w, r, DragHandle::BottomLeft, p) {
                DragHandle::BottomLeft
            } else if hits(bounds, img_w, r, DragHandle::BottomRight, p) {
                DragHandle::BottomRight
            } else if hits(bounds, img_w, r, DragHandle::Top, p) {
                DragHandle::Top
            } else if hits(bounds, img_w, r, DragHandle::Bottom, p) {
                DragHandle::Bottom
            } else if hits(bounds, img_w, r, DragHandle::Left, p) {
                DragHandle::Left
            } else if hits(bounds, img_w, r, DragHandle::Right, p) {
                DragHandle::Right
            } else if inside_selection(bounds, img_w, r, p) {
                DragHandle::Move
            } else {
                DragHandle::NoHandle
            }
        },
    }
}

/// Which part of the overlay a quad draws.
#[derive(Clone, Copy, Debug, PartialEq, Eq, Structural)]
pub enum QuadKind {
    /// The dimmed area outside the selection.
    Shade,
    /// The selection's border.
    Border,
    /// A resize handle.
    Handle,
}

/// A filled screen rectangle.
#[derive(Clone, Copy, Debug, PartialEq, Eq, Structural)]
pub struct Quad {
    pub x: i64,
    pub y: i64,
    pub width: i64,
    pub height: i64,
    pub kind: QuadKind,
}

/// The quad with the given integer extent.
pub open spec fn quad(x: int, y: int, width: int, height: int, kind: QuadKind) -> Quad {
    Quad { x: x as i64, y: y as i64, width: width as i64, height: height as i64, kind }
}

/// `q` alone where `c` holds, else nothing.
pub open spec fn quad_if(c: bool, q: Quad) -> Seq<Quad> {
    if c { seq![q] } else { seq![] }
}

/// The drawn handle square centred on `(cx, cy)`.
pub open spec fn handle_quad(cx: int, cy: int) -> Quad {
    quad(cx - HANDLE_SIZE / 2, cy - HANDLE_SIZE / 2, HANDLE_SIZE as int, HANDLE_SIZE as int, QuadKind::Handle)
}

/// The shading around a selection whose screen projection runs from
/// `(sx, sy)` to `(ex, ey)` inside `bounds`: above, below, left and right of
/// it, each only where there is room.
pub open spec fn shade_quads(bounds: Bounds, sx: int, sy: int, ex: int, ey: int) -> Seq<Quad> {
    let h = ey - sy;
    let (right, bottom) = (bounds.x + bounds.width, bounds.y + bounds.height);
    quad_if(bounds.y < sy, quad(bounds.x as int, bounds.y as int, bounds.width as int, sy - bounds.y, QuadKind::Shade))
        + quad_if(ey < bottom, quad(bounds.x as int, ey, bounds.width as int, bottom - ey, QuadKind::Shade))
        + quad_if(bounds.x < sx, quad(bounds.x as int, sy, sx - bounds.x, h, QuadKind::Shade))
        + quad_if(ex < right, quad(ex, sy, right - ex, h, QuadKind::Shade))
}

/// The four borders of that selection, then its eight handles.
pub open spec fn frame_quads(sx: int, sy: int, ex: int, ey: int) -> Seq<Quad> {
    let (w, h) = (ex - sx, ey - sy);
    seq![
        quad(sx, sy, w, BORDER_WIDTH as int, QuadKind::Border),
        quad(sx, ey - BORDER_WIDTH, w, BORDER_WIDTH as int, QuadKind::Border),
        quad(sx, sy, BORDER_WIDTH as int, h, QuadKind::Border),
        quad(ex - BORDER_WIDTH, sy, BORDER_WIDTH as int, h, QuadKind::Border),
        handle_quad(sx, sy),
        handle_quad(ex, sy),
        handle_quad(sx, ey),
        handle_quad(ex, ey),
        handle_quad(sx + w / 2, sy),
        handle_quad(sx + w / 2, ey),
        handle_quad(sx, sy + h / 2),
        handle_quad(ex, sy + h / 2),
    ]
}

fn handle_at(cx: i64, cy: i64) -> (q: Quad)
    requires
        i32::MIN <= cx <= 0x2_0000_0000,
        i32::MIN <= cy <= 0x2_0000_0000,
    ensures
        q == handle_quad(cx as int, cy as int),
{
    Quad { x: cx - HANDLE_SIZE / 2, y: cy - HANDLE_SIZE / 2, width: HANDLE_SIZE, height: HANDLE_SIZE, kind: QuadKind::Handle }
}

fn shade_quads_exec(bounds: &Bounds, sx: i64, sy: i64, ex: i64, ey: i64) -> (out: Vec<Quad>)
    requires
        bounds.x <= sx <= ex <= bounds.x + u32::MAX,
        bounds.y <= sy <= ey <= bounds.y + u32::MAX,
    ensures
        out@ == shade_quads(*bounds, sx as int, sy as int, ex as int, ey as int),
{
    let mut out: Vec<Quad> = Vec::new();
    let (bx, by, bw, bh) = (bounds.x as i64, bounds.y as i64, bounds.width as i64, bounds.height as i64);
    let h = ey - sy;
    let (right, bottom) = (bx + bw, by + bh);
    let ghost q1 = quad_if(by < sy, quad(bx as int, by as int, bw as int, sy - by, QuadKind::Shade));
    let ghost q2 = quad_if(ey < bottom, quad(bx as int, ey as int, bw as int, bottom - ey, QuadKind::Shade));
    let ghost q3 = quad_if(bx < sx, quad(bx as int, sy as int, sx - bx, h as int, QuadKind::Shade));
    let ghost q4 = quad_if(ex < right, quad(ex as int, sy as int, right - ex, h as int, QuadKind::Shade));
    if by < sy {
        out.push(Quad { x: bx, y: by, width: bw, height: sy - by, kind: QuadKind::Shade });
    }
    assert(out@ =~= q1);
    if ey < bottom {
        out.push(Quad { x: bx, y: ey, width: bw, height: bottom - ey, kind: QuadKind::Shade });
    }
    assert(out@ =~= q1 + q2);
    if bx < sx {
        out.push(Quad { x: bx, y: sy, width: sx - bx, height: h, kind: QuadKind::Shade });
    }
    assert(out@ =~= q1 + q2 + q3);
    if ex < right {
        out.push(Quad { x: ex, y: sy, width: right - ex, height: h, kind: QuadKind::Shade });
    }
    assert(out@ =~= q1 + q2 + q3 + q4);
    out
}

fn frame_quads_exec(sx: i64, sy: i64, ex: i64, ey: i64) -> (out: Vec<Quad>)
    requires
        i32::MIN <= sx <= ex <= 0x1_8000_0000,
        i32::MIN <= sy <= ey <= 0x1_8000_0000,
    ensures
        out@ == frame_quads(sx as int, sy as int, ex as int, ey as int),
{
    let (w, h) = (ex - sx, ey - sy);
    let (mx, my) = (sx + w / 2, sy + h / 2);
    let (bottom_edge, right_edge) = (ey - BORDER_WIDTH, ex - BORDER_WIDTH);
    let out = vec![
        Quad { x: sx, y: sy, width: w, height: BORDER_WIDTH, kind: QuadKind::Border },
        Quad { x: sx, y: bottom_edge, width: w, height: BORDER_WIDTH, kind: QuadKind::Border },
        Quad { x: sx, y: sy, width: BORDER_WIDTH, height: h, kind: QuadKind::Border },
        Quad { x: right_edge, y: sy, width: BORDER_WIDTH, height: h, kind: QuadKind::Border },
        handle_at(sx, sy),
        handle_at(ex, sy),
        handle_at(sx, ey),
        handle_at(ex, ey),
        handle_at(mx, sy),
        handle_at(mx, ey),
        handle_at(sx, my),
        handle_at(ex, my),
    ];
    assert(out@ =~= frame_quads(sx as int, sy as int, ex as int, ey as int));
    out
}

/// What the overlay draws: with a non-empty selection, the shading and the frame
/// of its screen projection; otherwise a single shade over the whole display.
pub open spec fn overlay_quads(bounds: Bounds, img_w: u32, region: Option<Rect>) -> Seq<Quad> {
    match region {
        Some(r) if r.width > 0 && r.height > 0 => {
            let s = image_to_screen_spec(bounds, img_w, r.x as int, r.y as int);
            let e = image_to_screen_spec(bounds, img_w, r.x + r.width, r.y + r.height);
            shade_quads(bounds, s.0, s.1, e.0, e.1) + frame_quads(s.0, s.1, e.0, e.1)
        },
        _ => seq![quad(bounds.x as int, bounds.y as int, bounds.width as int, bounds.height as int, QuadKind::Shade)],
    }
}

/// The message that `event` produces, if any: a press on a handle or move zone,
/// or anywhere inside the display, starts a drag on the zone it lands on; while dragging, a move with a known
/// position moves the drag and a release ends it.
pub open spec fn event_spec(o: CropOverlay, bounds: Bounds, event: PointerEvent) -> Option<CropMessage> {
    match event {
        PointerEvent::ButtonPressed { position: Some(p) } if bounds_contain(bounds, p) || !(hit_spec(
            bounds,
            o.img_width,
            o.selection.region,
            p,
        ) is NoHandle) => {
            let q = screen_to_image_spec(bounds, o.img_width, o.img_height, p);
            Some(CropMessage::DragStart {
                x: q.0 as u32,
                y: q.1 as u32,
                handle: hit_spec(bounds, o.img_width, o.selection.region, p),
            })
        },
        PointerEvent::CursorMoved { position: Some(p) } if o.selection.is_dragging_spec() => {
            let q = screen_to_image_spec(bounds, o.img_width, o.img_height, p);
            Some(CropMessage::DragMove { x: q.0 as u32, y: q.1 as u32 })
        },
        PointerEvent::ButtonReleased if o.selection.is_dragging_spec() => Some(CropMessage::DragEnd),
        _ => None,
    }
}

/// The cursor shape: that of the dragged handle during a drag; over the display,
/// over the display, that of the zone under the pointer (a crosshair where none
/// is hit); else idle.
pub open spec fn interaction_spec(o: CropOverlay, bounds: Bounds, cursor: Option<Point>) -> CursorStyle {
    if o.selection.is_dragging_spec() {
        cursor_spec(drag_handle_of(o.selection))
    } else {
        match cursor {
            Some(p) if bounds_contain(bounds, p) => cursor_spec(hit_spec(bounds, o.img_width, o.selection.region, p)),
            _ => CursorStyle::Idle,
        }
    }
}

/// The cursor for a handle.
pub open spec fn cursor_spec(handle: DragHandle) -> CursorStyle {
    match handle {
        DragHandle::NoHandle => CursorStyle::Crosshair,
        DragHandle::TopLeft | DragHandle::BottomRight => CursorStyle::ResizingDiagonallyDown,
        DragHandle::TopRight | DragHandle::BottomLeft => CursorStyle::ResizingDiagonallyUp,
        DragHandle::Top | DragHandle::Bottom => CursorStyle::ResizingVertically,
        DragHandle::Left | DragHandle::Right => CursorStyle::ResizingHorizontally,
        DragHandle::Move => CursorStyle::Grabbing,
    }
}

/// The handle dragged by `s`, or `NoHandle` when idle.
pub open spec fn drag_handle_of(s: CropSelection) -> DragHandle {
    match s.drag {
        DragState::Active { handle, .. } => handle,
        DragState::Idle => DragHandle::NoHandle,
    }
}

/// A point outside the selection and outside the hit zone of each of its eight
/// handles hits nothing; with no selection, no point hits anything.
pub proof fn lemma_miss_is_none(bounds: Bounds, img_w: u32, region: Option<Rect>, p: Point)
    requires
        region matches Some(r) ==> {
            &&& !inside_selection(bounds, img_w, r, p)
            &&& !hits(bounds, img_w, r, DragHandle::TopLeft, p)
            &&& !hits(bounds, img_w, r, DragHandle::TopRight, p)
            &&& !hits(bounds, img_w, r, DragHandle::BottomLeft, p)
            &&& !hits(bounds, img_w, r, DragHandle::BottomRight, p)
            &&& !hits(bounds, img_w, r, DragHandle::Top, p)
            &&& !hits(bounds, img_w, r, DragHandle::Bottom, p)
            &&& !hits(bounds, img_w, r, DragHandle::Left, p)
            &&& !hits(bounds, img_w, r, DragHandle::Right, p)
        },
    ensures
        hit_spec(bounds, img_w, region, p) is NoHandle,
{
}

/// A point in a corner's hit zone that also lies inside the selection is
/// reported as a corner, never as a move.
pub proof fn lemma_corner_beats_move(bounds: Bounds, img_w: u32, r: Rect, corner: DragHandle, p: Point)
    requires
        corner.is_corner(),
        hits(bounds, img_w, r, corner, p),
        inside_selection(bounds, img_w, r, p),
    ensures
        hit_spec(bounds, img_w, Some(r), p).is_corner(),
        !(hit_spec(bounds, img_w, Some(r), p) is Move),
{
}

fn in_zone_doubled(p: Point, cx2: i64, cy2: i64) -> (r: bool)
    ensures
        r == in_hit_zone2(p, cx2 as int, cy2 as int),
{
    let (px2, py2, half2) = (2 * (p.x as i128), 2 * (p.y as i128), 2 * (HANDLE_HIT_HALF as i128));
    let (cx, cy) = (cx2 as i128, cy2 as i128);
    cx - half2 <= px2 && px2 <= cx + half2 && cy - half2 <= py2 && py2 <= cy + half2
}

impl CropOverlay {
    /// The overlay's selection lies inside its image.
    pub open spec fn wf(self) -> bool {
        &&& self.img_width > 0
        &&& self.selection.wf(self.img_width as int, self.img_height as int)
    }

    pub fn new(img_width: u32, img_height: u32, selection: &CropSelection) -> (r: Self)
        ensures
            r.img_width == img_width,
            r.img_height == img_height,
            r.selection == *selection,
    {
        CropOverlay { img_width, img_height, selection: *selection }
    }

    /// The image point under screen point `p`, clamped into the image.
    pub fn screen_to_image(&self, bounds: &Bounds, p: Point) -> (r: (u32, u32))
        requires
            mapping_ok(*bounds, self.img_width, self.img_height),
        ensures
            (r.0 as int, r.1 as int) == screen_to_image_spec(*bounds, self.img_width, self.img_height, p),
    {
        crate::geometry::screen_to_image(bounds, self.img_width, self.img_height, p)
    }

    /// The screen point on which image point `(x, y)` is displayed.
    pub fn image_to_screen(&self, bounds: &Bounds, x: u32, y: u32) -> (r: Point)
        requires
            mapping_ok(*bounds, self.img_width, self.img_height),
            x <= self.img_width,
            y <= self.img_height,
        ensures
            (r.x as int, r.y as int) == image_to_screen_spec(*bounds, self.img_width, x as int, y as int),
            bounds.x <= r.x <= bounds.x + u32::MAX,
            bounds.y <= r.y <= bounds.y + u32::MAX,
    {
        crate::geometry::image_to_screen(bounds, self.img_width, self.img_height, x, y)
    }

    /// Whether `p` lies in the hit square centred on `center`.
    pub fn point_in_handle(p: Point, center: Point) -> (r: bool)
        ensures
            r == in_hit_zone(p, center.x as int, center.y as int),
    {
        let (cx, cy, half) = (center.x as i128, center.y as i128, HANDLE_HIT_HALF as i128);
        let (px, py) = (p.x as i128, p.y as i128);
        cx - half <= px && px <= cx + half && cy - half <= py && py <= cy + half
    }

    fn hits_handle(&self, bounds: &Bounds, r: Rect, handle: DragHandle, p: Point) -> (b: bool)
        requires
            self.wf(),
            mapping_ok(*bounds, self.img_width, self.img_height),
            r.within(self.img_width as int, self.img_height as int),
            !(handle is Move || handle is NoHandle),
        ensures
            b == hits(*bounds, self.img_width, r, handle, p),
    {
        let tl = self.image_to_screen(bounds, r.x, r.y);
        let br = self.image_to_screen(bounds, r.x + r.width, r.y + r.height);
        let (l, t, rt, b) = (tl.x, tl.y, br.x, br.y);
        match handle {
            DragHandle::TopLeft => Self::point_in_handle(p, Point { x: l, y: t }),
            DragHandle::TopRight => Self::point_in_handle(p, Point { x: rt, y: t }),
            DragHandle::BottomLeft => Self::point_in_handle(p, Point { x: l, y: b }),
            DragHandle::BottomRight => Self::point_in_handle(p, Point { x: rt, y: b }),
            DragHandle::Top => in_zone_doubled(p, l + rt, 2 * t),
            DragHandle::Bottom => in_zone_doubled(p, l + rt, 2 * b),
            DragHandle::Left => in_zone_doubled(p, 2 * l, t + b),
            _ => in_zone_doubled(p, 2 * rt, t + b),
        }
    }

    /// The zone of the current selection that screen point `p` lands on.
    pub fn hit_test_handle(&self, bounds: &Bounds, p: Point) -> (r: DragHandle)
        requires
            self.wf(),
            mapping_ok(*bounds, self.img_width, self.img_height),
        ensures
            r == hit_spec(*bounds, self.img_width, self.selection.region, p),
    {
        let r = match self.selection.region {
            None => { return DragHandle::NoHandle; },
            Some(r) => r,
        };
        if self.hits_handle(bounds, r, DragHandle::TopLeft, p) {
            return DragHandle::TopLeft;
        }
        if self.hits_handle(bounds, r, DragHandle::TopRight, p) {
            return DragHandle::TopRight;
        }
        if self.hits_handle(bounds, r, DragHandle::BottomLeft, p) {
            return DragHandle::BottomLeft;
        }
        if self.hits_handle(bounds, r, DragHandle::BottomRight, p) {
            return DragHandle::BottomRight;
        }
        if self.hits_handle(bounds, r, DragHandle::Top, p) {
            return DragHandle::Top;
        }
        if self.hits_handle(bounds, r, DragHandle::Bottom, p) {
            return DragHandle::Bottom;
        }
        if self.hits_handle(bounds, r, DragHandle::Left, p) {
            return DragHandle::Left;
        }
        if self.hits_handle(bounds, r, DragHandle::Right, p) {
            return DragHandle::Right;
        }
        let tl = self.image_to_screen(bounds, r.x, r.y);
        let br = self.image_to_screen(bounds, r.x + r.width, r.y + r.height);
        if tl.x <= p.x && p.x < br.x && tl.y <= p.y && p.y < br.y {
            DragHandle::Move
        } else {
            DragHandle::NoHandle
        }
    }

    /// The cursor shape for `handle`.
    pub fn cursor_for_handle(handle: DragHandle) -> (r: CursorStyle)
        ensures
            r == cursor_spec(handle),
    {
        match handle {
            DragHandle::NoHandle => CursorStyle::Crosshair,
            DragHandle::TopLeft | DragHandle::BottomRight => CursorStyle::ResizingDiagonallyDown,
            DragHandle::TopRight | DragHandle::BottomLeft => CursorStyle::ResizingDiagonallyUp,
            DragHandle::Top | DragHandle::Bottom => CursorStyle::ResizingVertically,
            DragHandle::Left | DragHandle::Right => CursorStyle::ResizingHorizontally,
            DragHandle::Move => CursorStyle::Grabbing,
        }
    }

    /// Whether `p` lies in the display rectangle.
    pub fn contains(bounds: &Bounds, p: Point) -> (r: bool)
        ensures
            r == bounds_contain(*bounds, p),
    {
        bounds.x as i64 <= p.x && p.x < bounds.x as i64 + bounds.width as i64
            && bounds.y as i64 <= p.y && p.y < bounds.y as i64 + bounds.height as i64
    }

    /// The message that a pointer event produces; `None` leaves the event to others.
    pub fn on_event(&self, bounds: &Bounds, event: PointerEvent) -> (r: Option<CropMessage>)
        requires
            self.wf(),
            mapping_ok(*bounds, self.img_width, self.img_height),
        ensures
            r == event_spec(*self, *bounds, event),
            r matches Some(m) ==> message_within(m, self.img_width as int, self.img_height as int),
    {
        match event {
            PointerEvent::ButtonPressed { position: Some(p) } => {
                // handle zones reach past the display where the selection meets its edge
                let handle = self.hit_test_handle(bounds, p);
                if handle != DragHandle::NoHandle || Self::contains(bounds, p) {
                    let (x, y) = self.screen_to_image(bounds, p);
                    Some(CropMessage::DragStart { x, y, handle })
                } else {
                    None
                }
            },
            PointerEvent::CursorMoved { position: Some(p) } => {
                if self.selection.is_dragging() {
                    let (x, y) = self.screen_to_image(bounds, p);
                    Some(CropMessage::DragMove { x, y })
                } else {
                    None
                }
            },
            PointerEvent::ButtonReleased => {
                if self.selection.is_dragging() {
                    Some(CropMessage::DragEnd)
                } else {
                    None
                }
            },
            _ => None,
        }
    }

    /// The cursor shape to show for a pointer at `cursor`.
    pub fn mouse_interaction(&self, bounds: &Bounds, cursor: Option<Point>) -> (r: CursorStyle)
        requires
            self.wf(),
            mapping_ok(*bounds, self.img_width, self.img_height),
        ensures
            r == interaction_spec(*self, *bounds, cursor),
    {
        if self.selection.is_dragging() {
            return Self::cursor_for_handle(self.selection.drag_handle());
        }
        match cursor {
            Some(p) => {
                if Self::contains(bounds, p) {
                    Self::cursor_for_handle(self.hit_test_handle(bounds, p))
                } else {
                    CursorStyle::Idle
                }
            },
            None => CursorStyle::Idle,
        }
    }

    /// The quads that draw the overlay, in order.
    pub fn draw(&self, bounds: &Bounds) -> (r: Vec<Quad>)
        requires
            self.wf(),
            mapping_ok(*bounds, self.img_width, self.img_height),
        ensures
            r@ == overlay_quads(*bounds, self.img_width, self.selection.region),
    {
        let mut out: Vec<Quad> = Vec::new();
        let (bx, by, bw, bh) = (bounds.x as i64, bounds.y as i64, bounds.width as i64, bounds.height as i64);
        match self.selection.region {
            Some(r) => {
                if r.width > 0 && r.height > 0 {
                    let s = self.image_to_screen(bounds, r.x, r.y);
                    let e = self.image_to_screen(bounds, r.x + r.width, r.y + r.height);
                    let (sx, sy, ex, ey) = (s.x, s.y, e.x, e.y);
                    proof {
                        crate::geometry::lemma_screen_monotone(*bounds, self.img_width, r.x as int, r.x + r.width);
                        crate::geometry::lemma_screen_monotone(*bounds, self.img_width, r.y as int, r.y + r.height);
                    }
                    out = shade_quads_exec(bounds, sx, sy, ex, ey);
                    let mut frame = frame_quads_exec(sx, sy, ex, ey);
                    out.append(&mut frame);
                } else {
                    out.push(Quad { x: bx, y: by, width: bw, height: bh, kind: QuadKind::Shade });
                }
            },
            None => {
                out.push(Quad { x: bx, y: by, width: bw, height: bh, kind: QuadKind::Shade });
            },
        }
        assert(out@ =~= overlay_quads(*bounds, self.img_width, self.selection.region));
        out
    }
}

} // verus!

verus! {

/// `msg` lies inside an `img_w` by `img_h` image.
pub open spec fn message_within(msg: CropMessage, img_w: int, img_h: int) -> bool {
    match msg {
        CropMessage::DragStart { x, y, .. } => x <= img_w && y <= img_h,
        CropMessage::DragMove { x, y } => x <= img_w && y <= img_h,
        CropMessage::DragEnd => true,
    }
}

/// Applies a message of the overlay to the selection of an `img_w` by `img_h`
/// image: a start begins a drag, a move reshapes the live rectangle and an end
/// commits it. Returns the committed crop region on an end, and `None` before.
pub fn apply_message(selection: &mut CropSelection, msg: CropMessage, img_w: u32, img_h: u32) -> (r: Option<Rect>)
    requires
        old(selection).wf(img_w as int, img_h as int),
        message_within(msg, img_w as int, img_h as int),
    ensures
        final(selection).wf(img_w as int, img_h as int),
        match msg {
            CropMessage::DragStart { x, y, handle } => {
                let fresh = Rect { x, y, width: 0, height: 0 };
                &&& r is None
                &&& if handle is NoHandle || old(selection).region is None {
                    &&& final(selection).region == Some(fresh)
                    &&& final(selection).drag == (DragState::Active {
                        handle: DragHandle::BottomRight,
                        anchor_x: x,
                        anchor_y: y,
                        original: fresh,
                    })
                } else {
                    &&& final(selection).region == old(selection).region
                    &&& final(selection).drag == (DragState::Active {
                        handle,
                        anchor_x: x,
                        anchor_y: y,
                        original: old(selection).region->Some_0,
                    })
                }
            },
            CropMessage::DragMove { x, y } => {
                &&& r is None
                &&& final(selection).drag == old(selection).drag
                &&& final(selection).region == (match old(selection).drag {
                    DragState::Active { handle, anchor_x, anchor_y, original } => Some(
                        crate::selection::dragged_rect(
                            handle,
                            original,
                            anchor_x as int,
                            anchor_y as int,
                            x as int,
                            y as int,
                            img_w as int,
                            img_h as int,
                        ),
                    ),
                    DragState::Idle => old(selection).region,
                })
            },
            CropMessage::DragEnd => {
                &&& r == (match old(selection).region {
                    Some(rect) => if rect.is_empty_spec() { None } else { Some(rect) },
                    None => None,
                })
                &&& final(selection).region == r
                &&& final(selection).drag is Idle
            },
        },
{
    match msg {
        CropMessage::DragStart { x, y, handle } => {
            selection.start_drag(x, y, handle);
            None
        },
        CropMessage::DragMove { x, y } => {
            selection.drag_to(x, y, img_w, img_h);
            None
        },
        CropMessage::DragEnd => selection.end_drag(),
    }
}

/// An overlay for an image of `img_width` by `img_height` pixels showing `selection`.
pub fn crop_overlay(img_width: u32, img_height: u32, selection: &CropSelection) -> (r: CropOverlay)
    ensures
        r.img_width == img_width,
        r.img_height == img_height,
        r.selection == *selection,
{
    CropOverlay::new(img_width, img_height, selection)
}

} // verus!
