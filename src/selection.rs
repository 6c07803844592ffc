//! The crop selection and its drag state machine, in image space.
use vstd::prelude::*;

verus! {

/// An axis-aligned rectangle in image pixels; a zero width or height is a
/// valid, empty selection.
#[derive(Clone, Copy, Debug, PartialEq, Eq, Structural)]
pub struct Rect {
    pub x: u32,
    pub y: u32,
    pub width: u32,
    pub height: u32,
}

/// A crop rectangle in the pixel space of the image it applies to.
pub type CropRegion = Rect;

impl Rect {
    /// The rectangle lies inside an image of `img_w` by `img_h` pixels.
    pub open spec fn within(self, img_w: int, img_h: int) -> bool {
        &&& self.x + self.width <= img_w
        &&& self.y + self.height <= img_h
    }

    pub open spec fn is_empty_spec(self) -> bool {
        self.width == 0 || self.height == 0
    }
}

/// The interaction zone that a pointer press lands on.
#[derive(Clone, Copy, Debug, PartialEq, Eq, Structural)]
pub enum DragHandle {
    NoHandle,
    Move,
    TopLeft,
    TopRight,
    BottomLeft,
    BottomRight,
    Top,
    Bottom,
    Left,
    Right,
}

impl DragHandle {
    pub open spec fn moves_left(self) -> bool {
        self is TopLeft || self is BottomLeft || self is Left
    }

    pub open spec fn moves_right(self) -> bool {
        self is TopRight || self is BottomRight || self is Right
    }

    pub open spec fn moves_top(self) -> bool {
        self is TopLeft || self is TopRight || self is Top
    }

    pub open spec fn moves_bottom(self) -> bool {
        self is BottomLeft || self is BottomRight || self is Bottom
    }

    pub open spec fn is_corner(self) -> bool {
        self is TopLeft || self is TopRight || self is BottomLeft || self is BottomRight
    }
}

/// Whether a drag is under way, and what it started from.
#[derive(Clone, Copy, Debug, PartialEq, Eq, Structural)]
pub enum DragState {
    Idle,
    Active { handle: DragHandle, anchor_x: u32, anchor_y: u32, original: Rect },
}

/// The live selection rectangle together with the drag that is reshaping it.
#[derive(Clone, Copy, Debug, PartialEq, Eq, Structural)]
pub struct CropSelection {
    pub region: Option<Rect>,
    pub drag: DragState,
}

/// The extent `(start, length)` between a dragged edge and a fixed edge.
pub open spec fn span(moved: int, fixed: int) -> (int, int) {
    if moved < fixed {
        (moved, fixed - moved)
    } else {
        (fixed, moved - fixed)
    }
}

/// `v` forced into `[0, hi]`.
pub open spec fn clamp_to(v: int, hi: int) -> int {
    if v < 0 { 0 } else if v > hi { hi } else { v }
}

/// The rectangle that a drag of `handle` to image point `(px, py)` produces,
/// for a drag that started at `(ax, ay)` on rectangle `o`.
pub open spec fn dragged_rect(
    handle: DragHandle,
    o: Rect,
    ax: int,
    ay: int,
    px: int,
    py: int,
    img_w: int,
    img_h: int,
) -> Rect {
    if handle is Move {
        Rect {
            x: clamp_to(o.x + (px - ax), img_w - o.width) as u32,
            y: clamp_to(o.y + (py - ay), img_h - o.height) as u32,
            width: o.width,
            height: o.height,
        }
    } else {
        let h = if handle.moves_left() {
            span(px, o.x + o.width)
        } else if handle.moves_right() {
            span(px, o.x as int)
        } else {
            (o.x as int, o.width as int)
        };
        let v = if handle.moves_top() {
            span(py, o.y + o.height)
        } else if handle.moves_bottom() {
            span(py, o.y as int)
        } else {
            (o.y as int, o.height as int)
        };
        Rect { x: h.0 as u32, y: v.0 as u32, width: h.1 as u32, height: v.1 as u32 }
    }
}

fn span_exec(moved: u32, fixed: u32) -> (r: (u32, u32))
    ensures
        (r.0 as int, r.1 as int) == span(moved as int, fixed as int),
{
    if moved < fixed {
        (moved, fixed - moved)
    } else {
        (fixed, moved - fixed)
    }
}

fn shift_clamped(start: u32, delta_from: u32, delta_to: u32, hi: u32) -> (r: u32)
    ensures
        r as int == clamp_to(start + (delta_to - delta_from), hi as int),
{
    let v: i64 = start as i64 + (delta_to as i64 - delta_from as i64);
    if v < 0 {
        0
    } else if v > hi as i64 {
        hi
    } else {
        v as u32
    }
}

/// Computes `dragged_rect` for image dimensions `img_w` by `img_h`.
pub fn drag_rect(
    handle: DragHandle,
    o: Rect,
    ax: u32,
    ay: u32,
    px: u32,
    py: u32,
    img_w: u32,
    img_h: u32,
) -> (r: Rect)
    requires
        o.within(img_w as int, img_h as int),
        px <= img_w,
        py <= img_h,
    ensures
        r == dragged_rect(handle, o, ax as int, ay as int, px as int, py as int, img_w as int, img_h as int),
        r.within(img_w as int, img_h as int),
{
    match handle {
        DragHandle::Move => {
            let x = shift_clamped(o.x, ax, px, img_w - o.width);
            let y = shift_clamped(o.y, ay, py, img_h - o.height);
            Rect { x, y, width: o.width, height: o.height }
        },
        _ => {
            let h = match handle {
                DragHandle::TopLeft | DragHandle::BottomLeft | DragHandle::Left => span_exec(px, o.x + o.width),
                DragHandle::TopRight | DragHandle::BottomRight | DragHandle::Right => span_exec(px, o.x),
                _ => (o.x, o.width),
            };
            let v = match handle {
                DragHandle::TopLeft | DragHandle::TopRight | DragHandle::Top => span_exec(py, o.y + o.height),
                DragHandle::BottomLeft | DragHandle::BottomRight | DragHandle::Bottom => span_exec(py, o.y),
                _ => (o.y, o.height),
            };
            Rect { x: h.0, y: v.0, width: h.1, height: v.1 }
        },
    }
}

impl CropSelection {
    /// The selection and the drag it records lie inside an `img_w` by `img_h` image.
    pub open spec fn wf(self, img_w: int, img_h: int) -> bool {
        &&& (self.region matches Some(r) ==> r.within(img_w, img_h))
        &&& (self.drag matches DragState::Active { anchor_x, anchor_y, original, .. } ==> {
            &&& original.within(img_w, img_h)
            &&& anchor_x <= img_w
            &&& anchor_y <= img_h
        })
    }

    pub open spec fn is_dragging_spec(self) -> bool {
        self.drag is Active
    }

    /// A selection with no rectangle and no drag.
    pub fn new() -> (r: Self)
        ensures
            r.region is None,
            r.drag is Idle,
    {
        CropSelection { region: None, drag: DragState::Idle }
    }

    pub fn is_dragging(&self) -> (r: bool)
        ensures
            r == self.is_dragging_spec(),
    {
        match self.drag {
            DragState::Active { .. } => true,
            DragState::Idle => false,
        }
    }

    /// The handle being dragged, or `DragHandle::NoHandle` when idle.
    pub fn drag_handle(&self) -> (r: DragHandle)
        ensures
            r == (match self.drag {
                DragState::Active { handle, .. } => handle,
                DragState::Idle => DragHandle::NoHandle,
            }),
    {
        match self.drag {
            DragState::Active { handle, .. } => handle,
            DragState::Idle => DragHandle::NoHandle,
        }
    }

    /// Starts a drag at image point `(x, y)` on `handle`. With no handle, or no
    /// selection to act on, a new empty selection starts at the point and grows
    /// from it as its bottom-right corner is dragged.
    pub fn start_drag(&mut self, x: u32, y: u32, handle: DragHandle)
        ensures
            ({
                let fresh = Rect { x, y, width: 0, height: 0 };
                if handle is NoHandle || old(self).region is None {
                    &&& final(self).region == Some(fresh)
                    &&& final(self).drag == (DragState::Active {
                        handle: DragHandle::BottomRight,
                        anchor_x: x,
                        anchor_y: y,
                        original: fresh,
                    })
                } else {
                    &&& final(self).region == old(self).region
                    &&& final(self).drag == (DragState::Active {
                        handle,
                        anchor_x: x,
                        anchor_y: y,
                        original: old(self).region->Some_0,
                    })
                }
            }),
    {
        let fresh = Rect { x, y, width: 0, height: 0 };
        match (handle, self.region) {
            (DragHandle::NoHandle, _) | (_, None) => {
                self.region = Some(fresh);
                self.drag = DragState::Active {
                    handle: DragHandle::BottomRight,
                    anchor_x: x,
                    anchor_y: y,
                    original: fresh,
                };
            },
            (_, Some(r)) => {
                self.drag = DragState::Active { handle, anchor_x: x, anchor_y: y, original: r };
            },
        }
    }

    /// Moves the active drag to image point `(x, y)`: the live rectangle becomes
    /// `dragged_rect` of the drag's handle, anchor and original rectangle. An idle
    /// selection is left as it is.
    pub fn drag_to(&mut self, x: u32, y: u32, img_w: u32, img_h: u32)
        requires
            old(self).wf(img_w as int, img_h as int),
            x <= img_w,
            y <= img_h,
        ensures
            final(self).wf(img_w as int, img_h as int),
            final(self).drag == old(self).drag,
            final(self).region == (match old(self).drag {
                DragState::Active { handle, anchor_x, anchor_y, original } => Some(
                    dragged_rect(handle, original, anchor_x as int, anchor_y as int, x as int, y as int, img_w as int, img_h as int),
                ),
                DragState::Idle => old(self).region,
            }),
    {
        if let DragState::Active { handle, anchor_x, anchor_y, original } = self.drag {
            self.region = Some(drag_rect(handle, original, anchor_x, anchor_y, x, y, img_w, img_h));
        }
    }

    /// Ends the drag and returns the committed crop: the live rectangle, or
    /// nothing where it is empty (which also clears the selection).
    pub fn end_drag(&mut self) -> (r: Option<CropRegion>)
        ensures
            r == (match old(self).region {
                Some(rect) => if rect.is_empty_spec() { None } else { Some(rect) },
                None => None,
            }),
            final(self).region == r,
            final(self).drag is Idle,
    {
        let committed = match self.region {
            Some(rect) => if rect.width == 0 || rect.height == 0 { None } else { Some(rect) },
            None => None,
        };
        self.region = committed;
        self.drag = DragState::Idle;
        committed
    }

    /// Drops the selection and any drag.
    pub fn reset(&mut self)
        ensures
            final(self).region is None,
            final(self).drag is Idle,
    {
        self.region = None;
        self.drag = DragState::Idle;
    }
}

} // verus!
