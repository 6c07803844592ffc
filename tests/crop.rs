use cropview::geometry::{image_to_screen, screen_to_image, Bounds, Point};
use cropview::overlay::{apply_message, crop_overlay, CropMessage, CropOverlay, CursorStyle, PointerEvent, QuadKind};
use cropview::selection::{drag_rect, CropSelection, DragHandle, DragState, Rect};

fn identity_bounds() -> Bounds {
    Bounds { x: 0, y: 0, width: 800, height: 600 }
}

fn rect(x: u32, y: u32, width: u32, height: u32) -> Rect {
    Rect { x, y, width, height }
}

fn selected(r: Rect) -> CropSelection {
    CropSelection { region: Some(r), drag: DragState::Idle }
}

#[test]
fn screen_to_image_scales_and_offsets() {
    let b = Bounds { x: 10, y: 20, width: 400, height: 300 };
    assert_eq!(screen_to_image(&b, 800, 600, Point { x: 60, y: 70 }), (100, 100));
}

#[test]
fn screen_to_image_clamps_outside_points() {
    let b = Bounds { x: 10, y: 20, width: 400, height: 300 };
    assert_eq!(screen_to_image(&b, 800, 600, Point { x: -500, y: 5000 }), (0, 600));
    assert_eq!(screen_to_image(&b, 800, 600, Point { x: 9000, y: 0 }), (800, 0));
}

#[test]
fn image_to_screen_scales_and_offsets() {
    let b = Bounds { x: 10, y: 20, width: 400, height: 300 };
    assert_eq!(image_to_screen(&b, 800, 600, 100, 100), Point { x: 60, y: 70 });
    // rounds up to the next whole screen point
    assert_eq!(image_to_screen(&b, 800, 600, 101, 3), Point { x: 61, y: 22 });
}

#[test]
fn round_trip_on_an_enlarged_display() {
    let b = Bounds { x: -7, y: 3, width: 1200, height: 900 };
    for (x, y) in [(0u32, 0u32), (37, 12), (800, 600), (799, 1), (401, 333)] {
        let s = image_to_screen(&b, 800, 600, x, y);
        assert_eq!(screen_to_image(&b, 800, 600, s), (x, y));
    }
}

#[test]
fn round_trip_on_a_reduced_display_stays_within_a_screen_point() {
    let b = Bounds { x: 0, y: 0, width: 400, height: 300 };
    let s = image_to_screen(&b, 800, 600, 37, 12);
    let (x, y) = screen_to_image(&b, 800, 600, s);
    assert!(x >= 37 && x < 39);
    assert!(y >= 12 && y < 14);
}

#[test]
fn hit_test_misses_far_points() {
    let o = CropOverlay::new(800, 600, &selected(rect(100, 100, 200, 150)));
    let b = identity_bounds();
    assert_eq!(o.hit_test_handle(&b, Point { x: 600, y: 500 }), DragHandle::NoHandle);
    assert_eq!(o.hit_test_handle(&b, Point { x: 50, y: 200 }), DragHandle::NoHandle);
}

#[test]
fn hit_test_without_selection_is_none() {
    let o = CropOverlay::new(800, 600, &CropSelection::new());
    assert_eq!(o.hit_test_handle(&identity_bounds(), Point { x: 100, y: 100 }), DragHandle::NoHandle);
}

#[test]
fn hit_test_prefers_corner_over_move() {
    let o = CropOverlay::new(800, 600, &selected(rect(100, 100, 200, 150)));
    // inside the rectangle and within the top-left hit zone
    assert_eq!(o.hit_test_handle(&identity_bounds(), Point { x: 110, y: 110 }), DragHandle::TopLeft);
    assert_eq!(o.hit_test_handle(&identity_bounds(), Point { x: 290, y: 245 }), DragHandle::BottomRight);
}

#[test]
fn hit_test_finds_each_zone() {
    let o = CropOverlay::new(800, 600, &selected(rect(100, 100, 200, 150)));
    let b = identity_bounds();
    let cases = [
        (300, 100, DragHandle::TopRight),
        (100, 250, DragHandle::BottomLeft),
        (200, 100, DragHandle::Top),
        (200, 250, DragHandle::Bottom),
        (100, 175, DragHandle::Left),
        (300, 175, DragHandle::Right),
        (160, 140, DragHandle::Move),
        (86, 86, DragHandle::TopLeft),
        (85, 86, DragHandle::NoHandle),
    ];
    for (x, y, want) in cases {
        assert_eq!(o.hit_test_handle(&b, Point { x, y }), want);
    }
}

#[test]
fn point_in_handle_is_a_closed_square() {
    let c = Point { x: 50, y: 50 };
    assert!(CropOverlay::point_in_handle(Point { x: 64, y: 36 }, c));
    assert!(!CropOverlay::point_in_handle(Point { x: 65, y: 50 }, c));
}

#[test]
fn new_selection_drag_scenario() {
    let mut sel = CropSelection::new();
    let o = crop_overlay(800, 600, &sel);
    let b = identity_bounds();
    let msg = o.on_event(&b, PointerEvent::ButtonPressed { position: Some(Point { x: 100, y: 100 }) });
    assert_eq!(msg, Some(CropMessage::DragStart { x: 100, y: 100, handle: DragHandle::NoHandle }));
    sel.start_drag(100, 100, DragHandle::NoHandle);
    assert_eq!(sel.region, Some(rect(100, 100, 0, 0)));
    assert!(sel.is_dragging());
    assert_eq!(sel.drag_handle(), DragHandle::BottomRight);
    let o = CropOverlay::new(800, 600, &sel);
    let msg = o.on_event(&b, PointerEvent::CursorMoved { position: Some(Point { x: 300, y: 250 }) });
    assert_eq!(msg, Some(CropMessage::DragMove { x: 300, y: 250 }));
    sel.drag_to(300, 250, 800, 600);
    assert_eq!(sel.region, Some(rect(100, 100, 200, 150)));
    assert_eq!(o.on_event(&b, PointerEvent::ButtonReleased), Some(CropMessage::DragEnd));
    assert_eq!(sel.end_drag(), Some(rect(100, 100, 200, 150)));
    assert!(!sel.is_dragging());
}

#[test]
fn top_left_drag_past_opposite_corner_flips() {
    let mut sel = selected(rect(100, 100, 200, 150));
    let o = CropOverlay::new(800, 600, &sel);
    assert_eq!(o.hit_test_handle(&identity_bounds(), Point { x: 100, y: 100 }), DragHandle::TopLeft);
    sel.start_drag(100, 100, DragHandle::TopLeft);
    sel.drag_to(400, 400, 800, 600);
    assert_eq!(sel.region, Some(rect(300, 250, 100, 150)));
    // the handle keeps dragging the same edge
    sel.drag_to(50, 60, 800, 600);
    assert_eq!(sel.region, Some(rect(50, 60, 250, 190)));
}

#[test]
fn move_is_clamped_inside_the_image() {
    let o = rect(100, 100, 200, 150);
    assert_eq!(drag_rect(DragHandle::Move, o, 150, 150, 190, 120, 800, 600), rect(140, 70, 200, 150));
    assert_eq!(drag_rect(DragHandle::Move, o, 150, 150, 800, 0, 800, 600), rect(600, 0, 200, 150));
}

#[test]
fn edge_handles_move_one_side() {
    let o = rect(100, 100, 200, 150);
    assert_eq!(drag_rect(DragHandle::Right, o, 0, 0, 500, 10, 800, 600), rect(100, 100, 400, 150));
    assert_eq!(drag_rect(DragHandle::Top, o, 0, 0, 700, 40, 800, 600), rect(100, 40, 200, 210));
    assert_eq!(drag_rect(DragHandle::Bottom, o, 0, 0, 0, 20, 800, 600), rect(100, 20, 200, 80));
    assert_eq!(drag_rect(DragHandle::Left, o, 0, 0, 300, 0, 800, 600), rect(300, 100, 0, 150));
}

#[test]
fn end_drag_of_empty_selection_clears_it() {
    let mut sel = CropSelection::new();
    sel.start_drag(10, 10, DragHandle::NoHandle);
    sel.drag_to(40, 10, 800, 600);
    assert_eq!(sel.end_drag(), None);
    assert_eq!(sel.region, None);
}

#[test]
fn idle_events_are_ignored() {
    let o = CropOverlay::new(800, 600, &CropSelection::new());
    let b = identity_bounds();
    assert_eq!(o.on_event(&b, PointerEvent::CursorMoved { position: Some(Point { x: 1, y: 1 }) }), None);
    assert_eq!(o.on_event(&b, PointerEvent::ButtonReleased), None);
    assert_eq!(o.on_event(&b, PointerEvent::ButtonPressed { position: Some(Point { x: 800, y: 1 }) }), None);
    assert_eq!(o.on_event(&b, PointerEvent::Other), None);
}

#[test]
fn cursor_follows_zone_and_drag() {
    let mut sel = selected(rect(100, 100, 200, 150));
    let b = identity_bounds();
    let o = CropOverlay::new(800, 600, &sel);
    assert_eq!(o.mouse_interaction(&b, Some(Point { x: 300, y: 100 })), CursorStyle::ResizingDiagonallyUp);
    assert_eq!(o.mouse_interaction(&b, Some(Point { x: 500, y: 500 })), CursorStyle::Crosshair);
    assert_eq!(o.mouse_interaction(&b, None), CursorStyle::Idle);
    sel.start_drag(200, 100, DragHandle::Top);
    let o = CropOverlay::new(800, 600, &sel);
    assert_eq!(o.mouse_interaction(&b, None), CursorStyle::ResizingVertically);
    assert_eq!(CropOverlay::cursor_for_handle(DragHandle::Move), CursorStyle::Grabbing);
}

#[test]
fn draw_without_selection_shades_everything() {
    let o = CropOverlay::new(800, 600, &CropSelection::new());
    let quads = o.draw(&identity_bounds());
    assert_eq!(quads.len(), 1);
    assert_eq!((quads[0].x, quads[0].y, quads[0].width, quads[0].height), (0, 0, 800, 600));
    assert_eq!(quads[0].kind, QuadKind::Shade);
}

#[test]
fn draw_with_selection_shades_frames_and_handles() {
    let o = CropOverlay::new(800, 600, &selected(rect(100, 100, 200, 150)));
    let quads = o.draw(&identity_bounds());
    assert_eq!(quads.len(), 16);
    let shade: Vec<(i64, i64, i64, i64)> = quads[..4].iter().map(|q| (q.x, q.y, q.width, q.height)).collect();
    assert_eq!(shade, vec![(0, 0, 800, 100), (0, 250, 800, 350), (0, 100, 100, 150), (300, 100, 500, 150)]);
    assert!(quads[4..8].iter().all(|q| q.kind == QuadKind::Border));
    assert_eq!((quads[5].x, quads[5].y, quads[5].width, quads[5].height), (100, 248, 200, 2));
    assert!(quads[8..].iter().all(|q| q.kind == QuadKind::Handle && q.width == 14));
    assert_eq!((quads[15].x, quads[15].y), (293, 168));
}

#[test]
fn draw_of_full_selection_has_no_shade() {
    let o = CropOverlay::new(800, 600, &selected(rect(0, 0, 800, 600)));
    let quads = o.draw(&identity_bounds());
    assert_eq!(quads.len(), 12);
}

#[test]
fn messages_drive_the_selection_on_a_scaled_display() {
    // an 800 x 600 image shown at half size, offset by (40, 30)
    let b = Bounds { x: 40, y: 30, width: 400, height: 300 };
    let mut sel = CropSelection::new();
    let press = PointerEvent::ButtonPressed { position: Some(Point { x: 90, y: 80 }) };
    let msg = CropOverlay::new(800, 600, &sel).on_event(&b, press).unwrap();
    assert_eq!(msg, CropMessage::DragStart { x: 100, y: 100, handle: DragHandle::NoHandle });
    assert_eq!(apply_message(&mut sel, msg, 800, 600), None);
    assert_eq!(sel.region, Some(rect(100, 100, 0, 0)));
    let moved = PointerEvent::CursorMoved { position: Some(Point { x: 190, y: 155 }) };
    let msg = CropOverlay::new(800, 600, &sel).on_event(&b, moved).unwrap();
    assert_eq!(msg, CropMessage::DragMove { x: 300, y: 250 });
    assert_eq!(apply_message(&mut sel, msg, 800, 600), None);
    assert_eq!(sel.region, Some(rect(100, 100, 200, 150)));
    let msg = CropOverlay::new(800, 600, &sel).on_event(&b, PointerEvent::ButtonReleased).unwrap();
    assert_eq!(apply_message(&mut sel, msg, 800, 600), Some(rect(100, 100, 200, 150)));
    assert_eq!(sel.drag, DragState::Idle);
}

#[test]
fn press_on_handle_outside_display_starts_drag() {
    let sel = selected(rect(0, 0, 200, 150));
    let o = CropOverlay::new(800, 600, &sel);
    let b = identity_bounds();
    let p = Point { x: -5, y: -5 };
    assert_eq!(o.hit_test_handle(&b, p), DragHandle::TopLeft);
    let msg = o.on_event(&b, PointerEvent::ButtonPressed { position: Some(p) });
    assert_eq!(msg, Some(CropMessage::DragStart { x: 0, y: 0, handle: DragHandle::TopLeft }));
    // the cursor keeps its default shape outside the display
    assert_eq!(o.mouse_interaction(&b, Some(p)), CursorStyle::Idle);
    // outside the display and away from every zone, nothing happens
    let far = Point { x: -50, y: -50 };
    assert_eq!(o.on_event(&b, PointerEvent::ButtonPressed { position: Some(far) }), None);
    assert_eq!(o.mouse_interaction(&b, Some(far)), CursorStyle::Idle);
}

#[test]
fn point_in_handle_at_extreme_coordinates() {
    let c = Point { x: i64::MAX, y: i64::MIN };
    assert!(CropOverlay::point_in_handle(Point { x: i64::MAX - 14, y: i64::MIN + 14 }, c));
    assert!(!CropOverlay::point_in_handle(Point { x: i64::MAX - 15, y: i64::MIN }, c));
}

#[test]
fn edge_zones_centre_on_the_exact_midpoint() {
    let b = identity_bounds();
    // odd width: the top edge's midpoint is at 200.5
    let o = CropOverlay::new(800, 600, &selected(rect(100, 100, 201, 150)));
    assert_eq!(o.hit_test_handle(&b, Point { x: 186, y: 100 }), DragHandle::Move);
    assert_eq!(o.hit_test_handle(&b, Point { x: 187, y: 100 }), DragHandle::Top);
    assert_eq!(o.hit_test_handle(&b, Point { x: 214, y: 100 }), DragHandle::Top);
    assert_eq!(o.hit_test_handle(&b, Point { x: 215, y: 100 }), DragHandle::Move);
    // the mirrored selection and point give the mirrored result
    let m = CropOverlay::new(800, 600, &selected(rect(499, 100, 201, 150)));
    assert_eq!(m.hit_test_handle(&b, Point { x: 614, y: 100 }), DragHandle::Move);
    assert_eq!(m.hit_test_handle(&b, Point { x: 613, y: 100 }), DragHandle::Top);
    // odd height: the left edge's midpoint is at 175.5
    let o = CropOverlay::new(800, 600, &selected(rect(100, 100, 200, 151)));
    assert_eq!(o.hit_test_handle(&b, Point { x: 100, y: 162 }), DragHandle::Left);
    assert_eq!(o.hit_test_handle(&b, Point { x: 100, y: 189 }), DragHandle::Left);
    assert_eq!(o.hit_test_handle(&b, Point { x: 100, y: 161 }), DragHandle::Move);
    assert_eq!(o.hit_test_handle(&b, Point { x: 100, y: 190 }), DragHandle::Move);
}
