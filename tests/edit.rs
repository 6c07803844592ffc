use cropview::edit::{apply_edits_to_image, apply_transform, apply_transforms, crop_image, EditError, EditState, Transform};
use cropview::image::{register_format_hooks, Image};
use cropview::selection::Rect;

fn numbered(width: u32, height: u32) -> Image {
    let rows = (0..height).map(|y| (0..width).map(|x| y * 1000 + x).collect()).collect();
    Image { width, height, rows }
}

#[test]
fn filled_image_and_pixel_access() {
    register_format_hooks();
    let img = Image::filled(3, 2, 7);
    assert_eq!(img.rows, vec![vec![7, 7, 7], vec![7, 7, 7]]);
    assert_eq!(img.pixel(2, 1), Some(7));
    assert_eq!(img.pixel(3, 0), None);
}

#[test]
fn rotate90_turns_clockwise() {
    let img = numbered(3, 2);
    let r = apply_transform(&img, Transform::Rotate90);
    assert_eq!((r.width, r.height), (2, 3));
    assert_eq!(r.rows, vec![vec![1000, 0], vec![1001, 1], vec![1002, 2]]);
}

#[test]
fn rotate180_and_270() {
    let img = numbered(3, 2);
    let r = apply_transform(&img, Transform::Rotate180);
    assert_eq!(r.rows, vec![vec![1002, 1001, 1000], vec![2, 1, 0]]);
    let r = apply_transform(&img, Transform::Rotate270);
    assert_eq!(r.rows, vec![vec![2, 1002], vec![1, 1001], vec![0, 1000]]);
}

#[test]
fn flips_mirror_one_axis() {
    let img = numbered(3, 2);
    assert_eq!(apply_transform(&img, Transform::FlipHorizontal).rows, vec![vec![2, 1, 0], vec![1002, 1001, 1000]]);
    assert_eq!(apply_transform(&img, Transform::FlipVertical).rows, vec![vec![1000, 1001, 1002], vec![0, 1, 2]]);
}

#[test]
fn four_quarter_turns_restore_the_image() {
    let img = numbered(5, 3);
    let r = apply_transforms(&img, &[Transform::Rotate90; 4]);
    assert_eq!((r.width, r.height), (5, 3));
    assert_eq!(r.rows, img.rows);
}

#[test]
fn flipping_twice_restores_the_image() {
    let img = numbered(4, 3);
    let r = apply_transforms(&img, &[Transform::FlipHorizontal, Transform::FlipHorizontal]);
    assert_eq!(r.rows, img.rows);
    let r = apply_transforms(&img, &[Transform::FlipVertical, Transform::FlipVertical]);
    assert_eq!(r.rows, img.rows);
}

#[test]
fn no_transforms_is_identity() {
    let img = numbered(4, 3);
    let r = apply_transforms(&img, &[]);
    assert_eq!((r.width, r.height, r.rows), (4, 3, img.rows));
}

#[test]
fn transforms_apply_left_to_right() {
    let img = numbered(3, 2);
    let a = apply_transforms(&img, &[Transform::Rotate90, Transform::FlipHorizontal]);
    let b = apply_transforms(&img, &[Transform::FlipHorizontal, Transform::Rotate90]);
    assert_eq!(a.rows, vec![vec![0, 1000], vec![1, 1001], vec![2, 1002]]);
    assert_eq!(b.rows, vec![vec![1002, 2], vec![1001, 1], vec![1000, 0]]);
}

#[test]
fn full_crop_is_identity() {
    let img = numbered(6, 4);
    let r = crop_image(&img, Some(Rect { x: 0, y: 0, width: 6, height: 4 })).unwrap();
    assert_eq!((r.width, r.height), (6, 4));
    assert_eq!(r.rows, img.rows);
}

#[test]
fn crop_cuts_the_block() {
    let img = numbered(6, 4);
    let r = crop_image(&img, Some(Rect { x: 2, y: 1, width: 3, height: 2 })).unwrap();
    assert_eq!(r.rows, vec![vec![1002, 1003, 1004], vec![2002, 2003, 2004]]);
}

#[test]
fn crop_errors() {
    let img = numbered(6, 4);
    assert_eq!(crop_image(&img, None).unwrap_err(), EditError::InvalidRegion);
    assert_eq!(crop_image(&img, Some(Rect { x: 4, y: 0, width: 3, height: 1 })).unwrap_err(), EditError::InvalidRegion);
    assert_eq!(crop_image(&img, Some(Rect { x: 0, y: 4, width: 1, height: 1 })).unwrap_err(), EditError::InvalidRegion);
}

#[test]
fn oversized_crop_fails() {
    let img = Image::filled(800, 600, 0);
    let mut state = EditState::new();
    state.set_crop(Rect { x: 0, y: 0, width: 900, height: 700 });
    assert_eq!(apply_edits_to_image(&img, &state).unwrap_err(), EditError::InvalidRegion);
    assert_eq!(crop_image(&img, Some(Rect { x: 0, y: 0, width: 900, height: 700 })).unwrap_err(), EditError::InvalidRegion);
}

#[test]
fn rotate_then_crop_keeps_pixel_provenance() {
    let img = numbered(100, 200);
    let mut state = EditState::new();
    state.push_transform(Transform::Rotate90);
    state.set_crop(Rect { x: 0, y: 0, width: 50, height: 50 });
    let rotated = apply_transforms(&img, &state.transforms);
    assert_eq!((rotated.width, rotated.height), (200, 100));
    let out = apply_edits_to_image(&img, &state).unwrap();
    assert_eq!((out.width, out.height), (50, 50));
    for y in 0..50u32 {
        for x in 0..50u32 {
            // pixel (x, y) of the rotated image comes from column y, row 199 - x
            assert_eq!(out.rows[y as usize][x as usize], (199 - x) * 1000 + y);
        }
    }
}

#[test]
fn crop_coordinates_follow_the_transformed_image() {
    let img = numbered(100, 200);
    let mut state = EditState::new();
    state.push_transform(Transform::Rotate90);
    // fits the rotated 200 x 100 image, not the original 100 x 200 one
    state.set_crop(Rect { x: 150, y: 0, width: 50, height: 10 });
    assert!(apply_edits_to_image(&img, &state).is_ok());
    state.set_crop(Rect { x: 0, y: 150, width: 10, height: 50 });
    assert_eq!(apply_edits_to_image(&img, &state).unwrap_err(), EditError::InvalidRegion);
    state.clear_crop();
    let out = apply_edits_to_image(&img, &state).unwrap();
    assert_eq!((out.width, out.height), (200, 100));
}

#[test]
fn edit_state_list_operations() {
    let mut state = EditState::new();
    state.push_transform(Transform::Rotate90);
    state.push_transform(Transform::FlipVertical);
    state.push_transform(Transform::Rotate180);
    assert!(state.move_transform(2, 0));
    assert_eq!(state.transforms, vec![Transform::Rotate180, Transform::Rotate90, Transform::FlipVertical]);
    assert!(!state.move_transform(3, 0));
    assert_eq!(state.remove_transform(1), Some(Transform::Rotate90));
    assert_eq!(state.remove_transform(5), None);
    assert_eq!(state.transforms, vec![Transform::Rotate180, Transform::FlipVertical]);
}
