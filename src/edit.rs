//! The edit recipe (transforms and crop) and the pipeline that applies it.
use vstd::prelude::*;
use crate::image::{Image, Raster};
use crate::selection::CropRegion;

verus! {

/// One whole-image geometric remap. Rotations turn clockwise.
#[derive(Clone, Copy, Debug, PartialEq, Eq, Structural)]
pub enum Transform {
    Rotate90,
    Rotate180,
    Rotate270,
    FlipHorizontal,
    FlipVertical,
}

/// Why an edit could not be applied.
#[derive(Clone, Copy, Debug, PartialEq, Eq, Structural)]
pub enum EditError {
    /// The crop is missing or does not fit inside the image it is applied to.
    InvalidRegion,
}

/// The size `(width, height)` of the image that `t` makes from a `w` by `h` image.
pub open spec fn transformed_size(t: Transform, w: nat, h: nat) -> (nat, nat) {
    match t {
        Transform::Rotate90 | Transform::Rotate270 => (h, w),
        _ => (w, h),
    }
}

/// The source pixel `(column, row)`, in a `w` by `h` image, of pixel `(x, y)`
/// of the image that `t` makes from it.
pub open spec fn source_pixel(t: Transform, w: int, h: int, x: int, y: int) -> (int, int) {
    match t {
        Transform::Rotate90 => (y, h - 1 - x),
        Transform::Rotate180 => (w - 1 - x, h - 1 - y),
        Transform::Rotate270 => (w - 1 - y, x),
        Transform::FlipHorizontal => (w - 1 - x, y),
        Transform::FlipVertical => (x, h - 1 - y),
    }
}

/// The image that `t` makes from `r`.
pub open spec fn transform_spec(r: Raster, t: Transform) -> Raster {
    let (nw, nh) = transformed_size(t, r.width, r.height);
    Raster {
        width: nw,
        height: nh,
        rows: Seq::new(
            nh,
            |y: int|
                Seq::new(
                    nw,
                    |x: int|
                        r.rows[source_pixel(t, r.width as int, r.height as int, x, y).1][source_pixel(
                            t,
                            r.width as int,
                            r.height as int,
                            x,
                            y,
                        ).0],
                ),
        ),
    }
}

/// `ts` applied to `r` from first to last.
pub open spec fn transforms_spec(r: Raster, ts: Seq<Transform>) -> Raster
    decreases ts.len(),
{
    if ts.len() == 0 {
        r
    } else {
        transform_spec(transforms_spec(r, ts.drop_last()), ts.last())
    }
}

/// The `region.width` by `region.height` block of `r` whose top-left pixel is
/// at `(region.x, region.y)`.
pub open spec fn crop_spec(r: Raster, region: CropRegion) -> Raster {
    Raster {
        width: region.width as nat,
        height: region.height as nat,
        rows: Seq::new(
            region.height as nat,
            |y: int| Seq::new(region.width as nat, |x: int| r.rows[region.y + y][region.x + x]),
        ),
    }
}

/// The region fits inside `r`.
pub open spec fn region_fits(r: Raster, region: CropRegion) -> bool {
    region.within(r.width as int, r.height as int)
}

fn source_exec(t: Transform, w: u32, h: u32, x: u32, y: u32) -> (r: (u32, u32))
    requires
        x < transformed_size(t, w as nat, h as nat).0,
        y < transformed_size(t, w as nat, h as nat).1,
    ensures
        (r.0 as int, r.1 as int) == source_pixel(t, w as int, h as int, x as int, y as int),
        r.0 < w,
        r.1 < h,
{
    match t {
        Transform::Rotate90 => (y, h - 1 - x),
        Transform::Rotate180 => (w - 1 - x, h - 1 - y),
        Transform::Rotate270 => (w - 1 - y, x),
        Transform::FlipHorizontal => (w - 1 - x, y),
        Transform::FlipVertical => (x, h - 1 - y),
    }
}

/// Applies one transform: rotations by a quarter turn swap width and height,
/// flips mirror one axis.
pub fn apply_transform(image: &Image, t: Transform) -> (r: Image)
    requires
        image.wf(),
    ensures
        r.wf(),
        r@ == transform_spec(image@, t),
{
    let (w, h) = (image.width, image.height);
    let (nw, nh) = match t {
        Transform::Rotate90 | Transform::Rotate270 => (h, w),
        _ => (w, h),
    };
    let ghost want = transform_spec(image@, t);
    let mut rows: Vec<Vec<u32>> = Vec::new();
    let mut y: u32 = 0;
    while y < nh
        invariant
            image.wf(),
            (nw as nat, nh as nat) == transformed_size(t, w as nat, h as nat),
            w == image.width,
            h == image.height,
            want == transform_spec(image@, t),
            y <= nh,
            rows@.len() == y,
            forall|j: int| 0 <= j < y ==> (#[trigger] rows@[j])@ == want.rows[j],
        decreases nh - y,
    {
        let mut row: Vec<u32> = Vec::new();
        let mut x: u32 = 0;
        while x < nw
            invariant
                image.wf(),
                (nw as nat, nh as nat) == transformed_size(t, w as nat, h as nat),
                w == image.width,
                h == image.height,
                want == transform_spec(image@, t),
                y < nh,
                x <= nw,
                row@.len() == x,
                forall|i: int| 0 <= i < x ==> #[trigger] row@[i] == want.rows[y as int][i],
            decreases nw - x,
        {
            let (sx, sy) = source_exec(t, w, h, x, y);
            assert(image.rows@[sy as int]@ == image@.rows[sy as int]);
            row.push(image.rows[sy as usize][sx as usize]);
            x += 1;
        }
        assert(row@ =~= want.rows[y as int]);
        rows.push(row);
        y += 1;
    }
    let r = Image { width: nw, height: nh, rows };
    assert(r@.rows =~= want.rows);
    r
}

/// Cuts `region` out of the image; `InvalidRegion` when there is no region or
/// it does not fit inside the image.
pub fn crop_image(image: &Image, region: Option<CropRegion>) -> (r: Result<Image, EditError>)
    requires
        image.wf(),
    ensures
        match region {
            Some(c) if region_fits(image@, c) => r matches Ok(out) && out.wf() && out@ == crop_spec(image@, c),
            _ => r == Err::<Image, EditError>(EditError::InvalidRegion),
        },
{
    let c = match region {
        Some(c) => c,
        None => { return Err(EditError::InvalidRegion); },
    };
    if c.x as u64 + c.width as u64 > image.width as u64 || c.y as u64 + c.height as u64 > image.height as u64 {
        return Err(EditError::InvalidRegion);
    }
    let ghost want = crop_spec(image@, c);
    let mut rows: Vec<Vec<u32>> = Vec::new();
    let mut y: u32 = 0;
    while y < c.height
        invariant
            image.wf(),
            region_fits(image@, c),
            want == crop_spec(image@, c),
            y <= c.height,
            rows@.len() == y,
            forall|j: int| 0 <= j < y ==> (#[trigger] rows@[j])@ == want.rows[j],
        decreases c.height - y,
    {
        let src = c.y + y;
        assert(image.rows@[src as int]@ == image@.rows[src as int]);
        let mut row: Vec<u32> = Vec::new();
        let mut x: u32 = 0;
        while x < c.width
            invariant
                image.wf(),
                region_fits(image@, c),
                want == crop_spec(image@, c),
                y < c.height,
                src == c.y + y,
                image.rows@[src as int]@ == image@.rows[src as int],
                x <= c.width,
                row@.len() == x,
                forall|i: int| 0 <= i < x ==> #[trigger] row@[i] == want.rows[y as int][i],
            decreases c.width - x,
        {
            row.push(image.rows[src as usize][(c.x + x) as usize]);
            x += 1;
        }
        assert(row@ =~= want.rows[y as int]);
        rows.push(row);
        y += 1;
    }
    let out = Image { width: c.width, height: c.height, rows };
    assert(out@.rows =~= want.rows);
    Ok(out)
}

/// The transforms to apply, in order, and the crop to cut from their result.
#[derive(Clone, Debug)]
pub struct EditState {
    pub transforms: Vec<Transform>,
    pub crop: Option<CropRegion>,
}

impl EditState {
    /// No transforms and no crop.
    pub fn new() -> (r: Self)
        ensures
            r.transforms@ == Seq::<Transform>::empty(),
            r.crop is None,
    {
        EditState { transforms: Vec::new(), crop: None }
    }

    /// Appends `t` to the transforms.
    pub fn push_transform(&mut self, t: Transform)
        ensures
            final(self).transforms@ == old(self).transforms@.push(t),
            final(self).crop == old(self).crop,
    {
        self.transforms.push(t);
    }

    /// Removes and returns the transform at `index`, if there is one.
    pub fn remove_transform(&mut self, index: usize) -> (r: Option<Transform>)
        ensures
            index < old(self).transforms@.len() ==> {
                &&& r == Some(old(self).transforms@[index as int])
                &&& final(self).transforms@ == old(self).transforms@.remove(index as int)
            },
            index >= old(self).transforms@.len() ==> r is None && final(self).transforms@ == old(self).transforms@,
            final(self).crop == old(self).crop,
    {
        if index < self.transforms.len() {
            Some(self.transforms.remove(index))
        } else {
            None
        }
    }

    /// Moves the transform at `from` so that it stands at `to`; out-of-range
    /// positions leave the list as it is.
    pub fn move_transform(&mut self, from: usize, to: usize) -> (moved: bool)
        ensures
            moved == (from < old(self).transforms@.len() && to < old(self).transforms@.len()),
            moved ==> final(self).transforms@ == old(self).transforms@.remove(from as int).insert(
                to as int,
                old(self).transforms@[from as int],
            ),
            !moved ==> final(self).transforms@ == old(self).transforms@,
            final(self).crop == old(self).crop,
    {
        if from < self.transforms.len() && to < self.transforms.len() {
            let t = self.transforms.remove(from);
            self.transforms.insert(to, t);
            true
        } else {
            false
        }
    }

    /// Sets the crop, in the space of the transformed image.
    pub fn set_crop(&mut self, region: CropRegion)
        ensures
            final(self).crop == Some(region),
            final(self).transforms@ == old(self).transforms@,
    {
        self.crop = Some(region);
    }

    /// Removes the crop.
    pub fn clear_crop(&mut self)
        ensures
            final(self).crop is None,
            final(self).transforms@ == old(self).transforms@,
    {
        self.crop = None;
    }
}

/// Cropping an image to its own full extent gives the image back.
pub proof fn lemma_full_crop_is_identity(r: Raster)
    requires
        r.wf(),
        r.width <= u32::MAX,
        r.height <= u32::MAX,
    ensures
        ({
            let full = CropRegion { x: 0, y: 0, width: r.width as u32, height: r.height as u32 };
            region_fits(r, full) && crop_spec(r, full) == r
        }),
{
    let full = CropRegion { x: 0, y: 0, width: r.width as u32, height: r.height as u32 };
    let c = crop_spec(r, full);
    assert forall|y: int| 0 <= y < r.height implies c.rows[y] =~= r.rows[y] by {}
    assert(c.rows =~= r.rows);
}

/// A copy of the image.
fn duplicate(image: &Image) -> (r: Image)
    requires
        image.wf(),
    ensures
        r.wf(),
        r@ == image@,
{
    let full = CropRegion { x: 0, y: 0, width: image.width, height: image.height };
    proof {
        lemma_full_crop_is_identity(image@);
    }
    match crop_image(image, Some(full)) {
        Ok(out) => out,
        // not taken: the full extent always fits
        Err(_) => image.clone(),
    }
}

/// Applies `transforms` in order, each to the result of the one before; no
/// transforms give a copy of the image.
pub fn apply_transforms(image: &Image, transforms: &[Transform]) -> (r: Image)
    requires
        image.wf(),
    ensures
        r.wf(),
        r@ == transforms_spec(image@, transforms@),
{
    let mut cur = duplicate(image);
    let mut i: usize = 0;
    while i < transforms.len()
        invariant
            i <= transforms@.len(),
            cur.wf(),
            cur@ == transforms_spec(image@, transforms@.subrange(0, i as int)),
        decreases transforms@.len() - i,
    {
        cur = apply_transform(&cur, transforms[i]);
        proof {
            assert(transforms@.subrange(0, i + 1).drop_last() =~= transforms@.subrange(0, i as int));
        }
        i += 1;
    }
    assert(transforms@.subrange(0, transforms@.len() as int) =~= transforms@);
    cur
}

/// What `state` makes of `r`: its transforms in order, then its crop, if any.
pub open spec fn edits_spec(r: Raster, state_transforms: Seq<Transform>, crop: Option<CropRegion>) -> Result<Raster, EditError> {
    let t = transforms_spec(r, state_transforms);
    match crop {
        None => Ok(t),
        Some(c) => if region_fits(t, c) {
            Ok(crop_spec(t, c))
        } else {
            Err(EditError::InvalidRegion)
        },
    }
}

/// Applies the transforms of `state` in order, then its crop, if any, in the
/// space of the transformed image.
pub fn apply_edits_to_image(image: &Image, state: &EditState) -> (r: Result<Image, EditError>)
    requires
        image.wf(),
    ensures
        match edits_spec(image@, state.transforms@, state.crop) {
            Ok(v) => r matches Ok(out) && out.wf() && out@ == v,
            Err(e) => r == Err::<Image, EditError>(e),
        },
{
    let transformed = apply_transforms(image, state.transforms.as_slice());
    match state.crop {
        None => Ok(transformed),
        Some(c) => crop_image(&transformed, Some(c)),
    }
}

/// Four quarter turns give the image back.
pub proof fn lemma_four_quarter_turns(r: Raster)
    requires
        r.wf(),
    ensures
        transforms_spec(
            r,
            seq![Transform::Rotate90, Transform::Rotate90, Transform::Rotate90, Transform::Rotate90],
        ) == r,
{
    let q = Transform::Rotate90;
    let ts = seq![q, q, q, q];
    assert(ts.drop_last() =~= seq![q, q, q]);
    assert(seq![q, q, q].drop_last() =~= seq![q, q]);
    assert(seq![q, q].drop_last() =~= seq![q]);
    assert(seq![q].drop_last() =~= Seq::<Transform>::empty());
    let r1 = transform_spec(r, q);
    let r2 = transform_spec(r1, q);
    let r3 = transform_spec(r2, q);
    let r4 = transform_spec(r3, q);
    assert(transforms_spec(r, Seq::<Transform>::empty()) == r);
    assert(transforms_spec(r, seq![q]) == r1);
    assert(transforms_spec(r, seq![q, q]) == r2);
    assert(transforms_spec(r, seq![q, q, q]) == r3);
    assert(transforms_spec(r, ts) == r4);
    let (w, h) = (r.width as int, r.height as int);
    assert forall|y: int| 0 <= y < h implies r4.rows[y] =~= r.rows[y] by {
        assert forall|x: int| 0 <= x < w implies r4.rows[y][x] == r.rows[y][x] by {
            assert(r4.rows[y][x] == r3.rows[w - 1 - x][y]);
            assert(r3.rows[w - 1 - x][y] == r2.rows[h - 1 - y][w - 1 - x]);
            assert(r2.rows[h - 1 - y][w - 1 - x] == r1.rows[x][h - 1 - y]);
            assert(r1.rows[x][h - 1 - y] == r.rows[y][x]);
        }
    }
    assert(r4.rows =~= r.rows);
}

/// Mirroring twice along the same axis gives the image back.
pub proof fn lemma_flip_twice(r: Raster)
    requires
        r.wf(),
    ensures
        transforms_spec(r, seq![Transform::FlipHorizontal, Transform::FlipHorizontal]) == r,
        transforms_spec(r, seq![Transform::FlipVertical, Transform::FlipVertical]) == r,
{
    let h = Transform::FlipHorizontal;
    let v = Transform::FlipVertical;
    assert(seq![h, h].drop_last() =~= seq![h]);
    assert(seq![h].drop_last() =~= Seq::<Transform>::empty());
    assert(seq![v, v].drop_last() =~= seq![v]);
    assert(seq![v].drop_last() =~= Seq::<Transform>::empty());
    let h2 = transform_spec(transform_spec(r, h), h);
    let v2 = transform_spec(transform_spec(r, v), v);
    assert(transforms_spec(r, Seq::<Transform>::empty()) == r);
    assert(transforms_spec(r, seq![h]) == transform_spec(r, h));
    assert(transforms_spec(r, seq![h, h]) == h2);
    assert(transforms_spec(r, seq![v]) == transform_spec(r, v));
    assert(transforms_spec(r, seq![v, v]) == v2);
    assert forall|y: int| 0 <= y < r.height implies h2.rows[y] =~= r.rows[y] && v2.rows[y] =~= r.rows[y] by {}
    assert(h2.rows =~= r.rows);
    assert(v2.rows =~= r.rows);
}

} // verus!
