//! Raster images held as rows of packed pixels.
use vstd::prelude::*;

verus! {

/// The mathematical content of an image: its size and its rows of pixels.
pub struct Raster {
    pub width: nat,
    pub height: nat,
    pub rows: Seq<Seq<u32>>,
}

impl Raster {
    /// `height` rows of `width` pixels each.
    pub open spec fn wf(self) -> bool {
        &&& self.rows.len() == self.height
        &&& forall|y: int| 0 <= y < self.height ==> (#[trigger] self.rows[y]).len() == self.width
    }
}

/// A decoded image: `rows[y][x]` is the pixel in column `x` of row `y`, each
/// pixel a packed RGBA value.
#[derive(Clone, Debug)]
pub struct Image {
    pub width: u32,
    pub height: u32,
    pub rows: Vec<Vec<u32>>,
}

impl View for Image {
    type V = Raster;

    open spec fn view(&self) -> Raster {
        Raster {
            width: self.width as nat,
            height: self.height as nat,
            rows: self.rows@.map_values(|row: Vec<u32>| row@),
        }
    }
}

impl Image {
    pub open spec fn wf(&self) -> bool {
        self@.wf()
    }

    /// An image of `width` by `height` pixels, all equal to `fill`.
    pub fn filled(width: u32, height: u32, fill: u32) -> (r: Image)
        ensures
            r.wf(),
            r@.width == width,
            r@.height == height,
            forall|y: int, x: int| 0 <= y < height && 0 <= x < width ==> #[trigger] r@.rows[y][x] == fill,
    {
        let mut rows: Vec<Vec<u32>> = Vec::new();
        let mut y: u32 = 0;
        while y < height
            invariant
                y <= height,
                rows@.len() == y,
                forall|j: int| 0 <= j < y ==> (#[trigger] rows@[j])@.len() == width,
                forall|j: int, x: int| 0 <= j < y && 0 <= x < width ==> #[trigger] rows@[j]@[x] == fill,
            decreases height - y,
        {
            let mut row: Vec<u32> = Vec::new();
            let mut x: u32 = 0;
            while x < width
                invariant
                    x <= width,
                    row@.len() == x,
                    forall|i: int| 0 <= i < x ==> #[trigger] row@[i] == fill,
                decreases width - x,
            {
                row.push(fill);
                x += 1;
            }
            rows.push(row);
            y += 1;
        }
        Image { width, height, rows }
    }

    /// The pixel in column `x` of row `y`, if the image has one there.
    pub fn pixel(&self, x: u32, y: u32) -> (r: Option<u32>)
        requires
            self.wf(),
        ensures
            r == (if x < self.width && y < self.height {
                Some(self@.rows[y as int][x as int])
            } else {
                None
            }),
    {
        if x < self.width && y < self.height {
            assert(self.rows@[y as int]@ == self@.rows[y as int]);
            Some(self.rows[y as usize][x as usize])
        } else {
            None
        }
    }
}

/// Hooks for optional image codecs. No optional codec is built into this
/// library, so there is nothing to register.
pub fn register_format_hooks() {
}

} // verus!
