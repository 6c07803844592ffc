//! Browsing an ordered list of image paths.
use vstd::prelude::*;

verus! {

/// File extensions of the images that the browser lists.
pub const EXTENSIONS: [&'static str; 18] = [
    "png", "jpg", "jpeg", "gif", "webp", "bmp", "tiff", "tif", "ico", "avif", "raw", "cr2", "cr3",
    "nef", "arw", "dng", "orf", "rw2",
];

/// The list of images being browsed and the position of the current one.
#[derive(Clone, Debug)]
pub struct NavState {
    images: Vec<String>,
    cur_idx: usize,
}

impl NavState {
    /// The paths being browsed, in order.
    pub closed spec fn paths(&self) -> Seq<String> {
        self.images@
    }

    /// The position of the current image.
    pub closed spec fn pos(&self) -> nat {
        self.cur_idx as nat
    }

    /// The position is that of an image, or zero when there are none.
    pub open spec fn wf(&self) -> bool {
        if self.paths().len() == 0 {
            self.pos() == 0
        } else {
            self.pos() < self.paths().len()
        }
    }

    /// `r` is the path at the current position, or `None` where there is none.
    pub open spec fn is_current(&self, r: Option<&String>) -> bool {
        match r {
            Some(p) => self.pos() < self.paths().len() && *p == self.paths()[self.pos() as int],
            None => self.pos() >= self.paths().len(),
        }
    }

    /// An empty list.
    pub fn new() -> (r: Self)
        ensures
            r.wf(),
            r.paths().len() == 0,
            r.pos() == 0,
    {
        NavState { images: Vec::new(), cur_idx: 0 }
    }

    /// The current image path, if any.
    pub fn current(&self) -> (r: Option<&String>)
        ensures
            self.is_current(r),
    {
        if self.cur_idx < self.images.len() {
            Some(&self.images[self.cur_idx])
        } else {
            None
        }
    }

    /// The current position.
    pub fn index(&self) -> (r: usize)
        ensures
            r == self.pos(),
    {
        self.cur_idx
    }

    /// The number of images.
    pub fn total(&self) -> (r: usize)
        ensures
            r == self.paths().len(),
    {
        self.images.len()
    }

    /// Whether there are no images.
    pub fn is_empty(&self) -> (r: bool)
        ensures
            r == (self.paths().len() == 0),
    {
        self.images.len() == 0
    }

    /// Replaces the list. The current position becomes that of the first path
    /// equal to `select`, or the first one where `select` is absent or not listed.
    pub fn set_images(&mut self, images: Vec<String>, select: Option<&String>)
        ensures
            final(self).wf(),
            final(self).paths() == images@,
            match select {
                Some(s) if exists|i: int| 0 <= i < images@.len() && (#[trigger] images@[i])@ == s@ => {
                    &&& final(self).pos() < images@.len()
                    &&& images@[final(self).pos() as int]@ == s@
                    &&& forall|j: int| 0 <= j < final(self).pos() ==> (#[trigger] images@[j])@ != s@
                },
                _ => final(self).pos() == 0,
            },
    {
        self.images = images;
        let mut found: usize = 0;
        if let Some(path) = select {
            let mut hit: Option<usize> = None;
            let mut i: usize = 0;
            while i < self.images.len()
                invariant
                    i <= self.images@.len(),
                    self.images@ == images@,
                    hit is None ==> forall|j: int| 0 <= j < i ==> (#[trigger] images@[j])@ != path@,
                    hit matches Some(k) ==> {
                        &&& k < images@.len()
                        &&& images@[k as int]@ == path@
                        &&& forall|j: int| 0 <= j < k ==> (#[trigger] images@[j])@ != path@
                    },
                decreases self.images@.len() - i,
            {
                if hit.is_none() && self.images[i] == *path {
                    hit = Some(i);
                }
                i += 1;
            }
            if let Some(k) = hit {
                found = k;
            }
        }
        self.cur_idx = found;
    }

    /// Moves to the next image, from the last back to the first; `None` when
    /// there are no images.
    pub fn next(&mut self) -> (r: Option<&String>)
        requires
            old(self).wf(),
        ensures
            final(self).wf(),
            final(self).paths() == old(self).paths(),
            old(self).paths().len() == 0 ==> r is None && final(self).pos() == 0,
            old(self).paths().len() > 0 ==> final(self).pos() == (old(self).pos() + 1) % old(self).paths().len()
                && final(self).is_current(r),
    {
        if self.images.len() == 0 {
            return None;
        }
        self.cur_idx = (self.cur_idx + 1) % self.images.len();
        self.current()
    }

    /// Moves to the previous image, from the first back to the last; `None`
    /// when there are no images.
    pub fn prev(&mut self) -> (r: Option<&String>)
        requires
            old(self).wf(),
        ensures
            final(self).wf(),
            final(self).paths() == old(self).paths(),
            old(self).paths().len() == 0 ==> r is None && final(self).pos() == 0,
            old(self).paths().len() > 0 ==> final(self).pos() == (if old(self).pos() == 0 {
                old(self).paths().len() - 1
            } else {
                old(self).pos() - 1
            }) && final(self).is_current(r),
    {
        if self.images.len() == 0 {
            return None;
        }
        self.cur_idx = if self.cur_idx == 0 {
            self.images.len() - 1
        } else {
            self.cur_idx - 1
        };
        self.current()
    }

    /// Moves to the first image; `None` when there are no images.
    pub fn first(&mut self) -> (r: Option<&String>)
        requires
            old(self).wf(),
        ensures
            final(self).wf(),
            final(self).paths() == old(self).paths(),
            final(self).pos() == 0,
            final(self).is_current(r),
    {
        if self.images.len() == 0 {
            return None;
        }
        self.cur_idx = 0;
        self.current()
    }

    /// Moves to the last image; `None` when there are no images.
    pub fn last(&mut self) -> (r: Option<&String>)
        requires
            old(self).wf(),
        ensures
            final(self).wf(),
            final(self).paths() == old(self).paths(),
            old(self).paths().len() == 0 ==> r is None && final(self).pos() == 0,
            old(self).paths().len() > 0 ==> final(self).pos() == old(self).paths().len() - 1
                && final(self).is_current(r),
    {
        if self.images.len() == 0 {
            return None;
        }
        self.cur_idx = self.images.len() - 1;
        self.current()
    }

    /// Moves to position `idx` if there is an image there; otherwise stays and
    /// returns `None`.
    pub fn go_to(&mut self, idx: usize) -> (r: Option<&String>)
        requires
            old(self).wf(),
        ensures
            final(self).wf(),
            final(self).paths() == old(self).paths(),
            idx < old(self).paths().len() ==> final(self).pos() == idx
                && final(self).is_current(r),
            idx >= old(self).paths().len() ==> r is None && final(self).pos() == old(self).pos(),
    {
        if idx < self.images.len() {
            self.cur_idx = idx;
            self.current()
        } else {
            None
        }
    }
}

impl Default for NavState {
    fn default() -> (r: Self)
        ensures
            r.wf(),
            r.paths().len() == 0,
            r.pos() == 0,
    {
        Self::new()
    }
}

} // verus!
