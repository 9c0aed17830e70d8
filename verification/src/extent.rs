//! Two-dimensional pixel extent of the presentation surface and of the
//! textures that must stay sized to it.

use vstd::prelude::*;

verus! {

/// Width and height of a surface or texture, in pixels.
#[derive(Clone, Copy, Debug, PartialEq, Eq, Structural)]
pub struct Extent {
    pub width: u32,
    pub height: u32,
}

impl Extent {
    /// An extent can back a drawable surface only when neither side is zero.
    pub open spec fn is_drawable(self) -> bool {
        self.width > 0 && self.height > 0
    }

    pub fn new(width: u32, height: u32) -> (e: Extent)
        ensures
            e == (Extent { width, height }),
    {
        Extent { width, height }
    }

    pub fn drawable(&self) -> (b: bool)
        ensures
            b == self.is_drawable(),
    {
        self.width > 0 && self.height > 0
    }
}

} // verus!
