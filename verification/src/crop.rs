//! The crop domain model and the two bounds policies.
//!
//! Raster and vector content reject any rectangle that is empty or
//! reaches past the image; paginated content only requires the corner to
//! be in bounds and clamps the extent (see the portable backend).

use vstd::prelude::*;

verus! {

/// A rectangular region in pixel coordinates of the current image.
#[derive(Debug, Clone, Copy, PartialEq, Eq, Structural)]
pub struct CropRegion {
    pub x: u32,
    pub y: u32,
    pub width: u32,
    pub height: u32,
}

impl CropRegion {
    /// Build a region from its corner and extent.
    pub fn new(x: u32, y: u32, width: u32, height: u32) -> (r: Self)
        ensures
            r == (CropRegion { x, y, width, height }),
    {
        Self { x, y, width, height }
    }

    /// The region as `(x, y, width, height)`.
    pub fn as_tuple(&self) -> (t: (u32, u32, u32, u32))
        ensures
            t == (self.x, self.y, self.width, self.height),
    {
        (self.x, self.y, self.width, self.height)
    }

    /// The region covers at least one pixel.
    pub open spec fn spec_is_valid(self) -> bool {
        self.width > 0 && self.height > 0
    }

    /// Check that the region has a non-empty extent.
    pub fn is_valid(&self) -> (b: bool)
        ensures
            b == self.spec_is_valid(),
    {
        self.width > 0 && self.height > 0
    }
}

/// The strict crop policy: a non-empty rectangle that lies entirely
/// inside a `w` by `h` image.
pub open spec fn spec_crop_fits(x: int, y: int, cw: int, ch: int, w: int, h: int) -> bool {
    &&& cw > 0
    &&& ch > 0
    &&& x + cw <= w
    &&& y + ch <= h
}

/// Check the strict crop policy.
pub fn crop_fits(x: u32, y: u32, cw: u32, ch: u32, w: u32, h: u32) -> (b: bool)
    ensures
        b == spec_crop_fits(x as int, y as int, cw as int, ch as int, w as int, h as int),
{
    cw > 0 && ch > 0 && (x as u64) + (cw as u64) <= (w as u64) && (y as u64) + (ch as u64)
        <= (h as u64)
}

} // verus!
