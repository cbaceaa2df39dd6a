//! What a caller chooses for one rendering.

use crate::bitmap::{Bitmap, Raster};
use vstd::prelude::*;

verus! {

/// Pixel size of the font, and the padding that is added to it to give the
/// side of the square image.
#[derive(Clone, Copy, Debug)]
pub struct RenderOption {
    pub size: i32,
    pub padding: i32,
}

impl RenderOption {
    /// Side of the image: size plus padding.
    pub open spec fn image_size(&self) -> int {
        self.size + self.padding
    }

    /// The side can be held in an `i32`.
    pub open spec fn has_side(&self) -> bool {
        i32::MIN <= self.image_size() <= i32::MAX
    }

    /// A positive size, a padding that is not negative, and a square of that
    /// side whose bytes can all be addressed with an `i32`.
    pub open spec fn wf(&self) -> bool {
        &&& self.size > 0
        &&& self.padding >= 0
        &&& self.image_size() * self.image_size() <= i32::MAX
    }

    /// Tests at run time whether an image of these options can be made.
    pub fn is_well_formed(&self) -> (ok: bool)
        ensures
            ok == self.wf(),
    {
        if self.size <= 0 || self.padding < 0 {
            return false;
        }
        let side: i64 = self.size as i64 + self.padding as i64;
        if side > 46340 {
            assert(side * side > i32::MAX) by (nonlinear_arith)
                requires
                    side >= 46341,
            ;
            return false;
        }
        assert(0 <= side * side <= 46340 * 46340) by (nonlinear_arith)
            requires
                0 <= side <= 46340,
        ;
        side * side <= i32::MAX as i64
    }

    /// Side of the image in pixels.
    pub fn get_image_size(&self) -> (side: i32)
        requires
            self.has_side(),
        ensures
            side == self.image_size(),
    {
        self.size + self.padding
    }

    /// The blank square canvas of these options, rows without padding bytes.
    pub fn get_blank_bitmap(&self) -> (blank: Bitmap)
        requires
            self.wf(),
        ensures
            blank.wf(),
            blank@ == Raster::blank(self.image_size(), self.image_size(), self.image_size()),
    {
        proof {
            lemma_side_fits(self.image_size());
        }
        let a: i32 = self.size + self.padding;
        Bitmap::new(a, a, a)
    }
}

/// A number that is not negative is no larger than its square, unless it is zero.
proof fn lemma_side_fits(side: int)
    requires
        0 <= side,
        side * side <= i32::MAX,
    ensures
        side <= i32::MAX,
{
    assert(side <= side * side) by (nonlinear_arith)
        requires
            0 <= side,
    ;
}

} // verus!
