//! From what the font engine gives for one character to the finished image.

use crate::bitmap::{lemma_blit_idempotent, lemma_blit_onto_blank, Bitmap, CoverageBitmap, Raster};
use crate::options::RenderOption;
use vstd::prelude::*;

verus! {

/// Where a span of length `inner` starts when it is centred in one of length
/// `outer`: half the difference, rounded towards zero, so that a span that is
/// too long sticks out by the same amount, or by one more at the far end.
pub open spec fn center_offset(outer: int, inner: int) -> int {
    if outer >= inner {
        (outer - inner) / 2
    } else {
        -((inner - outer) / 2)
    }
}

/// The blank square of side `side` with `glyph` merged into its centre.
pub open spec fn centered(glyph: Raster, side: int) -> Raster {
    Raster::blank(side, side, side).blit(
        glyph,
        center_offset(side, glyph.w),
        center_offset(side, glyph.h),
    )
}

/// Centring splits the room evenly: the margin behind the span is the margin
/// in front of it, or one more where the difference is odd; a span that is
/// too long sticks out in front by what it sticks out behind, or by one less.
pub proof fn lemma_center_offset_even(outer: int, inner: int)
    ensures
        outer >= inner ==> 0 <= center_offset(outer, inner) && 0 <= (outer - inner) - 2
            * center_offset(outer, inner) <= 1,
        outer < inner ==> center_offset(outer, inner) <= 0 && -1 <= (outer - inner) - 2
            * center_offset(outer, inner) <= 0,
{
}

/// Where the glyph ends up: a pixel of the canvas under the centred glyph has
/// the coverage of the glyph there, and every other pixel is blank.
pub proof fn lemma_centered_pixel(glyph: Raster, side: int, x: int, y: int)
    requires
        0 <= x < side,
        0 <= y < side,
    ensures
        centered(glyph, side).pixel(x, y) == (if Raster::blank(side, side, side).covered(
            glyph,
            center_offset(side, glyph.w),
            center_offset(side, glyph.h),
            x,
            y,
        ) {
            glyph.pixel(x - center_offset(side, glyph.w), y - center_offset(side, glyph.h))
        } else {
            0u8
        }),
{
    assert(side * side >= 0) by (nonlinear_arith);
    lemma_blit_onto_blank(
        side,
        side,
        side,
        glyph,
        center_offset(side, glyph.w),
        center_offset(side, glyph.h),
    );
}

/// Rendering is repeatable: two coverage bitmaps with the same content give,
/// under the same options, the same canvas byte for byte; and merging a glyph
/// a second time into its canvas changes nothing.
pub proof fn lemma_render_repeatable(
    first: CoverageBitmap,
    second: CoverageBitmap,
    opt: RenderOption,
)
    requires
        first@ == second@,
    ensures
        centered(first@, opt.image_size()) == centered(second@, opt.image_size()),
        centered(first@, opt.image_size()).blit(
            first@,
            center_offset(opt.image_size(), first@.w),
            center_offset(opt.image_size(), first@.h),
        ) == centered(first@, opt.image_size()),
{
    let side = opt.image_size();
    lemma_blit_idempotent(
        Raster::blank(side, side, side),
        first@,
        center_offset(side, first@.w),
        center_offset(side, first@.h),
    );
}

/// Puts the coverage bitmap of a glyph in the centre of a blank canvas whose
/// side is size plus padding. What does not fit is clipped.
pub fn render(glyph: &CoverageBitmap, opt: &RenderOption) -> (img: Bitmap)
    requires
        glyph.wf(),
        opt.wf(),
    ensures
        img.wf(),
        img@ == centered(glyph@, opt.image_size()),
{
    let mut img: Bitmap = opt.get_blank_bitmap();
    let bitmap: Bitmap = Bitmap::from_ft_bitmap(glyph);
    let left: i32 = (img.w - bitmap.w) / 2;
    let top: i32 = (img.h - bitmap.h) / 2;
    Bitmap::bitmap_blit(&bitmap, left, top, &mut img);
    img
}

} // verus!
