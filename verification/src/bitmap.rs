//! Coverage rasters with a row stride, and the clipped merge of one into another.

use crate::text::{hex_text, push_hex};
use vstd::arithmetic::div_mod::{lemma_fundamental_div_mod, lemma_fundamental_div_mod_converse};
use vstd::arithmetic::mul::{lemma_mul_inequality, lemma_mul_is_distributive_add_other_way};
use vstd::prelude::*;
use vstd::string::*;

verus! {

/// First coordinate of a destination that a source placed at `offset` reaches.
pub open spec fn span_start(offset: int) -> int {
    if offset > 0 {
        offset
    } else {
        0
    }
}

/// End (exclusive) of what a source of length `len` placed at `offset` reaches
/// in a destination of length `limit`.
pub open spec fn span_end(offset: int, len: int, limit: int) -> int {
    if offset + len < limit {
        offset + len
    } else {
        limit
    }
}

/// The mathematical content of a bitmap: its visible size, its row stride and
/// its bytes, row after row.
pub struct Raster {
    pub w: int,
    pub h: int,
    pub pitch: int,
    pub data: Seq<u8>,
}

impl Raster {
    /// The visible width fits in a row, and there are exactly `h` rows of `pitch` bytes.
    pub open spec fn wf(self) -> bool {
        &&& 0 <= self.w <= self.pitch
        &&& 0 <= self.h
        &&& self.data.len() == self.h * self.pitch
    }

    /// The byte of column `x` in row `y`.
    pub open spec fn pixel(self, x: int, y: int) -> u8 {
        self.data[y * self.pitch + x]
    }

    /// The raster of the given shape whose bytes are all zero.
    pub open spec fn blank(w: int, h: int, pitch: int) -> Raster {
        Raster { w, h, pitch, data: Seq::new((h * pitch) as nat, |i: int| 0u8) }
    }

    /// Whether `(x, y)` is a visible pixel of `self` that `src` covers when the
    /// top-left corner of `src` is put at `(left, top)`.
    pub open spec fn covered(self, src: Raster, left: int, top: int, x: int, y: int) -> bool {
        &&& span_start(left) <= x < span_end(left, src.w, self.w)
        &&& span_start(top) <= y < span_end(top, src.h, self.h)
    }

    /// Whether `src`, put at `(left, top)`, shares no pixel with `self`.
    pub open spec fn misses(self, src: Raster, left: int, top: int) -> bool {
        ||| span_end(left, src.w, self.w) <= span_start(left)
        ||| span_end(top, src.h, self.h) <= span_start(top)
    }

    /// A pixel as text: two hexadecimal digits, or two dots where it is zero.
    pub open spec fn pixel_text(p: u8) -> Seq<char> {
        if p > 0 {
            hex_text(p as nat, 2)
        } else {
            seq!['.', '.']
        }
    }

    /// The first `upto` pixels of row `y` as text.
    pub open spec fn row_text(self, y: int, upto: int) -> Seq<char>
        decreases upto,
    {
        if upto <= 0 {
            Seq::empty()
        } else {
            self.row_text(y, upto - 1) + Self::pixel_text(self.pixel(upto - 1, y))
        }
    }

    /// The first `upto` rows as text, each closed by a carriage return and a
    /// line feed.
    pub open spec fn rows_text(self, upto: int) -> Seq<char>
        decreases upto,
    {
        if upto <= 0 {
            Seq::empty()
        } else {
            self.rows_text(upto - 1) + self.row_text(upto - 1, self.w) + seq!['\r', '\n']
        }
    }

    /// The visible pixels as text.
    pub open spec fn text(self) -> Seq<char> {
        self.rows_text(self.h)
    }

    /// `self` after `src` has been merged into it at `(left, top)`: a covered
    /// pixel becomes the bitwise OR of both pixels, every other byte stays.
    pub open spec fn blit(self, src: Raster, left: int, top: int) -> Raster {
        Raster {
            w: self.w,
            h: self.h,
            pitch: self.pitch,
            data: Seq::new(
                self.data.len(),
                |i: int|
                    {
                        let x = i % self.pitch;
                        let y = i / self.pitch;
                        if self.covered(src, left, top, x, y) {
                            self.data[i] | src.pixel(x - left, y - top)
                        } else {
                            self.data[i]
                        }
                    },
            ),
        }
    }
}

/// In a well-formed raster the cell `(x, y)` of a row that exists, at a column
/// within the stride, has an index of its own, from which row and column can
/// be read back.
pub proof fn lemma_cell_index(r: Raster, x: int, y: int)
    requires
        r.wf(),
        0 <= x < r.pitch,
        0 <= y < r.h,
    ensures
        0 <= y * r.pitch + x < r.data.len(),
        (y * r.pitch + x) / r.pitch == y,
        (y * r.pitch + x) % r.pitch == x,
{
    lemma_fundamental_div_mod_converse(y * r.pitch + x, r.pitch, y, x);
    lemma_mul_inequality(y + 1, r.h, r.pitch);
    lemma_mul_is_distributive_add_other_way(r.pitch, y, 1);
    lemma_mul_inequality(0, y, r.pitch);
}

/// A merge leaves the shape of the destination as it was, and changes no byte
/// but those of visible pixels: wherever the source is put, nothing is written
/// outside `[0, w) x [0, h)`, nor into the padding of a row.
pub proof fn lemma_blit_confined(dst: Raster, src: Raster, left: int, top: int)
    ensures
        dst.blit(src, left, top).w == dst.w,
        dst.blit(src, left, top).h == dst.h,
        dst.blit(src, left, top).pitch == dst.pitch,
        dst.blit(src, left, top).data.len() == dst.data.len(),
        dst.wf() ==> dst.blit(src, left, top).wf(),
        forall|i: int|
            0 <= i < dst.data.len() && #[trigger] dst.blit(src, left, top).data[i] != dst.data[i]
                ==> 0 <= i % dst.pitch < dst.w && 0 <= i / dst.pitch < dst.h,
{
}

/// What a merge does, pixel by pixel: a pixel that the placed source covers
/// becomes the bitwise OR of the two, and any other cell of the destination,
/// padding included, keeps its byte.
pub proof fn lemma_blit_pixel(dst: Raster, src: Raster, left: int, top: int, x: int, y: int)
    requires
        dst.wf(),
        0 <= x < dst.pitch,
        0 <= y < dst.h,
    ensures
        dst.blit(src, left, top).pixel(x, y) == (if dst.covered(src, left, top, x, y) {
            dst.pixel(x, y) | src.pixel(x - left, y - top)
        } else {
            dst.pixel(x, y)
        }),
{
    lemma_cell_index(dst, x, y);
}

/// A source that lies fully outside the destination, or is empty, changes nothing.
pub proof fn lemma_blit_outside_is_noop(dst: Raster, src: Raster, left: int, top: int)
    requires
        dst.misses(src, left, top),
    ensures
        dst.blit(src, left, top) == dst,
{
    assert(dst.blit(src, left, top).data =~= dst.data);
}

/// Merging the same source at the same place a second time changes nothing.
pub proof fn lemma_blit_idempotent(dst: Raster, src: Raster, left: int, top: int)
    ensures
        dst.blit(src, left, top).blit(src, left, top) == dst.blit(src, left, top),
{
    let once = dst.blit(src, left, top);
    assert forall|i: int| 0 <= i < once.data.len() implies #[trigger] once.blit(
        src,
        left,
        top,
    ).data[i] == once.data[i] by {
        let a = dst.data[i];
        let b = src.pixel(i % dst.pitch - left, i / dst.pitch - top);
        assert((a | b) | b == a | b) by (bit_vector);
    }
    assert(once.blit(src, left, top).data =~= once.data);
}

/// On a blank destination a merge is a clipped copy: a covered pixel takes the
/// byte of the source, and every other byte is zero.
pub proof fn lemma_blit_onto_blank(w: int, h: int, pitch: int, src: Raster, left: int, top: int)
    requires
        Raster::blank(w, h, pitch).wf(),
    ensures
        forall|x: int, y: int|
            0 <= x < pitch && 0 <= y < h ==> #[trigger] Raster::blank(w, h, pitch).blit(
                src,
                left,
                top,
            ).pixel(x, y) == (if Raster::blank(w, h, pitch).covered(src, left, top, x, y) {
                src.pixel(x - left, y - top)
            } else {
                0u8
            }),
{
    let blank = Raster::blank(w, h, pitch);
    assert forall|x: int, y: int| 0 <= x < pitch && 0 <= y < h implies #[trigger] blank.blit(
        src,
        left,
        top,
    ).pixel(x, y) == (if blank.covered(src, left, top, x, y) {
        src.pixel(x - left, y - top)
    } else {
        0u8
    }) by {
        lemma_blit_pixel(blank, src, left, top, x, y);
        lemma_cell_index(blank, x, y);
        let b = src.pixel(x - left, y - top);
        assert(0u8 | b == b) by (bit_vector);
    }
}

/// A single-channel raster: `h` rows of `pitch` bytes, of which the first `w`
/// of each row are pixels.
#[derive(Clone, Debug, PartialEq, Eq)]
pub struct Bitmap {
    pub w: i32,
    pub h: i32,
    pub pitch: i32,
    pub buffer: Vec<u8>,
}

impl View for Bitmap {
    type V = Raster;

    open spec fn view(&self) -> Raster {
        Raster { w: self.w as int, h: self.h as int, pitch: self.pitch as int, data: self.buffer@ }
    }
}

/// A coverage bitmap as a font engine hands it over, already copied out of the
/// engine's own memory.
#[derive(Clone, Debug, PartialEq, Eq)]
pub struct CoverageBitmap {
    pub rows: i32,
    pub width: i32,
    pub pitch: i32,
    pub buffer: Vec<u8>,
}

impl View for CoverageBitmap {
    type V = Raster;

    open spec fn view(&self) -> Raster {
        Raster {
            w: self.width as int,
            h: self.rows as int,
            pitch: self.pitch as int,
            data: self.buffer@,
        }
    }
}

impl CoverageBitmap {
    /// The shape is consistent and every byte can be addressed with an `i32`.
    pub open spec fn wf(&self) -> bool {
        self@.wf() && self.rows * self.pitch <= i32::MAX
    }

    /// Tests the shape at run time: rows go downwards (`pitch` is not
    /// negative), hold at least `width` bytes, and the buffer has them all.
    pub fn is_well_formed(&self) -> (ok: bool)
        ensures
            ok == self.wf(),
    {
        if self.width < 0 || self.rows < 0 || self.pitch < self.width {
            return false;
        }
        proof {
            assert(0 <= self.rows * self.pitch <= 0x7fff_ffff * 0x7fff_ffff) by (nonlinear_arith)
                requires
                    0 <= self.rows <= 0x7fff_ffff,
                    0 <= self.pitch <= 0x7fff_ffff,
            ;
        }
        let size: i64 = (self.rows as i64) * (self.pitch as i64);
        size <= i32::MAX as i64 && self.buffer.len() as u64 == size as u64
    }
}

impl Bitmap {
    /// The shape is consistent and every byte can be addressed with an `i32`.
    pub open spec fn wf(&self) -> bool {
        self@.wf() && self.h * self.pitch <= i32::MAX
    }

    /// Tests the shape at run time.
    pub fn is_well_formed(&self) -> (ok: bool)
        ensures
            ok == self.wf(),
    {
        if self.w < 0 || self.h < 0 || self.pitch < self.w {
            return false;
        }
        proof {
            assert(0 <= self.h * self.pitch <= 0x7fff_ffff * 0x7fff_ffff) by (nonlinear_arith)
                requires
                    0 <= self.h <= 0x7fff_ffff,
                    0 <= self.pitch <= 0x7fff_ffff,
            ;
        }
        let size: i64 = (self.h as i64) * (self.pitch as i64);
        size <= i32::MAX as i64 && self.buffer.len() as u64 == size as u64
    }

    /// A zero-filled bitmap of `h` rows of `pitch` bytes, `w` of them visible.
    pub fn new(w: i32, h: i32, pitch: i32) -> (bitmap: Bitmap)
        requires
            0 <= w <= pitch,
            0 <= h,
            h * pitch <= i32::MAX,
        ensures
            bitmap.wf(),
            bitmap@ == Raster::blank(w as int, h as int, pitch as int),
    {
        proof {
            assert(0 <= h * pitch) by (nonlinear_arith)
                requires
                    0 <= h,
                    0 <= pitch,
            ;
        }
        let size: i32 = h * pitch;
        let buffer: Vec<u8> = vec![0u8; size as usize];
        assert(buffer@ =~= Raster::blank(w as int, h as int, pitch as int).data);
        Bitmap { w, h, pitch, buffer }
    }

    /// Merges `src` into `dst` with its top-left corner at `(left, top)`, which may
    /// lie anywhere: what falls outside `dst` is clipped, and where the two
    /// overlap each pixel of `dst` becomes the bitwise OR of both.
    pub fn bitmap_blit(src: &Bitmap, left: i32, top: i32, dst: &mut Bitmap)
        requires
            src.wf(),
            old(dst).wf(),
        ensures
            final(dst).wf(),
            final(dst)@ == old(dst)@.blit(src@, left as int, top as int),
    {
        let ghost before: Raster = dst@;
        let ghost from: Raster = src@;
        let x1: i64 = if left > 0 { left as i64 } else { 0 };
        let x2: i64 = if (left as i64) + (src.w as i64) < dst.w as i64 {
            (left as i64) + (src.w as i64)
        } else {
            dst.w as i64
        };
        let y1: i64 = if top > 0 { top as i64 } else { 0 };
        let y2: i64 = if (top as i64) + (src.h as i64) < dst.h as i64 {
            (top as i64) + (src.h as i64)
        } else {
            dst.h as i64
        };
        if x2 <= x1 || y2 <= y1 {
            assert(dst@.data =~= before.blit(from, left as int, top as int).data);
            return ;
        }
        let dst_pitch: i64 = dst.pitch as i64;
        let src_pitch: i64 = src.pitch as i64;
        let mut y: i64 = y1;
        while y < y2
            invariant
                src.wf(),
                from == src@,
                before.wf(),
                before.h * before.pitch <= i32::MAX,
                dst.w == before.w,
                dst.h == before.h,
                dst.pitch == before.pitch,
                dst_pitch == before.pitch,
                src_pitch == from.pitch,
                dst.buffer@.len() == before.data.len(),
                x1 == span_start(left as int),
                x2 == span_end(left as int, from.w, before.w),
                y1 == span_start(top as int),
                y2 == span_end(top as int, from.h, before.h),
                x1 < x2,
                y1 <= y <= y2,
                forall|i: int|
                    0 <= i < before.data.len() ==> #[trigger] dst.buffer@[i] == (if i
                        / before.pitch < y {
                        before.blit(from, left as int, top as int).data[i]
                    } else {
                        before.data[i]
                    }),
            decreases y2 - y,
        {
            let mut x: i64 = x1;
            while x < x2
                invariant
                    src.wf(),
                    from == src@,
                    before.wf(),
                    before.h * before.pitch <= i32::MAX,
                    dst.w == before.w,
                    dst.h == before.h,
                    dst.pitch == before.pitch,
                    dst_pitch == before.pitch,
                    src_pitch == from.pitch,
                    dst.buffer@.len() == before.data.len(),
                    x1 == span_start(left as int),
                    x2 == span_end(left as int, from.w, before.w),
                    y1 == span_start(top as int),
                    y2 == span_end(top as int, from.h, before.h),
                    y1 <= y < y2,
                    x1 <= x <= x2,
                    forall|i: int|
                        0 <= i < before.data.len() ==> #[trigger] dst.buffer@[i] == (if i
                            / before.pitch < y || (i / before.pitch == y && i % before.pitch < x) {
                            before.blit(from, left as int, top as int).data[i]
                        } else {
                            before.data[i]
                        }),
                decreases x2 - x,
            {
                proof {
                    lemma_cell_index(before, x as int, y as int);
                    lemma_cell_index(from, x - left, y - top);
                }
                let di: usize = (y * dst_pitch + x) as usize;
                let si: usize = ((y - top as i64) * src_pitch + (x - left as i64)) as usize;
                let merged: u8 = dst.buffer[di] | src.buffer[si];
                let ghost earlier: Seq<u8> = dst.buffer@;
                dst.buffer.set(di, merged);
                proof {
                    assert(before.covered(from, left as int, top as int, x as int, y as int));
                    assert forall|i: int| 0 <= i < before.data.len() implies #[trigger] dst.buffer@[i]
                        == (if i / before.pitch < y || (i / before.pitch == y && i % before.pitch < x
                        + 1) {
                        before.blit(from, left as int, top as int).data[i]
                    } else {
                        before.data[i]
                    }) by {
                        if i != di && i / before.pitch == y && i % before.pitch == x {
                            lemma_fundamental_div_mod(i, before.pitch);
                            assert(before.pitch * (i / before.pitch) == y * before.pitch)
                                by (nonlinear_arith)
                                requires
                                    i / before.pitch == y,
                            ;
                        }
                        assert(dst.buffer@[i] == earlier.update(di as int, merged)[i]);
                    }
                }
                x = x + 1;
            }
            y = y + 1;
        }
        assert(dst@.data =~= before.blit(from, left as int, top as int).data);
    }

    /// The bitmap as text: a line for each row, closed by a carriage return
    /// and a line feed, and two letters for each pixel.
    pub fn to_string(&self) -> (text: String)
        requires
            self.wf(),
        ensures
            text@ == self@.text(),
    {
        let mut out: String = String::new();
        let mut y: i32 = 0;
        while y < self.h
            invariant
                self.wf(),
                0 <= y <= self.h,
                out@ == self@.rows_text(y as int),
            decreases self.h - y,
        {
            let mut x: i32 = 0;
            while x < self.w
                invariant
                    self.wf(),
                    0 <= y < self.h,
                    0 <= x <= self.w,
                    out@ == self@.rows_text(y as int) + self@.row_text(y as int, x as int),
                decreases self.w - x,
            {
                proof {
                    lemma_cell_index(self@, x as int, y as int);
                }
                let pixel: u8 = self.buffer[(self.pitch * y + x) as usize];
                assert(pixel == self@.pixel(x as int, y as int)) by {
                    assert(self.pitch * y == y * self.pitch) by (nonlinear_arith);
                }
                let ghost line: Seq<char> = out@;
                if pixel > 0 {
                    push_hex(&mut out, pixel as u32, 2);
                } else {
                    out.append("..");
                }
                x = x + 1;
                proof {
                    reveal_strlit("..");
                    assert(out@ =~= line + Raster::pixel_text(pixel));
                    assert(self@.row_text(y as int, x as int) == self@.row_text(y as int, x - 1)
                        + Raster::pixel_text(self@.pixel(x - 1, y as int)));
                    assert(out@ =~= self@.rows_text(y as int) + self@.row_text(
                        y as int,
                        x as int,
                    ));
                }
            }
            let ghost rows: Seq<char> = out@;
            out.append("\r\n");
            y = y + 1;
            proof {
                reveal_strlit("\r\n");
                assert(out@ =~= rows + seq!['\r', '\n']);
                assert(self@.rows_text(y as int) == self@.rows_text(y - 1) + self@.row_text(
                    y - 1,
                    self@.w,
                ) + seq!['\r', '\n']);
            }
        }
        out
    }

    /// Takes over a coverage bitmap of the font engine, with a buffer of its own.
    pub fn from_ft_bitmap(bitmap: &CoverageBitmap) -> (copy: Bitmap)
        requires
            bitmap.wf(),
        ensures
            copy.wf(),
            copy@ == bitmap@,
    {
        let buffer: Vec<u8> = bitmap.buffer.clone();
        assert(buffer@ =~= bitmap.buffer@);
        Bitmap { w: bitmap.width, h: bitmap.rows, pitch: bitmap.pitch, buffer }
    }
}

} // verus!
