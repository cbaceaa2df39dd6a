use char_image::bitmap::{Bitmap, CoverageBitmap};
use char_image::options::RenderOption;
use char_image::render::render;

fn source(w: i32, h: i32, pitch: i32, fill: u8) -> Bitmap {
    let mut b = Bitmap::new(w, h, pitch);
    for y in 0..h {
        for x in 0..w {
            b.buffer[(y * pitch + x) as usize] = fill;
        }
    }
    b
}

fn numbered(w: i32, h: i32, pitch: i32) -> Bitmap {
    let mut b = Bitmap::new(w, h, pitch);
    for i in 0..b.buffer.len() {
        b.buffer[i] = (i as u8).wrapping_add(1);
    }
    b
}

/// The merge, written down once more the slow way: pixel by pixel over the
/// whole destination.
fn expected_blit(src: &Bitmap, left: i64, top: i64, dst: &Bitmap) -> Vec<u8> {
    let mut out = dst.buffer.clone();
    for y in 0..dst.h as i64 {
        for x in 0..dst.w as i64 {
            let sx = x - left;
            let sy = y - top;
            if 0 <= sx && sx < src.w as i64 && 0 <= sy && sy < src.h as i64 {
                out[(y * dst.pitch as i64 + x) as usize] |=
                    src.buffer[(sy * src.pitch as i64 + sx) as usize];
            }
        }
    }
    out
}

#[test]
fn new_bitmap_is_zero_filled() {
    let b = Bitmap::new(3, 4, 5);
    assert_eq!(b.w, 3);
    assert_eq!(b.h, 4);
    assert_eq!(b.pitch, 5);
    assert_eq!(b.buffer, vec![0u8; 20]);
}

#[test]
fn new_bitmap_may_be_empty() {
    let b = Bitmap::new(0, 0, 0);
    assert!(b.buffer.is_empty());
    let c = Bitmap::new(0, 7, 0);
    assert!(c.buffer.is_empty());
    let d = Bitmap::new(2, 0, 9);
    assert!(d.buffer.is_empty());
}

#[test]
fn from_ft_bitmap_copies_shape_and_bytes() {
    let cov = CoverageBitmap { rows: 2, width: 3, pitch: 4, buffer: vec![1, 2, 3, 0, 4, 5, 6, 0] };
    assert!(cov.is_well_formed());
    let b = Bitmap::from_ft_bitmap(&cov);
    assert_eq!((b.w, b.h, b.pitch), (3, 2, 4));
    assert_eq!(b.buffer, vec![1, 2, 3, 0, 4, 5, 6, 0]);
    assert_eq!(cov.buffer, vec![1, 2, 3, 0, 4, 5, 6, 0]);
}

#[test]
fn coverage_bitmap_shape_is_tested() {
    let ok = CoverageBitmap { rows: 2, width: 2, pitch: 2, buffer: vec![0; 4] };
    assert!(ok.is_well_formed());
    let empty = CoverageBitmap { rows: 0, width: 0, pitch: 0, buffer: vec![] };
    assert!(empty.is_well_formed());
    let short = CoverageBitmap { rows: 2, width: 2, pitch: 2, buffer: vec![0; 3] };
    assert!(!short.is_well_formed());
    let long = CoverageBitmap { rows: 2, width: 2, pitch: 2, buffer: vec![0; 5] };
    assert!(!long.is_well_formed());
    let upwards = CoverageBitmap { rows: 2, width: 2, pitch: -2, buffer: vec![0; 4] };
    assert!(!upwards.is_well_formed());
    let narrow = CoverageBitmap { rows: 2, width: 3, pitch: 2, buffer: vec![0; 4] };
    assert!(!narrow.is_well_formed());
    let negative_rows = CoverageBitmap { rows: -1, width: 0, pitch: 0, buffer: vec![] };
    assert!(!negative_rows.is_well_formed());
    let negative_width = CoverageBitmap { rows: 1, width: -1, pitch: 0, buffer: vec![] };
    assert!(!negative_width.is_well_formed());
    let huge = CoverageBitmap { rows: 0x10000, width: 0, pitch: 0x10000, buffer: vec![] };
    assert!(!huge.is_well_formed());
}

#[test]
fn blit_inside_copies_onto_blank() {
    let src = numbered(2, 2, 2);
    let mut dst = Bitmap::new(4, 4, 4);
    Bitmap::bitmap_blit(&src, 1, 1, &mut dst);
    assert_eq!(dst.buffer, vec![0, 0, 0, 0, 0, 1, 2, 0, 0, 3, 4, 0, 0, 0, 0, 0]);
}

#[test]
fn blit_merges_with_bitwise_or() {
    let src = source(2, 1, 2, 0x0f);
    let mut dst = source(2, 1, 2, 0xa1);
    Bitmap::bitmap_blit(&src, 0, 0, &mut dst);
    assert_eq!(dst.buffer, vec![0xaf, 0xaf]);
}

#[test]
fn blit_clips_at_top_left() {
    let src = numbered(3, 3, 3);
    let mut dst = Bitmap::new(2, 2, 2);
    Bitmap::bitmap_blit(&src, -2, -1, &mut dst);
    assert_eq!(dst.buffer, vec![6, 0, 9, 0]);
}

#[test]
fn blit_clips_at_bottom_right() {
    let src = numbered(3, 3, 3);
    let mut dst = Bitmap::new(2, 2, 2);
    Bitmap::bitmap_blit(&src, 1, 1, &mut dst);
    assert_eq!(dst.buffer, vec![0, 0, 0, 1]);
}

#[test]
fn blit_fully_outside_changes_nothing() {
    let src = source(3, 3, 3, 0xff);
    let places: [(i32, i32); 12] = [
        (-3, 0),
        (4, 0),
        (0, -3),
        (0, 4),
        (-100, -100),
        (100, 100),
        (i32::MIN, 0),
        (i32::MAX, 0),
        (0, i32::MIN),
        (0, i32::MAX),
        (i32::MIN, i32::MIN),
        (i32::MAX, i32::MAX),
    ];
    for (left, top) in places {
        let mut dst = numbered(4, 4, 6);
        let before = dst.buffer.clone();
        Bitmap::bitmap_blit(&src, left, top, &mut dst);
        assert_eq!(dst.buffer, before, "at {} {}", left, top);
        assert_eq!((dst.w, dst.h, dst.pitch), (4, 4, 6));
    }
}

#[test]
fn blit_of_empty_source_changes_nothing() {
    let src = Bitmap::new(0, 0, 0);
    let mut dst = numbered(3, 3, 3);
    let before = dst.buffer.clone();
    Bitmap::bitmap_blit(&src, 1, 1, &mut dst);
    assert_eq!(dst.buffer, before);
}

#[test]
fn blit_into_empty_destination_changes_nothing() {
    let src = source(2, 2, 2, 9);
    let mut dst = Bitmap::new(0, 3, 2);
    Bitmap::bitmap_blit(&src, -1, 0, &mut dst);
    assert_eq!(dst.buffer, vec![0u8; 6]);
}

#[test]
fn blit_never_writes_into_padding() {
    let src = source(10, 10, 10, 0xff);
    let mut dst = Bitmap::new(2, 3, 5);
    Bitmap::bitmap_blit(&src, -4, -4, &mut dst);
    assert_eq!(dst.buffer, vec![255, 255, 0, 0, 0, 255, 255, 0, 0, 0, 255, 255, 0, 0, 0]);
}

#[test]
fn blit_reads_source_rows_by_their_pitch() {
    let mut src = Bitmap::new(2, 2, 4);
    src.buffer = vec![1, 2, 77, 77, 3, 4, 77, 77];
    let mut dst = Bitmap::new(3, 3, 3);
    Bitmap::bitmap_blit(&src, 1, 1, &mut dst);
    assert_eq!(dst.buffer, vec![0, 0, 0, 0, 1, 2, 0, 3, 4]);
}

#[test]
fn blit_agrees_with_pixelwise_merge_everywhere() {
    let src = numbered(3, 2, 4);
    for left in -5..8 {
        for top in -4..7 {
            let mut dst = numbered(4, 3, 5);
            for b in dst.buffer.iter_mut() {
                *b = b.wrapping_mul(37);
            }
            let expected = expected_blit(&src, left as i64, top as i64, &dst);
            Bitmap::bitmap_blit(&src, left, top, &mut dst);
            assert_eq!(dst.buffer, expected, "at {} {}", left, top);
        }
    }
}

#[test]
fn blit_twice_is_blit_once() {
    let src = numbered(3, 3, 3);
    let mut once = numbered(5, 5, 6);
    Bitmap::bitmap_blit(&src, 1, -1, &mut once);
    let mut twice = numbered(5, 5, 6);
    Bitmap::bitmap_blit(&src, 1, -1, &mut twice);
    Bitmap::bitmap_blit(&src, 1, -1, &mut twice);
    assert_eq!(once.buffer, twice.buffer);
}

#[test]
fn image_size_is_size_plus_padding() {
    let opt = RenderOption { size: 72, padding: 50 };
    assert_eq!(opt.get_image_size(), 122);
    let blank = opt.get_blank_bitmap();
    assert_eq!((blank.w, blank.h, blank.pitch), (122, 122, 122));
    assert_eq!(blank.buffer, vec![0u8; 122 * 122]);
}

#[test]
fn options_are_tested_for_their_limits() {
    assert!(RenderOption { size: 72, padding: 50 }.is_well_formed());
    assert!(RenderOption { size: 1, padding: 0 }.is_well_formed());
    assert!(!RenderOption { size: 0, padding: 5 }.is_well_formed());
    assert!(!RenderOption { size: -1, padding: 5 }.is_well_formed());
    assert!(!RenderOption { size: 5, padding: -1 }.is_well_formed());
    assert!(RenderOption { size: 46340, padding: 0 }.is_well_formed());
    assert!(RenderOption { size: 40000, padding: 6340 }.is_well_formed());
    assert!(!RenderOption { size: 46341, padding: 0 }.is_well_formed());
    assert!(!RenderOption { size: 46340, padding: 1 }.is_well_formed());
    assert!(!RenderOption { size: i32::MAX, padding: i32::MAX }.is_well_formed());
}

#[test]
fn render_centers_even_difference() {
    let glyph = CoverageBitmap { rows: 2, width: 2, pitch: 2, buffer: vec![1, 2, 3, 4] };
    let img = render(&glyph, &RenderOption { size: 3, padding: 1 });
    assert_eq!((img.w, img.h, img.pitch), (4, 4, 4));
    assert_eq!(img.buffer, vec![0, 0, 0, 0, 0, 1, 2, 0, 0, 3, 4, 0, 0, 0, 0, 0]);
}

#[test]
fn render_centers_odd_difference_towards_top_left() {
    let glyph = CoverageBitmap { rows: 2, width: 2, pitch: 2, buffer: vec![1, 2, 3, 4] };
    let img = render(&glyph, &RenderOption { size: 4, padding: 1 });
    assert_eq!((img.w, img.h), (5, 5));
    let expected = vec![
        0, 0, 0, 0, 0, 0, 1, 2, 0, 0, 0, 3, 4, 0, 0, 0, 0, 0, 0, 0, 0, 0, 0, 0, 0,
    ];
    assert_eq!(img.buffer, expected);
}

#[test]
fn render_clips_a_glyph_that_is_too_large() {
    // (3 - 6) / 2 is -1, not -2: the division rounds towards zero.
    let mut buffer = Vec::new();
    for y in 0..4u8 {
        for x in 0..6u8 {
            buffer.push(10 * (y + 1) + x);
        }
    }
    let glyph = CoverageBitmap { rows: 4, width: 6, pitch: 6, buffer };
    let img = render(&glyph, &RenderOption { size: 2, padding: 1 });
    assert_eq!((img.w, img.h), (3, 3));
    // left = -1, top = (3 - 4) / 2 = 0
    assert_eq!(img.buffer, vec![11, 12, 13, 21, 22, 23, 31, 32, 33]);
}

#[test]
fn render_of_empty_glyph_is_blank() {
    let glyph = CoverageBitmap { rows: 0, width: 0, pitch: 0, buffer: vec![] };
    let img = render(&glyph, &RenderOption { size: 2, padding: 0 });
    assert_eq!(img.buffer, vec![0, 0, 0, 0]);
}

#[test]
fn render_twice_gives_identical_canvases() {
    let glyph = CoverageBitmap { rows: 3, width: 2, pitch: 3, buffer: vec![9, 8, 0, 7, 6, 0, 5, 4, 0] };
    let opt = RenderOption { size: 5, padding: 2 };
    let a = render(&glyph, &opt);
    let b = render(&glyph, &opt);
    assert_eq!((a.w, a.h, a.pitch), (b.w, b.h, b.pitch));
    assert_eq!(a.buffer, b.buffer);
}

#[test]
fn bitmap_as_text() {
    let mut b = Bitmap::new(3, 2, 4);
    b.buffer = vec![0, 1, 255, 99, 0x1f, 0, 0xa0, 99];
    assert_eq!(b.to_string(), "..01ff\r\n1f..a0\r\n");
    assert_eq!(Bitmap::new(0, 0, 0).to_string(), "");
    assert_eq!(Bitmap::new(0, 2, 0).to_string(), "\r\n\r\n");
}

#[test]
fn bitmap_shape_is_tested() {
    assert!(Bitmap::new(3, 4, 5).is_well_formed());
    assert!(Bitmap::new(0, 0, 0).is_well_formed());
    assert!(Bitmap { w: 1, h: 1, pitch: 1, buffer: vec![0] }.is_well_formed());
    assert!(!Bitmap { w: 1, h: 1, pitch: 1, buffer: vec![] }.is_well_formed());
    assert!(!Bitmap { w: 1, h: 1, pitch: 1, buffer: vec![0, 0] }.is_well_formed());
    assert!(!Bitmap { w: 2, h: 1, pitch: 1, buffer: vec![0] }.is_well_formed());
    assert!(!Bitmap { w: -1, h: 1, pitch: 1, buffer: vec![0] }.is_well_formed());
    assert!(!Bitmap { w: 0, h: -1, pitch: 1, buffer: vec![] }.is_well_formed());
    assert!(!Bitmap { w: 0, h: 1, pitch: -1, buffer: vec![] }.is_well_formed());
    assert!(!Bitmap { w: 0, h: 0x10000, pitch: 0x10000, buffer: vec![] }.is_well_formed());
}
