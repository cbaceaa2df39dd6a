//! Glyph outlines as scalable vector documents.

use crate::options::RenderOption;
use crate::text::{fixed_text, hex_text, int_text, is_pow2, push_fixed, push_hex, push_int};
use vstd::prelude::*;
use vstd::string::*;

verus! {

/// One command of an outline. Coordinates are 26.6 fixed-point numbers: the
/// stored integer is sixty-four times the coordinate.
#[derive(Clone, Copy, Debug, PartialEq, Eq, Structural)]
pub enum SVGPathElem {
    MoveTo(i32, i32),
    LineTo(i32, i32),
    ConicTo(i32, i32, i32, i32),
    CubicTo(i32, i32, i32, i32, i32, i32),
}

/// A 26.6 fixed-point coordinate as text: the exact decimal of `raw / 64`.
pub open spec fn coord_text(raw: i32) -> Seq<char> {
    fixed_text(raw as int, 64)
}

impl SVGPathElem {
    /// The command as one line of path data: its letter, its coordinates
    /// separated by single spaces, and a line feed.
    pub open spec fn text(self) -> Seq<char> {
        match self {
            SVGPathElem::MoveTo(x, y) => seq!['M'] + coord_text(x) + seq![' '] + coord_text(y)
                + seq!['\n'],
            SVGPathElem::LineTo(x, y) => seq!['L'] + coord_text(x) + seq![' '] + coord_text(y)
                + seq!['\n'],
            SVGPathElem::ConicTo(cx, cy, x, y) => seq!['Q'] + coord_text(cx) + seq![' ']
                + coord_text(cy) + seq![' '] + coord_text(x) + seq![' '] + coord_text(y)
                + seq!['\n'],
            SVGPathElem::CubicTo(c1x, c1y, c2x, c2y, x, y) => seq!['C'] + coord_text(c1x)
                + seq![' '] + coord_text(c1y) + seq![' '] + coord_text(c2x) + seq![' ']
                + coord_text(c2y) + seq![' '] + coord_text(x) + seq![' '] + coord_text(y)
                + seq!['\n'],
        }
    }

    /// The command as one line of path data.
    pub fn to_string(&self) -> (s: String)
        ensures
            s@ == self.text(),
    {
        let mut out: String = String::new();
        proof {
            reveal_strlit("M");
            reveal_strlit("L");
            reveal_strlit("Q");
            reveal_strlit("C");
            reveal_strlit("\n");
        }
        match *self {
            SVGPathElem::MoveTo(x, y) => {
                out.append("M");
                push_coord(&mut out, x);
                push_spaced(&mut out, y);
            },
            SVGPathElem::LineTo(x, y) => {
                out.append("L");
                push_coord(&mut out, x);
                push_spaced(&mut out, y);
            },
            SVGPathElem::ConicTo(cx, cy, x, y) => {
                out.append("Q");
                push_coord(&mut out, cx);
                push_spaced(&mut out, cy);
                push_spaced(&mut out, x);
                push_spaced(&mut out, y);
            },
            SVGPathElem::CubicTo(c1x, c1y, c2x, c2y, x, y) => {
                out.append("C");
                push_coord(&mut out, c1x);
                push_spaced(&mut out, c1y);
                push_spaced(&mut out, c2x);
                push_spaced(&mut out, c2y);
                push_spaced(&mut out, x);
                push_spaced(&mut out, y);
            },
        }
        out.append("\n");
        assert(out@ =~= self.text());
        out
    }
}

/// Appends a coordinate.
fn push_coord(out: &mut String, raw: i32)
    ensures
        final(out)@ == old(out)@ + coord_text(raw),
{
    proof {
        reveal_with_fuel(is_pow2, 8);
    }
    push_fixed(out, raw as i64, 64);
}

/// Appends a space and a coordinate.
fn push_spaced(out: &mut String, raw: i32)
    ensures
        final(out)@ == old(out)@ + seq![' '] + coord_text(raw),
{
    proof {
        reveal_strlit(" ");
    }
    out.append(" ");
    push_coord(out, raw);
}

/// The lines of all commands, in their order.
pub open spec fn path_text(elems: Seq<SVGPathElem>) -> Seq<char>
    decreases elems.len(),
{
    if elems.len() == 0 {
        Seq::empty()
    } else {
        path_text(elems.drop_last()) + elems.last().text()
    }
}

/// The path data of an outline: one line for each command, in the order of
/// the commands.
pub fn svg_path(elems: &Vec<SVGPathElem>) -> (path: String)
    ensures
        path@ == path_text(elems@),
{
    let mut out: String = String::new();
    let mut i: usize = 0;
    while i < elems.len()
        invariant
            i <= elems.len(),
            out@ == path_text(elems@.take(i as int)),
        decreases elems.len() - i,
    {
        let line: String = elems[i].to_string();
        out.append(line.as_str());
        proof {
            assert(elems@.take(i + 1).drop_last() =~= elems@.take(i as int));
        }
        i = i + 1;
    }
    assert(elems@.take(i as int) =~= elems@);
    out
}

/// A point as the font engine reports it, in 26.6 fixed-point units.
#[derive(Clone, Copy, Debug, PartialEq, Eq, Structural)]
pub struct Vector {
    pub x: i64,
    pub y: i64,
}

impl Vector {
    /// Both coordinates have at most 26 bits before the binary point, sign included.
    pub open spec fn fits(&self) -> bool {
        &&& i32::MIN <= self.x <= i32::MAX
        &&& i32::MIN <= self.y <= i32::MAX
    }

    /// Tests `fits` at run time.
    pub fn is_26_6(&self) -> (ok: bool)
        ensures
            ok == self.fits(),
    {
        -0x8000_0000 <= self.x && self.x <= 0x7fff_ffff && -0x8000_0000 <= self.y && self.y
            <= 0x7fff_ffff
    }
}

/// What a decomposition callback returns when it has taken its points.
pub const FT_ERR_OK: i32 = 0;

/// What a decomposition callback returns for a point that does not fit 26.6
/// fixed point: the font engine's code for an invalid outline, which ends the
/// decomposition.
pub const FT_ERR_INVALID_OUTLINE: i32 = 20;

/// Callback for the start of a contour: appends a `MoveTo`.
pub fn ft_outline_move_to_func(to: &Vector, elems: &mut Vec<SVGPathElem>) -> (status: i32)
    ensures
        to.fits() ==> status == FT_ERR_OK && final(elems)@ == old(elems)@.push(
            SVGPathElem::MoveTo(to.x as i32, to.y as i32),
        ),
        !to.fits() ==> status == FT_ERR_INVALID_OUTLINE && final(elems)@ == old(elems)@,
{
    if !to.is_26_6() {
        return FT_ERR_INVALID_OUTLINE;
    }
    elems.push(SVGPathElem::MoveTo(to.x as i32, to.y as i32));
    FT_ERR_OK
}

/// Callback for a straight segment: appends a `LineTo`.
pub fn ft_outline_line_to_func(to: &Vector, elems: &mut Vec<SVGPathElem>) -> (status: i32)
    ensures
        to.fits() ==> status == FT_ERR_OK && final(elems)@ == old(elems)@.push(
            SVGPathElem::LineTo(to.x as i32, to.y as i32),
        ),
        !to.fits() ==> status == FT_ERR_INVALID_OUTLINE && final(elems)@ == old(elems)@,
{
    if !to.is_26_6() {
        return FT_ERR_INVALID_OUTLINE;
    }
    elems.push(SVGPathElem::LineTo(to.x as i32, to.y as i32));
    FT_ERR_OK
}

/// Callback for a quadratic curve with one control point: appends a `ConicTo`.
pub fn ft_outline_conic_to_funct(
    control: &Vector,
    to: &Vector,
    elems: &mut Vec<SVGPathElem>,
) -> (status: i32)
    ensures
        control.fits() && to.fits() ==> status == FT_ERR_OK && final(elems)@ == old(elems)@.push(
            SVGPathElem::ConicTo(control.x as i32, control.y as i32, to.x as i32, to.y as i32),
        ),
        !(control.fits() && to.fits()) ==> status == FT_ERR_INVALID_OUTLINE && final(elems)@
            == old(elems)@,
{
    if !control.is_26_6() || !to.is_26_6() {
        return FT_ERR_INVALID_OUTLINE;
    }
    elems.push(SVGPathElem::ConicTo(control.x as i32, control.y as i32, to.x as i32, to.y as i32));
    FT_ERR_OK
}

/// Callback for a cubic curve with two control points: appends a `CubicTo`.
pub fn ft_outline_cubic_to_funct(
    control1: &Vector,
    control2: &Vector,
    to: &Vector,
    elems: &mut Vec<SVGPathElem>,
) -> (status: i32)
    ensures
        control1.fits() && control2.fits() && to.fits() ==> status == FT_ERR_OK && final(elems)@
            == old(elems)@.push(
            SVGPathElem::CubicTo(
                control1.x as i32,
                control1.y as i32,
                control2.x as i32,
                control2.y as i32,
                to.x as i32,
                to.y as i32,
            ),
        ),
        !(control1.fits() && control2.fits() && to.fits()) ==> status == FT_ERR_INVALID_OUTLINE
            && final(elems)@ == old(elems)@,
{
    if !control1.is_26_6() || !control2.is_26_6() || !to.is_26_6() {
        return FT_ERR_INVALID_OUTLINE;
    }
    elems.push(
        SVGPathElem::CubicTo(
            control1.x as i32,
            control1.y as i32,
            control2.x as i32,
            control2.y as i32,
            to.x as i32,
            to.y as i32,
        ),
    );
    FT_ERR_OK
}

/// The bounding box of an outline, in 26.6 fixed-point units.
#[derive(Clone, Copy, Debug, PartialEq, Eq, Structural)]
pub struct BBox {
    pub x_min: i32,
    pub y_min: i32,
    pub x_max: i32,
    pub y_max: i32,
}

impl BBox {
    /// The box with these two corners, where both fit 26.6 fixed point.
    pub fn from_corners(min: &Vector, max: &Vector) -> (bbox: Option<BBox>)
        ensures
            min.fits() && max.fits() ==> bbox == Some(
                BBox {
                    x_min: min.x as i32,
                    y_min: min.y as i32,
                    x_max: max.x as i32,
                    y_max: max.y as i32,
                },
            ),
            !(min.fits() && max.fits()) ==> bbox.is_none(),
    {
        if min.is_26_6() && max.is_26_6() {
            Some(
                BBox {
                    x_min: min.x as i32,
                    y_min: min.y as i32,
                    x_max: max.x as i32,
                    y_max: max.y as i32,
                },
            )
        } else {
            None
        }
    }

    /// Twice the gap, in 26.6 units, that is left on either side of the box in
    /// a square of `side` pixels: `64 * side` less the width of the box.
    pub open spec fn slack_x(self, side: int) -> int {
        64 * side - (self.x_max - self.x_min)
    }

    /// Twice the gap, in 26.6 units, that is left above and below the box.
    pub open spec fn slack_y(self, side: int) -> int {
        64 * side - (self.y_max - self.y_min)
    }

    /// The horizontal shift that centres the box, in units of 1/128: the left
    /// edge goes to zero and then half the slack to the right.
    pub open spec fn shift_x(self, side: int) -> int {
        -2 * self.x_min + self.slack_x(side)
    }

    /// The vertical shift that centres the box once the picture is flipped,
    /// in units of 1/128: the top edge goes to zero and then half the slack
    /// further down.
    pub open spec fn shift_y(self, side: int) -> int {
        -2 * self.y_max - self.slack_y(side)
    }

    /// The horizontal shift as text.
    pub open spec fn shift_x_text(self, side: int) -> Seq<char> {
        fixed_text(self.shift_x(side), 128)
    }

    /// The vertical shift as text. It is a difference of two negated numbers:
    /// where both are zero, it is the negative zero, and written `-0`.
    pub open spec fn shift_y_text(self, side: int) -> Seq<char> {
        if self.y_max == 0 && self.slack_y(side) == 0 {
            seq!['-', '0']
        } else {
            fixed_text(self.shift_y(side), 128)
        }
    }
}

/// What the font engine gives for the outline of one glyph: its commands in
/// the order in which they were reported, and its bounding box.
#[derive(Clone, Debug, PartialEq, Eq)]
pub struct GlyphOutline {
    pub elems: Vec<SVGPathElem>,
    pub bbox: BBox,
}

/// Head of the document, up to the width.
pub const SVG_HEAD: &'static str =
    "<?xml version='1.0' encoding='UTF-8'?>\n<!DOCTYPE svg PUBLIC \"-//W3C//DTD SVG 1.0//EN\" \"http://www.w3.org/TR/2001/REC-SVG-20010904/DTD/svg10.dtd\">\n<svg xmlns='http://www.w3.org/2000/svg' version='1.0' width='";

/// Between width and height.
pub const SVG_HEIGHT: &'static str = "' height='";

/// From the height to the colour of the background rectangle.
pub const SVG_RECT: &'static str =
    "'>\n    <rect width=\"100%\" height=\"100%\" style=\"fill: #";

/// From the colour to the shift of the flipped glyph.
pub const SVG_GROUP: &'static str = "\" />\n    <g transform='scale(1 -1) translate(";

/// From the shift to the path data.
pub const SVG_PATH: &'static str = ")'>\n        <path d='";

/// Tail of the document, after the path data: the glyph is filled in white.
pub const SVG_TAIL: &'static str = "' style='fill: #ffffff'/>\n    </g>\n</svg>\n";

/// The document for a glyph with path data `path` and bounding box `bbox`, in
/// a square of `side` pixels on a background of colour `bg_color`: a rectangle
/// that fills the square with the background, and on it the path in white,
/// flipped upside down and shifted so that its box lies in the centre.
pub open spec fn svg_text(path: Seq<char>, bbox: BBox, side: int, bg_color: u32) -> Seq<char> {
    SVG_HEAD@ + int_text(side) + SVG_HEIGHT@ + int_text(side) + SVG_RECT@ + hex_text(
        bg_color as nat,
        6,
    ) + SVG_GROUP@ + bbox.shift_x_text(side) + seq![' '] + bbox.shift_y_text(side) + SVG_PATH@
        + path + SVG_TAIL@
}

/// The vector document of a glyph whose path data is `path`.
pub fn svg_img(path: String, bbox: &BBox, opt: &RenderOption, bg_color: u32) -> (doc: String)
    requires
        opt.has_side(),
    ensures
        doc@ == svg_text(path@, *bbox, opt.image_size(), bg_color),
{
    let side: i64 = opt.get_image_size() as i64;
    let slack_x: i64 = 64 * side - (bbox.x_max as i64 - bbox.x_min as i64);
    let slack_y: i64 = 64 * side - (bbox.y_max as i64 - bbox.y_min as i64);
    let mut out: String = String::new();
    proof {
        reveal_with_fuel(is_pow2, 9);
        reveal_strlit(" ");
        reveal_strlit("-0");
    }
    out.append(SVG_HEAD);
    push_int(&mut out, side);
    out.append(SVG_HEIGHT);
    push_int(&mut out, side);
    out.append(SVG_RECT);
    push_hex(&mut out, bg_color, 6);
    out.append(SVG_GROUP);
    push_fixed(&mut out, -2 * (bbox.x_min as i64) + slack_x, 128);
    out.append(" ");
    if bbox.y_max == 0 && slack_y == 0 {
        out.append("-0");
        assert("-0"@ =~= bbox.shift_y_text(opt.image_size()));
    } else {
        push_fixed(&mut out, -2 * (bbox.y_max as i64) - slack_y, 128);
    }
    out.append(SVG_PATH);
    out.append(path.as_str());
    out.append(SVG_TAIL);
    assert(out@ =~= svg_text(path@, *bbox, opt.image_size(), bg_color));
    out
}

/// The vector document of an outline.
pub fn render_svg(outline: &GlyphOutline, opt: &RenderOption, bg_color: u32) -> (doc: String)
    requires
        opt.has_side(),
    ensures
        doc@ == svg_text(path_text(outline.elems@), outline.bbox, opt.image_size(), bg_color),
{
    let path: String = svg_path(&outline.elems);
    svg_img(path, &outline.bbox, opt, bg_color)
}

} // verus!
