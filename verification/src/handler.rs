//! The image route of the server: what to answer to a request, what to ask
//! of the font engine first, and what to keep for the next request.
//!
//! The font engine works outside this library. A request is therefore taken
//! in steps: `handle` either answers or names what the engine must produce,
//! and `rasterized` or `decomposed` takes the product and answers.

use crate::bitmap::{CoverageBitmap, Raster};
use crate::cache::{put_once, ImageCache};
use crate::image::{encode_png, png_encoding, rgb_pixels, EncodeError, Image};
use crate::options::RenderOption;
use crate::palette::{bg_color, get_bg_color};
use crate::render::{centered, render};
use crate::svg::{path_text, render_svg, svg_text, BBox, GlyphOutline, SVGPathElem};
use vstd::prelude::*;
use vstd::string::*;
use vstd::utf8::encode_utf8;

verus! {

/// Pixel size of the font in every image that is served.
pub const RENDER_SIZE: i32 = 72;

/// Padding in every image that is served.
pub const RENDER_PADDING: i32 = 50;

/// Side in pixels of every image that is served.
pub const RENDER_SIDE: u32 = 122;

/// The options of every image that is served.
pub fn render_option() -> (opt: RenderOption)
    ensures
        opt.size == RENDER_SIZE,
        opt.padding == RENDER_PADDING,
        opt.image_size() == RENDER_SIDE,
        opt.wf(),
{
    RenderOption { size: RENDER_SIZE, padding: RENDER_PADDING }
}

/// The PNG image that is served for `c`, given the coverage bitmap of its
/// glyph: the glyph in white, centred on a square in the background colour of `c`.
pub open spec fn png_of(c: char, glyph: Raster) -> Seq<u8> {
    png_encoding(
        RENDER_SIDE,
        RENDER_SIDE,
        3,
        rgb_pixels(centered(glyph, RENDER_SIDE as int).data, bg_color(c)),
    )
}

/// The vector document that is served for `c`, given the outline of its glyph.
pub open spec fn svg_of(c: char, elems: Seq<SVGPathElem>, bbox: BBox) -> Seq<u8> {
    encode_utf8(svg_text(path_text(elems), bbox, RENDER_SIDE as int, bg_color(c)))
}

/// Renders the glyph of `c` on its background and encodes the image as PNG.
/// This succeeds for every well-formed coverage bitmap.
pub fn png_image_from_char(c: char, glyph: &CoverageBitmap) -> (r: Result<Vec<u8>, EncodeError>)
    requires
        glyph.wf(),
    ensures
        r matches Ok(png) && png@ == png_of(c, glyph@),
{
    let opt: RenderOption = render_option();
    let bmp = render(glyph, &opt);
    let img: Image = bmp.to_rgb_png_image(get_bg_color(c));
    encode_png(&img)
}

/// The vector document of the glyph of `c` on its background, as bytes.
pub fn svg_from_char(c: char, outline: &GlyphOutline) -> (doc: Vec<u8>)
    ensures
        doc@ == svg_of(c, outline.elems@, outline.bbox),
{
    let opt: RenderOption = render_option();
    let img: String = render_svg(outline, &opt, get_bg_color(c));
    img.as_str().as_bytes_vec()
}

/// The method of a request, as far as the route tells methods apart.
#[derive(Clone, Copy, Debug, PartialEq, Eq, Structural)]
pub enum Method {
    Get,
    Other,
}

/// What the route reads of a request.
#[derive(Clone, Debug, PartialEq, Eq)]
pub struct Request {
    pub method: Method,
    /// The first segment of the path, as it came: still percent-encoded.
    pub path: Vec<u8>,
    /// The value of the query parameter `format`, where it is there and a
    /// plain string.
    pub format: Option<String>,
}

impl Request {
    /// The value of `format` as text.
    pub open spec fn format_text(&self) -> Option<Seq<char>> {
        match self.format {
            Some(value) => Some(value@),
            None => None,
        }
    }
}

/// The media types that the route serves.
#[derive(Clone, Copy, Debug, PartialEq, Eq, Structural)]
pub enum ContentType {
    Png,
    Svg,
}

impl ContentType {
    /// The media type as it stands in a header.
    pub open spec fn mime_text(self) -> Seq<char> {
        match self {
            ContentType::Png => "image/png"@,
            ContentType::Svg => "image/svg+xml"@,
        }
    }

    /// The media type as it stands in a header.
    pub fn mime(&self) -> (text: &'static str)
        ensures
            text@ == self.mime_text(),
    {
        match self {
            ContentType::Png => "image/png",
            ContentType::Svg => "image/svg+xml",
        }
    }
}

/// Status of an answer that carries an image.
pub const STATUS_OK: u16 = 200;

/// Status of the answer to any method but GET.
pub const STATUS_NOT_FOUND: u16 = 404;

/// Status of the answer when the font engine or the encoder failed.
pub const STATUS_INTERNAL_SERVER_ERROR: u16 = 500;

/// An answer of the route.
#[derive(Clone, Debug, PartialEq, Eq)]
pub struct Response {
    pub status: u16,
    pub content_type: Option<ContentType>,
    pub body: Vec<u8>,
}

/// The content of an answer.
pub struct Answer {
    pub status: u16,
    pub content_type: Option<ContentType>,
    pub body: Seq<u8>,
}

impl View for Response {
    type V = Answer;

    open spec fn view(&self) -> Answer {
        Answer { status: self.status, content_type: self.content_type, body: self.body@ }
    }
}

/// The answer to any method but GET: not found, without a body.
pub open spec fn not_found() -> Answer {
    Answer { status: STATUS_NOT_FOUND, content_type: None, body: Seq::empty() }
}

/// The answer when no image could be made: a server error, without a body.
pub open spec fn failure() -> Answer {
    Answer { status: STATUS_INTERNAL_SERVER_ERROR, content_type: None, body: Seq::empty() }
}

/// The answer that carries a PNG image.
pub open spec fn png_answer(body: Seq<u8>) -> Answer {
    Answer { status: STATUS_OK, content_type: Some(ContentType::Png), body }
}

/// The answer that carries a vector document.
pub open spec fn svg_answer(body: Seq<u8>) -> Answer {
    Answer { status: STATUS_OK, content_type: Some(ContentType::Svg), body }
}

/// What the font engine reported instead of a glyph.
#[derive(Clone, Copy, Debug, PartialEq, Eq, Structural)]
pub struct GlyphRenderError {
    /// The engine's error code.
    pub code: i32,
}

/// What is to be done next for a request.
#[derive(Clone, Debug, PartialEq, Eq)]
pub enum Action {
    /// Send this answer.
    Respond(Response),
    /// Have the font engine render the coverage bitmap of this character at
    /// `RENDER_SIZE`, and hand it to `rasterized`.
    Rasterize(char),
    /// Have the font engine decompose the outline of this character at
    /// `RENDER_SIZE`, and hand it to `decomposed`.
    Decompose(char),
}

/// The content of an action.
pub enum Step {
    Respond(Answer),
    Rasterize(char),
    Decompose(char),
}

impl View for Action {
    type V = Step;

    open spec fn view(&self) -> Step {
        match self {
            Action::Respond(response) => Step::Respond(response@),
            Action::Rasterize(c) => Step::Rasterize(*c),
            Action::Decompose(c) => Step::Decompose(*c),
        }
    }
}

/// The text that a percent-encoded byte string stands for: each `%` with two
/// hexadecimal digits behind it is replaced by the byte they name, and the
/// bytes are then read as UTF-8, with the replacement character in place of
/// whatever is not.
pub uninterp spec fn percent_decoded(path: Seq<u8>) -> Seq<char>;

/// Calls `percent_decode` of the `url` crate's module `percent_encoding` and
/// `decode_utf8_lossy` on what it returns. Unproved: the text is a function
/// of the bytes alone.
#[verifier::external_body]
fn lossy_utf8_percent_decode(path: &[u8]) -> (decoded: String)
    ensures
        decoded@ == percent_decoded(path@),
{
    url::percent_encoding::percent_decode(path).decode_utf8_lossy().into_owned()
}

/// The character that a decoded path asks for: its first, or `X` where it is empty.
pub open spec fn first_char_of(path: Seq<char>) -> char {
    if path.len() > 0 {
        path[0]
    } else {
        'X'
    }
}

/// The character that a decoded path asks for.
pub fn first_char(path: &str) -> (c: char)
    ensures
        c == first_char_of(path@),
{
    if path.is_empty() {
        'X'
    } else {
        path.get_char(0)
    }
}

/// Whether the query asks for a vector document: only the value `svg` does.
/// Any other value, and none, asks for PNG.
pub open spec fn wants_svg_of(format: Option<Seq<char>>) -> bool {
    format == Some("svg"@)
}

/// Whether the query asks for a vector document.
pub fn wants_svg(format: &Option<String>) -> (svg: bool)
    ensures
        svg == (format matches Some(value) && value@ == "svg"@),
{
    match format {
        Some(value) => {
            let svg: String = "svg".to_owned();
            *value == svg
        },
        None => false,
    }
}

/// What is to be done for a request with this method for character `c`, with
/// `cache` holding the PNG images made so far: any method but GET is unknown
/// to the route; a vector document is made anew each time; a PNG image is
/// served from the cache where it is there, and made where it is not.
pub open spec fn next_step(cache: Map<u32, Seq<u8>>, method: Method, c: char, svg: bool) -> Step {
    if method != Method::Get {
        Step::Respond(not_found())
    } else if svg {
        Step::Decompose(c)
    } else if cache.contains_key(c as u32) {
        Step::Respond(png_answer(cache[c as u32]))
    } else {
        Step::Rasterize(c)
    }
}

/// The route, with the PNG images that it has made.
pub struct CharImageHandler {
    pub cache: ImageCache,
}

impl CharImageHandler {
    /// A handler that has made no image yet.
    pub fn new() -> (handler: CharImageHandler)
        ensures
            handler.cache@ == Map::<u32, Seq<u8>>::empty(),
    {
        CharImageHandler { cache: ImageCache::new() }
    }

    /// What is to be done for a request of this method for character `c`.
    pub fn decide(&self, method: Method, c: char, svg: bool) -> (action: Action)
        ensures
            action@ == next_step(self.cache@, method, c, svg),
    {
        match method {
            Method::Other => Action::Respond(
                Response { status: STATUS_NOT_FOUND, content_type: None, body: Vec::new() },
            ),
            Method::Get => {
                if svg {
                    Action::Decompose(c)
                } else {
                    match self.cache.get(c as u32) {
                        Some(body) => Action::Respond(
                            Response {
                                status: STATUS_OK,
                                content_type: Some(ContentType::Png),
                                body,
                            },
                        ),
                        None => Action::Rasterize(c),
                    }
                }
            },
        }
    }

    /// What is to be done for a request: the character is the first of the
    /// percent-decoded path.
    pub fn handle(&self, req: &Request) -> (action: Action)
        ensures
            action@ == next_step(
                self.cache@,
                req.method,
                first_char_of(percent_decoded(req.path@)),
                wants_svg_of(req.format_text()),
            ),
    {
        match req.method {
            Method::Other => self.decide(Method::Other, 'X', false),
            Method::Get => {
                let path: String = lossy_utf8_percent_decode(req.path.as_slice());
                let c: char = first_char(path.as_str());
                let svg: bool = wants_svg(&req.format);
                self.decide(Method::Get, c, svg)
            },
        }
    }

    /// Takes what the font engine gave for `Rasterize(c)`, and answers. A
    /// well-formed bitmap is rendered and encoded, the image is kept for `c`
    /// unless one is kept already, and the image that is kept is the answer.
    /// Without a well-formed bitmap nothing is kept and the answer is a
    /// failure.
    pub fn rasterized(
        &mut self,
        c: char,
        glyph: &Result<CoverageBitmap, GlyphRenderError>,
    ) -> (response: Response)
        ensures
            match glyph {
                Ok(bitmap) if bitmap.wf() => {
                    &&& final(self).cache@ == put_once(
                        old(self).cache@,
                        c as u32,
                        png_of(c, bitmap@),
                    )
                    &&& response@ == png_answer(final(self).cache@[c as u32])
                },
                _ => final(self).cache@ == old(self).cache@ && response@ == failure(),
            },
    {
        match glyph {
            Ok(bitmap) => {
                if bitmap.is_well_formed() {
                    match png_image_from_char(c, bitmap) {
                        Ok(png) => {
                            let body: Vec<u8> = self.cache.put(c as u32, png);
                            return Response {
                                status: STATUS_OK,
                                content_type: Some(ContentType::Png),
                                body,
                            };
                        },
                        Err(_) => {},
                    }
                }
            },
            Err(_) => {},
        }
        Response { status: STATUS_INTERNAL_SERVER_ERROR, content_type: None, body: Vec::new() }
    }

    /// Takes what the font engine gave for `Decompose(c)`, and answers with
    /// the vector document, or with a failure where there is no outline.
    pub fn decomposed(
        &self,
        c: char,
        outline: &Result<GlyphOutline, GlyphRenderError>,
    ) -> (response: Response)
        ensures
            match outline {
                Ok(glyph) => response@ == svg_answer(svg_of(c, glyph.elems@, glyph.bbox)),
                Err(_) => response@ == failure(),
            },
    {
        match outline {
            Ok(glyph) => Response {
                status: STATUS_OK,
                content_type: Some(ContentType::Svg),
                body: svg_from_char(c, glyph),
            },
            Err(_) => Response {
                status: STATUS_INTERNAL_SERVER_ERROR,
                content_type: None,
                body: Vec::new(),
            },
        }
    }
}

/// Any method but GET is answered with "not found" and an empty body,
/// whatever is asked for and whatever the cache holds.
pub proof fn lemma_other_methods_not_found(cache: Map<u32, Seq<u8>>, c: char, svg: bool)
    ensures
        next_step(cache, Method::Other, c, svg) == Step::Respond(not_found()),
{
}

/// Once an image has been offered for a character, a request for its PNG
/// image is answered from the cache and asks the font engine for nothing;
/// the answer is the image that was offered first, whatever is offered later.
pub proof fn lemma_made_once(cache: Map<u32, Seq<u8>>, c: char, first: Seq<u8>, second: Seq<u8>)
    ensures
        next_step(put_once(cache, c as u32, first), Method::Get, c, false) == Step::Respond(
            png_answer(put_once(cache, c as u32, first)[c as u32]),
        ),
        next_step(
            put_once(put_once(cache, c as u32, first), c as u32, second),
            Method::Get,
            c,
            false,
        ) == next_step(put_once(cache, c as u32, first), Method::Get, c, false),
        !cache.contains_key(c as u32) ==> put_once(cache, c as u32, first)[c as u32] == first,
{
}

} // verus!
