//! Pixel buffers: a coverage bitmap as grey or as colour, and as a PNG stream.

use crate::bitmap::Bitmap;
use vstd::prelude::*;

verus! {

/// The samples of an image, row after row, by the kind of pixel.
#[derive(Clone, Debug, PartialEq, Eq)]
pub enum PixelsByColorType {
    /// One byte for each pixel: its grey level.
    K8(Vec<u8>),
    /// Three bytes for each pixel: red, green, blue.
    RGB8(Vec<u8>),
}

impl PixelsByColorType {
    /// Bytes per pixel.
    pub open spec fn channels(&self) -> nat {
        match self {
            PixelsByColorType::K8(_) => 1,
            PixelsByColorType::RGB8(_) => 3,
        }
    }

    /// The samples.
    pub open spec fn bytes(&self) -> Seq<u8> {
        match self {
            PixelsByColorType::K8(data) => data@,
            PixelsByColorType::RGB8(data) => data@,
        }
    }

    /// Number of samples.
    pub fn len(&self) -> (n: usize)
        ensures
            n == self.bytes().len(),
    {
        match self {
            PixelsByColorType::K8(data) => data.len(),
            PixelsByColorType::RGB8(data) => data.len(),
        }
    }

    /// Bytes per pixel.
    pub fn samples(&self) -> (n: u8)
        ensures
            n == self.channels(),
    {
        match self {
            PixelsByColorType::K8(_) => 1,
            PixelsByColorType::RGB8(_) => 3,
        }
    }
}

/// A pixel buffer with the size that it is meant to have.
#[derive(Clone, Debug, PartialEq, Eq)]
pub struct Image {
    pub width: u32,
    pub height: u32,
    pub pixels: PixelsByColorType,
}

impl Image {
    /// The number of samples that an image of this size and kind holds.
    pub open spec fn expected_len(&self) -> int {
        self.width * self.height * self.pixels.channels()
    }
}

/// The red channel of a colour `0xRRGGBB`.
pub open spec fn red(color: u32) -> u8 {
    ((color / 0x10000) % 0x100) as u8
}

/// The green channel of a colour `0xRRGGBB`.
pub open spec fn green(color: u32) -> u8 {
    ((color / 0x100) % 0x100) as u8
}

/// The blue channel of a colour `0xRRGGBB`.
pub open spec fn blue(color: u32) -> u8 {
    (color % 0x100) as u8
}

/// Channel `k` of a colour: 0 is red, 1 is green, anything else is blue.
pub open spec fn channel(color: u32, k: int) -> u8 {
    if k == 0 {
        red(color)
    } else if k == 1 {
        green(color)
    } else {
        blue(color)
    }
}

/// White ink of coverage `c` over a background channel `bg`: the background
/// keeps the share `(255 - c) / 255` of its level, dropping the fraction of
/// the product, and the coverage is added to it.
pub open spec fn blend(c: u8, bg: u8) -> u8 {
    (c + (bg * (255 - c)) / 255) as u8
}

/// The colour image of a coverage buffer on a background: three bytes for
/// each coverage byte, the red, green and blue of the blend.
pub open spec fn rgb_pixels(coverage: Seq<u8>, bg_color: u32) -> Seq<u8> {
    Seq::new(3 * coverage.len(), |i: int| blend(coverage[i / 3], channel(bg_color, i % 3)))
}

/// A blend lies between the coverage and full white.
pub proof fn lemma_blend_bounds(c: u8, bg: u8)
    ensures
        c <= c + (bg * (255 - c)) / 255 <= 255,
        blend(c, bg) == c + (bg * (255 - c)) / 255,
{
    assert(0 <= (bg * (255 - c)) / 255 <= 255 - c) by (nonlinear_arith)
        requires
            0 <= bg <= 255,
            0 <= c <= 255,
    ;
}

/// No coverage leaves the background as it is, and full coverage gives white
/// on any background.
pub proof fn lemma_blend_endpoints(bg: u8)
    ensures
        blend(0, bg) == bg,
        blend(255, bg) == 255,
{
    assert((bg * (255 - 0)) / 255 == bg);
    assert((bg * (255 - 255)) / 255 == 0);
}

/// A pixel without coverage has exactly the background colour, and a pixel
/// with full coverage is exactly white, whatever the background.
pub proof fn lemma_rgb_endpoints(coverage: Seq<u8>, bg_color: u32, i: int)
    requires
        0 <= i < coverage.len(),
    ensures
        coverage[i] == 0 ==> {
            &&& rgb_pixels(coverage, bg_color)[3 * i] == red(bg_color)
            &&& rgb_pixels(coverage, bg_color)[3 * i + 1] == green(bg_color)
            &&& rgb_pixels(coverage, bg_color)[3 * i + 2] == blue(bg_color)
        },
        coverage[i] == 255 ==> {
            &&& rgb_pixels(coverage, bg_color)[3 * i] == 255
            &&& rgb_pixels(coverage, bg_color)[3 * i + 1] == 255
            &&& rgb_pixels(coverage, bg_color)[3 * i + 2] == 255
        },
{
    lemma_blend_endpoints(red(bg_color));
    lemma_blend_endpoints(green(bg_color));
    lemma_blend_endpoints(blue(bg_color));
}

/// The blend of one channel.
pub fn blend_channel(c: u8, bg: u8) -> (v: u8)
    ensures
        v == blend(c, bg),
{
    proof {
        lemma_blend_bounds(c, bg);
    }
    if c == 0 {
        proof {
            lemma_blend_endpoints(bg);
        }
        bg
    } else {
        assert(bg * (255 - c) <= 255 * 255) by (nonlinear_arith)
            requires
                0 <= bg <= 255,
                0 <= 255 - c <= 255,
        ;
        let kept: u32 = (bg as u32 * (255 - c as u32)) / 255;
        (c as u32 + kept) as u8
    }
}

impl Bitmap {
    /// The bitmap as a grey image: the coverage bytes are the grey levels.
    pub fn to_gray_png_image(self) -> (img: Image)
        requires
            self.wf(),
        ensures
            img.width == self.w,
            img.height == self.h,
            img.pixels matches PixelsByColorType::K8(data) && data@ == self.buffer@,
    {
        Image {
            width: self.w as u32,
            height: self.h as u32,
            pixels: PixelsByColorType::K8(self.buffer),
        }
    }

    /// The bitmap as a colour image: white ink on a background of colour
    /// `bg_color`, given as `0xRRGGBB`, with the coverage as the share of ink.
    pub fn to_rgb_png_image(self, bg_color: u32) -> (img: Image)
        requires
            self.wf(),
        ensures
            img.width == self.w,
            img.height == self.h,
            img.pixels matches PixelsByColorType::RGB8(data) && data@ == rgb_pixels(
                self.buffer@,
                bg_color,
            ),
    {
        let r: u8 = ((bg_color >> 16) & 0xff) as u8;
        let g: u8 = ((bg_color >> 8) & 0xff) as u8;
        let b: u8 = (bg_color & 0xff) as u8;
        proof {
            assert((bg_color >> 16) & 0xff == (bg_color / 0x10000) % 0x100) by (bit_vector);
            assert((bg_color >> 8) & 0xff == (bg_color / 0x100) % 0x100) by (bit_vector);
            assert(bg_color & 0xff == bg_color % 0x100) by (bit_vector);
        }
        let mut pixels: Vec<u8> = Vec::new();
        let mut i: usize = 0;
        while i < self.buffer.len()
            invariant
                i <= self.buffer.len(),
                r == red(bg_color),
                g == green(bg_color),
                b == blue(bg_color),
                pixels@.len() == 3 * i,
                forall|j: int|
                    0 <= j < 3 * i ==> #[trigger] pixels@[j] == blend(
                        self.buffer@[j / 3],
                        channel(bg_color, j % 3),
                    ),
            decreases self.buffer.len() - i,
        {
            let c: u8 = self.buffer[i];
            pixels.push(blend_channel(c, r));
            pixels.push(blend_channel(c, g));
            pixels.push(blend_channel(c, b));
            i = i + 1;
        }
        assert(pixels@ =~= rgb_pixels(self.buffer@, bg_color));
        Image { width: self.w as u32, height: self.h as u32, pixels: PixelsByColorType::RGB8(pixels) }
    }
}

/// Why an image could not be encoded.
#[derive(Clone, Copy, Debug, PartialEq, Eq, Structural)]
pub enum EncodeError {
    /// The image has no columns.
    ZeroWidth,
    /// The image has no rows.
    ZeroHeight,
    /// The buffer does not hold one sample for each channel of each pixel.
    BufferSize,
}

/// The error type of the `png` crate's encoder.
#[verifier::external_type_specification]
#[verifier::external_body]
pub struct ExEncodingError(png::EncodingError);

/// The PNG stream that the encoder of the `png` crate, as it is configured by
/// default, writes for an image of `width` by `height` pixels with `channels`
/// samples of eight bits for each pixel (one: grey; three: red, green, blue),
/// whose samples are `data`.
pub uninterp spec fn png_encoding(width: u32, height: u32, channels: u8, data: Seq<u8>) -> Seq<u8>;

/// Runs the encoder of the `png` crate into a fresh buffer: `Encoder::new`,
/// `set_color` and `set_depth` (grey or RGB, of eight bits, by the kind of
/// `pixels`), `write_header`, `write_image_data` and `finish`.
///
/// Unproved, from the encoder's source: `write_header` refuses a width of
/// zero and then a height of zero, `write_image_data` refuses a buffer whose
/// length is not width times channels times height, and with a `Vec` to write
/// to nothing else fails; the stream depends on nothing but these arguments.
/// The encoder computes that product in `usize`, so it must fit.
#[verifier::external_body]
fn png_encode(width: u32, height: u32, pixels: &PixelsByColorType) -> (r: Result<Vec<u8>, png::EncodingError>)
    requires
        width * height * pixels.channels() <= usize::MAX,
    ensures
        r.is_ok() == (width != 0 && height != 0 && pixels.bytes().len() == width * height
            * pixels.channels()),
        r matches Ok(stream) ==> stream@ == png_encoding(
            width,
            height,
            pixels.channels() as u8,
            pixels.bytes(),
        ),
{
    let (color, depth, data) = match pixels {
        PixelsByColorType::K8(data) => (png::ColorType::Grayscale, png::BitDepth::Eight, data),
        PixelsByColorType::RGB8(data) => (png::ColorType::Rgb, png::BitDepth::Eight, data),
    };
    let mut stream: Vec<u8> = Vec::new();
    let mut encoder = png::Encoder::new(&mut stream, width, height);
    encoder.set_color(color);
    encoder.set_depth(depth);
    let mut writer = encoder.write_header()?;
    writer.write_image_data(data)?;
    writer.finish()?;
    Ok(stream)
}

impl Image {
    /// What encoding gives: the stream, or the first thing that is wrong with
    /// the image.
    pub open spec fn encoded(&self) -> Result<Seq<u8>, EncodeError> {
        if self.width == 0 {
            Err(EncodeError::ZeroWidth)
        } else if self.height == 0 {
            Err(EncodeError::ZeroHeight)
        } else if self.pixels.bytes().len() != self.expected_len() {
            Err(EncodeError::BufferSize)
        } else {
            Ok(
                png_encoding(
                    self.width,
                    self.height,
                    self.pixels.channels() as u8,
                    self.pixels.bytes(),
                ),
            )
        }
    }
}

/// Encodes an image as a PNG stream of eight bits per sample.
pub fn encode_png(img: &Image) -> (r: Result<Vec<u8>, EncodeError>)
    ensures
        match r {
            Ok(stream) => img.encoded() == Ok::<Seq<u8>, EncodeError>(stream@),
            Err(e) => img.encoded() == Err::<Seq<u8>, EncodeError>(e),
        },
{
    let channels: u8 = img.pixels.samples();
    proof {
        assert(0 <= img.width * img.height <= 0xffff_ffff * 0xffff_ffff) by (nonlinear_arith)
            requires
                0 <= img.width <= 0xffff_ffff,
                0 <= img.height <= 0xffff_ffff,
        ;
        assert(0 <= img.width * img.height * channels <= 0xffff_ffff * 0xffff_ffff * 3)
            by (nonlinear_arith)
            requires
                0 <= img.width * img.height <= 0xffff_ffff * 0xffff_ffff,
                0 <= channels <= 3,
        ;
    }
    let expected: u128 = (img.width as u128) * (img.height as u128) * (channels as u128);
    if expected > usize::MAX as u128 {
        proof {
            assert(img.width != 0 && img.height != 0) by (nonlinear_arith)
                requires
                    img.width * img.height * channels > 0,
            ;
        }
        let held: usize = img.pixels.len();
        assert(held != img.expected_len());
        return Err(EncodeError::BufferSize);
    }
    match png_encode(img.width, img.height, &img.pixels) {
        Ok(stream) => Ok(stream),
        Err(_) => {
            if img.width == 0 {
                Err(EncodeError::ZeroWidth)
            } else if img.height == 0 {
                Err(EncodeError::ZeroHeight)
            } else {
                Err(EncodeError::BufferSize)
            }
        },
    }
}

} // verus!
