//! Single-glyph images: a coverage bitmap or an outline, as a font engine
//! produces it for one character, becomes a padded grey or coloured raster,
//! or a scalable vector document, and is served from a write-once cache.
//!
//! The functions here are verified with Verus against the contracts they
//! carry. Two of them call an outside crate, the PNG encoder and the
//! percent-decoder, and state what they take on trust.

pub mod bitmap;
pub mod cache;
pub mod handler;
pub mod image;
pub mod options;
pub mod palette;
pub mod render;
pub mod svg;
pub mod text;

pub use bitmap::{Bitmap, CoverageBitmap, Raster};
pub use cache::ImageCache;
pub use handler::{
    png_image_from_char, svg_from_char, Action, CharImageHandler, ContentType, GlyphRenderError,
    Method, Request, Response,
};
pub use image::{encode_png, EncodeError, Image, PixelsByColorType};
pub use options::RenderOption;
pub use palette::get_bg_color;
pub use render::render;
pub use svg::{render_svg, svg_img, svg_path, BBox, GlyphOutline, SVGPathElem, Vector};
