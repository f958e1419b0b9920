//! The plain Unicode renderer: grayscale glyphs, no colour escapes.

use vstd::prelude::*;

use crate::common::linear_luma_from_rgb;
use crate::raster::Rgb;
use crate::renderer::mode_key;
use crate::renderer::ramp_glyph;
use crate::renderer::ColorKey;
use crate::renderer::Renderer;
use crate::renderer::RendererType;

verus! {

/// Renders using bare glyphs, with the raster converted to grayscale
/// before the per-pixel loop.
pub struct UnicodeRenderer;

impl Renderer for UnicodeRenderer {
    open spec fn pixel_key(&self, pixel: Rgb) -> Option<ColorKey> {
        mode_key(RendererType::Unicode, pixel)
    }

    /// Renders the pixel as a glyph with no colour prefix.
    fn render_pixel(&self, pixel: &Rgb, characters: &Vec<char>) -> (cell: (String, char)) {
        let luminance = linear_luma_from_rgb(pixel);
        let character = ramp_glyph(characters, luminance);
        (String::new(), character)
    }
}

} // verus!
