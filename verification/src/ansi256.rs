//! The 256-colour renderer: every cell carries the palette escape nearest
//! to the saturated pixel colour.

use vstd::prelude::*;

use crate::common::linear_luma_from_rgb;
use crate::common::saturate;
use crate::raster::Rgb;
use crate::renderer::chars_to_string;
use crate::renderer::dec_chars;
use crate::renderer::mode_key;
use crate::renderer::ramp_glyph;
use crate::renderer::ColorKey;
use crate::renderer::Renderer;
use crate::renderer::RendererType;

verus! {

/// The index of the 256-colour terminal palette entry nearest to the
/// colour `(r, g, b)`, as the `ansi_colours` crate computes it: a fixed,
/// table-driven function of the three channels alone.
pub uninterp spec fn palette_index_of(r: u8, g: u8, b: u8) -> u8;

/// The 256-colour foreground escape for palette entry `n`:
/// `ESC [ 3 8 ; 5 ;` then the entry in decimal, closed by `m`.
pub open spec fn palette_prefix(n: u8) -> Seq<char> {
    seq!['\u{1b}', '[', '3', '8', ';', '5', ';'] + dec_chars(n as int) + seq!['m']
}

/// Relies on `ansi_colours::ansi256_from_rgb`: a pure lookup that depends
/// on the three channels alone.
#[verifier::external_body]
pub(crate) fn palette_index(r: u8, g: u8, b: u8) -> (n: u8)
    ensures
        n == palette_index_of(r, g, b),
{
    ansi_colours::ansi256_from_rgb((r, g, b))
}

/// Relies on `ansi_term::Colour::Fixed(..).prefix()` and its `Display`
/// impl: for a bare colour it writes exactly `ESC[38;5;` followed by the
/// entry in decimal, closed by `m`.
#[verifier::external_body]
pub(crate) fn fixed_colour_prefix(n: u8) -> (v: Vec<char>)
    ensures
        v@ == palette_prefix(n),
{
    ansi_term::Colour::Fixed(n).prefix().to_string().chars().collect()
}

/// Renders using glyphs coloured by 256-colour palette escapes.
pub struct Ansi256Renderer;

impl Renderer for Ansi256Renderer {
    open spec fn pixel_key(&self, pixel: Rgb) -> Option<ColorKey> {
        mode_key(RendererType::Ansi256, pixel)
    }

    /// Renders the pixel as a palette escape and a glyph.
    fn render_pixel(&self, pixel: &Rgb, characters: &Vec<char>) -> (cell: (String, char)) {
        let luminance = linear_luma_from_rgb(pixel);
        let character = ramp_glyph(characters, luminance);
        let s = saturate(pixel);
        let pre = fixed_colour_prefix(palette_index(s.r, s.g, s.b));
        let color_code = chars_to_string(&pre);
        (color_code, character)
    }
}

} // verus!
