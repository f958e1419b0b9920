//! The 24-bit colour renderer: every cell carries a true-colour foreground
//! escape built from the saturated pixel colour.

use vstd::prelude::*;

use crate::common::linear_luma_from_rgb;
use crate::common::saturate;
use crate::raster::Rgb;
use crate::renderer::cell_glyph;
use crate::renderer::chars_to_string;
use crate::renderer::dec_chars;
use crate::renderer::mode_key;
use crate::renderer::prefix_chars;
use crate::renderer::ramp_glyph;
use crate::renderer::ColorKey;
use crate::renderer::Renderer;
use crate::renderer::RendererType;

verus! {

/// The 24-bit foreground escape for the colour `(r, g, b)`:
/// `ESC [ 3 8 ; 2 ;` then the three channels in decimal, `;`-separated,
/// closed by `m`.
pub open spec fn truecolor_prefix(r: u8, g: u8, b: u8) -> Seq<char> {
    seq!['\u{1b}', '[', '3', '8', ';', '2', ';'] + dec_chars(r as int) + seq![';'] + dec_chars(
        g as int,
    ) + seq![';'] + dec_chars(b as int) + seq!['m']
}

/// Relies on `ansi_term::Colour::RGB(..).prefix()` and its `Display` impl:
/// for a bare colour it writes exactly `ESC[38;2;` followed by the three
/// channels in decimal separated by `;`, closed by `m`.
#[verifier::external_body]
pub(crate) fn rgb_colour_prefix(r: u8, g: u8, b: u8) -> (v: Vec<char>)
    ensures
        v@ == truecolor_prefix(r, g, b),
{
    ansi_term::Colour::RGB(r, g, b).prefix().to_string().chars().collect()
}

/// Renders using glyphs coloured by 24-bit ANSI escapes.
pub struct AnsiRenderer;

impl Renderer for AnsiRenderer {
    open spec fn pixel_key(&self, pixel: Rgb) -> Option<ColorKey> {
        mode_key(RendererType::Ansi, pixel)
    }

    /// Renders the pixel as a true-colour escape and a glyph.
    fn render_pixel(&self, pixel: &Rgb, characters: &Vec<char>) -> (cell: (String, char)) {
        let s = saturate(pixel);
        let pre = rgb_colour_prefix(s.r, s.g, s.b);
        let color_code = chars_to_string(&pre);
        let luminance = linear_luma_from_rgb(pixel);
        let character = ramp_glyph(characters, luminance);
        (color_code, character)
    }
}

} // verus!
