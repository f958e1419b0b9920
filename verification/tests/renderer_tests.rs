//! Tests of the rendering pipeline: ramps, configuration, the four
//! renderers and colour-prefix elision.

use ascii_img::ConfigError;
use ascii_img::Raster;
use ascii_img::Renderer;
use ascii_img::RendererCharacters;
use ascii_img::RendererConfig;
use ascii_img::RendererType;
use ascii_img::Rgb;

fn black(n: usize) -> Vec<Rgb> {
    vec![Rgb::new(0, 0, 0); n]
}

#[test]
fn renderer_build_test() {
    let _renderer = RendererConfig::default()
        .set_width(Some(100))
        .set_height(Some(100))
        .set_invert(true)
        .set_characters(RendererCharacters::default())
        .set_renderer_type(RendererType::Unicode);
}

#[test]
fn renderer_getters_test() {
    let config = RendererConfig::default();
    assert_eq!(config.width(), None);
    assert_eq!(config.height(), None);
    assert!(!config.invert());
    let config = config.set_width(Some(3)).set_height(Some(4)).set_invert(true);
    assert_eq!(config.width(), Some(3));
    assert_eq!(config.height(), Some(4));
    assert!(config.invert());
    assert!(matches!(config.renderer_type(), RendererType::Unicode));
}

#[test]
fn characters_builtin_test() {
    let chars = RendererCharacters::builtin().get();
    assert_eq!(chars, vec![' ', '.', '-', ':', '=', '*', '+', '#', '%', '@']);
    let default_chars = RendererCharacters::default().get();
    assert_eq!(default_chars, chars);
}

#[test]
fn characters_custom_test() {
    let chars = RendererCharacters::custom_from(" .-#").unwrap().get();
    assert_eq!(chars, vec![' ', '.', '-', '#']);
}

#[test]
fn ramp_too_short_test() {
    assert_eq!(
        RendererCharacters::custom_from("").unwrap_err(),
        ConfigError::RampTooShort
    );
    assert_eq!(
        RendererCharacters::custom_from("a").unwrap_err(),
        ConfigError::RampTooShort
    );
    assert!(RendererCharacters::custom_from("ab").is_ok());
}

#[test]
fn plain_black_render_test() {
    // An all-black raster rendered plainly at its own size: rows of the
    // ramp's first glyph.
    let raster = Raster::new(3, 2, black(6)).unwrap();
    let art = RendererConfig::default()
        .set_width(Some(3))
        .set_height(Some(2))
        .set_renderer_type(RendererType::Plain)
        .render(&raster);
    assert_eq!(art, "   \n   \n");
}

#[test]
fn glyph_extremes_test() {
    // Zero luminance picks the first glyph, full luminance the last, on
    // every ramp.
    let raster = Raster::new(2, 1, vec![Rgb::new(0, 0, 0), Rgb::new(255, 255, 255)]).unwrap();
    let art = RendererConfig::default()
        .set_width(Some(2))
        .set_height(Some(1))
        .set_characters(RendererCharacters::custom_from("ab").unwrap())
        .set_renderer_type(RendererType::Plain)
        .render(&raster);
    assert_eq!(art, "ab\n");

    let art = RendererConfig::default()
        .set_width(Some(2))
        .set_height(Some(1))
        .set_renderer_type(RendererType::Plain)
        .render(&raster);
    assert_eq!(art, " @\n");
}

#[test]
fn unicode_matches_plain_test() {
    // The Unicode renderer grayscales first, which leaves the emitted
    // glyphs unchanged: both plain modes agree.
    let pixels = vec![Rgb::new(255, 0, 0), Rgb::new(0, 0, 255), Rgb::new(10, 200, 30), Rgb::new(9, 9, 9)];
    let raster = Raster::new(2, 2, pixels).unwrap();
    let plain = RendererConfig::default()
        .set_width(Some(2))
        .set_height(Some(2))
        .set_renderer_type(RendererType::Plain)
        .render(&raster);
    let unicode = RendererConfig::default()
        .set_width(Some(2))
        .set_height(Some(2))
        .set_renderer_type(RendererType::Unicode)
        .render(&raster);
    assert_eq!(plain, unicode);
}

#[test]
fn invert_render_test() {
    // Inversion turns white into black before the glyph lookup.
    let raster = Raster::new(1, 1, vec![Rgb::new(255, 255, 255)]).unwrap();
    let art = RendererConfig::default()
        .set_width(Some(1))
        .set_height(Some(1))
        .set_invert(true)
        .set_renderer_type(RendererType::Plain)
        .render(&raster);
    assert_eq!(art, " \n");
}

#[test]
fn default_dims_render_test() {
    // With no requested dimensions the width is kept and the height is
    // halved to compensate for tall terminal cells.
    let raster = Raster::new(2, 2, black(4)).unwrap();
    let art = RendererConfig::default()
        .set_renderer_type(RendererType::Plain)
        .render(&raster);
    assert_eq!(art, "  \n");
}

#[test]
fn ansi_render_test() {
    // One red pixel: a single 24-bit escape built from the saturated
    // colour, then the glyph for the raw luminance.
    let raster = Raster::new(1, 1, vec![Rgb::new(255, 0, 0)]).unwrap();
    let art = RendererConfig::default()
        .set_width(Some(1))
        .set_height(Some(1))
        .set_renderer_type(RendererType::Ansi)
        .render(&raster);
    assert_eq!(art, "\u{1b}[38;2;255;0;0m:\n");
}

#[test]
fn ansi_saturates_colour_test() {
    // The escape carries the saturated colour, not the raw one.
    let raster = Raster::new(1, 1, vec![Rgb::new(100, 50, 0)]).unwrap();
    let art = RendererConfig::default()
        .set_width(Some(1))
        .set_height(Some(1))
        .set_renderer_type(RendererType::Ansi)
        .render(&raster);
    assert_eq!(art, "\u{1b}[38;2;255;127;0m.\n");
}

#[test]
fn ansi_elision_test() {
    // Two adjacent pixels with the same saturated colour emit exactly one
    // colour prefix for the run, not two.
    let raster = Raster::new(2, 1, vec![Rgb::new(100, 100, 100), Rgb::new(200, 200, 200)]).unwrap();
    let art = RendererConfig::default()
        .set_width(Some(2))
        .set_height(Some(1))
        .set_renderer_type(RendererType::Ansi)
        .render(&raster);
    assert_eq!(art, "\u{1b}[38;2;255;255;255m:#\n");
}

#[test]
fn ansi_elision_across_rows_test() {
    // The elision state persists across the row boundary: the second row
    // repeats the colour and emits no second prefix.
    let raster = Raster::new(1, 2, vec![Rgb::new(100, 100, 100), Rgb::new(100, 100, 100)]).unwrap();
    let art = RendererConfig::default()
        .set_width(Some(1))
        .set_height(Some(2))
        .set_renderer_type(RendererType::Ansi)
        .render(&raster);
    assert_eq!(art, "\u{1b}[38;2;255;255;255m:\n:\n");
}

#[test]
fn ansi_colour_change_test() {
    // A changed colour emits a fresh prefix.
    let raster = Raster::new(2, 1, vec![Rgb::new(255, 0, 0), Rgb::new(0, 255, 0)]).unwrap();
    let art = RendererConfig::default()
        .set_width(Some(2))
        .set_height(Some(1))
        .set_renderer_type(RendererType::Ansi)
        .render(&raster);
    assert_eq!(art, "\u{1b}[38;2;255;0;0m:\u{1b}[38;2;0;255;0m:\n");
}

#[test]
fn ansi256_render_test() {
    // One white pixel: a single 256-colour escape for the palette entry
    // the ansi_colours crate picks, then the glyph for full luminance.
    let raster = Raster::new(1, 1, vec![Rgb::new(255, 255, 255)]).unwrap();
    let art = RendererConfig::default()
        .set_width(Some(1))
        .set_height(Some(1))
        .set_renderer_type(RendererType::Ansi256)
        .render(&raster);
    let index = ansi_colours::ansi256_from_rgb((255u8, 255u8, 255u8));
    assert_eq!(index, 231);
    assert_eq!(art, format!("\u{1b}[38;5;{}m@\n", index));
}

#[test]
fn render_pixel_test() {
    let ramp = RendererCharacters::builtin().get();
    let (code, glyph) = ascii_img::AnsiRenderer.render_pixel(&Rgb::new(0, 0, 255), &ramp);
    assert_eq!(code, "\u{1b}[38;2;0;0;255m");
    assert_eq!(glyph, ':');

    let (code, glyph) = ascii_img::UnicodeRenderer.render_pixel(&Rgb::new(255, 255, 255), &ramp);
    assert_eq!(code, "");
    assert_eq!(glyph, '@');

    let expected = ansi_colours::ansi256_from_rgb((255u8, 0u8, 0u8));
    let (code, glyph) = ascii_img::Ansi256Renderer.render_pixel(&Rgb::new(255, 0, 0), &ramp);
    assert_eq!(code, format!("\u{1b}[38;5;{}m", expected));
    assert_eq!(glyph, ':');
}
