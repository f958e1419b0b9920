//! The rendering pipeline: strategy dispatch, character ramps, the render
//! configuration and the row-major cell loop with colour-prefix elision.

use vstd::arithmetic::div_mod::lemma_div_is_ordered;
use vstd::arithmetic::div_mod::lemma_div_multiples_vanish;
use vstd::arithmetic::div_mod::lemma_div_pos_is_pos;
use vstd::prelude::*;
use vstd::string::StrSliceExecFns;

use crate::ansi::truecolor_prefix;
use crate::ansi256::palette_index_of;
use crate::ansi256::palette_prefix;
use crate::common::luminance;
use crate::common::resampled;
use crate::common::resize;
use crate::common::saturated;
use crate::common::spec_target_dimensions;
use crate::error::ConfigError;
use crate::raster::grayed;
use crate::raster::inverted;
use crate::raster::Raster;
use crate::raster::Rgb;

verus! {

/// What distinguishes one emitted colour prefix from another: the exact
/// colour of a 24-bit escape, or the palette entry of a 256-colour escape.
/// Strategies that emit no prefix have no key.
#[derive(Clone, Copy, Debug, PartialEq, Eq, Structural)]
pub enum ColorKey {
    /// A 24-bit escape for this exact colour.
    TrueColor(Rgb),
    /// A 256-colour escape for this palette entry.
    Palette(u8),
}

/// The character for one decimal digit.
pub open spec fn digit_char(d: int) -> char {
    if d == 0 {
        '0'
    } else if d == 1 {
        '1'
    } else if d == 2 {
        '2'
    } else if d == 3 {
        '3'
    } else if d == 4 {
        '4'
    } else if d == 5 {
        '5'
    } else if d == 6 {
        '6'
    } else if d == 7 {
        '7'
    } else if d == 8 {
        '8'
    } else {
        '9'
    }
}

/// The decimal digits of `n`, most significant first, without leading
/// zeros.
pub open spec fn dec_chars(n: int) -> Seq<char>
    decreases n,
{
    if n < 10 {
        seq![digit_char(n)]
    } else {
        dec_chars(n / 10).push(digit_char(n % 10))
    }
}

/// The glyph slot for brightness `lum` on a ramp of `n` glyphs: brightness
/// scaled linearly onto `[0, n - 1]`, fractions rounded down.
pub open spec fn glyph_index(lum: u8, n: int) -> int {
    lum * (n - 1) / 255
}

/// The glyph a ramp assigns to a pixel, by the luminance of the pixel.
pub open spec fn cell_glyph(chars: Seq<char>, p: Rgb) -> char {
    chars[glyph_index(luminance(p), chars.len() as int)]
}

/// A glyph slot never leaves the ramp: it lies in `[0, n - 1]`.
pub proof fn lemma_glyph_index_range(lum: u8, n: int)
    requires
        n >= 2,
    ensures
        0 <= glyph_index(lum, n) <= n - 1,
{
    assert(0 <= lum * (n - 1) <= 255 * (n - 1)) by (nonlinear_arith)
        requires
            0 <= lum <= 255 && n >= 2,
    ;
    lemma_div_pos_is_pos(lum * (n - 1), 255);
    lemma_div_is_ordered(lum * (n - 1), 255 * (n - 1), 255);
    lemma_div_multiples_vanish(n - 1, 255);
}

/// On every ramp, zero brightness selects the first glyph and full
/// brightness the last.
pub proof fn lemma_glyph_index_extremes(chars: Seq<char>)
    requires
        chars.len() >= 2,
    ensures
        glyph_index(0, chars.len() as int) == 0,
        glyph_index(255, chars.len() as int) == chars.len() - 1,
{
    let n = chars.len() as int;
    assert(0 * (n - 1) == 0) by (nonlinear_arith);
    lemma_div_multiples_vanish(n - 1, 255);
}

/// The colour key a render mode derives from a pixel; the plain modes have
/// none.
pub open spec fn mode_key(mode: RendererType, p: Rgb) -> Option<ColorKey> {
    match mode {
        RendererType::Ansi => Some(ColorKey::TrueColor(saturated(p))),
        RendererType::Ansi256 => Some(
            ColorKey::Palette(
                palette_index_of(saturated(p).r, saturated(p).g, saturated(p).b),
            ),
        ),
        RendererType::Unicode => None,
        RendererType::Plain => None,
    }
}

/// The escape sequence a colour key stands for; no key, no escape.
pub open spec fn prefix_chars(k: Option<ColorKey>) -> Seq<char> {
    match k {
        None => Seq::empty(),
        Some(ColorKey::TrueColor(c)) => truecolor_prefix(c.r, c.g, c.b),
        Some(ColorKey::Palette(n)) => palette_prefix(n),
    }
}

/// An enum of supported renderer types.
#[derive(Clone, Copy, Debug, PartialEq, Eq, Structural)]
pub enum RendererType {
    /// The ANSI 24-bit colour renderer.
    Ansi,
    /// The ANSI 256 colours renderer.
    Ansi256,
    /// The Unicode renderer.
    Unicode,
    /// The plain renderer: glyphs only, like Unicode, but without the
    /// grayscale preprocessing pass.
    Plain,
}

/// One rendering strategy: how a single pixel becomes an optional colour
/// prefix and a glyph.
pub trait Renderer {
    /// The colour key this strategy derives from a pixel; `None` for
    /// strategies that never emit a colour prefix.
    spec fn pixel_key(&self, pixel: Rgb) -> Option<ColorKey>;

    /// Renders a single pixel as an optional colour escape and a glyph.
    fn render_pixel(&self, pixel: &Rgb, characters: &Vec<char>) -> (cell: (String, char))
        requires
            characters@.len() >= 2,
        ensures
            cell.0@ == prefix_chars(self.pixel_key(*pixel)),
            cell.1 == cell_glyph(characters@, *pixel),
    ;
}

/// The characters of the output from cell `(x, y)` on, row-major, given
/// the key of the prefix last emitted. Each cell emits its colour prefix
/// only when it differs from the previous cell's, then its glyph; every
/// row ends with a newline.
pub open spec fn render_from(
    mode: RendererType,
    chars: Seq<char>,
    grid: Seq<Rgb>,
    w: u32,
    h: u32,
    y: int,
    x: int,
    last: Option<ColorKey>,
) -> Seq<char>
    decreases h - y, w - x,
{
    if y < 0 || y >= h || x < 0 || x > w {
        Seq::empty()
    } else if x == w {
        seq!['\n'] + render_from(mode, chars, grid, w, h, y + 1, 0, last)
    } else {
        let p = grid[y * w + x];
        let k = mode_key(mode, p);
        let pre = if k != last {
            prefix_chars(k)
        } else {
            Seq::empty()
        };
        pre + seq![cell_glyph(chars, p)] + render_from(mode, chars, grid, w, h, y, x + 1, k)
    }
}

/// The full cell loop over a `w * h` grid, starting with no prefix
/// emitted.
pub open spec fn render_cells(
    mode: RendererType,
    chars: Seq<char>,
    grid: Seq<Rgb>,
    w: u32,
    h: u32,
) -> Seq<char> {
    render_from(mode, chars, grid, w, h, 0, 0, None)
}

/// The whole pipeline: scale the raster to the target dimensions, invert
/// it if asked, convert it to grayscale for the Unicode renderer, then run
/// the cell loop.
pub open spec fn spec_pipeline(
    requested_width: Option<u32>,
    requested_height: Option<u32>,
    invert: bool,
    mode: RendererType,
    chars: Seq<char>,
    image: Raster,
) -> Seq<char> {
    let dims = spec_target_dimensions(
        requested_width,
        requested_height,
        image.spec_width(),
        image.spec_height(),
    );
    let scaled = resampled(image.grid(), image.spec_width(), image.spec_height(), dims.0, dims.1);
    let lit = if invert {
        scaled.map_values(|p: Rgb| inverted(p))
    } else {
        scaled
    };
    let shaded = if mode is Unicode {
        lit.map_values(|p: Rgb| grayed(p))
    } else {
        lit
    };
    render_cells(mode, chars, shaded, dims.0, dims.1)
}

/// Relies on `String`'s `FromIterator<char>` impl: collecting characters
/// yields a string holding exactly those characters in order.
#[verifier::external_body]
pub(crate) fn chars_to_string(v: &Vec<char>) -> (s: String)
    ensures
        s@ == v@,
{
    v.iter().collect()
}

/// Picks the ramp glyph for brightness `lum`.
pub(crate) fn ramp_glyph(characters: &Vec<char>, lum: u8) -> (c: char)
    requires
        characters@.len() >= 2,
    ensures
        c == characters@[glyph_index(lum, characters@.len() as int)],
{
    let n = characters.len();
    proof {
        lemma_glyph_index_range(lum, n as int);
        assert((lum as int) * ((n as int) - 1) <= 255 * ((n as int) - 1)) by (nonlinear_arith)
            requires
                lum <= 255 && n >= 1,
        ;
    }
    let idx_wide: u128 = (lum as u128) * ((n - 1) as u128) / 255;
    let idx: usize = idx_wide as usize;
    characters[idx]
}

/// Computes the colour key of a pixel under a render mode.
fn cell_key(mode: &RendererType, pixel: &Rgb) -> (k: Option<ColorKey>)
    ensures
        k == mode_key(*mode, *pixel),
{
    match mode {
        RendererType::Ansi => {
            let s = crate::common::saturate(pixel);
            Some(ColorKey::TrueColor(s))
        },
        RendererType::Ansi256 => {
            let s = crate::common::saturate(pixel);
            Some(ColorKey::Palette(crate::ansi256::palette_index(s.r, s.g, s.b)))
        },
        RendererType::Unicode => None,
        RendererType::Plain => None,
    }
}

/// Builds the escape sequence a colour key stands for.
fn key_prefix(k: &Option<ColorKey>) -> (v: Vec<char>)
    ensures
        v@ == prefix_chars(*k),
{
    match k {
        None => Vec::new(),
        Some(ColorKey::TrueColor(c)) => crate::ansi::rgb_colour_prefix(c.r, c.g, c.b),
        Some(ColorKey::Palette(n)) => crate::ansi256::fixed_colour_prefix(*n),
    }
}

/// Compares two colour keys.
fn key_eq(a: &Option<ColorKey>, b: &Option<ColorKey>) -> (r: bool)
    ensures
        r == (*a == *b),
{
    let av = *a;
    let bv = *b;
    match (av, bv) {
        (Option::None, Option::None) => true,
        (Option::Some(ka), Option::Some(kb)) => match (ka, kb) {
            (ColorKey::TrueColor(c1), ColorKey::TrueColor(c2)) => c1.r == c2.r && c1.g == c2.g
                && c1.b == c2.b,
            (ColorKey::Palette(n1), ColorKey::Palette(n2)) => n1 == n2,
            _ => false,
        },
        _ => false,
    }
}

/// Runs the cell loop: emits, row-major, an optional colour prefix and a
/// glyph per cell, eliding a prefix equal to the previously emitted one,
/// with a newline after each row. The elision state persists across row
/// boundaries.
#[verifier::loop_isolation(false)]
pub(crate) fn render_grid(mode: &RendererType, image: &Raster, characters: &Vec<char>) -> (out:
    String)
    requires
        image.wf(),
        characters@.len() >= 2,
    ensures
        out@ == render_cells(
            *mode,
            characters@,
            image.grid(),
            image.spec_width(),
            image.spec_height(),
        ),
{
    let w = image.width();
    let h = image.height();
    let ghost grid = image.grid();
    let ghost full = render_cells(*mode, characters@, grid, w, h);
    let mut buf: Vec<char> = Vec::new();
    let mut last: Option<ColorKey> = None;
    proof {
        assert(buf@ + render_from(*mode, characters@, grid, w, h, 0, 0, None) =~= full);
    }
    for y in 0..h
        invariant
            full == buf@ + render_from(*mode, characters@, grid, w, h, y as int, 0, last),
    {
        for x in 0..w
            invariant
                y < h,
                full == buf@ + render_from(*mode, characters@, grid, w, h, y as int, x as int, last),
        {
            let ghost buf0 = buf@;
            let ghost last0 = last;
            let p = image.get(x, y);
            let k = cell_key(mode, &p);
            if !key_eq(&k, &last) {
                let mut pre = key_prefix(&k);
                buf.append(&mut pre);
            }
            let lum = crate::common::linear_luma_from_rgb(&p);
            let c = ramp_glyph(characters, lum);
            buf.push(c);
            last = k;
            proof {
                let pspec = grid[(y as int) * (w as int) + (x as int)];
                let rest = render_from(
                    *mode,
                    characters@,
                    grid,
                    w,
                    h,
                    y as int,
                    x as int + 1,
                    k,
                );
                let pre_s = if k != last0 {
                    prefix_chars(k)
                } else {
                    Seq::<char>::empty()
                };
                assert(render_from(*mode, characters@, grid, w, h, y as int, x as int, last0)
                    == pre_s + seq![cell_glyph(characters@, pspec)] + rest);
                assert(buf@ =~= buf0 + pre_s + seq![cell_glyph(characters@, pspec)]);
                assert(buf@ + rest =~= buf0 + (pre_s + seq![cell_glyph(characters@, pspec)]
                    + rest));
            }
        }
        buf.push('\n');
        proof {
            let rest = render_from(*mode, characters@, grid, w, h, y as int + 1, 0, last);
            assert(render_from(*mode, characters@, grid, w, h, y as int, w as int, last)
                == seq!['\n'] + rest);
            assert(buf@ + rest =~= full);
        }
    }
    proof {
        assert(render_from(*mode, characters@, grid, w, h, h as int, 0, last) =~= Seq::<
            char,
        >::empty());
        assert(buf@ =~= full);
    }
    chars_to_string(&buf)
}

/// Collects the characters of a string into a vector, one entry per code
/// point, in order.
pub(crate) fn str_chars(string: &str) -> (v: Vec<char>)
    ensures
        v@ == string@,
{
    let n = string.unicode_len();
    let mut v: Vec<char> = Vec::new();
    for i in 0..n
        invariant
            n == string@.len(),
            v@.len() == i,
            forall|j: int| 0 <= j < i ==> v@[j] == string@[j],
    {
        v.push(string.get_char(i));
    }
    proof {
        assert(v@ =~= string@);
    }
    v
}

/// The glyphs of the built-in character ramp, lowest density first.
pub open spec fn default_ramp() -> Seq<char> {
    seq![' ', '.', '-', ':', '=', '*', '+', '#', '%', '@']
}

/// Builds the built-in character ramp.
fn builtin_chars() -> (v: Vec<char>)
    ensures
        v@ == default_ramp(),
{
    let mut v: Vec<char> = Vec::new();
    v.push(' ');
    v.push('.');
    v.push('-');
    v.push(':');
    v.push('=');
    v.push('*');
    v.push('+');
    v.push('#');
    v.push('%');
    v.push('@');
    proof {
        assert(v@ =~= default_ramp());
    }
    v
}

/// Abstracts an array of characters, for use in a [`Renderer`].
#[derive(Debug)]
pub enum RendererCharacters {
    /// The built-in array of characters.
    Builtin,
    /// A custom array of characters.
    Custom(Vec<char>),
}

impl RendererCharacters {
    /// The glyph sequence this ramp resolves to.
    pub open spec fn spec_get(&self) -> Seq<char> {
        match self {
            RendererCharacters::Builtin => default_ramp(),
            RendererCharacters::Custom(characters) => characters@,
        }
    }

    /// A ramp is well formed when it holds at least two glyphs, so it can
    /// encode brightness.
    pub open spec fn wf(&self) -> bool {
        self.spec_get().len() >= 2
    }

    /// Return the built-in character array in the form of an empty enum
    /// variant.
    pub fn builtin() -> (r: Self)
        ensures
            r == RendererCharacters::Builtin,
            r.wf(),
    {
        Self::Builtin
    }

    /// Builds a custom ramp from the characters of a string, in order, one
    /// entry per code point. A string of fewer than two characters is
    /// rejected with [`ConfigError::RampTooShort`] here, at build time.
    pub fn custom_from(string: &str) -> (r: Result<Self, ConfigError>)
        ensures
            r is Err <==> string@.len() < 2,
            r is Err ==> r == Err::<Self, ConfigError>(ConfigError::RampTooShort),
            r is Ok ==> r->Ok_0.spec_get() == string@ && r->Ok_0.wf(),
    {
        let v = str_chars(string);
        if v.len() < 2 {
            return Err(ConfigError::RampTooShort);
        }
        Ok(Self::Custom(v))
    }

    /// Returns a `Vec<char>` from contained data.
    pub fn get(&self) -> (v: Vec<char>)
        ensures
            v@ == self.spec_get(),
    {
        match self {
            Self::Builtin => builtin_chars(),
            Self::Custom(characters) => {
                let mut v: Vec<char> = Vec::new();
                let n = characters.len();
                for i in 0..n
                    invariant
                        n == characters@.len(),
                        v@.len() == i,
                        forall|j: int| 0 <= j < i ==> v@[j] == characters@[j],
                {
                    v.push(characters[i]);
                }
                proof {
                    assert(v@ =~= characters@);
                }
                v
            },
        }
    }
}

impl Default for RendererCharacters {
    /// The default ramp is the built-in one.
    fn default() -> (r: Self)
        ensures
            r == RendererCharacters::Builtin,
            r.wf(),
    {
        Self::Builtin
    }
}

/// Stores generic renderer data.
pub struct RendererConfig {
    width: Option<u32>,
    height: Option<u32>,
    invert: bool,
    characters: RendererCharacters,
    renderer_type: RendererType,
}

impl RendererConfig {
    /// The requested output width, if any.
    pub closed spec fn spec_width(&self) -> Option<u32> {
        self.width
    }

    /// The requested output height, if any.
    pub closed spec fn spec_height(&self) -> Option<u32> {
        self.height
    }

    /// Whether every channel is inverted before rendering.
    pub closed spec fn spec_invert(&self) -> bool {
        self.invert
    }

    /// The configured character ramp.
    pub closed spec fn spec_characters(&self) -> RendererCharacters {
        self.characters
    }

    /// The configured renderer type.
    pub closed spec fn spec_renderer_type(&self) -> RendererType {
        self.renderer_type
    }

    /// A configuration is well formed when its ramp is.
    pub open spec fn wf(&self) -> bool {
        self.spec_characters().wf()
    }

    /// Everything a render of `image` under this configuration emits.
    pub open spec fn spec_render(&self, image: Raster) -> Seq<char> {
        spec_pipeline(
            self.spec_width(),
            self.spec_height(),
            self.spec_invert(),
            self.spec_renderer_type(),
            self.spec_characters().spec_get(),
            image,
        )
    }

    /// Renders an image into a string.
    ///
    /// The output is row-major, one newline after each row, with colour
    /// escapes only where the configured renderer emits them. No trailing
    /// colour-reset escape is appended; callers that need one append it
    /// themselves.
    pub fn render(&self, image: &Raster) -> (art: String)
        requires
            self.wf(),
            image.wf(),
            image.nonempty(),
        ensures
            art@ == self.spec_render(*image),
    {
        let mut working = resize(&(self.width, self.height), image);
        if self.invert {
            working.invert();
        }
        if matches!(self.renderer_type, RendererType::Unicode) {
            working.grayscale();
        }
        let char_array = self.characters.get();
        render_grid(&self.renderer_type, &working, &char_array)
    }

    pub fn width(&self) -> (w: Option<u32>)
        ensures
            w == self.spec_width(),
    {
        self.width
    }

    pub fn height(&self) -> (h: Option<u32>)
        ensures
            h == self.spec_height(),
    {
        self.height
    }

    pub fn invert(&self) -> (i: bool)
        ensures
            i == self.spec_invert(),
    {
        self.invert
    }

    pub fn characters(&self) -> (c: &RendererCharacters)
        ensures
            *c == self.spec_characters(),
    {
        &self.characters
    }

    pub fn renderer_type(&self) -> (t: &RendererType)
        ensures
            *t == self.spec_renderer_type(),
    {
        &self.renderer_type
    }

    pub fn set_width(self, width: Option<u32>) -> (r: Self)
        ensures
            r.spec_width() == width,
            r.spec_height() == self.spec_height(),
            r.spec_invert() == self.spec_invert(),
            r.spec_characters() == self.spec_characters(),
            r.spec_renderer_type() == self.spec_renderer_type(),
    {
        Self { width, ..self }
    }

    pub fn set_height(self, height: Option<u32>) -> (r: Self)
        ensures
            r.spec_width() == self.spec_width(),
            r.spec_height() == height,
            r.spec_invert() == self.spec_invert(),
            r.spec_characters() == self.spec_characters(),
            r.spec_renderer_type() == self.spec_renderer_type(),
    {
        Self { height, ..self }
    }

    pub fn set_invert(self, invert: bool) -> (r: Self)
        ensures
            r.spec_width() == self.spec_width(),
            r.spec_height() == self.spec_height(),
            r.spec_invert() == invert,
            r.spec_characters() == self.spec_characters(),
            r.spec_renderer_type() == self.spec_renderer_type(),
    {
        Self { invert, ..self }
    }

    pub fn set_characters(self, characters: RendererCharacters) -> (r: Self)
        ensures
            r.spec_width() == self.spec_width(),
            r.spec_height() == self.spec_height(),
            r.spec_invert() == self.spec_invert(),
            r.spec_characters() == characters,
            r.spec_renderer_type() == self.spec_renderer_type(),
    {
        Self { characters, ..self }
    }

    pub fn set_renderer_type(self, renderer_type: RendererType) -> (r: Self)
        ensures
            r.spec_width() == self.spec_width(),
            r.spec_height() == self.spec_height(),
            r.spec_invert() == self.spec_invert(),
            r.spec_characters() == self.spec_characters(),
            r.spec_renderer_type() == renderer_type,
    {
        Self { renderer_type, ..self }
    }
}

/// A standalone renderer: turns a whole raster into a string at once.
pub trait RendererTrait {
    /// What rendering asks of the renderer and the image: well-formed
    /// state and a nonempty raster.
    spec fn render_requires(&self, image: Raster) -> bool;

    /// The characters this renderer emits for `image`.
    spec fn rendered(&self, image: Raster) -> Seq<char>;

    /// Renders the image into a string.
    fn render(self, image: &Raster) -> (art: String)
        requires
            self.render_requires(*image),
        ensures
            art@ == self.rendered(*image),
    ;
}

/// Stores generic renderer data.
#[derive(Debug)]
pub struct RendererOptions {
    pub width: Option<u32>,
    pub height: Option<u32>,
}

impl Default for RendererOptions {
    /// By default neither dimension is requested.
    fn default() -> (r: Self)
        ensures
            r.width is None,
            r.height is None,
    {
        Self { width: None, height: None }
    }
}

impl Default for RendererConfig {
    /// No requested dimensions, no inversion, the built-in ramp, and the
    /// Unicode renderer.
    fn default() -> (c: Self)
        ensures
            c.spec_width() is None,
            c.spec_height() is None,
            !c.spec_invert(),
            c.spec_characters() == RendererCharacters::Builtin,
            c.spec_renderer_type() == RendererType::Unicode,
            c.wf(),
    {
        Self {
            width: None,
            height: None,
            invert: false,
            characters: RendererCharacters::Builtin,
            renderer_type: RendererType::Unicode,
        }
    }
}

/// In the 24-bit colour mode, a row of two adjacent pixels whose
/// saturated colours agree emits exactly one colour prefix for the run,
/// not two: the output is one escape, the two glyphs, and the newline.
pub proof fn lemma_truecolor_elision_pair(chars: Seq<char>, p1: Rgb, p2: Rgb)
    requires
        chars.len() >= 2,
        saturated(p1) == saturated(p2),
    ensures
        render_cells(RendererType::Ansi, chars, seq![p1, p2], 2, 1) == truecolor_prefix(
            saturated(p1).r,
            saturated(p1).g,
            saturated(p1).b,
        ) + seq![cell_glyph(chars, p1), cell_glyph(chars, p2), '\n'],
{
    let grid = seq![p1, p2];
    let k = mode_key(RendererType::Ansi, p1);
    assert(grid[0] == p1 && grid[1] == p2);
    assert(mode_key(RendererType::Ansi, p2) == k);
    assert(render_from(RendererType::Ansi, chars, grid, 2, 1, 1, 0, k) == Seq::<char>::empty());
    assert(render_from(RendererType::Ansi, chars, grid, 2, 1, 0, 2, k) =~= seq!['\n']);
    assert(render_from(RendererType::Ansi, chars, grid, 2, 1, 0, 1, k) =~= seq![
        cell_glyph(chars, p2),
        '\n',
    ]);
    assert(render_from(RendererType::Ansi, chars, grid, 2, 1, 0, 0, None) =~= prefix_chars(k)
        + seq![cell_glyph(chars, p1), cell_glyph(chars, p2), '\n']);
    assert(prefix_chars(k) == truecolor_prefix(saturated(p1).r, saturated(p1).g, saturated(p1).b));
}

/// One output row of `w` copies of one glyph, newline-terminated.
pub open spec fn glyph_row(c: char, w: int) -> Seq<char> {
    Seq::new(w as nat, |i: int| c).push('\n')
}

/// `h` output rows of `w` copies of one glyph, each newline-terminated.
pub open spec fn glyph_rows(c: char, w: int, h: int) -> Seq<char>
    decreases h,
{
    if h <= 0 {
        Seq::empty()
    } else {
        glyph_row(c, w) + glyph_rows(c, w, h - 1)
    }
}

/// In the modes without colour keys the elision state never matters: the
/// output from any cell on is the same whatever prefix was last emitted.
proof fn lemma_keyless_last_irrelevant(
    mode: RendererType,
    chars: Seq<char>,
    grid: Seq<Rgb>,
    w: u32,
    h: u32,
    y: int,
    x: int,
    l1: Option<ColorKey>,
    l2: Option<ColorKey>,
)
    requires
        mode == RendererType::Plain || mode == RendererType::Unicode,
    ensures
        render_from(mode, chars, grid, w, h, y, x, l1) == render_from(
            mode,
            chars,
            grid,
            w,
            h,
            y,
            x,
            l2,
        ),
    decreases h - y, w - x,
{
    if y < 0 || y >= h || x < 0 || x > w {
    } else if x == w {
        lemma_keyless_last_irrelevant(mode, chars, grid, w, h, y + 1, 0, l1, l2);
    } else {
        let p = grid[y * w + x];
        assert(mode_key(mode, p) is None);
        lemma_keyless_last_irrelevant(mode, chars, grid, w, h, y, x + 1, None, None);
    }
}

/// On an all-black grid the plain cell loop finishes the current row with
/// first-glyph cells and renders every further row the same way.
proof fn lemma_plain_black_row(
    chars: Seq<char>,
    grid: Seq<Rgb>,
    w: u32,
    h: u32,
    y: int,
    x: int,
    last: Option<ColorKey>,
)
    requires
        chars.len() >= 2,
        grid.len() == w * h,
        forall|i: int| 0 <= i < grid.len() ==> grid[i] == (Rgb { r: 0, g: 0, b: 0 }),
        0 <= y < h,
        0 <= x <= w,
    ensures
        render_from(RendererType::Plain, chars, grid, w, h, y, x, last) == Seq::new(
            (w - x) as nat,
            |i: int| chars[0],
        ) + seq!['\n'] + render_from(RendererType::Plain, chars, grid, w, h, y + 1, 0, None),
    decreases w - x,
{
    let mode = RendererType::Plain;
    if x == w {
        lemma_keyless_last_irrelevant(mode, chars, grid, w, h, y + 1, 0, last, None);
        assert(render_from(mode, chars, grid, w, h, y, x, last) =~= Seq::new(
            (w - x) as nat,
            |i: int| chars[0],
        ) + seq!['\n'] + render_from(mode, chars, grid, w, h, y + 1, 0, None));
    } else {
        assert(0 <= y * w + x < grid.len()) by (nonlinear_arith)
            requires
                0 <= y < h && 0 <= x < w && grid.len() == w * h,
        ;
        let p = grid[y * w + x];
        assert(p == (Rgb { r: 0, g: 0, b: 0 }));
        assert(luminance(p) == 0);
        lemma_glyph_index_extremes(chars);
        assert(cell_glyph(chars, p) == chars[0]);
        lemma_plain_black_row(chars, grid, w, h, y, x + 1, None);
        assert(render_from(mode, chars, grid, w, h, y, x, last) =~= Seq::new(
            (w - x) as nat,
            |i: int| chars[0],
        ) + seq!['\n'] + render_from(mode, chars, grid, w, h, y + 1, 0, None));
    }
}

/// On an all-black grid the plain cell loop from row `y` on renders the
/// remaining rows as first-glyph rows.
proof fn lemma_plain_black_rows(
    chars: Seq<char>,
    grid: Seq<Rgb>,
    w: u32,
    h: u32,
    y: int,
)
    requires
        chars.len() >= 2,
        grid.len() == w * h,
        forall|i: int| 0 <= i < grid.len() ==> grid[i] == (Rgb { r: 0, g: 0, b: 0 }),
        0 <= y <= h,
    ensures
        render_from(RendererType::Plain, chars, grid, w, h, y, 0, None) == glyph_rows(
            chars[0],
            w as int,
            h - y,
        ),
    decreases h - y,
{
    let mode = RendererType::Plain;
    if y == h {
        assert(render_from(mode, chars, grid, w, h, y, 0, None) =~= glyph_rows(
            chars[0],
            w as int,
            0,
        ));
    } else {
        lemma_plain_black_row(chars, grid, w, h, y, 0, None);
        lemma_plain_black_rows(chars, grid, w, h, y + 1);
        assert(Seq::new(w as nat, |i: int| chars[0]) + seq!['\n'] + glyph_rows(
            chars[0],
            w as int,
            h - y - 1,
        ) =~= glyph_rows(chars[0], w as int, h - y));
    }
}

/// Plain-mode rendering of an all-black grid of `w * h` cells yields `h`
/// lines, each `w` copies of the ramp's first (lowest-density) glyph,
/// each line newline-terminated.
pub proof fn lemma_plain_black_render(chars: Seq<char>, grid: Seq<Rgb>, w: u32, h: u32)
    requires
        chars.len() >= 2,
        grid.len() == w * h,
        forall|i: int| 0 <= i < grid.len() ==> grid[i] == (Rgb { r: 0, g: 0, b: 0 }),
    ensures
        render_cells(RendererType::Plain, chars, grid, w, h) == glyph_rows(
            chars[0],
            w as int,
            h as int,
        ),
{
    lemma_plain_black_rows(chars, grid, w, h, 0);
}

/// The whole plain pipeline on an all-black raster, rendered at its own
/// requested size, yields `h` first-glyph lines of `w` cells each.
pub proof fn lemma_plain_black_pipeline(chars: Seq<char>, image: Raster, w: u32, h: u32)
    requires
        chars.len() >= 2,
        image.wf(),
        image.nonempty(),
        forall|i: int|
            0 <= i < image.grid().len() ==> image.grid()[i] == (Rgb { r: 0, g: 0, b: 0 }),
    ensures
        spec_pipeline(Some(w), Some(h), false, RendererType::Plain, chars, image) == glyph_rows(
            chars[0],
            w as int,
            h as int,
        ),
{
    let sw = image.spec_width();
    let sh = image.spec_height();
    let scaled = resampled(image.grid(), sw, sh, w, h);
    assert forall|i: int| 0 <= i < scaled.len() implies scaled[i] == (Rgb {
        r: 0,
        g: 0,
        b: 0,
    }) by {
        vstd::arithmetic::div_mod::lemma_mod_bound(i, w as int);
        vstd::arithmetic::div_mod::lemma_div_pos_is_pos(i, w as int);
        let x = i % (w as int);
        let y = i / (w as int);
        assert(i < (w as int) * (h as int));
        vstd::arithmetic::div_mod::lemma_multiply_divide_lt(i, w as int, h as int);
        assert(x * (sw as int) < (w as int) * (sw as int)) by (nonlinear_arith)
            requires
                0 <= x < w as int && sw >= 1,
        ;
        vstd::arithmetic::div_mod::lemma_multiply_divide_lt(x * (sw as int), w as int, sw as int);
        lemma_div_pos_is_pos(x * (sw as int), w as int);
        assert(y * (sh as int) < (h as int) * (sh as int)) by (nonlinear_arith)
            requires
                0 <= y < h as int && sh >= 1,
        ;
        vstd::arithmetic::div_mod::lemma_multiply_divide_lt(y * (sh as int), h as int, sh as int);
        lemma_div_pos_is_pos(y * (sh as int), h as int);
        let sx = x * (sw as int) / (w as int);
        let sy = y * (sh as int) / (h as int);
        assert(0 <= sy * sw + sx < (sw as int) * (sh as int)) by (nonlinear_arith)
            requires
                0 <= sx < sw as int && 0 <= sy < sh as int,
        ;
    }
    lemma_plain_black_render(chars, scaled, w, h);
}

} // verus!
