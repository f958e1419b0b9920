//! ASCII renderer module: a standalone plain renderer with its own, much
//! longer default ramp.

use vstd::prelude::*;

use crate::common::resize;
use crate::error::ConfigError;
use crate::raster::Raster;
use crate::renderer::render_grid;
use crate::renderer::spec_pipeline;
use crate::renderer::str_chars;
use crate::renderer::RendererOptions;
use crate::renderer::RendererTrait;
use crate::renderer::RendererType;

verus! {

/// The default glyph sequence of the ASCII renderer, highest density
/// first.
pub open spec fn ascii_default_ramp() -> Seq<char> {
    "@MBHENR#KWXDFPQASUZbdehx8Gm&04LOVYkpq5Tagns69owz$CIu23Jcfry%1v7l+it[]{}?j|()=~!-/<>\"^';,:`."@
}

/// ASCII renderer.
/// Renders using ASCII characters only.
pub struct AsciiRenderer {
    options: RendererOptions,
    characters: Vec<char>,
}

impl AsciiRenderer {
    /// The requested output width, if any.
    pub closed spec fn spec_width(&self) -> Option<u32> {
        self.options.width
    }

    /// The requested output height, if any.
    pub closed spec fn spec_height(&self) -> Option<u32> {
        self.options.height
    }

    /// The configured glyph ramp.
    pub closed spec fn spec_characters(&self) -> Seq<char> {
        self.characters@
    }

    /// The ramp holds at least two glyphs.
    pub open spec fn wf(&self) -> bool {
        self.spec_characters().len() >= 2
    }

    /// Creates a new `AsciiRenderer`.
    pub fn new() -> (r: Self)
        ensures
            r.spec_width() is None,
            r.spec_height() is None,
            r.spec_characters() == ascii_default_ramp(),
            r.wf(),
    {
        Self::default()
    }

    /// Sets the width of the rendered image(s).
    pub fn width(self, width: Option<u32>) -> (r: Self)
        ensures
            r.spec_width() == width,
            r.spec_height() == self.spec_height(),
            r.spec_characters() == self.spec_characters(),
    {
        let mut this = self;
        this.options.width = width;
        this
    }

    /// Sets the height of the rendered image(s).
    pub fn height(self, height: Option<u32>) -> (r: Self)
        ensures
            r.spec_width() == self.spec_width(),
            r.spec_height() == height,
            r.spec_characters() == self.spec_characters(),
    {
        let mut this = self;
        this.options.height = height;
        this
    }

    /// Sets the characters used in the rendered image(s); a ramp of fewer
    /// than two glyphs is rejected here, at build time, with
    /// [`ConfigError::RampTooShort`].
    pub fn characters(self, characters: Vec<char>) -> (r: Result<Self, ConfigError>)
        ensures
            r is Err <==> characters@.len() < 2,
            r is Err ==> r == Err::<Self, ConfigError>(ConfigError::RampTooShort),
            r is Ok ==> {
                &&& r->Ok_0.spec_width() == self.spec_width()
                &&& r->Ok_0.spec_height() == self.spec_height()
                &&& r->Ok_0.spec_characters() == characters@
                &&& r->Ok_0.wf()
            },
    {
        if characters.len() < 2 {
            return Err(ConfigError::RampTooShort);
        }
        let mut this = self;
        this.characters = characters;
        Ok(this)
    }
}

impl Default for AsciiRenderer {
    /// No requested dimensions and the ASCII default ramp.
    fn default() -> (r: Self)
        ensures
            r.spec_width() is None,
            r.spec_height() is None,
            r.spec_characters() == ascii_default_ramp(),
            r.wf(),
    {
        let characters = str_chars(
            "@MBHENR#KWXDFPQASUZbdehx8Gm&04LOVYkpq5Tagns69owz$CIu23Jcfry%1v7l+it[]{}?j|()=~!-/<>\"^';,:`.",
        );
        proof {
            reveal_strlit(
                "@MBHENR#KWXDFPQASUZbdehx8Gm&04LOVYkpq5Tagns69owz$CIu23Jcfry%1v7l+it[]{}?j|()=~!-/<>\"^';,:`.",
            );
            assert(ascii_default_ramp().len() == 91);
        }
        Self { options: RendererOptions { width: None, height: None }, characters }
    }
}

impl RendererTrait for AsciiRenderer {
    /// Rendering asks for a well-formed ramp and a well-formed, nonempty
    /// raster.
    open spec fn render_requires(&self, image: Raster) -> bool {
        self.wf() && image.wf() && image.nonempty()
    }

    /// The plain pipeline, at this renderer's dimensions and ramp, without
    /// inversion.
    open spec fn rendered(&self, image: Raster) -> Seq<char> {
        spec_pipeline(
            self.spec_width(),
            self.spec_height(),
            false,
            RendererType::Plain,
            self.spec_characters(),
            image,
        )
    }

    /// Renders the image as plain glyph rows.
    fn render(self, image: &Raster) -> (art: String) {
        let working = resize(&(self.options.width, self.options.height), image);
        render_grid(&RendererType::Plain, &working, &self.characters)
    }
}

} // verus!
