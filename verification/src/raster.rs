//! The in-memory raster the pipeline consumes: a row-major grid of RGB
//! pixels with a known width and height.

use vstd::prelude::*;

use crate::common::luminance;
use crate::error::ConfigError;

verus! {

/// One pixel: red, green and blue channels.
#[derive(Clone, Copy, Debug, PartialEq, Eq, Structural)]
pub struct Rgb {
    pub r: u8,
    pub g: u8,
    pub b: u8,
}

impl Rgb {
    /// Builds a pixel from its three channels.
    pub fn new(r: u8, g: u8, b: u8) -> (p: Rgb)
        ensures
            p == (Rgb { r, g, b }),
    {
        Rgb { r, g, b }
    }
}

/// The pixel with every channel replaced by its complement `255 - channel`.
pub open spec fn inverted(p: Rgb) -> Rgb {
    Rgb { r: (255 - p.r) as u8, g: (255 - p.g) as u8, b: (255 - p.b) as u8 }
}

/// The grayscale pixel that carries the luminance of `p` on all channels.
pub open spec fn grayed(p: Rgb) -> Rgb {
    Rgb { r: luminance(p), g: luminance(p), b: luminance(p) }
}

/// Inverting a pixel twice restores the original channel values exactly.
pub proof fn lemma_inverted_involutive(p: Rgb)
    ensures
        inverted(inverted(p)) == p,
{
}

/// Inverting a whole grid of pixels twice restores the original grid.
pub proof fn lemma_inverted_grid_involutive(grid: Seq<Rgb>)
    ensures
        grid.map_values(|p: Rgb| inverted(p)).map_values(|p: Rgb| inverted(p)) == grid,
{
    assert(grid.map_values(|p: Rgb| inverted(p)).map_values(|p: Rgb| inverted(p)) =~= grid);
}

/// A decoded image: `width * height` RGB pixels stored row by row.
///
/// The pipeline never parses image files itself; a caller hands it the
/// decoded pixel grid through [`Raster::new`].
#[derive(Debug)]
pub struct Raster {
    width: u32,
    height: u32,
    pixels: Vec<Rgb>,
}

impl Raster {
    /// The width in pixels.
    pub closed spec fn spec_width(&self) -> u32 {
        self.width
    }

    /// The height in pixels.
    pub closed spec fn spec_height(&self) -> u32 {
        self.height
    }

    /// The pixel grid, row-major.
    pub closed spec fn grid(&self) -> Seq<Rgb> {
        self.pixels@
    }

    /// The grid holds exactly one pixel per cell.
    pub open spec fn wf(&self) -> bool {
        self.grid().len() == self.spec_width() * self.spec_height()
    }

    /// Both dimensions are at least one pixel.
    pub open spec fn nonempty(&self) -> bool {
        self.spec_width() >= 1 && self.spec_height() >= 1
    }

    /// The pixel in column `x` of row `y`.
    pub open spec fn pix(&self, x: int, y: int) -> Rgb {
        self.grid()[y * self.spec_width() + x]
    }

    /// Builds a raster from its dimensions and its row-major pixel grid.
    ///
    /// A zero-sized raster is rejected at build time with
    /// [`ConfigError::EmptyInput`]; rendering itself has no failure modes.
    pub fn new(width: u32, height: u32, pixels: Vec<Rgb>) -> (r: Result<Raster, ConfigError>)
        requires
            pixels@.len() == width * height,
        ensures
            r is Err <==> (width == 0 || height == 0),
            r is Err ==> r == Err::<Raster, ConfigError>(ConfigError::EmptyInput),
            r is Ok ==> {
                &&& r->Ok_0.wf()
                &&& r->Ok_0.nonempty()
                &&& r->Ok_0.spec_width() == width
                &&& r->Ok_0.spec_height() == height
                &&& r->Ok_0.grid() == pixels@
            },
    {
        if width == 0 || height == 0 {
            Err(ConfigError::EmptyInput)
        } else {
            Ok(Raster { width, height, pixels })
        }
    }

    /// Builds a raster without rejecting zero dimensions; the pipeline uses
    /// it for the working copies it produces itself, whose dimensions come
    /// from the scaler and may legitimately be zero.
    pub(crate) fn from_grid(width: u32, height: u32, pixels: Vec<Rgb>) -> (r: Raster)
        requires
            pixels@.len() == width * height,
        ensures
            r.wf(),
            r.spec_width() == width,
            r.spec_height() == height,
            r.grid() == pixels@,
    {
        Raster { width, height, pixels }
    }

    /// The width in pixels.
    pub fn width(&self) -> (w: u32)
        ensures
            w == self.spec_width(),
    {
        self.width
    }

    /// The height in pixels.
    pub fn height(&self) -> (h: u32)
        ensures
            h == self.spec_height(),
    {
        self.height
    }

    /// Reads the pixel in column `x` of row `y`.
    pub fn get(&self, x: u32, y: u32) -> (p: Rgb)
        requires
            self.wf(),
            x < self.spec_width(),
            y < self.spec_height(),
        ensures
            p == self.pix(x as int, y as int),
    {
        let n = self.pixels.len();
        proof {
            assert((y as int) * (self.width as int) + (x as int) < (self.width as int) * (
            self.height as int)) by (nonlinear_arith)
                requires
                    x < self.width,
                    y < self.height,
            ;
            assert((y as int) * (self.width as int) + (x as int) < n);
        }
        let idx: usize = (y as usize) * (self.width as usize) + (x as usize);
        self.pixels[idx]
    }

    /// Replaces every channel of every pixel by its complement, in place.
    pub fn invert(&mut self)
        ensures
            final(self).spec_width() == old(self).spec_width(),
            final(self).spec_height() == old(self).spec_height(),
            final(self).grid() == old(self).grid().map_values(|p: Rgb| inverted(p)),
    {
        let ghost g0 = self.pixels@;
        let ghost w0 = self.width;
        let ghost h0 = self.height;
        let n = self.pixels.len();
        for i in 0..n
            invariant
                n == g0.len(),
                self.pixels@.len() == g0.len(),
                self.width == w0,
                self.height == h0,
                forall|j: int| 0 <= j < i ==> self.pixels@[j] == inverted(g0[j]),
                forall|j: int| i <= j < g0.len() ==> self.pixels@[j] == g0[j],
        {
            let p = self.pixels[i];
            self.pixels[i] = Rgb { r: 255 - p.r, g: 255 - p.g, b: 255 - p.b };
        }
        assert(self.pixels@ =~= g0.map_values(|p: Rgb| inverted(p)));
    }

    /// Converts the raster to grayscale, in place: every pixel keeps only
    /// its luminance, carried equally on all three channels.
    pub fn grayscale(&mut self)
        ensures
            final(self).spec_width() == old(self).spec_width(),
            final(self).spec_height() == old(self).spec_height(),
            final(self).grid() == old(self).grid().map_values(|p: Rgb| grayed(p)),
    {
        let ghost g0 = self.pixels@;
        let ghost w0 = self.width;
        let ghost h0 = self.height;
        let n = self.pixels.len();
        for i in 0..n
            invariant
                n == g0.len(),
                self.pixels@.len() == g0.len(),
                self.width == w0,
                self.height == h0,
                forall|j: int| 0 <= j < i ==> self.pixels@[j] == grayed(g0[j]),
                forall|j: int| i <= j < g0.len() ==> self.pixels@[j] == g0[j],
        {
            let p = self.pixels[i];
            let l = crate::common::linear_luma_from_rgb(&p);
            self.pixels[i] = Rgb { r: l, g: l, b: l };
        }
        assert(self.pixels@ =~= g0.map_values(|p: Rgb| grayed(p)));
    }
}

} // verus!
