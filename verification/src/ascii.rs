//! The plain ASCII render entry point: glyphs only, driven by a
//! configuration's dimensions, inversion flag and ramp.

use vstd::prelude::*;

use crate::common::resize;
use crate::raster::Raster;
use crate::renderer::render_grid;
use crate::renderer::spec_pipeline;
use crate::renderer::RendererConfig;
use crate::renderer::RendererType;

verus! {

/// Writes the image as ASCII art to a string: the plain pipeline applied
/// with the configuration's dimensions, inversion flag and ramp, ignoring
/// its renderer type.
pub fn render(options: &RendererConfig, image: &Raster) -> (art: String)
    requires
        options.wf(),
        image.wf(),
        image.nonempty(),
    ensures
        art@ == spec_pipeline(
            options.spec_width(),
            options.spec_height(),
            options.spec_invert(),
            RendererType::Plain,
            options.spec_characters().spec_get(),
            *image,
        ),
{
    let mut working = resize(&(options.width(), options.height()), image);
    if options.invert() {
        working.invert();
    }
    let char_array = options.characters().get();
    render_grid(&RendererType::Plain, &working, &char_array)
}

} // verus!
