//! Error taxonomy of the rendering pipeline.

use vstd::prelude::*;

verus! {

/// Errors raised while building a rendering configuration or its input.
///
/// Every failure is reported at build time: a configuration or raster that
/// was constructed successfully renders without further failure modes.
#[derive(Clone, Copy, Debug, PartialEq, Eq, Structural)]
pub enum ConfigError {
    /// The character ramp holds fewer than two glyphs, so it cannot encode
    /// brightness.
    RampTooShort,
    /// The raster has a zero width or a zero height.
    EmptyInput,
}

} // verus!
