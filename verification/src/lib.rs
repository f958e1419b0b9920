//! Renders a decoded raster image as a grid of printable characters,
//! optionally carrying per-cell terminal colour escape sequences.

pub mod ansi;
pub mod ansi256;
pub mod ascii;
pub mod ascii_renderer;
pub mod common;
pub mod error;
pub mod raster;
pub mod renderer;
pub mod unicode;

pub use ansi::AnsiRenderer;
pub use ascii_renderer::AsciiRenderer;
pub use ansi256::Ansi256Renderer;
pub use error::ConfigError;
pub use raster::Raster;
pub use raster::Rgb;
pub use renderer::Renderer;
pub use renderer::RendererOptions;
pub use renderer::RendererTrait;
pub use renderer::RendererCharacters;
pub use renderer::RendererConfig;
pub use renderer::RendererType;
pub use unicode::UnicodeRenderer;
