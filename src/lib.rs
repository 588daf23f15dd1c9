//! Renders a single-channel raster image as coloured quadrant-block text.

pub mod glyph;
pub mod pixels;
pub mod style;
pub mod stringifier;
pub mod laws;
