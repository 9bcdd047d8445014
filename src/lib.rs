//! Verified pieces of a small text rasterizer: the brush color that travels
//! with each styled run, the conversion of glyph outlines into rasterizer
//! paths, and the lifecycle of the bitmap the glyphs are filled into.
pub mod color;
pub mod canvas;
pub mod outline;
pub mod glyph;
