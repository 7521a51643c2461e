//! Annotate an image with a text label drawn inside a colored banner strip.
//!
//! The crate computes the banner geometry, resolves the command-line
//! configuration, derives the output file name, and composes the banner fill
//! and the rasterized label onto a pixel buffer.  Decoding, rasterization and
//! polygon filling are delegated to `imageproc` and `ab_glyph` behind a small
//! trusted boundary; everything around those calls is verified.

pub mod color;
pub mod config;
pub mod layout;
pub mod paths;
pub mod render;
