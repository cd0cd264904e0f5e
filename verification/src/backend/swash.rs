//! Back end that scales and hints glyphs and keeps the rendered images.

pub mod face;
pub mod font;
