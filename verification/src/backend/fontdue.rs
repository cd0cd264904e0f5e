//! Back end that renders outlines and falls back to the images embedded in a
//! font.

pub mod face;
pub mod font;
