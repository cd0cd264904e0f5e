//! Glyph rasterization for a GPU text pipeline: a shared font store,
//! per-thread font contexts over two back ends, and the conversion of the
//! back ends' images into four-channel pixel buffers.

pub mod backend;
pub mod pixels;
pub mod rasterizer;
pub mod types;
