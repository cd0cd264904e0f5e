//! The rasterization back ends. Both offer the same operations; a build uses
//! one of them.

pub mod fontdue;
pub mod swash;
