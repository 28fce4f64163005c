//! Sub-character rendering of bi-level pixel grids with Unicode sextant
//! glyphs, and the bookkeeping of an interactive escape-time fractal viewer
//! built on top of it.

pub mod bit_store;
pub mod bits2d;
pub mod cache;
pub mod handler;
pub mod render;
pub mod sextant;
pub mod session;
pub mod shared_map;
