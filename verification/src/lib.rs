//! Pre-rendered lighting for tile-based terrain: the cache and dispatch layer
//! that serves baked tiles, the block palette it draws from, and the grid
//! world around it.

pub mod common;
pub mod editor;
pub mod game;
pub mod tracer;
