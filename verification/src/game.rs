//! The grid world that asks for baked tiles.

pub mod texture;
pub mod key;
pub mod palette;
pub mod map;
pub mod gamestate;
pub mod hamster;
pub mod viewport;
