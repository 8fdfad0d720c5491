//! The tile baker: colours, images, surfaces and the caching renderer.

pub mod color;
pub mod image;
pub mod surface;
pub mod tilekey;
pub mod bakery;
pub mod renderer;
pub mod shared;
pub mod halton;
