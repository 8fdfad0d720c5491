//! Small geometric and arithmetic building blocks.

pub mod vector2;
pub mod math;
pub mod fnv_store;
pub mod pt;
pub mod rect;
pub mod vector;
pub mod matrix;
