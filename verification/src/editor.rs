//! The level editor's state and rules.

pub mod toolbar;
pub mod editor;
