//! Picks a piece of text art at random and tiles it over the terminal in colors.

pub mod builtins;
pub mod collect;
pub mod color;
pub mod render;
pub mod select;
pub mod text;
