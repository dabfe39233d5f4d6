//! The colours and the pieces of text that the screen is made of.

pub mod render;
pub mod theme;

pub use theme::{Rgb, Theme};
