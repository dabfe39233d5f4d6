//! What the keyboard asks of the program.

pub mod keyboard;

pub use keyboard::{handle_key, Action, Key, KeyInput};
