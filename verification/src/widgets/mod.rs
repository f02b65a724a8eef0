//! The logic of the built-in widgets.
pub mod button;
pub mod label;
