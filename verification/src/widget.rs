//! The widgets of the gallery.

pub mod decimal;
pub mod number;
pub mod number_input;
