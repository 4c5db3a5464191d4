//! Verified core of a bounded numeric input control and of the font
//! selection that goes with it.
//!
//! The control keeps a committed value inside an inclusive domain while the
//! user steps it, types into it, deletes from it or pastes into it. Every
//! decision it takes is a function from plain values to plain values, so the
//! code that draws it and feeds it events can stay outside.

pub mod font;
pub mod widget;
