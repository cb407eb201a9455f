//! Core of a minimal raw-mode terminal front-end: a bounded cursor model,
//! the escape-sequence text for the mode line, and the per-keystroke
//! dispatch rules of the event loop.
//!
//! The library is pure: it computes cursor positions and the exact text to
//! send to the terminal. Reading keys, raw-mode handling and the writes
//! themselves stay outside.

pub mod cursor;
pub mod dispatch;
pub mod render;
mod term;
