//! Core of a screencast key-display overlay: interprets a stream of global
//! key-down/key-up events into human-readable chord strings (`Ctrl + Shift + A`)
//! and keeps them in a bounded, time-decaying display buffer.
//!
//! The OS input hook, the window and the text rendering live outside this
//! library; they feed plain key events in and poll display snapshots out.

pub mod buffer;
pub mod fade;
pub mod keys;
pub mod laws;
pub mod pipeline;
pub mod tracker;
