//! Blink logic for a bare-metal board: a typed pin vocabulary, the three
//! primitive hardware calls it is marshalled into, and the two lifecycle
//! callbacks that drive one output pin on and off.
//!
//! The library never touches hardware. Every primitive call is appended to a
//! [`hal::HalTrace`], and the contracts say exactly which calls are appended
//! and in which order; the firmware image forwards the recorded calls to the
//! board.

pub mod encoding;
pub mod hal;
pub mod lifecycle;
pub mod pins;

pub use lifecycle::{loopy, setup};
