//! A typed, memory-safe surface over a firmware text-output device.
//!
//! The library wraps the device's capability table (reset, write, mode query,
//! cursor and attribute control) behind checked accessors, encodes raw status
//! codes as structured outcomes, and adapts variable-width text to the fixed
//! 16-bit code-unit protocol the device understands.

pub mod color;
pub mod device;
pub mod encoder;
pub mod error;
pub mod output;
pub mod scripted;
pub mod status;
