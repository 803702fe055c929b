//! The deciding half of a small instanced 2D renderer.
//!
//! The library lays rectangles out, turns shapes and instance transforms
//! into the bytes that a graphics device takes, decides when the device's
//! instance buffer has to be replaced and when it can be written in place,
//! plans each frame, and coalesces bursts of resize notifications into one
//! delayed resize. It never touches a device or a window: every operation
//! answers with plain values that say what is to be done.

pub mod config;
pub mod designer;
pub mod encoding;
pub mod graphics;
pub mod render;
pub mod scalar;
pub mod scheduler;
