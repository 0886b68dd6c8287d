//! Viewport/camera subsystem for a terminal viewer/editor of a large
//! fixed-size 2D scalar grid.
//!
//! A small camera window pans over a much larger world grid. The library
//! owns the coordinate-mapping pipeline: projecting world-space cells into
//! a bounded terminal-sized frame, clamping the camera to the legal pan
//! range as the window resizes, accounting for ruler overlays that consume
//! part of the drawable area, and inverting screen-space pointer events
//! back into world-space cell coordinates for editing.
//!
//! Cell values are fixed-point scalars: an `i32` holds the value scaled by
//! 1000, so `1000` stands for `1.0` and `-500` for `-0.5`. Terminal I/O,
//! event polling and procedural seeding live outside the library and hand
//! it plain values.

pub mod camera;
pub mod glyph;
pub mod grid;
pub mod pointer;
pub mod state;
pub mod viewport;
