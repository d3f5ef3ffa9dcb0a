//! A pointer-centered screen streaming pipeline.
//!
//! Each iteration captures a small region of the virtual desktop centered on
//! the pointer, composites the pointer icon into it, converts the pixels to a
//! packed 16-bit encoding, and paces delivery to a fixed frame interval while
//! staying responsive to cancellation.  The native capture backend and the
//! asynchronous delivery channel live outside this crate; everything here is
//! the decision and conversion logic they drive.

use vstd::prelude::*;

pub mod controller;
pub mod cursor;
pub mod error;
pub mod iteration;
pub mod pacing;
pub mod pixel;
pub mod rect;
pub mod region;

verus! {

/// Width of the fixed output canvas, in pixels.
pub const CANVAS_WIDTH: usize = 480;

/// Height of the fixed output canvas, in pixels.
pub const CANVAS_HEIGHT: usize = 270;

/// Target duration of one capture iteration, in microseconds.
pub const FRAME_INTERVAL_MICROS: u64 = 10000;

} // verus!
