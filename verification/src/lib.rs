//! A verified model of a minimal OpenGL demo: two triangles drawn from a
//! fixed vertex/index buffer, in a window that closes on Escape.
//!
//! The library holds the demo's logic as data and verified functions: the
//! geometry constants and their upload sizes, the event-dispatch rules, the
//! per-frame command sequence, and the interpretation of shader compile and
//! link results. The graphics driver and the windowing toolkit are driven by
//! an unverified shell that executes the command sequences this library
//! computes.

use vstd::prelude::*;

pub mod application;
pub mod commands;
pub mod events;
pub mod geometry;
pub mod shader;

verus! {

/// Width of the window at start, in pixels.
pub const SCREEN_WIDTH: u32 = 800;

/// Height of the window at start, in pixels.
pub const SCREEN_HEIGHT: u32 = 600;

} // verus!
