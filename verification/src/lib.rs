//! Decision logic of a full-screen screenshot viewer.
//!
//! The viewer shows a captured screen as a textured quad that can be panned,
//! zoomed and lit by a "flashlight" around the cursor. Everything that talks
//! to the window system or the graphics driver lives with the caller; this
//! crate holds the parts that decide:
//!
//! * [`shader`]: preparing shader sources for the driver and turning the
//!   driver's info log into a failure report;
//! * [`controls`]: the interaction state and its reaction to input.

pub mod controls;
pub mod shader;
