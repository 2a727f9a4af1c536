//! Frame synchronisation and resource-lifecycle engine of a small real-time
//! renderer.
//!
//! The library decides; the caller acts. Every device operation (creating an
//! object, waiting on a fence, submitting, presenting) is named by an action of
//! one of the state machines here, performed by the caller, and its outcome is
//! handed back as an event.
use vstd::prelude::*;

pub mod bytes;
pub mod frame_loop;
pub mod lifecycle;
pub mod pipeline;
pub mod resources;
pub mod shader;
pub mod transform;

verus! {

/// Width of the render target and of every presentable image, in pixels.
pub const WIDTH: u32 = 1600;

/// Height of the render target and of every presentable image, in pixels.
pub const HEIGHT: u32 = 900;

/// Number of frame slots (frames in flight).
pub const NUM_FRAMES: u32 = 2;

/// Number of mesh task workgroups dispatched per frame.
pub const MESH_TASKS: u32 = 1;

} // verus!
