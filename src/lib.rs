//! Planning and bookkeeping for drawing one colored triangle into a GPU surface.
//!
//! The GPU work itself (creating the instance, surface, adapter and device, recording
//! and submitting commands) happens in the host program. This library decides what
//! that work is: which surface format to use, how the surface is configured, what the
//! vertex buffer holds, how the pipeline is laid out, and which step of the
//! initialization sequence comes next.
pub mod surface;
pub mod geometry;
pub mod pipeline;
pub mod frame;
pub mod session;
