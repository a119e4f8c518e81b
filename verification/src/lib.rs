//! Verified core of a minimal immediate-mode 2D renderer.
//!
//! Each frame, a small fixed catalog of primitives (axis-aligned rectangles
//! and colored triangles) is packed into one attribute region and one index
//! region of the current frame slot; a single generic GPU vertex stage then
//! decodes every primitive from the index stream alone.  This crate holds the
//! parts of that pipeline that are pure logic: the bit-packed index encoding,
//! the exact (rational) orthographic projection, the primitive writer, the
//! double-buffered frame-slot ring, the frame-loop state machine, and the
//! setup decisions (surface format, queue family, memory type, shader words).
//! The graphics API itself is driven by an unverified shell around this crate.

pub mod encoding;
pub mod error;
pub mod frame_loop;
pub mod geometry;
pub mod projection;
pub mod ring;
pub mod setup;
pub mod shader;
pub mod winmsg;
pub mod writer;
