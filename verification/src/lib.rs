//! A verified model of a minimal real-time WebGL rendering pipeline.
//!
//! The library holds the decisions of the pipeline: how shader compile and
//! link outcomes become typed results or errors, how attribute and uniform
//! locations are resolved by name, the static quad geometry and its layout,
//! pointer tracking and normalization, the frame clock, and the
//! self-perpetuating render-loop scheduler. The browser supplies the
//! rendering surface, the graphics context and the frame pacing; a thin
//! unverified shell performs those calls and feeds their outcomes to the
//! functions here.

pub mod clock;
pub mod error;
pub mod geometry;
pub mod input;
pub mod program;
pub mod renderer;
pub mod scheduler;
pub mod shader;
