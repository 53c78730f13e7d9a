//! Decision core of a shader-quad viewer.
//!
//! The crate holds everything about driving an OpenGL shader program that can
//! be decided without touching the graphics context: how native return values
//! are read, in which order the native calls of a program build are issued,
//! what one pass of the render loop does to the viewer's state, and the quad
//! geometry that is uploaded at start-up.  The native calls themselves are
//! made by the caller, which feeds their results back in as plain values.

pub mod builder;
pub mod frame;
pub mod geometry;
pub mod infolog;
pub mod native;
pub mod resource;
pub mod uniforms;
