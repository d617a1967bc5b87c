//! A fixed scene, one rotating cube with a solid colour on each face, described
//! as plain data for a WebGL host to carry out.
//!
//! The library decides everything that can be decided without a graphics
//! context: the cube's geometry, the order of the start-up steps, how a report
//! about a shader or a buffer turns into success or an error message, that
//! start-up ends at the first step that fails, and the commands and camera
//! numbers of each frame. A host performs the steps and commands against a
//! real context and feeds back what it observed.

pub mod codes;
pub mod command;
pub mod frame;
pub mod geometry;
pub mod setup;
pub mod shader;
