//! Core logic of an interactive rendering demo: a tessellated quad mesh with
//! adjustable sample density, a command interpreter for keyboard and mouse
//! input, the application's control state, and resource-name handling.
//!
//! The graphics backend, windowing and the floating-point evaluation of the
//! camera and mesh data live outside this crate; everything here works on
//! plain integers, booleans and strings, and is verified.

pub mod input;
pub mod mesh;
pub mod resources;
pub mod shader;
pub mod state;
pub mod tangent;

pub use input::MovementDirection;
