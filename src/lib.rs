//! Resource layer for OpenGL ES rendering: shader program building, texture
//! upload planning, meshes with a fixed vertex layout, models with a texture
//! cache keyed by path, index generation for grids and spheres, and names for
//! driver diagnostics.
//!
//! The library never talks to the driver itself. Each operation that would
//! touch driver state returns the exact list of commands to issue
//! ([`command::GlCommand`]), or is a step of a state machine that is told what
//! the driver answered. The caller owns the context and executes the commands.
pub mod gl;
pub mod text;
pub mod command;
pub mod texture;
pub mod mesh;
pub mod model;
pub mod shader;
pub mod diagnostics;
pub mod tessellation;
