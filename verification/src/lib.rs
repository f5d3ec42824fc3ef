//! Scene model for a stereoscopic real-time renderer: colours, textures,
//! materials, shapes and models, the command list a frame is recorded into,
//! and the assembly of models from a parsed Wavefront OBJ document.
//!
//! The library never touches the GPU. Drawing appends commands to a
//! [`RenderContext`]; a backend replays them on the device and reports back
//! which textures it could allocate.

pub mod math;
pub mod model;
pub mod obj;
pub mod render;

pub use math::{Scalar, Vec2, Vec3, Vert};
pub use render::{RenderCommand, RenderContext, UniformIndex, Uniforms};
