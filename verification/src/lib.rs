//! Shader source assembly, input event decoding and stencil configuration
//! for a canvas-hosted WebGL renderer.

pub mod text;
pub mod rendering;
pub mod events;
pub mod webgl;

pub use crate::events::{Event, KeyCode};
pub use crate::rendering::program::Shader;
pub use crate::rendering::shader::ShaderBuilder;
pub use crate::webgl::StencilParams;
