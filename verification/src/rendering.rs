//! Shader program description and source generation.

pub mod hoist;
pub mod source;
pub mod shader;
pub mod program;
