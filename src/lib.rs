//! Verified core of a small OpenGL application scaffold.
//!
//! The library decides, as plain data, every driver command that the
//! resource wrappers issue: which texture formats to use, how textures are
//! allocated and updated, how a shader program is compiled and linked, and how
//! the application driver reacts to window events. The embedding program hands
//! the driver's answers (object names, compile status, uniform locations) back
//! in and executes the commands it receives, in order.
pub mod app_config;
pub mod app_runner;
pub mod gl;
pub mod image;
pub mod shader;
pub mod texture;
pub mod utils;
pub mod vao;

pub use app_config::AppConfig;
pub use app_runner::{AppError, AppRunner, RunAction, RunEvent, RunState};
pub use gl::GlCommand;
pub use image::{Image, ImageError, PixelLayout};
pub use shader::{BuildStage, Shader, ShaderBuilder, ShaderError, ShaderStep, StageReport};
pub use texture::{
    Texture1D, Texture2D, Texture3D, TextureData, TextureError, TextureLayout, TextureTrait,
};
pub use utils::{
    format_for, get_gl_format_from_internal, get_gl_type_from_internal, is_known_internal_format,
};
pub use vao::VAO;
