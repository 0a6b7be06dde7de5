//! A resource-binding layer for GPU-visible textures.
//!
//! Texture-like resources are handled through capability traits: a renderer
//! assigns a slot, selects a binding target, binds, and prepares for access
//! without knowing the concrete type behind the trait. The one concrete kind
//! defined here is [`ExternalTexture`], a texture whose storage is an image
//! surface produced outside of the graphics API and imported without a copy.
//!
//! The native API is stateful. Its state, as far as this layer touches it, is
//! described by [`NativeState`], and every operation states its effect on it.

pub mod backend;
pub mod context;
pub mod gl;
pub mod native;
pub mod texture;
pub mod uniforms;

pub use backend::Facade;
pub use context::{CommandContext, Context};
pub use gl::{EglImage, GLenum, GLuint, TEXTURE_2D, TEXTURE_EXTERNAL_OES};
pub use native::{NativeCall, NativeState};
pub use texture::external_texture::ExternalTexture;
pub use texture::{GlObject, TextureAccess, TextureExt};
pub use uniforms::{AsUniformValue, SamplerBehavior, UniformValue};
