//! Values that can be assigned to a shader uniform.

use vstd::prelude::*;
use crate::gl::GLenum;
use crate::texture::external_texture::ExternalTexture;

verus! {

/// How a texture is sampled, where the defaults of the texture itself are not
/// wanted. Each field is a native enumerant.
#[derive(Clone, Copy, Debug, PartialEq, Eq, Structural)]
pub struct SamplerBehavior {
    /// What happens outside of the texture's coordinates.
    pub wrap_function: GLenum,
    /// The filter used where the texture is shown smaller than it is.
    pub minify_filter: GLenum,
    /// The filter used where the texture is shown larger than it is.
    pub magnify_filter: GLenum,
}

/// A value of a shader uniform, tagged by its kind.
pub enum UniformValue<'a> {
    /// A texture backed by an external image, with the sampling that
    /// overrides its own, if any.
    ExternalTexture(&'a ExternalTexture, Option<SamplerBehavior>),
}

/// A type whose values can be assigned to a shader uniform.
pub trait AsUniformValue {
    /// The uniform value that stands for `self`.
    spec fn uniform_value(&self) -> UniformValue<'_>;

    /// Wraps `self` into a uniform value. Nothing is bound by this.
    fn as_uniform_value(&self) -> (value: UniformValue<'_>)
        ensures
            value == self.uniform_value(),
    ;
}

impl<'a> AsUniformValue for &'a ExternalTexture {
    open spec fn uniform_value(&self) -> UniformValue<'_> {
        UniformValue::ExternalTexture(*self, None)
    }

    fn as_uniform_value(&self) -> (value: UniformValue<'_>) {
        UniformValue::ExternalTexture(*self, None)
    }
}

impl AsUniformValue for ExternalTexture {
    open spec fn uniform_value(&self) -> UniformValue<'_> {
        UniformValue::ExternalTexture(self, None)
    }

    fn as_uniform_value(&self) -> (value: UniformValue<'_>) {
        UniformValue::ExternalTexture(self, None)
    }
}

/// A texture wrapped by reference and the same texture wrapped as a value
/// give the same uniform value: the same texture behind it, and no sampling
/// override.
pub proof fn lemma_uniform_value_borrowed_and_owned(texture: &ExternalTexture)
    ensures
        (&texture).uniform_value() == texture.uniform_value(),
        texture.uniform_value() == UniformValue::ExternalTexture(texture, None),
{
}

} // verus!
