//! Types and enumerants of the native graphics API.

use vstd::prelude::*;

verus! {

/// A native object name. Zero names no object.
pub type GLuint = u32;

/// A native enumerant, such as a binding target.
pub type GLenum = u32;

/// An image handle of the platform's image-sharing mechanism: an opaque value
/// of pointer size. Whoever produced it keeps it alive and releases it.
pub type EglImage = usize;

/// The binding target of ordinary two-dimensional textures.
pub const TEXTURE_2D: GLenum = 0x0DE1;

/// The binding target of textures backed by an external image. It has a
/// binding slot of its own, apart from that of [`TEXTURE_2D`].
pub const TEXTURE_EXTERNAL_OES: GLenum = 0x8D65;

/// Whether `target` is a binding target that has a slot in [`crate::NativeState`].
pub open spec fn is_texture_target(target: GLenum) -> bool {
    target == TEXTURE_2D || target == TEXTURE_EXTERNAL_OES
}

} // verus!
