//! The capabilities by which a renderer handles any texture-like resource.

use std::rc::Rc;
use vstd::prelude::*;
use crate::context::{CommandContext, Context};
use crate::gl::{GLenum, GLuint};

pub mod external_texture;

verus! {

/// How a texture is about to be used by a draw or compute operation.
#[derive(Clone, Copy, Debug, PartialEq, Eq, Structural)]
pub enum TextureAccess {
    /// The texture is sampled.
    TextureFetch,
    /// The texture is bound as an image unit; `will_write` says whether the
    /// operation writes to it.
    ImageUnit { will_write: bool },
}

/// A resource that occupies a native object name.
pub trait GlObject {
    /// The type of the native name.
    type Id;

    /// The native name of the object.
    spec fn object_id(&self) -> Self::Id;

    /// The native name of the object. Reading it changes nothing.
    fn get_id(&self) -> (id: Self::Id)
        ensures
            id == self.object_id(),
    ;
}

/// A texture-like resource that can be bound into the active context.
pub trait TextureExt {
    /// The native name of the texture.
    spec fn texture_id(&self) -> GLuint;

    /// The device context that the texture was made from.
    spec fn texture_context(&self) -> Rc<Context>;

    /// The binding target of the texture. It never changes.
    spec fn bind_point(&self) -> GLenum;

    /// The native name of the texture.
    fn get_texture_id(&self) -> (id: GLuint)
        ensures
            id == self.texture_id(),
    ;

    /// The device context that the texture must be bound and used within.
    fn get_context(&self) -> (context: &Rc<Context>)
        ensures
            *context == self.texture_context(),
    ;

    /// The binding target that the texture must be bound to.
    fn get_bind_point(&self) -> (target: GLenum)
        ensures
            target == self.bind_point(),
    ;

    /// Binds the texture to its binding target in the active context and
    /// returns that target. The context of the texture must be the active
    /// one, and `ctxt` its call surface.
    fn bind_to_current(&self, ctxt: &mut CommandContext) -> (target: GLenum)
        requires
            old(ctxt).wf(),
            old(ctxt)@.context == self.texture_context().handle(),
            old(ctxt)@.current,
        ensures
            final(ctxt).wf(),
            target == self.bind_point(),
            final(ctxt)@ == old(ctxt)@.bind_texture(self.bind_point(), self.texture_id()),
    ;

    /// Called right before the texture is used, for kinds of texture that
    /// must wait for a producer. Whatever it does, it leaves the native
    /// objects and bindings as they are.
    fn prepare_for_access(&self, ctxt: &mut CommandContext, access_type: TextureAccess)
        requires
            old(ctxt).wf(),
        ensures
            final(ctxt).wf(),
            final(ctxt)@.same_objects_and_bindings(old(ctxt)@),
    ;
}

} // verus!
