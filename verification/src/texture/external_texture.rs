//! Textures backed by an image from outside of the graphics API.

use std::rc::Rc;
use vstd::prelude::*;
use crate::backend::{share_context, Facade};
use crate::context::{CommandContext, Context};
use crate::gl::{EglImage, GLenum, GLuint, TEXTURE_EXTERNAL_OES};
use crate::native::{NativeCall, NativeState};
use crate::texture::{GlObject, TextureAccess, TextureExt};

verus! {

/// A texture whose storage is an image surface produced outside of the
/// graphics API.
///
/// It owns its native texture name, and not the image that it was made from.
/// It never changes after [`ExternalTexture::new`].
pub struct ExternalTexture {
    context: Rc<Context>,
    id: GLuint,
}

/// The native state after the import of `image` into a new texture: the
/// context is the active one, the next name is a live texture backed by
/// `image`, nothing is bound to the external target, and the log holds the
/// four calls of the import.
pub open spec fn state_after_import(state: NativeState, image: EglImage) -> NativeState
    recommends
        state.names_issued < u32::MAX,
{
    let texture = state.next_name();
    NativeState {
        context: state.context,
        current: true,
        names_issued: state.names_issued + 1,
        textures: state.textures.insert(texture, Some(image)),
        texture_2d: state.texture_2d,
        texture_external: 0,
        calls: state.calls + seq![
            NativeCall::GenTexture { texture },
            NativeCall::BindTexture { target: TEXTURE_EXTERNAL_OES, texture },
            NativeCall::EglImageTargetTexture2dOes { target: TEXTURE_EXTERNAL_OES, texture, image },
            NativeCall::BindTexture { target: TEXTURE_EXTERNAL_OES, texture: 0 },
        ],
    }
}

/// The import is these native calls, in this order: the context is made the
/// active one, a name is allocated and bound to the external target, the
/// image is imported into the texture bound there, and the target is unbound.
pub proof fn lemma_import_steps(state: NativeState, image: EglImage)
    requires
        state.wf(),
        state.names_issued < u32::MAX,
    ensures
        state_after_import(state, image) == state.make_current().gen_texture().bind_texture(
            TEXTURE_EXTERNAL_OES,
            state.next_name(),
        ).egl_image_target_texture_2d_oes(TEXTURE_EXTERNAL_OES, image).bind_texture(
            TEXTURE_EXTERNAL_OES,
            0,
        ),
        state_after_import(state, image).wf(),
{
    let after = state_after_import(state, image);
    let steps = state.make_current().gen_texture().bind_texture(
        TEXTURE_EXTERNAL_OES,
        state.next_name(),
    ).egl_image_target_texture_2d_oes(TEXTURE_EXTERNAL_OES, image).bind_texture(
        TEXTURE_EXTERNAL_OES,
        0,
    );
    assert(after.calls =~= steps.calls);
    assert(after.textures =~= steps.textures);
}

/// Two imports in a row on one context give two different texture names,
/// and the first texture is still live, with its image, after the second.
pub proof fn lemma_imports_give_distinct_names(state: NativeState, first: EglImage, second: EglImage)
    requires
        state.wf(),
        state.names_issued + 1 < u32::MAX,
    ensures
        state_after_import(state, first).next_name() != state.next_name(),
        state_after_import(state_after_import(state, first), second).textures[state.next_name()]
            == Some(first),
        state_after_import(state_after_import(state, first), second).is_texture(
            state.next_name(),
        ),
{
}

impl ExternalTexture {
    /// The native name of the texture.
    pub closed spec fn id(&self) -> GLuint {
        self.id
    }

    /// The device context that the texture was made from.
    pub closed spec fn context(&self) -> Rc<Context> {
        self.context
    }

    /// Makes an external texture from `image`.
    ///
    /// The context of `facade` is made the active one, a texture name is
    /// allocated and bound to the external target, `image` is imported into
    /// it, and the target is unbound again. `ctxt` must be the call surface
    /// of that context, with a texture name left to hand out. The image is
    /// not checked; it must be valid until this function returns.
    pub fn new<F: Facade>(facade: &F, ctxt: &mut CommandContext, image: EglImage) -> (texture:
        ExternalTexture)
        requires
            old(ctxt).wf(),
            old(ctxt)@.context == facade.context().handle(),
            old(ctxt)@.names_issued < u32::MAX,
        ensures
            final(ctxt).wf(),
            texture.context() == facade.context(),
            texture.id() == old(ctxt)@.next_name(),
            texture.id() != 0,
            (&texture).bind_point() == TEXTURE_EXTERNAL_OES,
            !old(ctxt)@.is_texture(texture.id()),
            final(ctxt)@ == state_after_import(old(ctxt)@, image),
            final(ctxt)@.binding(TEXTURE_EXTERNAL_OES) == 0,
    {
        let context = facade.get_context();
        context.make_current(ctxt);
        let id = ctxt.gen_texture();
        ctxt.bind_texture(TEXTURE_EXTERNAL_OES, id);
        ctxt.egl_image_target_texture_2d_oes(TEXTURE_EXTERNAL_OES, image);
        ctxt.bind_texture(TEXTURE_EXTERNAL_OES, 0);
        proof {
            let after = state_after_import(old(ctxt)@, image);
            assert(ctxt@.calls =~= after.calls);
            assert(ctxt@.textures =~= after.textures);
        }
        ExternalTexture { context: share_context(context), id }
    }

    /// Releases the native texture name. The context of the texture must be
    /// the active one, and `ctxt` its call surface. The texture is consumed,
    /// so its name is released once.
    pub fn delete(self, ctxt: &mut CommandContext)
        requires
            old(ctxt).wf(),
            old(ctxt)@.context == self.context().handle(),
            old(ctxt)@.current,
        ensures
            final(ctxt).wf(),
            final(ctxt)@ == old(ctxt)@.delete_texture(self.id()),
    {
        ctxt.delete_texture(self.id);
    }
}

impl GlObject for ExternalTexture {
    type Id = GLuint;

    open spec fn object_id(&self) -> GLuint {
        self.id()
    }

    fn get_id(&self) -> (id: GLuint) {
        self.id
    }
}

impl<'a> TextureExt for &'a ExternalTexture {
    open spec fn texture_id(&self) -> GLuint {
        self.id()
    }

    open spec fn texture_context(&self) -> Rc<Context> {
        self.context()
    }

    open spec fn bind_point(&self) -> GLenum {
        TEXTURE_EXTERNAL_OES
    }

    fn get_texture_id(&self) -> (id: GLuint) {
        self.id
    }

    fn get_context(&self) -> (context: &Rc<Context>) {
        &self.context
    }

    fn get_bind_point(&self) -> (target: GLenum) {
        TEXTURE_EXTERNAL_OES
    }

    fn bind_to_current(&self, ctxt: &mut CommandContext) -> (target: GLenum) {
        ctxt.bind_texture(TEXTURE_EXTERNAL_OES, self.id);
        TEXTURE_EXTERNAL_OES
    }

    /// Does nothing: the import made the image visible, and no later wait is
    /// needed. `access_type` makes no difference.
    fn prepare_for_access(&self, ctxt: &mut CommandContext, access_type: TextureAccess)
        ensures
            *final(ctxt) == *old(ctxt),
    {
    }
}

} // verus!
