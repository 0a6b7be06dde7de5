//! The device context and the call surface of the native API.

use vstd::prelude::*;
use crate::gl::{EglImage, GLenum, GLuint, TEXTURE_2D, TEXTURE_EXTERNAL_OES};
use crate::native::{NativeCall, NativeState};

verus! {

/// One live connection to the native graphics API.
///
/// A context is shared: every resource made from it holds a counted reference
/// to it. The context must outlive these resources; nothing here detects a
/// context that was destroyed too early.
#[derive(Debug)]
pub struct Context {
    handle: usize,
}

impl Context {
    /// The native handle of the connection, by which a context is told from
    /// another.
    pub closed spec fn handle(&self) -> usize {
        self.handle
    }

    /// A context for the connection with the given native handle.
    pub fn new(handle: usize) -> (context: Context)
        ensures
            context.handle() == handle,
    {
        Context { handle }
    }

    /// The native handle of the connection.
    pub fn get_handle(&self) -> (handle: usize)
        ensures
            handle == self.handle(),
    {
        self.handle
    }

    /// Makes this context the active one. `ctxt` must be the call surface of
    /// this context. Nothing else of the native state changes.
    pub fn make_current(&self, ctxt: &mut CommandContext)
        requires
            old(ctxt).wf(),
            old(ctxt)@.context == self.handle(),
        ensures
            final(ctxt).wf(),
            final(ctxt)@ == old(ctxt)@.make_current(),
    {
        ctxt.current = true;
    }

    /// Whether this context is the active one, as `ctxt` has it.
    pub fn is_current(&self, ctxt: &CommandContext) -> (current: bool)
        ensures
            current == (ctxt@.context == self.handle() && ctxt@.current),
    {
        ctxt.context == self.handle && ctxt.current
    }
}

/// What the call surface keeps of one texture name that it handed out.
enum Slot {
    /// The texture was deleted.
    Deleted,
    /// The texture is live, with the image that backs it, if any.
    Live(Option<EglImage>),
}

/// The call surface of one device context: every native call of this layer
/// goes through it.
///
/// It keeps the native state that these calls establish, and a log of the
/// calls themselves. Its view is the [`NativeState`].
pub struct CommandContext {
    context: usize,
    current: bool,
    /// Entry `i` belongs to the texture name `i + 1`.
    slots: Vec<Slot>,
    texture_2d: GLuint,
    texture_external: GLuint,
    calls: Vec<NativeCall>,
}

impl View for CommandContext {
    type V = NativeState;

    closed spec fn view(&self) -> NativeState {
        NativeState {
            context: self.context,
            current: self.current,
            names_issued: self.slots@.len(),
            textures: Map::new(
                |name: GLuint| 1 <= name <= self.slots@.len() && self.slots@[name - 1] is Live,
                |name: GLuint| self.slots@[name - 1]->Live_0,
            ),
            texture_2d: self.texture_2d,
            texture_external: self.texture_external,
            calls: self.calls@,
        }
    }
}

impl CommandContext {
    /// The state behind the call surface is well formed.
    pub open spec fn wf(&self) -> bool {
        self@.wf()
    }

    /// The call surface of `context`, with no call made yet.
    pub fn new(context: &Context) -> (ctxt: CommandContext)
        ensures
            ctxt.wf(),
            ctxt@ == NativeState::initial(context.handle()),
    {
        let ctxt = CommandContext {
            context: context.handle,
            current: false,
            slots: Vec::new(),
            texture_2d: 0,
            texture_external: 0,
            calls: Vec::new(),
        };
        assert(ctxt@.textures =~= Map::empty());
        ctxt
    }

    /// The handle of the device context that this call surface belongs to.
    pub fn context_handle(&self) -> (handle: usize)
        ensures
            handle == self@.context,
    {
        self.context
    }

    /// Whether the context is the active one.
    pub fn is_current(&self) -> (current: bool)
        ensures
            current == self@.current,
    {
        self.current
    }

    /// Another context became the active one.
    pub fn release_current(&mut self)
        requires
            old(self).wf(),
        ensures
            final(self).wf(),
            final(self)@ == old(self)@.release_current(),
    {
        self.current = false;
    }

    /// The texture bound to `target`, or zero.
    pub fn bound_texture(&self, target: GLenum) -> (texture: GLuint)
        ensures
            texture == self@.binding(target),
    {
        if target == TEXTURE_2D {
            self.texture_2d
        } else if target == TEXTURE_EXTERNAL_OES {
            self.texture_external
        } else {
            0
        }
    }

    /// Whether `name` is a live texture.
    pub fn is_texture(&self, name: GLuint) -> (live: bool)
        ensures
            live == self@.is_texture(name),
    {
        if name == 0 || name as usize > self.slots.len() {
            return false;
        }
        match self.slots[name as usize - 1] {
            Slot::Live(_) => true,
            Slot::Deleted => false,
        }
    }

    /// The external image that backs the texture `name`; `None` where `name`
    /// is no live texture or no image was imported into it.
    pub fn image_of(&self, name: GLuint) -> (image: Option<EglImage>)
        ensures
            image == if self@.is_texture(name) {
                self@.textures[name]
            } else {
                None
            },
    {
        if name == 0 || name as usize > self.slots.len() {
            return None;
        }
        match self.slots[name as usize - 1] {
            Slot::Live(image) => image,
            Slot::Deleted => None,
        }
    }

    /// The native calls made so far, oldest first.
    pub fn calls(&self) -> (calls: &Vec<NativeCall>)
        ensures
            calls@ == self@.calls,
    {
        &self.calls
    }

    /// Whether a texture name is left to hand out.
    pub fn has_free_name(&self) -> (free: bool)
        ensures
            free == (self@.names_issued < u32::MAX),
    {
        self.slots.len() < u32::MAX as usize
    }

    /// Allocates one texture name. The name is not zero and was never handed
    /// out before.
    pub fn gen_texture(&mut self) -> (texture: GLuint)
        requires
            old(self).wf(),
            old(self)@.names_issued < u32::MAX,
        ensures
            final(self).wf(),
            texture == old(self)@.next_name(),
            texture != 0,
            !old(self)@.is_texture(texture),
            final(self)@ == old(self)@.gen_texture(),
    {
        let texture: GLuint = (self.slots.len() + 1) as GLuint;
        self.slots.push(Slot::Live(None));
        self.calls.push(NativeCall::GenTexture { texture });
        proof {
            assert(final(self)@.textures =~= old(self)@.textures.insert(texture, None));
        }
        texture
    }

    /// Binds `texture` to `target`; zero unbinds.
    pub fn bind_texture(&mut self, target: GLenum, texture: GLuint)
        requires
            old(self).wf(),
        ensures
            final(self).wf(),
            final(self)@ == old(self)@.bind_texture(target, texture),
    {
        if target == TEXTURE_2D {
            self.texture_2d = texture;
        } else if target == TEXTURE_EXTERNAL_OES {
            self.texture_external = texture;
        }
        self.calls.push(NativeCall::BindTexture { target, texture });
        proof {
            assert(final(self)@.textures =~= old(self)@.textures);
        }
    }

    /// Imports `image` into the texture bound to `target`, without a copy.
    pub fn egl_image_target_texture_2d_oes(&mut self, target: GLenum, image: EglImage)
        requires
            old(self).wf(),
        ensures
            final(self).wf(),
            final(self)@ == old(self)@.egl_image_target_texture_2d_oes(target, image),
    {
        let texture = self.bound_texture(target);
        if self.is_texture(texture) {
            self.slots.set(texture as usize - 1, Slot::Live(Some(image)));
        }
        self.calls.push(NativeCall::EglImageTargetTexture2dOes { target, texture, image });
        proof {
            assert(final(self)@.textures =~= old(self)@.egl_image_target_texture_2d_oes(
                target,
                image,
            ).textures);
        }
    }

    /// Deletes `texture` and takes it out of the slots that hold it.
    pub fn delete_texture(&mut self, texture: GLuint)
        requires
            old(self).wf(),
        ensures
            final(self).wf(),
            final(self)@ == old(self)@.delete_texture(texture),
    {
        if self.is_texture(texture) {
            self.slots.set(texture as usize - 1, Slot::Deleted);
            if self.texture_2d == texture {
                self.texture_2d = 0;
            }
            if self.texture_external == texture {
                self.texture_external = 0;
            }
        }
        self.calls.push(NativeCall::DeleteTexture { texture });
        proof {
            assert(final(self)@.textures =~= old(self)@.delete_texture(texture).textures);
        }
    }
}

} // verus!
