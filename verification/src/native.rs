//! The state of the native graphics API, as far as texture binding touches it.
//!
//! [`NativeState`] is a mathematical value. Each native call is a function
//! from one state to the next, and the executable call surface
//! ([`crate::CommandContext`]) is specified by these functions.

use vstd::prelude::*;
use crate::gl::{EglImage, GLenum, GLuint, TEXTURE_2D, TEXTURE_EXTERNAL_OES};

verus! {

/// One call into the native API, with the values that it was made with.
#[derive(Clone, Copy, Debug, PartialEq, Eq, Structural)]
pub enum NativeCall {
    /// A texture name was allocated; `texture` is the name that came back.
    GenTexture { texture: GLuint },
    /// `texture` was bound to `target`; zero unbinds.
    BindTexture { target: GLenum, texture: GLuint },
    /// `image` was imported into `texture`, the texture bound to `target` at
    /// the time of the call.
    EglImageTargetTexture2dOes { target: GLenum, texture: GLuint, image: EglImage },
    /// `texture` was deleted.
    DeleteTexture { texture: GLuint },
}

/// The native state of one device context.
pub struct NativeState {
    /// The handle of the device context that this state belongs to.
    pub context: usize,
    /// Whether that context is the active one.
    pub current: bool,
    /// How many texture names were handed out so far. Names are handed out in
    /// order, starting at one, and never a second time.
    pub names_issued: nat,
    /// The live textures, each with the external image that backs it, if one
    /// was imported into it.
    pub textures: Map<GLuint, Option<EglImage>>,
    /// The texture bound to [`TEXTURE_2D`], or zero.
    pub texture_2d: GLuint,
    /// The texture bound to [`TEXTURE_EXTERNAL_OES`], or zero.
    pub texture_external: GLuint,
    /// Every native call made so far, oldest first.
    pub calls: Seq<NativeCall>,
}

impl NativeState {
    /// The state of a context on which no call was made yet.
    pub open spec fn initial(context: usize) -> NativeState {
        NativeState {
            context,
            current: false,
            names_issued: 0,
            textures: Map::empty(),
            texture_2d: 0,
            texture_external: 0,
            calls: Seq::empty(),
        }
    }

    /// Every live texture has a name that was handed out, and all names fit
    /// the native name type.
    pub open spec fn wf(self) -> bool {
        &&& self.names_issued <= u32::MAX
        &&& forall|name: GLuint| #[trigger]
            self.textures.dom().contains(name) ==> 1 <= name <= self.names_issued
    }

    /// Whether `name` is a live texture.
    pub open spec fn is_texture(self, name: GLuint) -> bool {
        self.textures.dom().contains(name)
    }

    /// The texture bound to `target`; zero where nothing is bound or `target`
    /// is no texture target.
    pub open spec fn binding(self, target: GLenum) -> GLuint {
        if target == TEXTURE_2D {
            self.texture_2d
        } else if target == TEXTURE_EXTERNAL_OES {
            self.texture_external
        } else {
            0
        }
    }

    /// The name that the next allocation hands out.
    pub open spec fn next_name(self) -> GLuint
        recommends
            self.names_issued < u32::MAX,
    {
        (self.names_issued + 1) as GLuint
    }

    /// The same state with another call at the end of the log.
    pub open spec fn record(self, call: NativeCall) -> NativeState {
        NativeState { calls: self.calls.push(call), ..self }
    }

    /// The context becomes the active one. This is no call of the texture API
    /// and leaves the log as it is.
    pub open spec fn make_current(self) -> NativeState {
        NativeState { current: true, ..self }
    }

    /// Another context becomes the active one.
    pub open spec fn release_current(self) -> NativeState {
        NativeState { current: false, ..self }
    }

    /// Allocation of one texture name: the next name becomes a live texture
    /// with no image behind it.
    pub open spec fn gen_texture(self) -> NativeState
        recommends
            self.names_issued < u32::MAX,
    {
        NativeState {
            names_issued: self.names_issued + 1,
            textures: self.textures.insert(self.next_name(), None),
            ..self
        }.record(NativeCall::GenTexture { texture: self.next_name() })
    }

    /// Binding `texture` to `target`: the slot of `target` holds `texture`, the
    /// other slot is untouched. A `target` without a slot changes no binding.
    pub open spec fn bind_texture(self, target: GLenum, texture: GLuint) -> NativeState {
        NativeState {
            texture_2d: if target == TEXTURE_2D {
                texture
            } else {
                self.texture_2d
            },
            texture_external: if target == TEXTURE_EXTERNAL_OES {
                texture
            } else {
                self.texture_external
            },
            ..self
        }.record(NativeCall::BindTexture { target, texture })
    }

    /// Import of `image` into the texture bound to `target`: that texture, if
    /// it is live, is backed by `image` from now on. No other texture changes.
    pub open spec fn egl_image_target_texture_2d_oes(
        self,
        target: GLenum,
        image: EglImage,
    ) -> NativeState {
        let texture = self.binding(target);
        NativeState {
            textures: if self.is_texture(texture) {
                self.textures.insert(texture, Some(image))
            } else {
                self.textures
            },
            ..self
        }.record(NativeCall::EglImageTargetTexture2dOes { target, texture, image })
    }

    /// Deletion of `texture`: it is no longer live, and a slot that held it
    /// holds zero. A name that is not live changes nothing.
    pub open spec fn delete_texture(self, texture: GLuint) -> NativeState {
        if self.is_texture(texture) {
            NativeState {
                textures: self.textures.remove(texture),
                texture_2d: if self.texture_2d == texture {
                    0
                } else {
                    self.texture_2d
                },
                texture_external: if self.texture_external == texture {
                    0
                } else {
                    self.texture_external
                },
                ..self
            }.record(NativeCall::DeleteTexture { texture })
        } else {
            self.record(NativeCall::DeleteTexture { texture })
        }
    }

    /// Binding the same texture to the same target a second time changes no
    /// binding and no object: the second call only adds to the log.
    pub proof fn lemma_bind_texture_idempotent(self, target: GLenum, texture: GLuint)
        ensures
            self.bind_texture(target, texture).bind_texture(
                target,
                texture,
            ).same_objects_and_bindings(self.bind_texture(target, texture)),
            self.bind_texture(target, texture).bind_texture(target, texture).binding(target)
                == self.bind_texture(target, texture).binding(target),
    {
    }

    /// Each texture target has a slot of its own. A texture bound to a target
    /// stays bound while another target is bound, and on one target the last
    /// bind wins.
    pub proof fn lemma_bind_texture_slots(
        self,
        first: GLenum,
        a: GLuint,
        second: GLenum,
        b: GLuint,
    )
        requires
            crate::gl::is_texture_target(first),
            crate::gl::is_texture_target(second),
        ensures
            self.bind_texture(first, a).bind_texture(second, b).binding(second) == b,
            first != second ==> self.bind_texture(first, a).bind_texture(second, b).binding(first)
                == a,
    {
    }

    /// Whether `self` and `other` agree on everything but the log of calls.
    pub open spec fn same_objects_and_bindings(self, other: NativeState) -> bool {
        &&& self.context == other.context
        &&& self.current == other.current
        &&& self.names_issued == other.names_issued
        &&& self.textures == other.textures
        &&& self.texture_2d == other.texture_2d
        &&& self.texture_external == other.texture_external
    }
}

} // verus!
