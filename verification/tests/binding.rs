use std::rc::Rc;

use texture_binding::{
    AsUniformValue, CommandContext, Context, ExternalTexture, GlObject, NativeCall,
    TextureAccess, TextureExt, UniformValue, TEXTURE_2D, TEXTURE_EXTERNAL_OES,
};

fn device(handle: usize) -> (Rc<Context>, CommandContext) {
    let context = Rc::new(Context::new(handle));
    let ctxt = CommandContext::new(&context);
    (context, ctxt)
}

#[test]
fn new_call_surface_is_empty() {
    let (context, ctxt) = device(9);
    assert_eq!(context.get_handle(), 9);
    assert_eq!(ctxt.context_handle(), 9);
    assert!(!ctxt.is_current());
    assert!(ctxt.calls().is_empty());
    assert_eq!(ctxt.bound_texture(TEXTURE_2D), 0);
    assert_eq!(ctxt.bound_texture(TEXTURE_EXTERNAL_OES), 0);
    assert!(!ctxt.is_texture(0));
    assert!(!ctxt.is_texture(1));
    assert!(ctxt.has_free_name());
}

#[test]
fn bind_to_current_returns_the_target_and_binds() {
    let (context, mut ctxt) = device(1);
    let texture = ExternalTexture::new(&context, &mut ctxt, 0xBEEF);
    let target = (&texture).bind_to_current(&mut ctxt);
    assert_eq!(target, TEXTURE_EXTERNAL_OES);
    assert_eq!(ctxt.bound_texture(target), (&texture).get_texture_id());
    assert_eq!(ctxt.bound_texture(TEXTURE_2D), 0);
    assert_eq!(
        ctxt.calls().last(),
        Some(&NativeCall::BindTexture { target: TEXTURE_EXTERNAL_OES, texture: 1 })
    );
}

#[test]
fn binding_twice_leaves_the_same_texture_bound() {
    let (context, mut ctxt) = device(1);
    let texture = ExternalTexture::new(&context, &mut ctxt, 0xBEEF);
    ctxt.bind_texture(TEXTURE_2D, 5);
    let first = (&texture).bind_to_current(&mut ctxt);
    let bound_external = ctxt.bound_texture(TEXTURE_EXTERNAL_OES);
    let bound_2d = ctxt.bound_texture(TEXTURE_2D);
    let second = (&texture).bind_to_current(&mut ctxt);
    assert_eq!(first, second);
    assert_eq!(ctxt.bound_texture(TEXTURE_EXTERNAL_OES), bound_external);
    assert_eq!(ctxt.bound_texture(TEXTURE_2D), bound_2d);
    assert_eq!(bound_external, 1);
    assert_eq!(bound_2d, 5);
    assert!(ctxt.is_texture(1));
    assert_eq!(ctxt.image_of(1), Some(0xBEEF));
}

#[test]
fn last_bind_wins_on_one_target() {
    let (context, mut ctxt) = device(1);
    let first = ExternalTexture::new(&context, &mut ctxt, 0x1000);
    let second = ExternalTexture::new(&context, &mut ctxt, 0x2000);
    (&first).bind_to_current(&mut ctxt);
    (&second).bind_to_current(&mut ctxt);
    assert_eq!(ctxt.bound_texture(TEXTURE_EXTERNAL_OES), second.get_id());
}

#[test]
fn targets_have_slots_of_their_own() {
    let (context, mut ctxt) = device(1);
    context.make_current(&mut ctxt);
    ctxt.bind_texture(TEXTURE_2D, 3);
    ctxt.bind_texture(TEXTURE_EXTERNAL_OES, 4);
    assert_eq!(ctxt.bound_texture(TEXTURE_2D), 3);
    assert_eq!(ctxt.bound_texture(TEXTURE_EXTERNAL_OES), 4);
    ctxt.bind_texture(TEXTURE_2D, 0);
    assert_eq!(ctxt.bound_texture(TEXTURE_2D), 0);
    assert_eq!(ctxt.bound_texture(TEXTURE_EXTERNAL_OES), 4);
}

#[test]
fn unknown_target_changes_no_binding() {
    let (_context, mut ctxt) = device(1);
    ctxt.bind_texture(TEXTURE_2D, 3);
    ctxt.bind_texture(0x1234, 9);
    assert_eq!(ctxt.bound_texture(0x1234), 0);
    assert_eq!(ctxt.bound_texture(TEXTURE_2D), 3);
    assert_eq!(ctxt.bound_texture(TEXTURE_EXTERNAL_OES), 0);
    assert_eq!(
        ctxt.calls().last(),
        Some(&NativeCall::BindTexture { target: 0x1234, texture: 9 })
    );
}

#[test]
fn prepare_for_access_changes_nothing() {
    let (context, mut ctxt) = device(1);
    let texture = ExternalTexture::new(&context, &mut ctxt, 0xBEEF);
    (&texture).bind_to_current(&mut ctxt);
    let calls = ctxt.calls().clone();
    let kinds = [
        TextureAccess::TextureFetch,
        TextureAccess::ImageUnit { will_write: false },
        TextureAccess::ImageUnit { will_write: true },
    ];
    for kind in kinds {
        (&texture).prepare_for_access(&mut ctxt, kind);
        assert_eq!(texture.get_id(), 1);
        assert_eq!((&texture).get_texture_id(), 1);
        assert_eq!((&texture).get_bind_point(), TEXTURE_EXTERNAL_OES);
        assert!(Rc::ptr_eq((&texture).get_context(), &context));
        assert_eq!(ctxt.calls(), &calls);
        assert_eq!(ctxt.bound_texture(TEXTURE_EXTERNAL_OES), 1);
        assert_eq!(ctxt.bound_texture(TEXTURE_2D), 0);
        assert!(ctxt.is_current());
        assert_eq!(ctxt.image_of(1), Some(0xBEEF));
    }
}

#[test]
fn borrowed_and_owned_uniform_values_agree() {
    let (context, mut ctxt) = device(1);
    let texture = ExternalTexture::new(&context, &mut ctxt, 0xBEEF);
    let borrowed = &texture;
    let from_borrowed = AsUniformValue::as_uniform_value(&borrowed);
    let from_owned = AsUniformValue::as_uniform_value(&texture);
    let UniformValue::ExternalTexture(a, sampler_a) = from_borrowed;
    let UniformValue::ExternalTexture(b, sampler_b) = from_owned;
    assert!(std::ptr::eq(a, b));
    assert!(std::ptr::eq(a, &texture));
    assert_eq!(a.get_id(), b.get_id());
    assert_eq!(a.get_id(), 1);
    assert_eq!(sampler_a, None);
    assert_eq!(sampler_b, None);
    assert_eq!(sampler_a, sampler_b);
}

#[test]
fn uniform_value_binds_nothing() {
    let (context, mut ctxt) = device(1);
    let texture = ExternalTexture::new(&context, &mut ctxt, 0xBEEF);
    let calls = ctxt.calls().len();
    let _value = texture.as_uniform_value();
    assert_eq!(ctxt.calls().len(), calls);
    assert_eq!(ctxt.bound_texture(TEXTURE_EXTERNAL_OES), 0);
}

#[test]
fn gen_texture_hands_out_names_in_order() {
    let (_context, mut ctxt) = device(1);
    assert_eq!(ctxt.gen_texture(), 1);
    assert_eq!(ctxt.gen_texture(), 2);
    assert_eq!(ctxt.gen_texture(), 3);
    assert!(ctxt.is_texture(2));
    assert_eq!(ctxt.image_of(2), None);
    assert_eq!(
        ctxt.calls(),
        &vec![
            NativeCall::GenTexture { texture: 1 },
            NativeCall::GenTexture { texture: 2 },
            NativeCall::GenTexture { texture: 3 },
        ]
    );
}

#[test]
fn import_goes_to_the_texture_bound_at_the_target() {
    let (_context, mut ctxt) = device(1);
    let first = ctxt.gen_texture();
    let second = ctxt.gen_texture();
    ctxt.bind_texture(TEXTURE_EXTERNAL_OES, second);
    ctxt.egl_image_target_texture_2d_oes(TEXTURE_EXTERNAL_OES, 0xABCD);
    assert_eq!(ctxt.image_of(first), None);
    assert_eq!(ctxt.image_of(second), Some(0xABCD));
    assert_eq!(
        ctxt.calls().last(),
        Some(&NativeCall::EglImageTargetTexture2dOes {
            target: TEXTURE_EXTERNAL_OES,
            texture: second,
            image: 0xABCD,
        })
    );
}

#[test]
fn import_with_nothing_bound_changes_no_texture() {
    let (_context, mut ctxt) = device(1);
    let name = ctxt.gen_texture();
    ctxt.egl_image_target_texture_2d_oes(TEXTURE_EXTERNAL_OES, 0xABCD);
    assert_eq!(ctxt.image_of(name), None);
    assert_eq!(
        ctxt.calls().last(),
        Some(&NativeCall::EglImageTargetTexture2dOes {
            target: TEXTURE_EXTERNAL_OES,
            texture: 0,
            image: 0xABCD,
        })
    );
}

#[test]
fn delete_of_a_name_that_is_not_live_changes_nothing() {
    let (_context, mut ctxt) = device(1);
    let name = ctxt.gen_texture();
    ctxt.bind_texture(TEXTURE_2D, name);
    ctxt.delete_texture(0);
    ctxt.delete_texture(7);
    assert!(ctxt.is_texture(name));
    assert_eq!(ctxt.bound_texture(TEXTURE_2D), name);
    assert_eq!(ctxt.calls().len(), 4);
    ctxt.delete_texture(name);
    assert!(!ctxt.is_texture(name));
    assert_eq!(ctxt.bound_texture(TEXTURE_2D), 0);
    ctxt.delete_texture(name);
    assert_eq!(ctxt.calls().len(), 6);
}

#[test]
fn release_current_clears_the_flag_only() {
    let (context, mut ctxt) = device(1);
    let _texture = ExternalTexture::new(&context, &mut ctxt, 0xBEEF);
    let calls = ctxt.calls().len();
    ctxt.release_current();
    assert!(!ctxt.is_current());
    assert!(!context.is_current(&ctxt));
    assert_eq!(ctxt.calls().len(), calls);
    assert!(ctxt.is_texture(1));
    context.make_current(&mut ctxt);
    assert!(ctxt.is_current());
    assert_eq!(ctxt.calls().len(), calls);
}

#[test]
fn context_is_not_current_on_the_surface_of_another() {
    let (_first, mut ctxt) = device(1);
    let second = Context::new(2);
    let first = Context::new(1);
    first.make_current(&mut ctxt);
    assert!(first.is_current(&ctxt));
    assert!(!second.is_current(&ctxt));
}
