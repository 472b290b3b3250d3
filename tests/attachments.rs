use gullery::attachments::{AnyAttachment, AttachmentList, AttachmentTargetType, AttachmentType, Attachments};
use gullery::framebuffer::{plan_attachment_bindings, AttachmentBinding, AttachmentError};
use gullery::handles::Handle;
use gullery::image_format::{FormatTypeTag, ImageFormat};
use gullery::renderbuffer::{Renderbuffer, RenderbufferTarget};
use gullery::texture::Texture;

fn color_format() -> ImageFormat {
    ImageFormat { kind: FormatTypeTag::Color, internal_format: 0x8058, pixel_format: 0x1908, pixel_type: 0x1401 }
}

fn depth_format() -> ImageFormat {
    ImageFormat { kind: FormatTypeTag::Depth, internal_format: 0x81A5, pixel_format: 0x1902, pixel_type: 0x1403 }
}

fn color_depth_color() -> AttachmentList<AnyAttachment> {
    let mut list = AttachmentList::new();
    list.push_member(
        "color0".to_string(),
        AnyAttachment::Renderbuffer(Renderbuffer::new(Handle(1), color_format(), (64, 32), 0)),
        0,
    );
    list.push_member(
        "depth0".to_string(),
        AnyAttachment::Renderbuffer(Renderbuffer::new(Handle(2), depth_format(), (64, 32), 0)),
        0,
    );
    list.push_member(
        "color1".to_string(),
        AnyAttachment::Texture(Texture::new(Handle(3), color_format(), 4)),
        2,
    );
    list
}

#[test]
fn color_indices_skip_non_color_fields() {
    assert_eq!(color_depth_color().color_attachments(), vec![(0, 0), (2, 1)]);
}

#[test]
fn attachment_members_counted() {
    assert_eq!(color_depth_color().num_members(), 3);
    assert_eq!(().num_members(), 0);
    assert_eq!(().color_attachments(), vec![]);
}

#[test]
fn bindings_in_declaration_order() {
    assert_eq!(
        plan_attachment_bindings(&color_depth_color(), 3),
        Ok(vec![
            AttachmentBinding { attachment_point: 0x8CE0, target: AttachmentTargetType::Renderbuffer, handle: Handle(1), level: 0 },
            AttachmentBinding { attachment_point: 0x8D00, target: AttachmentTargetType::Renderbuffer, handle: Handle(2), level: 0 },
            AttachmentBinding { attachment_point: 0x8CE1, target: AttachmentTargetType::Texture, handle: Handle(3), level: 2 },
        ])
    );
}

#[test]
fn renderbuffer_mip_is_always_base_level() {
    let mut list = AttachmentList::new();
    list.push_member("rb".to_string(), Renderbuffer::new(Handle(9), color_format(), (1, 1), 4), 7);
    assert_eq!(
        plan_attachment_bindings(&list, 1),
        Ok(vec![AttachmentBinding { attachment_point: 0x8CE0, target: AttachmentTargetType::Renderbuffer, handle: Handle(9), level: 0 }])
    );
}

#[test]
fn more_fields_than_handle_slots_fails() {
    assert_eq!(
        plan_attachment_bindings(&color_depth_color(), 2),
        Err(AttachmentError::TooManyAttachments { member: 2, max: 2 })
    );
    assert_eq!(
        plan_attachment_bindings(&color_depth_color(), 0),
        Err(AttachmentError::TooManyAttachments { member: 0, max: 0 })
    );
    assert_eq!(plan_attachment_bindings(&(), 0), Ok(vec![]));
}

#[test]
fn mutable_references_are_transparent() {
    let mut rb = Renderbuffer::new(Handle(5), depth_format(), (8, 8), 2);
    let mut tex = Texture::new(Handle(6), color_format(), 3);
    let rb_info = rb.info();
    let tex_info = tex.info();
    {
        let rb_ref = &mut rb;
        assert_eq!(rb_ref.info(), rb_info);
        assert_eq!(AttachmentType::resolve_reference(&rb_ref), Handle(5));
        let rb_ref_ref = &mut &mut *rb_ref;
        assert_eq!(AttachmentType::resolve_reference(&rb_ref_ref), Handle(5));
    }
    let mut owned = AttachmentList::new();
    owned.push_member("depth".to_string(), AnyAttachment::Renderbuffer(rb), 1);
    owned.push_member("color".to_string(), AnyAttachment::Texture(tex), 1);
    let owned_bindings = plan_attachment_bindings(&owned, 4);
    let owned_colors = owned.color_attachments();

    let mut rb2 = AnyAttachment::Renderbuffer(rb);
    let mut tex2 = AnyAttachment::Texture(tex);
    let mut by_ref = AttachmentList::new();
    by_ref.push_member("depth".to_string(), &mut rb2, 1);
    by_ref.push_member("color".to_string(), &mut tex2, 1);
    assert_eq!(plan_attachment_bindings(&by_ref, 4), owned_bindings);
    assert_eq!(by_ref.color_attachments(), owned_colors);

    let mut only_rb = AttachmentList::new();
    only_rb.push_member("depth".to_string(), rb, 1);
    let mut rb3 = rb;
    let mut only_rb_ref = AttachmentList::new();
    only_rb_ref.push_member("depth".to_string(), &mut rb3, 1);
    assert_eq!(plan_attachment_bindings(&only_rb_ref, 1), plan_attachment_bindings(&only_rb, 1));
    assert_eq!(tex_info.target, AttachmentTargetType::Texture);
    assert_eq!(
        owned_bindings,
        Ok(vec![
            AttachmentBinding { attachment_point: 0x8D00, target: AttachmentTargetType::Renderbuffer, handle: Handle(5), level: 0 },
            AttachmentBinding { attachment_point: 0x8CE0, target: AttachmentTargetType::Texture, handle: Handle(6), level: 1 },
        ])
    );
}

#[test]
fn renderbuffer_accessors_and_target() {
    let rb = Renderbuffer::new(Handle(11), color_format(), (640, 480), 4);
    assert_eq!(rb.dims(), (640, 480));
    assert_eq!(rb.samples(), 4);
    assert_eq!(rb.handle(), Handle(11));
    let mut target = RenderbufferTarget::new();
    assert_eq!(target.bound, None);
    assert!(target.bind(Handle(11)));
    assert!(!target.bind(Handle(11)));
    assert!(target.release(Handle(11)));
    assert!(!target.release(Handle(11)));
}
