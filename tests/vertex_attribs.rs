use gullery::glsl::{AttribType, ScalarType, GLSLBasicTag, GLSLTypeTag};
use gullery::handles::Handle;
use gullery::vao::{plan_vertex_attribs, AttribError, AttribPointer, VertexArrayObjTarget, VertexAttribBuilder};
use gullery::vertex::{FieldRef, Vertex, VertexLayout, VertexMemberRegistry};
use gullery::{BlockDeclarations, BlockLayout, BlockMemberRegistry, ShaderBlock};

fn vec_f32(n: u8) -> AttribType {
    AttribType::vector(ScalarType::Float, n).unwrap()
}

/// A placeholder vertex at address 0: `a: [f32; 3]`, `b: [f32; 2]`, `c: u32`.
fn abc_layout(base: usize) -> VertexLayout {
    let mut layout = VertexLayout::new(FieldRef { addr: base, size: 24 });
    layout.push_member("a".to_string(), vec_f32(3), FieldRef { addr: base, size: 12 });
    layout.push_member("b".to_string(), vec_f32(2), FieldRef { addr: base + 12, size: 8 });
    layout.push_member(
        "c".to_string(),
        AttribType::scalar(ScalarType::UInt),
        FieldRef { addr: base + 20, size: 4 },
    );
    layout
}

#[test]
fn traversal_counts_three_fields() {
    assert_eq!(abc_layout(0).num_members(), 3);
    assert_eq!(abc_layout(4096).num_members(), 3);
    assert_eq!(VertexLayout::new(FieldRef { addr: 0, size: 0 }).num_members(), 0);
}

#[test]
fn traversal_visits_fields_in_order() {
    let ptrs = plan_vertex_attribs(&abc_layout(0), 16).unwrap();
    assert_eq!(
        ptrs,
        vec![
            AttribPointer { index: 0, components: 3, gl_type: 0x1406, normalized: false, stride: 24, offset: 0 },
            AttribPointer { index: 1, components: 2, gl_type: 0x1406, normalized: false, stride: 24, offset: 12 },
            AttribPointer { index: 2, components: 1, gl_type: 0x1405, normalized: false, stride: 24, offset: 20 },
        ]
    );
}

#[test]
fn offsets_do_not_depend_on_the_instance_address() {
    assert_eq!(
        plan_vertex_attribs(&abc_layout(0), 16),
        plan_vertex_attribs(&abc_layout(0x7fff_0000), 16)
    );
}

#[test]
fn accessor_pointing_outside_fails() {
    let mut layout = abc_layout(1000);
    layout.push_member("stray".to_string(), vec_f32(1), FieldRef { addr: 50_000, size: 4 });
    assert_eq!(plan_vertex_attribs(&layout, 16), Err(AttribError::OutsideVertex { member: 3 }));

    let mut before = VertexLayout::new(FieldRef { addr: 1000, size: 24 });
    before.push_member("early".to_string(), vec_f32(1), FieldRef { addr: 996, size: 4 });
    assert_eq!(plan_vertex_attribs(&before, 16), Err(AttribError::OutsideVertex { member: 0 }));

    let mut straddling = VertexLayout::new(FieldRef { addr: 1000, size: 24 });
    straddling.push_member("tail".to_string(), vec_f32(2), FieldRef { addr: 1020, size: 8 });
    assert_eq!(plan_vertex_attribs(&straddling, 16), Err(AttribError::OutsideVertex { member: 0 }));
}

#[test]
fn field_ending_at_the_vertex_end_is_inside() {
    let mut layout = VertexLayout::new(FieldRef { addr: 1000, size: 24 });
    layout.push_member("tail".to_string(), vec_f32(2), FieldRef { addr: 1016, size: 8 });
    assert_eq!(
        plan_vertex_attribs(&layout, 1),
        Ok(vec![AttribPointer { index: 0, components: 2, gl_type: 0x1406, normalized: false, stride: 24, offset: 16 }])
    );
}

#[test]
fn field_smaller_than_its_type_fails() {
    let mut layout = VertexLayout::new(FieldRef { addr: 0, size: 32 });
    layout.push_member("ok".to_string(), vec_f32(2), FieldRef { addr: 0, size: 8 });
    layout.push_member("small".to_string(), vec_f32(4), FieldRef { addr: 8, size: 8 });
    assert_eq!(plan_vertex_attribs(&layout, 16), Err(AttribError::FieldTooSmall { member: 1 }));
}

#[test]
fn too_many_attributes_fails() {
    assert_eq!(
        plan_vertex_attribs(&abc_layout(0), 2),
        Err(AttribError::TooManyAttributes { member: 2, max: 2 })
    );
    assert_eq!(
        plan_vertex_attribs(&abc_layout(0), 0),
        Err(AttribError::TooManyAttributes { member: 0, max: 0 })
    );
}

#[test]
fn first_error_wins() {
    let mut layout = VertexLayout::new(FieldRef { addr: 0, size: 8 });
    layout.push_member("outside".to_string(), vec_f32(1), FieldRef { addr: 64, size: 4 });
    layout.push_member("small".to_string(), vec_f32(4), FieldRef { addr: 0, size: 4 });
    assert_eq!(plan_vertex_attribs(&layout, 0), Err(AttribError::OutsideVertex { member: 0 }));
}

#[test]
fn normalized_attribute_pointer() {
    let mut layout = VertexLayout::new(FieldRef { addr: 0, size: 16 });
    layout.push_member("pos".to_string(), vec_f32(3), FieldRef { addr: 0, size: 12 });
    layout.push_member(
        "color".to_string(),
        AttribType::normalized_vector(ScalarType::UByte, 4).unwrap(),
        FieldRef { addr: 12, size: 4 },
    );
    let ptrs = plan_vertex_attribs(&layout, 8).unwrap();
    assert_eq!(
        ptrs[1],
        AttribPointer { index: 1, components: 4, gl_type: 0x1401, normalized: true, stride: 16, offset: 12 }
    );
}

#[test]
fn builder_used_as_registry() {
    let mut builder = VertexAttribBuilder::new(FieldRef { addr: 100, size: 16 }, 4);
    builder.add_member("m", AttribType::matrix(2).unwrap(), FieldRef { addr: 100, size: 16 });
    assert_eq!(
        builder.finish(),
        Ok(vec![AttribPointer { index: 0, components: 4, gl_type: 0x1406, normalized: false, stride: 16, offset: 0 }])
    );
}

#[test]
fn vao_target_skips_redundant_binds() {
    let mut target = VertexArrayObjTarget::new();
    assert_eq!(target.bound_vao, None);
    assert!(target.bind(Handle(3)));
    assert!(!target.bind(Handle(3)));
    assert!(target.bind(Handle(4)));
    assert!(!target.release(Handle(3)));
    assert_eq!(target.bound_vao, Some(Handle(4)));
    assert!(target.release(Handle(4)));
    assert_eq!(target.bound_vao, None);
    assert!(target.bind(Handle(4)));
    target.reset_bind();
    assert_eq!(target.bound_vao, None);
}

#[test]
fn block_member_declarations() {
    let mut decls = BlockDeclarations::new();
    decls.add_member("light_dir", GLSLTypeTag::Single(GLSLBasicTag::Vec3), FieldRef { addr: 0, size: 12 });
    decls.add_member("weights", GLSLTypeTag::Array(GLSLBasicTag::Float, 4), FieldRef { addr: 16, size: 16 });
    assert_eq!(decls.into_lines(), vec!["vec3 light_dir;".to_string(), "float[4] weights;".to_string()]);
}

#[test]
fn block_layout_walked_in_order() {
    let mut block = BlockLayout::new();
    block.push_member("model".to_string(), GLSLTypeTag::Single(GLSLBasicTag::Mat4), FieldRef { addr: 0, size: 64 });
    block.push_member("tint".to_string(), GLSLTypeTag::Single(GLSLBasicTag::Vec4), FieldRef { addr: 64, size: 16 });
    block.push_member("lights".to_string(), GLSLTypeTag::Array(GLSLBasicTag::IVec2, 16), FieldRef { addr: 80, size: 128 });
    let mut decls = BlockDeclarations::new();
    block.members(&mut decls);
    assert_eq!(
        decls.into_lines(),
        vec!["mat4 model;".to_string(), "vec4 tint;".to_string(), "ivec2[16] lights;".to_string()]
    );
}
