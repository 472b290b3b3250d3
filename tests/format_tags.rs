use gullery::glsl::{AttribType, GLSLBasicTag, GLSLTypeTag, ScalarType};

#[test]
fn vectorize_every_scalar_and_length() {
    let expected = [
        (GLSLBasicTag::Float, [GLSLBasicTag::Float, GLSLBasicTag::Vec2, GLSLBasicTag::Vec3, GLSLBasicTag::Vec4]),
        (GLSLBasicTag::Int, [GLSLBasicTag::Int, GLSLBasicTag::IVec2, GLSLBasicTag::IVec3, GLSLBasicTag::IVec4]),
        (GLSLBasicTag::UInt, [GLSLBasicTag::UInt, GLSLBasicTag::UVec2, GLSLBasicTag::UVec3, GLSLBasicTag::UVec4]),
        (GLSLBasicTag::Bool, [GLSLBasicTag::Bool, GLSLBasicTag::BVec2, GLSLBasicTag::BVec3, GLSLBasicTag::BVec4]),
    ];
    for (scalar, vectors) in expected.iter() {
        for len in 1u8..=4 {
            assert_eq!(scalar.vectorize(len), Some(vectors[(len - 1) as usize]));
        }
        assert_eq!(scalar.vectorize(0), None);
        assert_eq!(scalar.vectorize(5), None);
        assert_eq!(scalar.vectorize(255), None);
    }
}

#[test]
fn vectorize_rejects_non_scalars() {
    for tag in [GLSLBasicTag::Vec2, GLSLBasicTag::IVec3, GLSLBasicTag::BVec4, GLSLBasicTag::Mat2] {
        for len in 0u8..=5 {
            assert_eq!(tag.vectorize(len), None);
        }
    }
}

#[test]
fn matricize_only_square_float() {
    assert_eq!(GLSLBasicTag::Float.matricize(2, 2), Some(GLSLBasicTag::Mat2));
    assert_eq!(GLSLBasicTag::Float.matricize(3, 3), Some(GLSLBasicTag::Mat3));
    assert_eq!(GLSLBasicTag::Float.matricize(4, 4), Some(GLSLBasicTag::Mat4));
    assert_eq!(GLSLBasicTag::Float.matricize(2, 3), None);
    assert_eq!(GLSLBasicTag::Float.matricize(4, 2), None);
    assert_eq!(GLSLBasicTag::Float.matricize(1, 1), None);
    assert_eq!(GLSLBasicTag::Float.matricize(5, 5), None);
    assert_eq!(GLSLBasicTag::Int.matricize(2, 2), None);
    assert_eq!(GLSLBasicTag::UInt.matricize(3, 3), None);
    assert_eq!(GLSLBasicTag::Bool.matricize(4, 4), None);
    assert_eq!(GLSLBasicTag::Vec2.matricize(2, 2), None);
}

#[test]
fn element_counts() {
    assert_eq!(GLSLBasicTag::Bool.len(), 1);
    assert_eq!(GLSLBasicTag::Vec3.len(), 3);
    assert_eq!(GLSLBasicTag::UVec4.len(), 4);
    assert_eq!(GLSLBasicTag::Mat2.len(), 4);
    assert_eq!(GLSLBasicTag::Mat3.len(), 9);
    assert_eq!(GLSLBasicTag::Mat4.len(), 16);
}

#[test]
fn shader_names_and_enumerants() {
    assert_eq!(GLSLBasicTag::UInt.name(), "unsigned int");
    assert_eq!(GLSLBasicTag::BVec2.name(), "bvec2");
    assert_eq!(GLSLBasicTag::Mat4.name(), "mat4");
    assert_eq!(GLSLBasicTag::Float.gl_enum(), 0x1406);
    assert_eq!(GLSLBasicTag::Vec3.gl_enum(), 0x8B51);
    assert_eq!(GLSLBasicTag::UVec2.gl_enum(), 0x8DC6);
    assert_eq!(GLSLBasicTag::Mat4.gl_enum(), 0x8B5C);
}

#[test]
fn type_tag_source_text() {
    assert_eq!(GLSLTypeTag::Single(GLSLBasicTag::UInt).to_glsl(), "unsigned int");
    assert_eq!(GLSLTypeTag::Array(GLSLBasicTag::Vec3, 12).to_glsl(), "vec3[12]");
    assert_eq!(GLSLTypeTag::Array(GLSLBasicTag::Float, 0).to_glsl(), "float[0]");
    assert_eq!(GLSLTypeTag::Array(GLSLBasicTag::Mat2, 907).to_glsl(), "mat2[907]");
    assert_eq!(
        GLSLTypeTag::Array(GLSLBasicTag::Int, usize::MAX).to_glsl(),
        format!("int[{}]", usize::MAX)
    );
}

#[test]
fn attribute_types() {
    let v = AttribType::vector(ScalarType::Float, 3).unwrap();
    assert_eq!(v.tag(), GLSLBasicTag::Vec3);
    assert_eq!(v.byte_size(), 12);
    assert!(!v.normalized());
    assert_eq!(AttribType::vector(ScalarType::UShort, 2).unwrap().tag(), GLSLBasicTag::UVec2);
    assert_eq!(AttribType::vector(ScalarType::UShort, 2).unwrap().byte_size(), 4);
    assert_eq!(AttribType::vector(ScalarType::Byte, 0), None);
    assert_eq!(AttribType::vector(ScalarType::Byte, 5), None);
    let n = AttribType::normalized_vector(ScalarType::UByte, 4).unwrap();
    assert!(n.normalized());
    assert_eq!(n.tag(), GLSLBasicTag::UVec4);
    assert_eq!(n.byte_size(), 4);
    assert_eq!(AttribType::normalized_vector(ScalarType::Float, 4), None);
    assert_eq!(AttribType::normalized_vector(ScalarType::Bool, 1), None);
    let m = AttribType::matrix(4).unwrap();
    assert_eq!(m.tag(), GLSLBasicTag::Mat4);
    assert_eq!(m.byte_size(), 64);
    assert_eq!(AttribType::matrix(1), None);
    assert_eq!(AttribType::scalar(ScalarType::Short).tag(), GLSLBasicTag::Int);
    assert_eq!(AttribType::scalar(ScalarType::Short).byte_size(), 2);
    assert_eq!(ScalarType::UByte.gl_enum(), 0x1401);
    assert_eq!(ScalarType::Bool.prim_tag(), GLSLBasicTag::Bool);
}
