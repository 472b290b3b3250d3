//! Format tags: the scalar, vector and matrix shapes that shader inputs and vertex attributes
//! can take, and the scalar types that hold their components.
use vstd::prelude::*;

verus! {

/// A basic shader-language type: a scalar, a vector of two to four scalars, or a square
/// floating-point matrix.
#[derive(Debug, Clone, Copy, PartialEq, Eq, Structural, Hash)]
pub enum GLSLBasicTag {
    Float,
    Vec2,
    Vec3,
    Vec4,
    Int,
    IVec2,
    IVec3,
    IVec4,
    UInt,
    UVec2,
    UVec3,
    UVec4,
    Bool,
    BVec2,
    BVec3,
    BVec4,
    Mat2,
    Mat3,
    Mat4,
}

/// A shader-language type as it appears in a declaration: a basic type, or a fixed-length
/// array of one.
#[derive(Debug, Clone, Copy, PartialEq, Eq, Structural, Hash)]
pub enum GLSLTypeTag {
    Single(GLSLBasicTag),
    Array(GLSLBasicTag, usize),
}

// Type enumerants of the graphics API, as reported for active shader inputs.
pub const GL_INT: u32 = 0x1404;
pub const GL_UNSIGNED_INT: u32 = 0x1405;
pub const GL_FLOAT: u32 = 0x1406;
pub const GL_FLOAT_VEC2: u32 = 0x8B50;
pub const GL_FLOAT_VEC3: u32 = 0x8B51;
pub const GL_FLOAT_VEC4: u32 = 0x8B52;
pub const GL_INT_VEC2: u32 = 0x8B53;
pub const GL_INT_VEC3: u32 = 0x8B54;
pub const GL_INT_VEC4: u32 = 0x8B55;
pub const GL_BOOL: u32 = 0x8B56;
pub const GL_BOOL_VEC2: u32 = 0x8B57;
pub const GL_BOOL_VEC3: u32 = 0x8B58;
pub const GL_BOOL_VEC4: u32 = 0x8B59;
pub const GL_FLOAT_MAT2: u32 = 0x8B5A;
pub const GL_FLOAT_MAT3: u32 = 0x8B5B;
pub const GL_FLOAT_MAT4: u32 = 0x8B5C;
pub const GL_UNSIGNED_INT_VEC2: u32 = 0x8DC6;
pub const GL_UNSIGNED_INT_VEC3: u32 = 0x8DC7;
pub const GL_UNSIGNED_INT_VEC4: u32 = 0x8DC8;

impl GLSLBasicTag {
    /// The scalar type of the components.
    pub open spec fn component(self) -> GLSLBasicTag {
        match self {
            GLSLBasicTag::Float | GLSLBasicTag::Vec2 | GLSLBasicTag::Vec3 | GLSLBasicTag::Vec4
            | GLSLBasicTag::Mat2 | GLSLBasicTag::Mat3 | GLSLBasicTag::Mat4 => GLSLBasicTag::Float,
            GLSLBasicTag::Int | GLSLBasicTag::IVec2 | GLSLBasicTag::IVec3
            | GLSLBasicTag::IVec4 => GLSLBasicTag::Int,
            GLSLBasicTag::UInt | GLSLBasicTag::UVec2 | GLSLBasicTag::UVec3
            | GLSLBasicTag::UVec4 => GLSLBasicTag::UInt,
            GLSLBasicTag::Bool | GLSLBasicTag::BVec2 | GLSLBasicTag::BVec3
            | GLSLBasicTag::BVec4 => GLSLBasicTag::Bool,
        }
    }

    pub open spec fn is_matrix(self) -> bool {
        self == GLSLBasicTag::Mat2 || self == GLSLBasicTag::Mat3 || self == GLSLBasicTag::Mat4
    }

    /// A scalar is its own component type.
    pub open spec fn is_scalar(self) -> bool {
        self.component() == self
    }

    /// The number of rows (and of columns) of a matrix; the number of components of a vector.
    pub open spec fn dim(self) -> nat {
        match self {
            GLSLBasicTag::Float | GLSLBasicTag::Int | GLSLBasicTag::UInt | GLSLBasicTag::Bool => 1,
            GLSLBasicTag::Vec2 | GLSLBasicTag::IVec2 | GLSLBasicTag::UVec2 | GLSLBasicTag::BVec2
            | GLSLBasicTag::Mat2 => 2,
            GLSLBasicTag::Vec3 | GLSLBasicTag::IVec3 | GLSLBasicTag::UVec3 | GLSLBasicTag::BVec3
            | GLSLBasicTag::Mat3 => 3,
            GLSLBasicTag::Vec4 | GLSLBasicTag::IVec4 | GLSLBasicTag::UVec4 | GLSLBasicTag::BVec4
            | GLSLBasicTag::Mat4 => 4,
        }
    }

    /// The number of scalar elements: 1 for a scalar, N for an N-vector, N*N for an NxN matrix.
    pub open spec fn element_count(self) -> nat {
        if self.is_matrix() {
            self.dim() * self.dim()
        } else {
            self.dim()
        }
    }

    /// The name of the type in shader source.
    pub open spec fn spec_name(self) -> Seq<char> {
        match self {
            GLSLBasicTag::Float => "float"@,
            GLSLBasicTag::Vec2 => "vec2"@,
            GLSLBasicTag::Vec3 => "vec3"@,
            GLSLBasicTag::Vec4 => "vec4"@,
            GLSLBasicTag::Int => "int"@,
            GLSLBasicTag::IVec2 => "ivec2"@,
            GLSLBasicTag::IVec3 => "ivec3"@,
            GLSLBasicTag::IVec4 => "ivec4"@,
            GLSLBasicTag::UInt => "unsigned int"@,
            GLSLBasicTag::UVec2 => "uvec2"@,
            GLSLBasicTag::UVec3 => "uvec3"@,
            GLSLBasicTag::UVec4 => "uvec4"@,
            GLSLBasicTag::Bool => "bool"@,
            GLSLBasicTag::BVec2 => "bvec2"@,
            GLSLBasicTag::BVec3 => "bvec3"@,
            GLSLBasicTag::BVec4 => "bvec4"@,
            GLSLBasicTag::Mat2 => "mat2"@,
            GLSLBasicTag::Mat3 => "mat3"@,
            GLSLBasicTag::Mat4 => "mat4"@,
        }
    }

    /// The type enumerant of the graphics API for this type.
    pub open spec fn spec_gl_enum(self) -> u32 {
        match self {
            GLSLBasicTag::Float => GL_FLOAT,
            GLSLBasicTag::Vec2 => GL_FLOAT_VEC2,
            GLSLBasicTag::Vec3 => GL_FLOAT_VEC3,
            GLSLBasicTag::Vec4 => GL_FLOAT_VEC4,
            GLSLBasicTag::Int => GL_INT,
            GLSLBasicTag::IVec2 => GL_INT_VEC2,
            GLSLBasicTag::IVec3 => GL_INT_VEC3,
            GLSLBasicTag::IVec4 => GL_INT_VEC4,
            GLSLBasicTag::UInt => GL_UNSIGNED_INT,
            GLSLBasicTag::UVec2 => GL_UNSIGNED_INT_VEC2,
            GLSLBasicTag::UVec3 => GL_UNSIGNED_INT_VEC3,
            GLSLBasicTag::UVec4 => GL_UNSIGNED_INT_VEC4,
            GLSLBasicTag::Bool => GL_BOOL,
            GLSLBasicTag::BVec2 => GL_BOOL_VEC2,
            GLSLBasicTag::BVec3 => GL_BOOL_VEC3,
            GLSLBasicTag::BVec4 => GL_BOOL_VEC4,
            GLSLBasicTag::Mat2 => GL_FLOAT_MAT2,
            GLSLBasicTag::Mat3 => GL_FLOAT_MAT3,
            GLSLBasicTag::Mat4 => GL_FLOAT_MAT4,
        }
    }

    /// The number of scalar elements in a value of this type.
    pub fn len(self) -> (r: usize)
        ensures
            r == self.element_count(),
    {
        match self {
            GLSLBasicTag::Int | GLSLBasicTag::Float | GLSLBasicTag::UInt | GLSLBasicTag::Bool => 1,
            GLSLBasicTag::Vec2 | GLSLBasicTag::IVec2 | GLSLBasicTag::UVec2 | GLSLBasicTag::BVec2 => 2,
            GLSLBasicTag::Vec3 | GLSLBasicTag::IVec3 | GLSLBasicTag::UVec3 | GLSLBasicTag::BVec3 => 3,
            GLSLBasicTag::Vec4 | GLSLBasicTag::IVec4 | GLSLBasicTag::UVec4 | GLSLBasicTag::BVec4 => 4,
            GLSLBasicTag::Mat2 => 4,
            GLSLBasicTag::Mat3 => 9,
            GLSLBasicTag::Mat4 => 16,
        }
    }

    /// The vector of `len` components of this scalar type. A length of 1 gives the scalar
    /// itself. There is none for a type that is not a scalar, nor for a length outside 1..=4.
    pub fn vectorize(self, len: u8) -> (r: Option<GLSLBasicTag>)
        ensures
            r is Some <==> (self.is_scalar() && 1 <= len <= 4),
            r matches Some(t) ==> t.component() == self && !t.is_matrix() && t.dim() == len,
    {
        match (self, len) {
            (GLSLBasicTag::Int, 1) => Some(GLSLBasicTag::Int),
            (GLSLBasicTag::Int, 2) => Some(GLSLBasicTag::IVec2),
            (GLSLBasicTag::Int, 3) => Some(GLSLBasicTag::IVec3),
            (GLSLBasicTag::Int, 4) => Some(GLSLBasicTag::IVec4),
            (GLSLBasicTag::Float, 1) => Some(GLSLBasicTag::Float),
            (GLSLBasicTag::Float, 2) => Some(GLSLBasicTag::Vec2),
            (GLSLBasicTag::Float, 3) => Some(GLSLBasicTag::Vec3),
            (GLSLBasicTag::Float, 4) => Some(GLSLBasicTag::Vec4),
            (GLSLBasicTag::UInt, 1) => Some(GLSLBasicTag::UInt),
            (GLSLBasicTag::UInt, 2) => Some(GLSLBasicTag::UVec2),
            (GLSLBasicTag::UInt, 3) => Some(GLSLBasicTag::UVec3),
            (GLSLBasicTag::UInt, 4) => Some(GLSLBasicTag::UVec4),
            (GLSLBasicTag::Bool, 1) => Some(GLSLBasicTag::Bool),
            (GLSLBasicTag::Bool, 2) => Some(GLSLBasicTag::BVec2),
            (GLSLBasicTag::Bool, 3) => Some(GLSLBasicTag::BVec3),
            (GLSLBasicTag::Bool, 4) => Some(GLSLBasicTag::BVec4),
            _ => None,
        }
    }

    /// The `width` x `height` matrix of this scalar type. Only square floating-point matrices
    /// of dimension 2 to 4 exist.
    pub fn matricize(self, width: u8, height: u8) -> (r: Option<GLSLBasicTag>)
        ensures
            r is Some <==> (self == GLSLBasicTag::Float && width == height && 2 <= width <= 4),
            r matches Some(t) ==> t.component() == self && t.is_matrix() && t.dim() == width,
    {
        match (self, width, height) {
            (GLSLBasicTag::Float, 2, 2) => Some(GLSLBasicTag::Mat2),
            (GLSLBasicTag::Float, 3, 3) => Some(GLSLBasicTag::Mat3),
            (GLSLBasicTag::Float, 4, 4) => Some(GLSLBasicTag::Mat4),
            _ => None,
        }
    }

    /// The name of the type in shader source.
    pub fn name(self) -> (r: &'static str)
        ensures
            r@ == self.spec_name(),
    {
        match self {
            GLSLBasicTag::Float => "float",
            GLSLBasicTag::Vec2 => "vec2",
            GLSLBasicTag::Vec3 => "vec3",
            GLSLBasicTag::Vec4 => "vec4",
            GLSLBasicTag::Int => "int",
            GLSLBasicTag::IVec2 => "ivec2",
            GLSLBasicTag::IVec3 => "ivec3",
            GLSLBasicTag::IVec4 => "ivec4",
            GLSLBasicTag::UInt => "unsigned int",
            GLSLBasicTag::UVec2 => "uvec2",
            GLSLBasicTag::UVec3 => "uvec3",
            GLSLBasicTag::UVec4 => "uvec4",
            GLSLBasicTag::Bool => "bool",
            GLSLBasicTag::BVec2 => "bvec2",
            GLSLBasicTag::BVec3 => "bvec3",
            GLSLBasicTag::BVec4 => "bvec4",
            GLSLBasicTag::Mat2 => "mat2",
            GLSLBasicTag::Mat3 => "mat3",
            GLSLBasicTag::Mat4 => "mat4",
        }
    }

    /// The type enumerant of the graphics API for this type.
    pub fn gl_enum(self) -> (r: u32)
        ensures
            r == self.spec_gl_enum(),
    {
        match self {
            GLSLBasicTag::Float => GL_FLOAT,
            GLSLBasicTag::Vec2 => GL_FLOAT_VEC2,
            GLSLBasicTag::Vec3 => GL_FLOAT_VEC3,
            GLSLBasicTag::Vec4 => GL_FLOAT_VEC4,
            GLSLBasicTag::Int => GL_INT,
            GLSLBasicTag::IVec2 => GL_INT_VEC2,
            GLSLBasicTag::IVec3 => GL_INT_VEC3,
            GLSLBasicTag::IVec4 => GL_INT_VEC4,
            GLSLBasicTag::UInt => GL_UNSIGNED_INT,
            GLSLBasicTag::UVec2 => GL_UNSIGNED_INT_VEC2,
            GLSLBasicTag::UVec3 => GL_UNSIGNED_INT_VEC3,
            GLSLBasicTag::UVec4 => GL_UNSIGNED_INT_VEC4,
            GLSLBasicTag::Bool => GL_BOOL,
            GLSLBasicTag::BVec2 => GL_BOOL_VEC2,
            GLSLBasicTag::BVec3 => GL_BOOL_VEC3,
            GLSLBasicTag::BVec4 => GL_BOOL_VEC4,
            GLSLBasicTag::Mat2 => GL_FLOAT_MAT2,
            GLSLBasicTag::Mat3 => GL_FLOAT_MAT3,
            GLSLBasicTag::Mat4 => GL_FLOAT_MAT4,
        }
    }
}

// Component type enumerants of the graphics API.
pub const GL_BYTE: u32 = 0x1400;
pub const GL_UNSIGNED_BYTE: u32 = 0x1401;
pub const GL_SHORT: u32 = 0x1402;
pub const GL_UNSIGNED_SHORT: u32 = 0x1403;

/// The scalar types that can hold the components of a vertex attribute.
#[derive(Debug, Clone, Copy, PartialEq, Eq, Structural, Hash)]
pub enum ScalarType {
    Bool,
    UByte,
    UShort,
    UInt,
    Byte,
    Short,
    Int,
    Float,
}

impl ScalarType {
    /// The shader-language scalar that values of this type are read as.
    pub open spec fn spec_prim_tag(self) -> GLSLBasicTag {
        match self {
            ScalarType::Bool => GLSLBasicTag::Bool,
            ScalarType::UByte | ScalarType::UShort | ScalarType::UInt => GLSLBasicTag::UInt,
            ScalarType::Byte | ScalarType::Short | ScalarType::Int => GLSLBasicTag::Int,
            ScalarType::Float => GLSLBasicTag::Float,
        }
    }

    /// The size of one value in bytes.
    pub open spec fn spec_size(self) -> nat {
        match self {
            ScalarType::Bool | ScalarType::UByte | ScalarType::Byte => 1,
            ScalarType::UShort | ScalarType::Short => 2,
            ScalarType::UInt | ScalarType::Int | ScalarType::Float => 4,
        }
    }

    pub open spec fn spec_gl_enum(self) -> u32 {
        match self {
            ScalarType::Bool => GL_BOOL,
            ScalarType::UByte => GL_UNSIGNED_BYTE,
            ScalarType::UShort => GL_UNSIGNED_SHORT,
            ScalarType::UInt => GL_UNSIGNED_INT,
            ScalarType::Byte => GL_BYTE,
            ScalarType::Short => GL_SHORT,
            ScalarType::Int => GL_INT,
            ScalarType::Float => GL_FLOAT,
        }
    }

    pub open spec fn is_integer(self) -> bool {
        self.spec_prim_tag() == GLSLBasicTag::Int || self.spec_prim_tag() == GLSLBasicTag::UInt
    }

    pub fn prim_tag(self) -> (r: GLSLBasicTag)
        ensures
            r == self.spec_prim_tag(),
            r.is_scalar(),
    {
        match self {
            ScalarType::Bool => GLSLBasicTag::Bool,
            ScalarType::UByte | ScalarType::UShort | ScalarType::UInt => GLSLBasicTag::UInt,
            ScalarType::Byte | ScalarType::Short | ScalarType::Int => GLSLBasicTag::Int,
            ScalarType::Float => GLSLBasicTag::Float,
        }
    }

    pub fn size(self) -> (r: usize)
        ensures
            r == self.spec_size(),
    {
        match self {
            ScalarType::Bool | ScalarType::UByte | ScalarType::Byte => 1,
            ScalarType::UShort | ScalarType::Short => 2,
            ScalarType::UInt | ScalarType::Int | ScalarType::Float => 4,
        }
    }

    pub fn gl_enum(self) -> (r: u32)
        ensures
            r == self.spec_gl_enum(),
    {
        match self {
            ScalarType::Bool => GL_BOOL,
            ScalarType::UByte => GL_UNSIGNED_BYTE,
            ScalarType::UShort => GL_UNSIGNED_SHORT,
            ScalarType::UInt => GL_UNSIGNED_INT,
            ScalarType::Byte => GL_BYTE,
            ScalarType::Short => GL_SHORT,
            ScalarType::Int => GL_INT,
            ScalarType::Float => GL_FLOAT,
        }
    }
}

/// The type of a vertex attribute: the scalar type that stores it, the shader type it is read
/// as, and whether integer values are read as normalized fixed-point numbers.
#[derive(Debug, Clone, Copy, PartialEq, Eq, Structural, Hash)]
pub struct AttribType {
    scalar: ScalarType,
    tag: GLSLBasicTag,
    normalized: bool,
}

impl AttribType {
    /// The shader type is built of the stored scalar type; only integers are normalized.
    pub open spec fn wf(self) -> bool {
        &&& self.spec_tag().component() == self.spec_scalar().spec_prim_tag()
        &&& (self.spec_normalized() ==> self.spec_scalar().is_integer()
            && !self.spec_tag().is_matrix())
    }

    pub closed spec fn spec_scalar(self) -> ScalarType {
        self.scalar
    }

    pub closed spec fn spec_tag(self) -> GLSLBasicTag {
        self.tag
    }

    pub closed spec fn spec_normalized(self) -> bool {
        self.normalized
    }

    /// The number of bytes the attribute's elements take.
    pub open spec fn spec_byte_size(self) -> nat {
        self.spec_tag().element_count() * self.spec_scalar().spec_size()
    }

    /// A single scalar.
    pub fn scalar(scalar: ScalarType) -> (r: AttribType)
        ensures
            r.wf(),
            r.spec_scalar() == scalar,
            r.spec_tag() == scalar.spec_prim_tag(),
            !r.spec_normalized(),
    {
        AttribType { scalar, tag: scalar.prim_tag(), normalized: false }
    }

    /// A vector of `len` scalars; none for a length outside 1..=4.
    pub fn vector(scalar: ScalarType, len: u8) -> (r: Option<AttribType>)
        ensures
            r is Some <==> 1 <= len <= 4,
            r matches Some(a) ==> a.wf() && a.spec_scalar() == scalar && !a.spec_normalized()
                && !a.spec_tag().is_matrix() && a.spec_tag().dim() == len,
    {
        match scalar.prim_tag().vectorize(len) {
            Some(tag) => Some(AttribType { scalar, tag, normalized: false }),
            None => None,
        }
    }

    /// A vector of `len` integers read as normalized fixed-point numbers; none for a scalar
    /// type that is not an integer, or a length outside 1..=4.
    pub fn normalized_vector(scalar: ScalarType, len: u8) -> (r: Option<AttribType>)
        ensures
            r is Some <==> (scalar.is_integer() && 1 <= len <= 4),
            r matches Some(a) ==> a.wf() && a.spec_scalar() == scalar && a.spec_normalized()
                && !a.spec_tag().is_matrix() && a.spec_tag().dim() == len,
    {
        let prim = scalar.prim_tag();
        if prim == GLSLBasicTag::Int || prim == GLSLBasicTag::UInt {
            match prim.vectorize(len) {
                Some(tag) => Some(AttribType { scalar, tag, normalized: true }),
                None => None,
            }
        } else {
            None
        }
    }

    /// A square `dim` x `dim` matrix of floats; none for a dimension outside 2..=4.
    pub fn matrix(dim: u8) -> (r: Option<AttribType>)
        ensures
            r is Some <==> 2 <= dim <= 4,
            r matches Some(a) ==> a.wf() && a.spec_scalar() == ScalarType::Float
                && !a.spec_normalized() && a.spec_tag().is_matrix() && a.spec_tag().dim() == dim,
    {
        match GLSLBasicTag::Float.matricize(dim, dim) {
            Some(tag) => Some(AttribType { scalar: ScalarType::Float, tag, normalized: false }),
            None => None,
        }
    }

    pub fn scalar_type(&self) -> (r: ScalarType)
        ensures
            r == self.spec_scalar(),
    {
        self.scalar
    }

    pub fn tag(&self) -> (r: GLSLBasicTag)
        ensures
            r == self.spec_tag(),
    {
        self.tag
    }

    pub fn normalized(&self) -> (r: bool)
        ensures
            r == self.spec_normalized(),
    {
        self.normalized
    }

    /// The number of bytes the attribute's elements take.
    pub fn byte_size(&self) -> (r: usize)
        ensures
            r == self.spec_byte_size(),
    {
        assert(self.tag.element_count() <= 16);
        assert(self.scalar.spec_size() <= 4);
        proof {
            assert(self.tag.element_count() * self.scalar.spec_size() <= 64) by (nonlinear_arith)
                requires
                    self.tag.element_count() <= 16,
                    self.scalar.spec_size() <= 4,
            ;
        }
        self.tag.len() * self.scalar.size()
    }
}

/// The decimal digit `d`.
pub open spec fn digit_char(d: nat) -> char {
    if d == 0 { '0' }
    else if d == 1 { '1' }
    else if d == 2 { '2' }
    else if d == 3 { '3' }
    else if d == 4 { '4' }
    else if d == 5 { '5' }
    else if d == 6 { '6' }
    else if d == 7 { '7' }
    else if d == 8 { '8' }
    else { '9' }
}

/// `n` written in decimal, without leading zeros.
pub open spec fn decimal(n: nat) -> Seq<char>
    decreases n,
{
    if n < 10 {
        seq![digit_char(n)]
    } else {
        decimal(n / 10).push(digit_char(n % 10))
    }
}

fn digit_str(d: usize) -> (r: &'static str)
    requires
        d < 10,
    ensures
        r@ == seq![digit_char(d as nat)],
{
    proof {
        reveal_strlit("0");
        reveal_strlit("1");
        reveal_strlit("2");
        reveal_strlit("3");
        reveal_strlit("4");
        reveal_strlit("5");
        reveal_strlit("6");
        reveal_strlit("7");
        reveal_strlit("8");
        reveal_strlit("9");
    }
    let r = match d {
        0 => "0",
        1 => "1",
        2 => "2",
        3 => "3",
        4 => "4",
        5 => "5",
        6 => "6",
        7 => "7",
        8 => "8",
        _ => "9",
    };
    assert(r@ =~= seq![digit_char(d as nat)]);
    r
}

/// Appends `n` in decimal to `out`.
fn push_decimal(out: &mut String, n: usize)
    ensures
        final(out)@ == old(out)@ + decimal(n as nat),
    decreases n,
{
    if n >= 10 {
        push_decimal(out, n / 10);
    }
    out.append(digit_str(n % 10));
    assert(old(out)@ + decimal(n as nat) =~= if n >= 10 {
        old(out)@ + decimal((n / 10) as nat) + seq![digit_char((n % 10) as nat)]
    } else {
        old(out)@ + seq![digit_char((n % 10) as nat)]
    });
}

impl GLSLTypeTag {
    /// The type as written in shader source: `vec3`, or `vec3[4]` for an array.
    pub open spec fn spec_glsl(self) -> Seq<char> {
        match self {
            GLSLTypeTag::Single(t) => t.spec_name(),
            GLSLTypeTag::Array(t, len) => t.spec_name() + "["@ + decimal(len as nat) + "]"@,
        }
    }

    /// The type as written in shader source.
    pub fn to_glsl(&self) -> (r: String)
        ensures
            r@ == self.spec_glsl(),
    {
        match *self {
            GLSLTypeTag::Single(t) => String::from_str(t.name()),
            GLSLTypeTag::Array(t, len) => {
                let mut out = String::from_str(t.name());
                out.append("[");
                push_decimal(&mut out, len);
                out.append("]");
                out
            },
        }
    }
}

/// Two tags with the same component type, the same shape (matrix or not) and the same
/// dimension are the same tag: what `vectorize` and `matricize` state of their result
/// determines it.
pub proof fn lemma_tag_determined(a: GLSLBasicTag, b: GLSLBasicTag)
    requires
        a.component() == b.component(),
        a.is_matrix() == b.is_matrix(),
        a.dim() == b.dim(),
    ensures
        a == b,
{
}

} // verus!
