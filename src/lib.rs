//! Structural reflection for graphics data layouts: format tags, vertex and attachment
//! aggregates walked field by field by registries, and the decisions that bind them.
pub mod attachments;
pub mod framebuffer;
pub mod glsl;
pub mod handles;
pub mod image_format;
pub mod renderbuffer;
pub mod texture;
pub mod vao;
pub mod vertex;

use vstd::prelude::*;
use crate::glsl::GLSLTypeTag;
use crate::vertex::FieldRef;

verus! {

/// What a registry is told of one field of a shader block: its name, its shader type and where
/// its accessor points.
pub type BlockEntry = (Seq<char>, GLSLTypeTag, FieldRef);

/// A visitor that receives the fields of a shader block, one call per field.
pub trait BlockMemberRegistry {
    type Config;

    spec fn config(&self) -> Self::Config;

    /// The fields received so far, in the order of the calls.
    spec fn seen(&self) -> Seq<BlockEntry>;

    spec fn inv(&self) -> bool;

    fn add_member(&mut self, name: &str, ty: GLSLTypeTag, field: FieldRef)
        requires
            old(self).inv(),
            old(self).seen().len() < usize::MAX,
        ensures
            final(self).inv(),
            final(self).config() == old(self).config(),
            final(self).seen() == old(self).seen().push((name@, ty, field)),
    ;
}

/// A struct whose fields are the members of a shader uniform block.
pub trait ShaderBlock {
    /// The fields, in declaration order.
    spec fn spec_members(&self) -> Seq<BlockEntry>;

    /// Calls `reg.add_member` once per field, in declaration order.
    fn members<M: BlockMemberRegistry>(&self, reg: &mut M)
        requires
            old(reg).inv(),
            old(reg).seen().len() + self.spec_members().len() <= usize::MAX,
        ensures
            final(reg).inv(),
            final(reg).config() == old(reg).config(),
            final(reg).seen() == old(reg).seen() + self.spec_members(),
    ;
}

/// The declaration of a block member in shader source: `vec3 position;`, `float[4] weights;`.
pub open spec fn member_declaration(name: Seq<char>, ty: GLSLTypeTag) -> Seq<char> {
    ty.spec_glsl() + " "@ + name + ";"@
}

/// A registry that writes the shader-source declaration of each member it receives.
pub struct BlockDeclarations {
    lines: Vec<String>,
    log: Ghost<Seq<BlockEntry>>,
}

impl BlockDeclarations {
    pub fn new() -> (r: BlockDeclarations)
        ensures
            r.inv(),
            r.seen() == Seq::<BlockEntry>::empty(),
    {
        BlockDeclarations { lines: Vec::new(), log: Ghost(Seq::empty()) }
    }

    /// One declaration per member received, in order.
    pub fn into_lines(self) -> (r: Vec<String>)
        requires
            self.inv(),
        ensures
            r@.len() == self.seen().len(),
            forall|i: int|
                0 <= i < r@.len() ==> (#[trigger] r@[i])@ == member_declaration(
                    self.seen()[i].0,
                    self.seen()[i].1,
                ),
    {
        self.lines
    }
}

impl BlockMemberRegistry for BlockDeclarations {
    type Config = ();

    closed spec fn config(&self) -> () {
        ()
    }

    closed spec fn seen(&self) -> Seq<BlockEntry> {
        self.log@
    }

    closed spec fn inv(&self) -> bool {
        &&& self.lines@.len() == self.log@.len()
        &&& forall|i: int|
            0 <= i < self.lines@.len() ==> (#[trigger] self.lines@[i])@ == member_declaration(
                self.log@[i].0,
                self.log@[i].1,
            )
    }

    fn add_member(&mut self, name: &str, ty: GLSLTypeTag, field: FieldRef) {
        let mut line = ty.to_glsl();
        line.append(" ");
        line.append(name);
        line.append(";");
        let ghost l = line@;
        assert(l == member_declaration(name@, ty));
        self.lines.push(line);
        self.log = Ghost(self.log@.push((name@, ty, field)));
    }
}

/// One declared member of a shader block layout.
pub struct BlockMember {
    pub name: String,
    pub ty: GLSLTypeTag,
    pub field: FieldRef,
}

impl BlockMember {
    pub open spec fn entry(&self) -> BlockEntry {
        (self.name@, self.ty, self.field)
    }
}

/// A shader block described by its members in declaration order.
pub struct BlockLayout {
    members: Vec<BlockMember>,
}

impl BlockLayout {
    pub fn new() -> (r: BlockLayout)
        ensures
            r.spec_members() == Seq::<BlockEntry>::empty(),
    {
        let r = BlockLayout { members: Vec::new() };
        assert(r.spec_members() =~= Seq::<BlockEntry>::empty());
        r
    }

    /// Declares the next member.
    pub fn push_member(&mut self, name: String, ty: GLSLTypeTag, field: FieldRef)
        ensures
            final(self).spec_members() == old(self).spec_members().push((name@, ty, field)),
    {
        let ghost nm = name@;
        self.members.push(BlockMember { name, ty, field });
        assert(self.spec_members() =~= old(self).spec_members().push((nm, ty, field)));
    }
}

impl ShaderBlock for BlockLayout {
    closed spec fn spec_members(&self) -> Seq<BlockEntry> {
        self.members@.map_values(|m: BlockMember| m.entry())
    }

    fn members<M: BlockMemberRegistry>(&self, reg: &mut M) {
        let mut i: usize = 0;
        while i < self.members.len()
            invariant
                i <= self.members.len(),
                reg.inv(),
                reg.config() == old(reg).config(),
                reg.seen() == old(reg).seen() + self.spec_members().take(i as int),
                old(reg).seen().len() + self.spec_members().len() <= usize::MAX,
            decreases self.members.len() - i,
        {
            let m = &self.members[i];
            assert(self.spec_members()[i as int] == m.entry());
            reg.add_member(m.name.as_str(), m.ty, m.field);
            assert(self.spec_members().take(i + 1) =~= self.spec_members().take(i as int).push(
                m.entry(),
            ));
            i = i + 1;
        }
        assert(self.spec_members().take(i as int) =~= self.spec_members());
    }
}

/// The plain types that shader data is built of; no other crate can add to them.
pub trait Sealed {}

impl Sealed for u8 {}

impl Sealed for u16 {}

impl Sealed for u32 {}

impl Sealed for u64 {}

impl Sealed for usize {}

impl Sealed for i8 {}

impl Sealed for i16 {}

impl Sealed for i32 {}

impl Sealed for i64 {}

impl Sealed for isize {}

impl Sealed for () {}

impl<S: Sealed> Sealed for [S; 1] {}

impl<S: Sealed> Sealed for [S; 2] {}

impl<S: Sealed> Sealed for [S; 3] {}

impl<S: Sealed> Sealed for [S; 4] {}

} // verus!
