//! Vertex aggregates: structs whose fields are vertex attributes, walked field by field.
use vstd::prelude::*;
use crate::glsl::AttribType;

verus! {

/// Where a field accessor points: the address of the value it returned and that value's size
/// in bytes. The address identifies the value and is never dereferenced.
#[derive(Debug, Clone, Copy, PartialEq, Eq, Structural, Hash)]
pub struct FieldRef {
    pub addr: usize,
    pub size: usize,
}

/// What a registry is told of one field: its name, its attribute type and where its accessor
/// points.
pub type VertexEntry = (Seq<char>, AttribType, FieldRef);

/// A visitor that receives the fields of a vertex aggregate, one call per field.
pub trait VertexMemberRegistry {
    /// What the registry was set up with; receiving fields leaves it unchanged.
    type Config;

    spec fn config(&self) -> Self::Config;

    /// The fields received so far, in the order of the calls.
    spec fn seen(&self) -> Seq<VertexEntry>;

    /// What the registry's state keeps in step with what it has received.
    spec fn inv(&self) -> bool;

    /// Receive one field. The attribute's value may be a placeholder and is not read.
    fn add_member(&mut self, name: &str, ty: AttribType, field: FieldRef)
        requires
            old(self).inv(),
            old(self).seen().len() < usize::MAX,
        ensures
            final(self).inv(),
            final(self).config() == old(self).config(),
            final(self).seen() == old(self).seen().push((name@, ty, field)),
    ;
}

/// A struct whose fields are vertex attributes.
pub trait Vertex {
    /// The fields, in declaration order.
    spec fn spec_members(&self) -> Seq<VertexEntry>;

    /// The address and size of the whole value.
    spec fn spec_footprint(&self) -> FieldRef;

    fn footprint(&self) -> (r: FieldRef)
        ensures
            r == self.spec_footprint(),
    ;

    /// Calls `reg.add_member` once per field, in declaration order.
    fn members<M: VertexMemberRegistry>(&self, reg: &mut M)
        requires
            old(reg).inv(),
            old(reg).seen().len() + self.spec_members().len() <= usize::MAX,
        ensures
            final(reg).inv(),
            final(reg).config() == old(reg).config(),
            final(reg).seen() == old(reg).seen() + self.spec_members(),
    ;

    /// The number of fields, found by walking them with a counting registry.
    fn num_members(&self) -> (r: usize)
        requires
            self.spec_members().len() <= usize::MAX,
        ensures
            r == self.spec_members().len(),
    {
        let mut counter = MemberCounter { count: 0, log: Ghost(Seq::empty()) };
        self.members(&mut counter);
        proof {
            assert(counter.log@ =~= Seq::empty() + self.spec_members());
        }
        counter.count
    }
}

/// Counts the fields it receives.
struct MemberCounter {
    count: usize,
    log: Ghost<Seq<VertexEntry>>,
}

impl VertexMemberRegistry for MemberCounter {
    type Config = ();

    closed spec fn config(&self) -> () {
        ()
    }

    closed spec fn seen(&self) -> Seq<VertexEntry> {
        self.log@
    }

    closed spec fn inv(&self) -> bool {
        self.count == self.log@.len()
    }

    fn add_member(&mut self, name: &str, ty: AttribType, field: FieldRef) {
        self.count = self.count + 1;
        self.log = Ghost(self.log@.push((name@, ty, field)));
    }
}

/// One declared field of a vertex layout.
#[derive(Debug)]
pub struct VertexMember {
    pub name: String,
    pub ty: AttribType,
    pub field: FieldRef,
}

impl VertexMember {
    pub open spec fn entry(&self) -> VertexEntry {
        (self.name@, self.ty, self.field)
    }
}

/// A vertex aggregate described by its footprint and its fields in declaration order.
pub struct VertexLayout {
    footprint: FieldRef,
    members: Vec<VertexMember>,
}

impl VertexLayout {
    pub closed spec fn spec_member_list(&self) -> Seq<VertexMember> {
        self.members@
    }

    /// A layout for a value at `footprint`, with no fields yet.
    pub fn new(footprint: FieldRef) -> (r: VertexLayout)
        ensures
            r.spec_footprint() == footprint,
            r.spec_members() == Seq::<VertexEntry>::empty(),
    {
        let r = VertexLayout { footprint, members: Vec::new() };
        proof {
            assert(r.spec_members() =~= Seq::<VertexEntry>::empty());
        }
        r
    }

    /// Declares the next field.
    pub fn push_member(&mut self, name: String, ty: AttribType, field: FieldRef)
        ensures
            final(self).spec_footprint() == old(self).spec_footprint(),
            final(self).spec_members() == old(self).spec_members().push((name@, ty, field)),
    {
        let ghost nm = name@;
        self.members.push(VertexMember { name, ty, field });
        proof {
            assert(self.spec_members() =~= old(self).spec_members().push((nm, ty, field)));
        }
    }
}

impl Vertex for VertexLayout {
    closed spec fn spec_members(&self) -> Seq<VertexEntry> {
        self.members@.map_values(|m: VertexMember| m.entry())
    }

    closed spec fn spec_footprint(&self) -> FieldRef {
        self.footprint
    }

    fn footprint(&self) -> (r: FieldRef) {
        self.footprint
    }

    fn members<M: VertexMemberRegistry>(&self, reg: &mut M) {
        let mut i: usize = 0;
        while i < self.members.len()
            invariant
                i <= self.members.len(),
                reg.inv(),
                reg.config() == old(reg).config(),
                reg.seen() == old(reg).seen() + self.spec_members().take(i as int),
                old(reg).seen().len() + self.spec_members().len() <= usize::MAX,
            decreases self.members.len() - i,
        {
            let m = &self.members[i];
            assert(self.spec_members()[i as int] == m.entry());
            reg.add_member(m.name.as_str(), m.ty, m.field);
            proof {
                assert(self.spec_members().take(i + 1) =~= self.spec_members().take(i as int).push(m.entry()));
            }
            i = i + 1;
        }
        proof {
            assert(self.spec_members().take(i as int) =~= self.spec_members());
        }
    }
}

} // verus!
