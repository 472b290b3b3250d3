//! Vertex array objects: the attribute pointers that bind a vertex aggregate's fields, and the
//! tracking of which vertex array is bound.
use vstd::prelude::*;
use crate::glsl::AttribType;
use crate::handles::Handle;
use crate::vertex::{FieldRef, Vertex, VertexEntry, VertexMemberRegistry};

verus! {

/// The arguments of one attribute-pointer call: attribute slot, number of elements, component
/// type enumerant, normalization, stride and byte offset of the field in the vertex.
#[derive(Debug, Clone, Copy, PartialEq, Eq, Structural, Hash)]
pub struct AttribPointer {
    pub index: u32,
    pub components: usize,
    pub gl_type: u32,
    pub normalized: bool,
    pub stride: usize,
    pub offset: usize,
}

/// Why a vertex aggregate's fields cannot be bound. `member` is the field's position in
/// declaration order.
#[derive(Debug, Clone, Copy, PartialEq, Eq, Structural, Hash)]
pub enum AttribError {
    /// The field's accessor points at a value that is not inside the vertex.
    OutsideVertex { member: usize },
    /// The field's value is smaller than its attribute type's elements.
    FieldTooSmall { member: usize },
    /// More fields than the implementation's attribute slots.
    TooManyAttributes { member: usize, max: u32 },
}

/// The byte offset of `field` inside `parent`, if the whole field lies inside it.
pub open spec fn field_offset(parent: FieldRef, field: FieldRef) -> Option<nat> {
    if parent.addr <= field.addr && field.addr + field.size <= parent.addr + parent.size {
        Some((field.addr - parent.addr) as nat)
    } else {
        None
    }
}

/// The attribute pointer for the field at position `member`, bound to slot `index`.
pub open spec fn attrib_pointer_for(
    vertex: FieldRef,
    max_attribs: u32,
    index: nat,
    member: nat,
    entry: VertexEntry,
) -> Result<AttribPointer, AttribError> {
    let ty = entry.1;
    let field = entry.2;
    match field_offset(vertex, field) {
        None => Err(AttribError::OutsideVertex { member: member as usize }),
        Some(offset) => if ty.spec_byte_size() > field.size {
            Err(AttribError::FieldTooSmall { member: member as usize })
        } else if index >= max_attribs {
            Err(AttribError::TooManyAttributes { member: member as usize, max: max_attribs })
        } else {
            Ok(
                AttribPointer {
                    index: index as u32,
                    components: ty.spec_tag().element_count() as usize,
                    gl_type: ty.spec_scalar().spec_gl_enum(),
                    normalized: ty.spec_normalized(),
                    stride: vertex.size,
                    offset: offset as usize,
                },
            )
        },
    }
}

/// The attribute pointers for `entries`, one slot each in order, or the first field that
/// cannot be bound.
pub open spec fn plan_attribs(vertex: FieldRef, max_attribs: u32, entries: Seq<VertexEntry>) -> Result<
    Seq<AttribPointer>,
    AttribError,
>
    decreases entries.len(),
{
    if entries.len() == 0 {
        Ok(Seq::empty())
    } else {
        match plan_attribs(vertex, max_attribs, entries.drop_last()) {
            Err(e) => Err(e),
            Ok(ps) => match attrib_pointer_for(
                vertex,
                max_attribs,
                ps.len(),
                (entries.len() - 1) as nat,
                entries.last(),
            ) {
                Err(e) => Err(e),
                Ok(p) => Ok(ps.push(p)),
            },
        }
    }
}

proof fn lemma_plan_len(vertex: FieldRef, max_attribs: u32, entries: Seq<VertexEntry>)
    ensures
        plan_attribs(vertex, max_attribs, entries) matches Ok(ps) ==> ps.len() == entries.len()
            && ps.len() <= max_attribs,
    decreases entries.len(),
{
    if entries.len() > 0 {
        lemma_plan_len(vertex, max_attribs, entries.drop_last());
    }
}

/// A registry that works out the attribute pointers of a vertex aggregate's fields. It stops
/// at the first field that cannot be bound.
pub struct VertexAttribBuilder {
    vertex: FieldRef,
    max_attribs: u32,
    num_seen: usize,
    pointers: Vec<AttribPointer>,
    error: Option<AttribError>,
    log: Ghost<Seq<VertexEntry>>,
}

impl VertexAttribBuilder {
    pub closed spec fn spec_vertex(&self) -> FieldRef {
        self.vertex
    }

    pub closed spec fn spec_max_attribs(&self) -> u32 {
        self.max_attribs
    }

    /// The outcome so far.
    pub closed spec fn spec_result(&self) -> Result<Seq<AttribPointer>, AttribError> {
        match self.error {
            Some(e) => Err(e),
            None => Ok(self.pointers@),
        }
    }

    /// A builder for the fields of the value at `vertex`, with `max_attribs` attribute slots.
    pub fn new(vertex: FieldRef, max_attribs: u32) -> (r: VertexAttribBuilder)
        ensures
            r.inv(),
            r.seen() == Seq::<VertexEntry>::empty(),
            r.spec_vertex() == vertex,
            r.spec_max_attribs() == max_attribs,
    {
        VertexAttribBuilder {
            vertex,
            max_attribs,
            num_seen: 0,
            pointers: Vec::new(),
            error: None,
            log: Ghost(Seq::empty()),
        }
    }

    /// Works out the attribute pointer of the next field: its byte offset must lie inside the
    /// vertex together with the whole field, the field must hold its attribute's elements, and
    /// a slot must be left.
    pub fn add_vertex_attrib(&mut self, name: &str, ty: AttribType, field: FieldRef)
        requires
            old(self).inv(),
            old(self).seen().len() < usize::MAX,
        ensures
            final(self).inv(),
            final(self).seen() == old(self).seen().push((name@, ty, field)),
            final(self).spec_vertex() == old(self).spec_vertex(),
            final(self).spec_max_attribs() == old(self).spec_max_attribs(),
    {
        let ghost entries = self.log@.push((name@, ty, field));
        assert(entries.drop_last() =~= self.log@);
        proof {
            lemma_plan_len(self.vertex, self.max_attribs, self.log@);
        }
        let member = self.num_seen;
        if self.error.is_none() {
            let vertex = self.vertex;
            if field.addr < vertex.addr || field.size > vertex.size || field.addr - vertex.addr
                > vertex.size - field.size {
                self.error = Some(AttribError::OutsideVertex { member });
            } else if ty.byte_size() > field.size {
                self.error = Some(AttribError::FieldTooSmall { member });
            } else if self.pointers.len() >= self.max_attribs as usize {
                self.error = Some(
                    AttribError::TooManyAttributes { member, max: self.max_attribs },
                );
            } else {
                let p = AttribPointer {
                    index: self.pointers.len() as u32,
                    components: ty.tag().len(),
                    gl_type: ty.scalar_type().gl_enum(),
                    normalized: ty.normalized(),
                    stride: vertex.size,
                    offset: field.addr - vertex.addr,
                };
                self.pointers.push(p);
            }
        }
        self.num_seen = self.num_seen + 1;
        self.log = Ghost(entries);
    }

    /// The attribute pointers of all fields received, or the first field that cannot be bound.
    pub fn finish(self) -> (r: Result<Vec<AttribPointer>, AttribError>)
        requires
            self.inv(),
        ensures
            r matches Ok(ps) ==> plan_attribs(self.spec_vertex(), self.spec_max_attribs(), self.seen()) == Ok::<Seq<AttribPointer>, AttribError>(ps@),
            r matches Err(e) ==> plan_attribs(self.spec_vertex(), self.spec_max_attribs(), self.seen()) == Err::<Seq<AttribPointer>, AttribError>(e),
    {
        match self.error {
            Some(e) => Err(e),
            None => Ok(self.pointers),
        }
    }
}

impl VertexMemberRegistry for VertexAttribBuilder {
    type Config = (FieldRef, u32);

    closed spec fn config(&self) -> (FieldRef, u32) {
        (self.vertex, self.max_attribs)
    }

    closed spec fn seen(&self) -> Seq<VertexEntry> {
        self.log@
    }

    closed spec fn inv(&self) -> bool {
        &&& self.num_seen == self.log@.len()
        &&& self.spec_result() == plan_attribs(self.vertex, self.max_attribs, self.log@)
    }

    fn add_member(&mut self, name: &str, ty: AttribType, field: FieldRef) {
        self.add_vertex_attrib(name, ty, field);
    }
}

/// The attribute pointers that bind the fields of `vertex`, with `max_attribs` attribute
/// slots: one slot per field in declaration order, or the first field that cannot be bound.
pub fn plan_vertex_attribs<V: Vertex>(vertex: &V, max_attribs: u32) -> (r: Result<
    Vec<AttribPointer>,
    AttribError,
>)
    requires
        vertex.spec_members().len() <= usize::MAX,
    ensures
        r matches Ok(ps) ==> plan_attribs(vertex.spec_footprint(), max_attribs, vertex.spec_members()) == Ok::<Seq<AttribPointer>, AttribError>(ps@),
        r matches Err(e) ==> plan_attribs(vertex.spec_footprint(), max_attribs, vertex.spec_members()) == Err::<Seq<AttribPointer>, AttribError>(e),
{
    let mut builder = VertexAttribBuilder::new(vertex.footprint(), max_attribs);
    vertex.members(&mut builder);
    assert(builder.seen() =~= vertex.spec_members());
    builder.finish()
}

/// A field whose accessor points outside the vertex makes the whole binding fail: no
/// attribute pointers are produced for a vertex with such a field.
pub proof fn lemma_outside_field_fails(
    vertex: FieldRef,
    max_attribs: u32,
    entries: Seq<VertexEntry>,
    i: int,
)
    requires
        0 <= i < entries.len(),
        field_offset(vertex, entries[i].2) is None,
    ensures
        plan_attribs(vertex, max_attribs, entries) is Err,
    decreases entries.len(),
{
    if i < entries.len() - 1 {
        assert(entries.drop_last()[i] == entries[i]);
        lemma_outside_field_fails(vertex, max_attribs, entries.drop_last(), i);
    }
}

/// Which vertex array is bound, so that binding the one already bound makes no call.
#[derive(Debug, Clone, Copy, PartialEq, Eq, Structural, Hash)]
pub struct VertexArrayObjTarget {
    pub bound_vao: Option<Handle>,
}

impl VertexArrayObjTarget {
    /// Nothing bound.
    pub fn new() -> (r: VertexArrayObjTarget)
        ensures
            r.bound_vao is None,
    {
        VertexArrayObjTarget { bound_vao: None }
    }

    /// Records `vao` as bound; true when a bind call must be made for it.
    pub fn bind(&mut self, vao: Handle) -> (r: bool)
        ensures
            final(self).bound_vao == Some(vao),
            r == (old(self).bound_vao != Some(vao)),
    {
        if self.bound_vao == Some(vao) {
            false
        } else {
            self.bound_vao = Some(vao);
            true
        }
    }

    /// Records that the binding was reset to no vertex array.
    pub fn reset_bind(&mut self)
        ensures
            final(self).bound_vao is None,
    {
        self.bound_vao = None;
    }

    /// Records that `vao` was deleted; true when it was bound, so the binding must be reset.
    pub fn release(&mut self, vao: Handle) -> (r: bool)
        ensures
            r == (old(self).bound_vao == Some(vao)),
            final(self).bound_vao == (if r { None } else { old(self).bound_vao }),
    {
        if self.bound_vao == Some(vao) {
            self.bound_vao = None;
            true
        } else {
            false
        }
    }
}

} // verus!
