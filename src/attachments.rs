//! Framebuffer attachments: the capability of being attached, aggregates of attachments, and
//! the registries that walk them.
use vstd::prelude::*;
use crate::handles::Handle;
use crate::image_format::{FormatTypeTag, ImageFormat};
use crate::renderbuffer::Renderbuffer;
use crate::texture::Texture;

verus! {

/// The kind of object an attachment is.
#[derive(Debug, Clone, Copy, PartialEq, Eq, Structural, Hash)]
pub enum AttachmentTargetType {
    Renderbuffer,
    Texture,
}

/// The kind of image an attachment holds.
#[derive(Debug, Clone, Copy, PartialEq, Eq, Structural, Hash)]
pub enum AttachmentImageType {
    Color,
}

/// What a registry is told of an attachment: its kind, its format, and the handle of the
/// innermost attached object.
#[derive(Debug, Clone, Copy, PartialEq, Eq, Structural, Hash)]
pub struct AttachmentInfo {
    pub target: AttachmentTargetType,
    pub format: ImageFormat,
    pub handle: Handle,
}

/// One registration: field name, attachment, and the mip level targeted (always 0 for a
/// renderbuffer, which has one level).
pub type AttachmentEntry = (Seq<char>, AttachmentInfo, u8);

/// One registration as a registry that ignores mip levels sees it.
pub type MemberEntry = (Seq<char>, AttachmentInfo);

/// The registration of attachment `info` under `name` at mip level `mip`.
pub open spec fn entry_for(name: Seq<char>, info: AttachmentInfo, mip: u8) -> AttachmentEntry {
    match info.target {
        AttachmentTargetType::Renderbuffer => (name, info, 0u8),
        AttachmentTargetType::Texture => (name, info, mip),
    }
}

/// The registrations with their mip levels left out.
pub open spec fn strip_mips(s: Seq<AttachmentEntry>) -> Seq<MemberEntry> {
    s.map_values(|e: AttachmentEntry| (e.0, e.1))
}

/// A visitor with one method per kind of attachment, called once per field of an
/// attachment aggregate.
pub trait AttachmentsMemberRegistry {
    /// What the registry was set up with; registering leaves it unchanged.
    type Config;

    spec fn config(&self) -> Self::Config;

    /// The registrations received so far, in the order of the calls.
    spec fn registered(&self) -> Seq<AttachmentEntry>;

    /// What the registry's state keeps in step with what it has received.
    spec fn inv(&self) -> bool;

    fn add_renderbuffer(&mut self, name: &str, info: AttachmentInfo)
        requires
            old(self).inv(),
            info.target == AttachmentTargetType::Renderbuffer,
            old(self).registered().len() < usize::MAX,
        ensures
            final(self).inv(),
            final(self).config() == old(self).config(),
            final(self).registered() == old(self).registered().push((name@, info, 0u8)),
    ;

    fn add_texture(&mut self, name: &str, info: AttachmentInfo, texture_level: u8)
        requires
            old(self).inv(),
            info.target == AttachmentTargetType::Texture,
            old(self).registered().len() < usize::MAX,
        ensures
            final(self).inv(),
            final(self).config() == old(self).config(),
            final(self).registered() == old(self).registered().push((name@, info, texture_level)),
    ;
}

/// A visitor with a single method for every kind of attachment.
pub trait AttachmentsMemberRegistryNoSpecifics {
    type Config;

    spec fn config(&self) -> Self::Config;

    spec fn seen(&self) -> Seq<MemberEntry>;

    spec fn inv(&self) -> bool;

    fn add_member(&mut self, name: &str, info: AttachmentInfo)
        requires
            old(self).inv(),
            old(self).seen().len() < usize::MAX,
        ensures
            final(self).inv(),
            final(self).config() == old(self).config(),
            final(self).seen() == old(self).seen().push((name@, info)),
    ;
}

/// Lets a registry without specifics receive every kind of attachment: each method hands the
/// attachment on and drops what is specific to its kind.
pub struct AMRNSImpl<R> {
    inner: R,
    log: Ghost<Seq<AttachmentEntry>>,
}

impl<R: AttachmentsMemberRegistryNoSpecifics> AMRNSImpl<R> {
    pub closed spec fn spec_inner(&self) -> R {
        self.inner
    }

    /// Wraps a registry that has received nothing yet.
    pub fn new(inner: R) -> (r: AMRNSImpl<R>)
        requires
            inner.inv(),
            inner.seen().len() == 0,
        ensures
            r.inv(),
            r.registered().len() == 0,
            r.spec_inner() == inner,
            r.config() == inner.config(),
    {
        let r = AMRNSImpl { inner, log: Ghost(Seq::empty()) };
        assert(strip_mips(r.log@) =~= r.inner.seen());
        r
    }

    /// The wrapped registry, which has received every registration without its mip level.
    pub fn into_inner(self) -> (r: R)
        requires
            self.inv(),
        ensures
            r.inv(),
            r.config() == self.config(),
            r.seen() == strip_mips(self.registered()),
    {
        self.inner
    }
}

impl<R: AttachmentsMemberRegistryNoSpecifics> AttachmentsMemberRegistry for AMRNSImpl<R> {
    type Config = R::Config;

    closed spec fn config(&self) -> R::Config {
        self.inner.config()
    }

    closed spec fn registered(&self) -> Seq<AttachmentEntry> {
        self.log@
    }

    closed spec fn inv(&self) -> bool {
        self.inner.inv() && self.inner.seen() == strip_mips(self.log@)
    }

    fn add_renderbuffer(&mut self, name: &str, info: AttachmentInfo) {
        self.inner.add_member(name, info);
        self.log = Ghost(self.log@.push((name@, info, 0u8)));
        assert(strip_mips(self.log@) =~= strip_mips(old(self).log@).push((name@, info)));
    }

    fn add_texture(&mut self, name: &str, info: AttachmentInfo, _texture_level: u8) {
        self.inner.add_member(name, info);
        self.log = Ghost(self.log@.push((name@, info, _texture_level)));
        assert(strip_mips(self.log@) =~= strip_mips(old(self).log@).push((name@, info)));
    }
}

/// A type that can be attached to a framebuffer.
pub trait AttachmentType {
    spec fn spec_info(&self) -> AttachmentInfo;

    fn info(&self) -> (r: AttachmentInfo)
        ensures
            r == self.spec_info(),
    ;

    /// The handle of the innermost attached object, the same through any number of mutable
    /// references. Used to check identity, never to reach the object.
    fn resolve_reference(&self) -> (r: Handle)
        ensures
            r == self.spec_info().handle,
    ;

    /// Registers this attachment under `name` with the registry method for its kind.
    fn add_to_registry<R: AttachmentsMemberRegistry>(&self, registry: &mut R, name: &str, mip: u8)
        requires
            old(registry).inv(),
            old(registry).registered().len() < usize::MAX,
        ensures
            final(registry).inv(),
            final(registry).config() == old(registry).config(),
            final(registry).registered() == old(registry).registered().push(
                entry_for(name@, self.spec_info(), mip),
            ),
    ;
}

impl AttachmentType for Renderbuffer {
    open spec fn spec_info(&self) -> AttachmentInfo {
        AttachmentInfo {
            target: AttachmentTargetType::Renderbuffer,
            format: self.spec_format(),
            handle: self.spec_handle(),
        }
    }

    fn info(&self) -> (r: AttachmentInfo) {
        AttachmentInfo {
            target: AttachmentTargetType::Renderbuffer,
            format: self.format(),
            handle: self.handle(),
        }
    }

    fn resolve_reference(&self) -> (r: Handle) {
        self.handle()
    }

    fn add_to_registry<R: AttachmentsMemberRegistry>(&self, registry: &mut R, name: &str, _mip: u8) {
        registry.add_renderbuffer(name, self.info());
    }
}

impl AttachmentType for Texture {
    open spec fn spec_info(&self) -> AttachmentInfo {
        AttachmentInfo {
            target: AttachmentTargetType::Texture,
            format: self.spec_format(),
            handle: self.spec_handle(),
        }
    }

    fn info(&self) -> (r: AttachmentInfo) {
        AttachmentInfo {
            target: AttachmentTargetType::Texture,
            format: self.format(),
            handle: self.handle(),
        }
    }

    fn resolve_reference(&self) -> (r: Handle) {
        self.handle()
    }

    fn add_to_registry<R: AttachmentsMemberRegistry>(&self, registry: &mut R, name: &str, mip: u8) {
        registry.add_texture(name, self.info(), mip);
    }
}

impl<'a, A: AttachmentType> AttachmentType for &'a mut A {
    open spec fn spec_info(&self) -> AttachmentInfo {
        (**self).spec_info()
    }

    fn info(&self) -> (r: AttachmentInfo) {
        (**self).info()
    }

    fn resolve_reference(&self) -> (r: Handle) {
        (**self).resolve_reference()
    }

    fn add_to_registry<R: AttachmentsMemberRegistry>(&self, registry: &mut R, name: &str, mip: u8) {
        (**self).add_to_registry(registry, name, mip);
    }
}

/// Attaching through a mutable reference is attaching the referent: same kind, format,
/// handle, and the same registration for every name and mip level.
pub proof fn lemma_reference_transparency<A: AttachmentType>(a: &mut A, name: Seq<char>, mip: u8)
    ensures
        <&mut A as AttachmentType>::spec_info(&a) == (*old(a)).spec_info(),
        entry_for(name, <&mut A as AttachmentType>::spec_info(&a), mip) == entry_for(
            name,
            (*old(a)).spec_info(),
            mip,
        ),
{
}

/// For each color attachment among `s`, in order: its position in `s` and its index among
/// the color attachments alone.
pub open spec fn color_slots(s: Seq<MemberEntry>) -> Seq<(usize, usize)>
    decreases s.len(),
{
    if s.len() == 0 {
        Seq::empty()
    } else {
        let prev = color_slots(s.drop_last());
        if s.last().1.format.kind == FormatTypeTag::Color {
            prev.push(((s.len() - 1) as usize, prev.len() as usize))
        } else {
            prev
        }
    }
}

/// Color attachments are numbered 0, 1, 2, ... in order, counting only color attachments: the
/// listed positions are exactly the color attachments', in increasing order, and every other
/// attachment is left out.
pub proof fn lemma_color_indices_compact(s: Seq<MemberEntry>)
    requires
        s.len() <= usize::MAX,
    ensures
        color_slots(s).len() <= s.len(),
        forall|j: int| 0 <= j < color_slots(s).len() ==> (#[trigger] color_slots(s)[j]).1 == j,
        forall|j: int|
            0 <= j < color_slots(s).len() ==> (#[trigger] color_slots(s)[j]).0 < s.len()
                && s[color_slots(s)[j].0 as int].1.format.kind == FormatTypeTag::Color,
        forall|j: int, k: int|
            0 <= j < k < color_slots(s).len() ==> (#[trigger] color_slots(s)[j]).0 < (
            #[trigger] color_slots(s)[k]).0,
        forall|i: int|
            0 <= i < s.len() && (#[trigger] s[i]).1.format.kind == FormatTypeTag::Color ==> exists|
                j: int,
            |
                0 <= j < color_slots(s).len() && (#[trigger] color_slots(s)[j]).0 == i,
    decreases s.len(),
{
    if s.len() > 0 {
        let t = s.drop_last();
        lemma_color_indices_compact(t);
        let prev = color_slots(t);
        assert forall|i: int|
            0 <= i < s.len() && (#[trigger] s[i]).1.format.kind
                == FormatTypeTag::Color implies exists|j: int|
            0 <= j < color_slots(s).len() && (#[trigger] color_slots(s)[j]).0 == i by {
            if i < t.len() {
                assert(t[i] == s[i]);
                let j = choose|j: int| 0 <= j < prev.len() && (#[trigger] prev[j]).0 == i;
                assert(color_slots(s)[j] == prev[j]);
            } else {
                assert(color_slots(s)[prev.len() as int].0 == i);
            }
        }
        assert forall|j: int|
            0 <= j < color_slots(s).len() implies (#[trigger] color_slots(s)[j]).0 < s.len()
                && s[color_slots(s)[j].0 as int].1.format.kind == FormatTypeTag::Color by {
            if j < prev.len() {
                assert(color_slots(s)[j] == prev[j]);
                assert(t[prev[j].0 as int] == s[prev[j].0 as int]);
            }
        }
    }
}

/// A struct whose fields are framebuffer attachments.
pub trait Attachments {
    /// The registrations of the fields, in declaration order.
    spec fn spec_members(&self) -> Seq<AttachmentEntry>;

    /// Registers each field once, in declaration order, with the registry method for its kind.
    fn members<R: AttachmentsMemberRegistry>(&self, reg: &mut R)
        requires
            old(reg).inv(),
            old(reg).registered().len() + self.spec_members().len() <= usize::MAX,
        ensures
            final(reg).inv(),
            final(reg).config() == old(reg).config(),
            final(reg).registered() == old(reg).registered() + self.spec_members(),
    ;

    /// The number of fields, found by walking them with a counting registry.
    fn num_members(&self) -> (r: usize)
        requires
            self.spec_members().len() <= usize::MAX,
        ensures
            r == self.spec_members().len(),
    {
        let mut reg = AMRNSImpl::new(MemberCounter { count: 0, log: Ghost(Seq::empty()) });
        self.members(&mut reg);
        let counter = reg.into_inner();
        assert(strip_mips(Seq::empty() + self.spec_members()).len() == self.spec_members().len());
        counter.count
    }

    /// For each color field, in order: its position among all fields and its index among the
    /// color fields alone. Other fields are skipped and take no index.
    fn color_attachments(&self) -> (r: Vec<(usize, usize)>)
        requires
            self.spec_members().len() <= usize::MAX,
        ensures
            r@ == color_slots(strip_mips(self.spec_members())),
    {
        let mut reg = AMRNSImpl::new(
            AttachmentRefMatcher {
                color_index: 0,
                num_seen: 0,
                slots: Vec::new(),
                log: Ghost(Seq::empty()),
            },
        );
        self.members(&mut reg);
        let matcher = reg.into_inner();
        assert(Seq::empty() + self.spec_members() =~= self.spec_members());
        matcher.slots
    }
}

/// Counts the attachments it receives.
struct MemberCounter {
    count: usize,
    log: Ghost<Seq<MemberEntry>>,
}

impl AttachmentsMemberRegistryNoSpecifics for MemberCounter {
    type Config = ();

    closed spec fn config(&self) -> () {
        ()
    }

    closed spec fn seen(&self) -> Seq<MemberEntry> {
        self.log@
    }

    closed spec fn inv(&self) -> bool {
        self.count == self.log@.len()
    }

    fn add_member(&mut self, name: &str, info: AttachmentInfo) {
        self.count = self.count + 1;
        self.log = Ghost(self.log@.push((name@, info)));
    }
}

/// Numbers the color attachments it receives.
struct AttachmentRefMatcher {
    color_index: usize,
    num_seen: usize,
    slots: Vec<(usize, usize)>,
    log: Ghost<Seq<MemberEntry>>,
}

impl AttachmentsMemberRegistryNoSpecifics for AttachmentRefMatcher {
    type Config = ();

    closed spec fn config(&self) -> () {
        ()
    }

    closed spec fn seen(&self) -> Seq<MemberEntry> {
        self.log@
    }

    closed spec fn inv(&self) -> bool {
        &&& self.num_seen == self.log@.len()
        &&& self.color_index == self.slots@.len()
        &&& self.slots@ == color_slots(self.log@)
    }

    fn add_member(&mut self, name: &str, info: AttachmentInfo) {
        let ghost entries = self.log@.push((name@, info));
        assert(entries.drop_last() =~= self.log@);
        proof {
            lemma_color_indices_compact(self.log@);
        }
        if info.format.is_color() {
            self.slots.push((self.num_seen, self.color_index));
            self.color_index = self.color_index + 1;
        }
        self.num_seen = self.num_seen + 1;
        self.log = Ghost(entries);
    }
}

impl Attachments for () {
    open spec fn spec_members(&self) -> Seq<AttachmentEntry> {
        Seq::empty()
    }

    fn members<R: AttachmentsMemberRegistry>(&self, reg: &mut R) {
        assert(reg.registered() + Seq::<AttachmentEntry>::empty() =~= reg.registered());
    }
}

/// An attachment of either kind, for aggregates whose fields are listed at run time.
#[derive(Debug, Clone, Copy, PartialEq, Eq, Structural, Hash)]
pub enum AnyAttachment {
    Renderbuffer(Renderbuffer),
    Texture(Texture),
}

impl AttachmentType for AnyAttachment {
    open spec fn spec_info(&self) -> AttachmentInfo {
        match self {
            AnyAttachment::Renderbuffer(r) => r.spec_info(),
            AnyAttachment::Texture(t) => t.spec_info(),
        }
    }

    fn info(&self) -> (r: AttachmentInfo) {
        match self {
            AnyAttachment::Renderbuffer(r) => r.info(),
            AnyAttachment::Texture(t) => t.info(),
        }
    }

    fn resolve_reference(&self) -> (r: Handle) {
        match self {
            AnyAttachment::Renderbuffer(r) => r.resolve_reference(),
            AnyAttachment::Texture(t) => t.resolve_reference(),
        }
    }

    fn add_to_registry<R: AttachmentsMemberRegistry>(&self, registry: &mut R, name: &str, mip: u8) {
        match self {
            AnyAttachment::Renderbuffer(r) => r.add_to_registry(registry, name, mip),
            AnyAttachment::Texture(t) => t.add_to_registry(registry, name, mip),
        }
    }
}

/// One declared field of an attachment list: its name, its attachment, and the mip level it
/// targets.
pub struct NamedAttachment<A> {
    pub name: String,
    pub attachment: A,
    pub mip: u8,
}

impl<A: AttachmentType> NamedAttachment<A> {
    pub open spec fn entry(&self) -> AttachmentEntry {
        entry_for(self.name@, self.attachment.spec_info(), self.mip)
    }
}

/// An attachment aggregate whose fields are listed in declaration order.
pub struct AttachmentList<A> {
    members: Vec<NamedAttachment<A>>,
}

impl<A: AttachmentType> AttachmentList<A> {
    /// An aggregate with no fields yet.
    pub fn new() -> (r: AttachmentList<A>)
        ensures
            r.spec_members() == Seq::<AttachmentEntry>::empty(),
    {
        let r = AttachmentList { members: Vec::new() };
        assert(r.spec_members() =~= Seq::<AttachmentEntry>::empty());
        r
    }

    /// Declares the next field.
    pub fn push_member(&mut self, name: String, attachment: A, mip: u8)
        ensures
            final(self).spec_members() == old(self).spec_members().push(
                entry_for(name@, attachment.spec_info(), mip),
            ),
    {
        let m = NamedAttachment { name, attachment, mip };
        let ghost e = m.entry();
        self.members.push(m);
        assert(self.spec_members() =~= old(self).spec_members().push(e));
    }
}

impl<A: AttachmentType> Attachments for AttachmentList<A> {
    closed spec fn spec_members(&self) -> Seq<AttachmentEntry> {
        self.members@.map_values(|m: NamedAttachment<A>| m.entry())
    }

    fn members<R: AttachmentsMemberRegistry>(&self, reg: &mut R) {
        let mut i: usize = 0;
        while i < self.members.len()
            invariant
                i <= self.members.len(),
                reg.inv(),
                reg.config() == old(reg).config(),
                reg.registered() == old(reg).registered() + self.spec_members().take(i as int),
                old(reg).registered().len() + self.spec_members().len() <= usize::MAX,
            decreases self.members.len() - i,
        {
            let m = &self.members[i];
            assert(self.spec_members()[i as int] == m.entry());
            m.attachment.add_to_registry(reg, m.name.as_str(), m.mip);
            assert(self.spec_members().take(i + 1) =~= self.spec_members().take(i as int).push(
                m.entry(),
            ));
            i = i + 1;
        }
        assert(self.spec_members().take(i as int) =~= self.spec_members());
    }
}

/// Attachments that a framebuffer object can be built from.
pub trait FBOAttachments: Attachments {}

/// Attachments that describe the default framebuffer, which owns its images.
pub trait DefaultFramebufferAttachments: Attachments {}

impl DefaultFramebufferAttachments for () {}

impl<A: AttachmentType> FBOAttachments for AttachmentList<A> {}

} // verus!
