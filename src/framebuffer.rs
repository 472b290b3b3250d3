//! Binding an attachment aggregate to a framebuffer: which attachment point each field goes
//! to, and with which call.
use vstd::prelude::*;
use crate::attachments::{
    AttachmentEntry, AttachmentInfo, AttachmentTargetType, Attachments, AttachmentsMemberRegistry,
};
use crate::handles::{Handle, MAX_ATTACHMENTS};
use crate::image_format::FormatTypeTag;

verus! {

// Attachment point enumerants of the graphics API.
pub const GL_COLOR_ATTACHMENT0: u32 = 0x8CE0;
pub const GL_DEPTH_ATTACHMENT: u32 = 0x8D00;
pub const GL_STENCIL_ATTACHMENT: u32 = 0x8D20;
pub const GL_DEPTH_STENCIL_ATTACHMENT: u32 = 0x821A;

/// One attach call: the attachment point, the kind of object, its handle and the mip level.
#[derive(Debug, Clone, Copy, PartialEq, Eq, Structural, Hash)]
pub struct AttachmentBinding {
    pub attachment_point: u32,
    pub target: AttachmentTargetType,
    pub handle: Handle,
    pub level: u8,
}

/// Why an attachment aggregate cannot be bound.
#[derive(Debug, Clone, Copy, PartialEq, Eq, Structural, Hash)]
pub enum AttachmentError {
    /// The field at position `member` finds no free handle slot; there are `max`.
    TooManyAttachments { member: usize, max: usize },
}

/// The number of color attachments among `s`.
pub open spec fn color_count(s: Seq<AttachmentEntry>) -> nat
    decreases s.len(),
{
    if s.len() == 0 {
        0
    } else {
        color_count(s.drop_last()) + if s.last().1.format.kind == FormatTypeTag::Color {
            1nat
        } else {
            0nat
        }
    }
}

/// The attachment point of an attachment of `kind`, `colors_before` color attachments having
/// come before it.
pub open spec fn attachment_point(kind: FormatTypeTag, colors_before: nat) -> u32 {
    match kind {
        FormatTypeTag::Color => (GL_COLOR_ATTACHMENT0 + colors_before) as u32,
        FormatTypeTag::Depth => GL_DEPTH_ATTACHMENT,
        FormatTypeTag::Stencil => GL_STENCIL_ATTACHMENT,
        FormatTypeTag::DepthStencil => GL_DEPTH_STENCIL_ATTACHMENT,
    }
}

/// The attach calls for `entries`, one per field in order, with `capacity` handle slots.
pub open spec fn plan_bindings(capacity: usize, entries: Seq<AttachmentEntry>) -> Result<
    Seq<AttachmentBinding>,
    AttachmentError,
>
    decreases entries.len(),
{
    if entries.len() == 0 {
        Ok(Seq::empty())
    } else {
        let prev = entries.drop_last();
        let e = entries.last();
        match plan_bindings(capacity, prev) {
            Err(err) => Err(err),
            Ok(bs) => if bs.len() >= capacity {
                Err(
                    AttachmentError::TooManyAttachments {
                        member: (entries.len() - 1) as usize,
                        max: capacity,
                    },
                )
            } else {
                Ok(
                    bs.push(
                        AttachmentBinding {
                            attachment_point: attachment_point(e.1.format.kind, color_count(prev)),
                            target: e.1.target,
                            handle: e.1.handle,
                            level: e.2,
                        },
                    ),
                )
            },
        }
    }
}

proof fn lemma_plan_bindings_len(capacity: usize, entries: Seq<AttachmentEntry>)
    ensures
        color_count(entries) <= entries.len(),
        plan_bindings(capacity, entries) matches Ok(bs) ==> bs.len() == entries.len()
            && bs.len() <= capacity,
    decreases entries.len(),
{
    if entries.len() > 0 {
        lemma_plan_bindings_len(capacity, entries.drop_last());
    }
}

/// A registry that works out the attach call of each field, stopping at the first field that
/// finds no handle slot.
pub struct AttachmentBinder {
    capacity: usize,
    num_seen: usize,
    color_index: u32,
    bindings: Vec<AttachmentBinding>,
    error: Option<AttachmentError>,
    log: Ghost<Seq<AttachmentEntry>>,
}

impl AttachmentBinder {
    pub closed spec fn spec_result(&self) -> Result<Seq<AttachmentBinding>, AttachmentError> {
        match self.error {
            Some(e) => Err(e),
            None => Ok(self.bindings@),
        }
    }

    /// A binder for a framebuffer with `capacity` handle slots.
    pub fn new(capacity: usize) -> (r: AttachmentBinder)
        requires
            capacity <= MAX_ATTACHMENTS,
        ensures
            r.inv(),
            r.config() == capacity,
            r.registered() == Seq::<AttachmentEntry>::empty(),
    {
        AttachmentBinder {
            capacity,
            num_seen: 0,
            color_index: 0,
            bindings: Vec::new(),
            error: None,
            log: Ghost(Seq::empty()),
        }
    }

    fn bind_next(&mut self, info: AttachmentInfo, level: u8, name: Ghost<Seq<char>>)
        requires
            old(self).inv(),
            old(self).registered().len() < usize::MAX,
        ensures
            final(self).inv(),
            final(self).config() == old(self).config(),
            final(self).registered() == old(self).registered().push((name@, info, level)),
    {
        let ghost entries = self.log@.push((name@, info, level));
        assert(entries.drop_last() =~= self.log@);
        proof {
            lemma_plan_bindings_len(self.capacity, self.log@);
        }
        if self.error.is_none() {
            if self.bindings.len() >= self.capacity {
                self.error = Some(
                    AttachmentError::TooManyAttachments { member: self.num_seen, max: self.capacity },
                );
            } else {
                let point = match info.format.kind {
                    FormatTypeTag::Color => {
                        let p = GL_COLOR_ATTACHMENT0 + self.color_index;
                        self.color_index = self.color_index + 1;
                        p
                    },
                    FormatTypeTag::Depth => GL_DEPTH_ATTACHMENT,
                    FormatTypeTag::Stencil => GL_STENCIL_ATTACHMENT,
                    FormatTypeTag::DepthStencil => GL_DEPTH_STENCIL_ATTACHMENT,
                };
                self.bindings.push(
                    AttachmentBinding {
                        attachment_point: point,
                        target: info.target,
                        handle: info.handle,
                        level,
                    },
                );
            }
        }
        self.num_seen = self.num_seen + 1;
        self.log = Ghost(entries);
    }

    /// The attach calls of all fields received, or the first field without a handle slot.
    pub fn finish(self) -> (r: Result<Vec<AttachmentBinding>, AttachmentError>)
        requires
            self.inv(),
        ensures
            r matches Ok(bs) ==> plan_bindings(self.config(), self.registered()) == Ok::<Seq<AttachmentBinding>, AttachmentError>(bs@),
            r matches Err(e) ==> plan_bindings(self.config(), self.registered()) == Err::<Seq<AttachmentBinding>, AttachmentError>(e),
    {
        match self.error {
            Some(e) => Err(e),
            None => Ok(self.bindings),
        }
    }
}

impl AttachmentsMemberRegistry for AttachmentBinder {
    type Config = usize;

    closed spec fn config(&self) -> usize {
        self.capacity
    }

    closed spec fn registered(&self) -> Seq<AttachmentEntry> {
        self.log@
    }

    closed spec fn inv(&self) -> bool {
        &&& self.capacity <= MAX_ATTACHMENTS
        &&& self.num_seen == self.log@.len()
        &&& self.spec_result() == plan_bindings(self.capacity, self.log@)
        &&& (self.error is None ==> self.color_index == color_count(self.log@))
    }

    fn add_renderbuffer(&mut self, name: &str, info: AttachmentInfo) {
        self.bind_next(info, 0, Ghost(name@));
    }

    fn add_texture(&mut self, name: &str, info: AttachmentInfo, texture_level: u8) {
        self.bind_next(info, texture_level, Ghost(name@));
    }
}

/// The attach calls that bind the fields of `attachments` to a framebuffer with `capacity`
/// handle slots: one per field in declaration order, or the first field without a slot.
pub fn plan_attachment_bindings<A: Attachments>(attachments: &A, capacity: usize) -> (r: Result<
    Vec<AttachmentBinding>,
    AttachmentError,
>)
    requires
        capacity <= MAX_ATTACHMENTS,
        attachments.spec_members().len() <= usize::MAX,
    ensures
        r matches Ok(bs) ==> plan_bindings(capacity, attachments.spec_members()) == Ok::<Seq<AttachmentBinding>, AttachmentError>(bs@),
        r matches Err(e) ==> plan_bindings(capacity, attachments.spec_members()) == Err::<Seq<AttachmentBinding>, AttachmentError>(e),
{
    let mut binder = AttachmentBinder::new(capacity);
    attachments.members(&mut binder);
    assert(binder.registered() =~= attachments.spec_members());
    binder.finish()
}

} // verus!
