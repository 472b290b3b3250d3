//! Hardware object handles and fixed-length containers of them.
use vstd::prelude::*;

verus! {

/// An opaque identifier of a hardware object.
#[derive(Debug, Clone, Copy, PartialEq, Eq, Structural, Hash)]
pub struct Handle(pub u32);

/// The most attachments a framebuffer keeps handles for.
pub const MAX_ATTACHMENTS: usize = 32;

/// A fixed number of handle slots, one per field of an attachment aggregate; an empty slot is
/// `None`.
pub trait AttachmentHandleContainer: Sized {
    /// The number of slots.
    spec fn capacity() -> nat;

    spec fn spec_slots(&self) -> Seq<Option<Handle>>;

    /// The container is in a state its operations leave it in.
    spec fn wf(&self) -> bool;

    /// A well-formed container has exactly `capacity()` slots.
    proof fn lemma_wf_len(&self)
        requires
            self.wf(),
        ensures
            self.spec_slots().len() == Self::capacity(),
    ;

    /// A container with every slot empty.
    fn new_zeroed() -> (r: Self)
        requires
            Self::capacity() <= MAX_ATTACHMENTS,
        ensures
            r.wf(),
            r.spec_slots() == Seq::new(Self::capacity(), |_i: int| None::<Handle>),
    ;

    /// The slots, in order: always `capacity()` of them, so `from_slice` takes the view
    /// back and rebuilds a container with the same slots.
    fn as_slice(&self) -> (r: &[Option<Handle>])
        requires
            self.wf(),
        ensures
            r@ == self.spec_slots(),
            r@.len() == Self::capacity(),
    ;

    /// A container holding `slots`; none when their number is not the capacity.
    fn from_slice(slots: &[Option<Handle>]) -> (r: Option<Self>)
        ensures
            r is Some <==> slots@.len() == Self::capacity(),
            r matches Some(c) ==> c.wf() && c.spec_slots() == slots@,
    ;

    /// Puts `handle` in slot `i`.
    fn set(&mut self, i: usize, handle: Option<Handle>)
        requires
            old(self).wf(),
            i < old(self).spec_slots().len(),
        ensures
            final(self).wf(),
            final(self).spec_slots() == old(self).spec_slots().update(i as int, handle),
    ;
}

/// `N` handle slots.
pub struct HandleArray<const N: usize> {
    slots: Vec<Option<Handle>>,
}

impl<const N: usize> AttachmentHandleContainer for HandleArray<N> {
    open spec fn capacity() -> nat {
        N as nat
    }

    closed spec fn spec_slots(&self) -> Seq<Option<Handle>> {
        self.slots@
    }

    closed spec fn wf(&self) -> bool {
        self.slots@.len() == N
    }

    proof fn lemma_wf_len(&self) {
    }

    fn new_zeroed() -> (r: Self) {
        let mut slots: Vec<Option<Handle>> = Vec::new();
        let mut i: usize = 0;
        while i < N
            invariant
                i <= N,
                slots@ == Seq::new(i as nat, |_i: int| None::<Handle>),
            decreases N - i,
        {
            slots.push(None);
            i = i + 1;
            assert(slots@ =~= Seq::new(i as nat, |_i: int| None::<Handle>));
        }
        HandleArray { slots }
    }

    fn as_slice(&self) -> (r: &[Option<Handle>]) {
        self.slots.as_slice()
    }

    fn from_slice(slots: &[Option<Handle>]) -> (r: Option<Self>) {
        if slots.len() == N {
            let mut v: Vec<Option<Handle>> = Vec::new();
            let mut i: usize = 0;
            while i < slots.len()
                invariant
                    i <= slots@.len(),
                    v@ == slots@.take(i as int),
                decreases slots@.len() - i,
            {
                v.push(slots[i]);
                i = i + 1;
                assert(v@ =~= slots@.take(i as int));
            }
            assert(v@ =~= slots@);
            Some(HandleArray { slots: v })
        } else {
            None
        }
    }

    fn set(&mut self, i: usize, handle: Option<Handle>) {
        self.slots.set(i, handle);
    }
}

/// Round trip: the slice view of a well-formed container has `capacity()` slots, so
/// `from_slice` takes it back and builds a container holding the same slots.
pub proof fn lemma_handle_container_round_trip<C: AttachmentHandleContainer>(
    c: &C,
    view: Seq<Option<Handle>>,
)
    requires
        c.wf(),
        view == c.spec_slots(),
    ensures
        view.len() == C::capacity(),
{
    c.lemma_wf_len();
}

} // verus!
