//! Renderbuffers: images that can only be rendered into, and the tracking of which one is
//! bound.
use vstd::prelude::*;
use crate::handles::Handle;
use crate::image_format::ImageFormat;

verus! {

/// A renderbuffer whose storage has been allocated: its handle, format, size and sample count.
#[derive(Debug, Clone, Copy, PartialEq, Eq, Structural, Hash)]
pub struct Renderbuffer {
    handle: Handle,
    format: ImageFormat,
    width: u32,
    height: u32,
    samples: u32,
}

impl Renderbuffer {
    pub closed spec fn spec_handle(&self) -> Handle {
        self.handle
    }

    pub closed spec fn spec_format(&self) -> ImageFormat {
        self.format
    }

    pub closed spec fn spec_dims(&self) -> (u32, u32) {
        (self.width, self.height)
    }

    pub closed spec fn spec_samples(&self) -> u32 {
        self.samples
    }

    /// The renderbuffer `handle`, whose storage holds `dims` (width, height) pixels of
    /// `format` with `samples` samples each.
    pub fn new(handle: Handle, format: ImageFormat, dims: (u32, u32), samples: u32) -> (r: Renderbuffer)
        ensures
            r.spec_handle() == handle,
            r.spec_format() == format,
            r.spec_dims() == dims,
            r.spec_samples() == samples,
    {
        Renderbuffer { handle, format, width: dims.0, height: dims.1, samples }
    }

    pub fn dims(&self) -> (r: (u32, u32))
        ensures
            r == self.spec_dims(),
    {
        (self.width, self.height)
    }

    pub fn samples(&self) -> (r: u32)
        ensures
            r == self.spec_samples(),
    {
        self.samples
    }

    pub fn handle(&self) -> (r: Handle)
        ensures
            r == self.spec_handle(),
    {
        self.handle
    }

    pub fn format(&self) -> (r: ImageFormat)
        ensures
            r == self.spec_format(),
    {
        self.format
    }
}

/// Which renderbuffer is bound, so that binding the one already bound makes no call.
#[derive(Debug, Clone, Copy, PartialEq, Eq, Structural, Hash)]
pub struct RenderbufferTarget {
    pub bound: Option<Handle>,
}

impl RenderbufferTarget {
    /// Nothing bound.
    pub fn new() -> (r: RenderbufferTarget)
        ensures
            r.bound is None,
    {
        RenderbufferTarget { bound: None }
    }

    /// Records `handle` as bound; true when a bind call must be made for it.
    pub fn bind(&mut self, handle: Handle) -> (r: bool)
        ensures
            final(self).bound == Some(handle),
            r == (old(self).bound != Some(handle)),
    {
        if self.bound == Some(handle) {
            false
        } else {
            self.bound = Some(handle);
            true
        }
    }

    /// Records that `handle` was deleted; true when it was bound, so the binding is reset.
    pub fn release(&mut self, handle: Handle) -> (r: bool)
        ensures
            r == (old(self).bound == Some(handle)),
            final(self).bound == (if r { None } else { old(self).bound }),
    {
        if self.bound == Some(handle) {
            self.bound = None;
            true
        } else {
            false
        }
    }
}

} // verus!
