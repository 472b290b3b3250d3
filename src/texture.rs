//! Textures as framebuffer attachments: a handle, a format, and mip levels to render into.
use vstd::prelude::*;
use crate::handles::Handle;
use crate::image_format::ImageFormat;

verus! {

/// A texture whose storage has been allocated, with `levels` mip levels.
#[derive(Debug, Clone, Copy, PartialEq, Eq, Structural, Hash)]
pub struct Texture {
    handle: Handle,
    format: ImageFormat,
    levels: u8,
}

impl Texture {
    pub closed spec fn spec_handle(&self) -> Handle {
        self.handle
    }

    pub closed spec fn spec_format(&self) -> ImageFormat {
        self.format
    }

    pub closed spec fn spec_levels(&self) -> u8 {
        self.levels
    }

    pub fn new(handle: Handle, format: ImageFormat, levels: u8) -> (r: Texture)
        ensures
            r.spec_handle() == handle,
            r.spec_format() == format,
            r.spec_levels() == levels,
    {
        Texture { handle, format, levels }
    }

    pub fn handle(&self) -> (r: Handle)
        ensures
            r == self.spec_handle(),
    {
        self.handle
    }

    pub fn format(&self) -> (r: ImageFormat)
        ensures
            r == self.spec_format(),
    {
        self.format
    }

    pub fn levels(&self) -> (r: u8)
        ensures
            r == self.spec_levels(),
    {
        self.levels
    }
}

} // verus!
