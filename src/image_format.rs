//! Image formats of attachable images, as the tags the graphics API is called with.
use vstd::prelude::*;

verus! {

/// What an image format holds: color, depth, stencil, or depth and stencil together.
#[derive(Debug, Clone, Copy, PartialEq, Eq, Structural, Hash)]
pub enum FormatTypeTag {
    Color,
    Depth,
    Stencil,
    DepthStencil,
}

/// An image format: its kind, and the internal format, pixel format and pixel type enumerants
/// used when storage for an image of it is allocated.
#[derive(Debug, Clone, Copy, PartialEq, Eq, Structural, Hash)]
pub struct ImageFormat {
    pub kind: FormatTypeTag,
    pub internal_format: u32,
    pub pixel_format: u32,
    pub pixel_type: u32,
}

impl ImageFormat {
    pub fn is_color(&self) -> (r: bool)
        ensures
            r == (self.kind == FormatTypeTag::Color),
    {
        self.kind == FormatTypeTag::Color
    }
}

} // verus!
