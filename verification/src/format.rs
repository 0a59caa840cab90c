//! Image formats, reduced to what the render pass layer reads of them:
//! a numeric tag (the value handed to the driver) and the component kind.

use vstd::prelude::*;

verus! {

/// The component kind of a format: what kind of data its texels carry.
#[derive(Clone, Copy, Debug, PartialEq, Eq, Structural)]
pub enum FormatTy {
    Depth,
    Stencil,
    DepthStencil,
    Color,
    Other,
}

/// A format tag paired with its component kind.
///
/// The render pass layer never inspects a format beyond these two pieces
/// of information: the tag is forwarded verbatim to the driver, and the
/// component kind decides the depth/stencil queries of a subpass.
#[derive(Clone, Copy, Debug, PartialEq, Eq, Structural)]
pub struct Format {
    pub tag: u32,
    pub ty: FormatTy,
}

impl Format {
    /// Builds a format from its driver tag and its component kind.
    pub fn new(tag: u32, ty: FormatTy) -> (r: Format)
        ensures
            r == (Format { tag, ty }),
    {
        Format { tag, ty }
    }

    /// The component kind of this format.
    pub fn ty(&self) -> (r: FormatTy)
        ensures
            r == self.ty,
    {
        self.ty
    }
}

} // verus!
