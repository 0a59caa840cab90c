//! The declarative description of a render pass: attachments, subpasses
//! and dependencies, together with the layouts and load/store behaviour
//! they name.

use vstd::prelude::*;

use crate::format::Format;

verus! {

/// The access state an attachment must be in when a subpass uses it.
#[derive(Clone, Copy, Debug, PartialEq, Eq, Structural)]
pub enum ImageLayout {
    Undefined,
    General,
    ColorAttachmentOptimal,
    DepthStencilAttachmentOptimal,
    DepthStencilReadOnlyOptimal,
    ShaderReadOnlyOptimal,
    TransferSrcOptimal,
    TransferDstOptimal,
    Preinitialized,
    PresentSrc,
}

impl ImageLayout {
    /// The numeric value of this layout in the driver's encoding.
    pub open spec fn spec_raw(self) -> u32 {
        match self {
            ImageLayout::Undefined => 0,
            ImageLayout::General => 1,
            ImageLayout::ColorAttachmentOptimal => 2,
            ImageLayout::DepthStencilAttachmentOptimal => 3,
            ImageLayout::DepthStencilReadOnlyOptimal => 4,
            ImageLayout::ShaderReadOnlyOptimal => 5,
            ImageLayout::TransferSrcOptimal => 6,
            ImageLayout::TransferDstOptimal => 7,
            ImageLayout::Preinitialized => 8,
            ImageLayout::PresentSrc => 1000001002,
        }
    }

    /// Lowers the layout to the driver's encoding.
    pub fn raw(self) -> (r: u32)
        ensures
            r == self.spec_raw(),
    {
        match self {
            ImageLayout::Undefined => 0,
            ImageLayout::General => 1,
            ImageLayout::ColorAttachmentOptimal => 2,
            ImageLayout::DepthStencilAttachmentOptimal => 3,
            ImageLayout::DepthStencilReadOnlyOptimal => 4,
            ImageLayout::ShaderReadOnlyOptimal => 5,
            ImageLayout::TransferSrcOptimal => 6,
            ImageLayout::TransferDstOptimal => 7,
            ImageLayout::Preinitialized => 8,
            ImageLayout::PresentSrc => 1000001002,
        }
    }
}

/// What happens to an attachment's existing contents when a render pass begins.
#[derive(Clone, Copy, Debug, PartialEq, Eq, Structural)]
pub enum LoadOp {
    /// The previous contents are preserved.
    Load,
    /// The attachment is cleared to a fixed value.
    Clear,
    /// The previous contents are undefined.
    DontCare,
}

impl LoadOp {
    /// The numeric value of this operation in the driver's encoding.
    pub open spec fn spec_raw(self) -> u32 {
        match self {
            LoadOp::Load => 0,
            LoadOp::Clear => 1,
            LoadOp::DontCare => 2,
        }
    }

    /// Lowers the operation to the driver's encoding.
    pub fn raw(self) -> (r: u32)
        ensures
            r == self.spec_raw(),
    {
        match self {
            LoadOp::Load => 0,
            LoadOp::Clear => 1,
            LoadOp::DontCare => 2,
        }
    }
}

/// What happens to an attachment's contents when a render pass ends.
#[derive(Clone, Copy, Debug, PartialEq, Eq, Structural)]
pub enum StoreOp {
    /// The contents written during the pass are stored to memory.
    Store,
    /// The contents are not needed after the pass and may be discarded.
    DontCare,
}

impl StoreOp {
    /// The numeric value of this operation in the driver's encoding.
    pub open spec fn spec_raw(self) -> u32 {
        match self {
            StoreOp::Store => 0,
            StoreOp::DontCare => 1,
        }
    }

    /// Lowers the operation to the driver's encoding.
    pub fn raw(self) -> (r: u32)
        ensures
            r == self.spec_raw(),
    {
        match self {
            StoreOp::Store => 0,
            StoreOp::DontCare => 1,
        }
    }
}

/// Static, per-slot metadata of one attachment of a render pass.
#[derive(Clone, Copy, Debug, PartialEq, Eq, Structural)]
pub struct AttachmentDesc {
    pub format: Format,
    pub samples: u32,
    pub load: LoadOp,
    pub store: StoreOp,
    pub stencil_load: LoadOp,
    pub stencil_store: StoreOp,
    pub initial_layout: ImageLayout,
    pub final_layout: ImageLayout,
}

/// One subpass of a render pass: which attachments it references, in which
/// role, and with which required layout.
#[derive(Clone, Debug, PartialEq)]
pub struct SubpassDesc {
    /// Attachments written as color outputs, in location order.
    pub color_attachments: Vec<(usize, ImageLayout)>,
    /// Attachments read as input attachments.
    pub input_attachments: Vec<(usize, ImageLayout)>,
    /// Single-sample attachments receiving the resolved color outputs;
    /// either empty or paired one-to-one with `color_attachments`.
    pub resolve_attachments: Vec<(usize, ImageLayout)>,
    /// The depth/stencil attachment, if the subpass has one.
    pub depth_stencil: Option<(usize, ImageLayout)>,
    /// Attachments whose contents must survive this subpass although it
    /// does not reference them itself.
    pub preserve_attachments: Vec<usize>,
}

impl SubpassDesc {
    /// A subpass that references no attachment at all.
    pub fn empty() -> (r: SubpassDesc)
        ensures
            r.color_attachments@ == Seq::<(usize, ImageLayout)>::empty(),
            r.input_attachments@ == Seq::<(usize, ImageLayout)>::empty(),
            r.resolve_attachments@ == Seq::<(usize, ImageLayout)>::empty(),
            r.depth_stencil is None,
            r.preserve_attachments@ == Seq::<usize>::empty(),
    {
        SubpassDesc {
            color_attachments: Vec::new(),
            input_attachments: Vec::new(),
            resolve_attachments: Vec::new(),
            depth_stencil: None,
            preserve_attachments: Vec::new(),
        }
    }
}

/// Sentinel stage index standing for work outside the render pass.
///
/// Its driver encoding is the all-ones 32-bit value; a dependency naming it
/// orders a subpass against commands before or after the whole pass.
pub const SUBPASS_EXTERNAL: usize = 0xFFFF_FFFF;

/// An ordering requirement between two subpasses, or between a subpass and
/// work outside the render pass.
#[derive(Clone, Copy, Debug, PartialEq, Eq, Structural)]
pub struct SubpassDependencyDesc {
    /// Index of the source subpass, or [`SUBPASS_EXTERNAL`].
    pub source_subpass: usize,
    /// Index of the destination subpass, or [`SUBPASS_EXTERNAL`].
    pub destination_subpass: usize,
    /// Pipeline stage mask on the source side.
    pub source_stages: u32,
    /// Pipeline stage mask on the destination side.
    pub destination_stages: u32,
    /// Access mask on the source side.
    pub source_access: u32,
    /// Access mask on the destination side.
    pub destination_access: u32,
    /// Whether the dependency holds per framebuffer region only.
    pub by_region: bool,
}

/// The complete, purely declarative description of a render pass.
///
/// A description owns its attachment, subpass and dependency lists by value
/// and is never mutated after construction; compiling it stores it inside
/// the resulting handle, from which it can be read back unchanged.
#[derive(Clone, Debug, PartialEq)]
pub struct RenderPassDesc {
    attachments: Vec<AttachmentDesc>,
    subpasses: Vec<SubpassDesc>,
    dependencies: Vec<SubpassDependencyDesc>,
}

impl RenderPassDesc {
    /// Builds a description from its three lists.
    pub fn new(
        attachments: Vec<AttachmentDesc>,
        subpasses: Vec<SubpassDesc>,
        dependencies: Vec<SubpassDependencyDesc>,
    ) -> (r: RenderPassDesc)
        ensures
            r.spec_attachments() == attachments@,
            r.spec_subpasses() == subpasses@,
            r.spec_dependencies() == dependencies@,
    {
        RenderPassDesc { attachments, subpasses, dependencies }
    }

    /// A description with no attachment and one subpass that references
    /// nothing.
    pub fn empty() -> (r: RenderPassDesc)
        ensures
            r.spec_attachments() == Seq::<AttachmentDesc>::empty(),
            r.spec_subpasses().len() == 1,
            r.spec_subpasses()[0].color_attachments@.len() == 0,
            r.spec_subpasses()[0].input_attachments@.len() == 0,
            r.spec_subpasses()[0].resolve_attachments@.len() == 0,
            r.spec_subpasses()[0].depth_stencil is None,
            r.spec_subpasses()[0].preserve_attachments@.len() == 0,
            r.spec_dependencies() == Seq::<SubpassDependencyDesc>::empty(),
    {
        let mut subpasses: Vec<SubpassDesc> = Vec::new();
        subpasses.push(SubpassDesc::empty());
        RenderPassDesc { attachments: Vec::new(), subpasses, dependencies: Vec::new() }
    }

    /// The attachment list, in declared order.
    pub fn attachments(&self) -> (r: &Vec<AttachmentDesc>)
        ensures
            r@ == self.spec_attachments(),
    {
        &self.attachments
    }

    /// The subpass list, in declared order.
    pub fn subpasses(&self) -> (r: &Vec<SubpassDesc>)
        ensures
            r@ == self.spec_subpasses(),
    {
        &self.subpasses
    }

    /// The dependency list, in declared order.
    pub fn dependencies(&self) -> (r: &Vec<SubpassDependencyDesc>)
        ensures
            r@ == self.spec_dependencies(),
    {
        &self.dependencies
    }

    /// The attachment list as a sequence.
    pub closed spec fn spec_attachments(self) -> Seq<AttachmentDesc> {
        self.attachments@
    }

    /// The subpass list as a sequence.
    pub closed spec fn spec_subpasses(self) -> Seq<SubpassDesc> {
        self.subpasses@
    }

    /// The dependency list as a sequence.
    pub closed spec fn spec_dependencies(self) -> Seq<SubpassDependencyDesc> {
        self.dependencies@
    }
}

} // verus!
