//! Compiling a description into a render pass handle, and the per-subpass
//! query layer over the result.

use vstd::prelude::*;
use vstd::rwlock::{RwLock, RwLockPredicate};

use std::sync::Arc;

use crate::desc::{AttachmentDesc, ImageLayout, RenderPassDesc, SubpassDesc};
use crate::format::FormatTy;
use crate::device::{Device, NativeRenderPass, OomError};
use crate::multiview::MultiviewDesc;
use crate::pack::{pack_render_pass, RawMultiview};
use crate::validate::{check_clear_rule, check_deps_in_range, check_multiview_shape,
    check_refs_in_range, check_samples, check_subpass_structures, find_limit_violation,
    spec_all_refs_in_range, spec_all_subpasses_ok, spec_clear_rule_ok, spec_deps_in_range,
    spec_first_limit_violation, spec_full_rules_ok, spec_hard_rules_ok, spec_multiview_shape_ok,
    spec_samples_ok, spec_within_color_limit, ValidationLevel};

verus! {

/// Why a compilation failed.
#[derive(Clone, Copy, Debug, PartialEq, Eq, Structural)]
pub enum RenderPassCreationError {
    /// The native creation call reported memory exhaustion.
    OomError(OomError),
    /// The named subpass's color attachment count exceeds the device's
    /// limit.
    ColorAttachmentsLimitExceeded { subpass: usize },
    /// An attachment with a clearing load operation has its first use as a
    /// pure input attachment.
    ClearedInputAttachment,
    /// A subpass names an attachment index outside the attachment list.
    AttachmentReferenceOutOfRange,
    /// A dependency names a subpass index outside the subpass list.
    DependencyOutOfRange,
    /// An attachment's sample count is not a power of two.
    AttachmentSamplesNotPowerOfTwo,
    /// A subpass breaks one of the structural pairing, sample count,
    /// format, preserve or layout rules.
    SubpassStructureInvalid,
    /// The multiview description's shape does not fit the render pass.
    MultiviewShapeInvalid,
}

impl RenderPassCreationError {
    /// The human-readable description of the error.
    pub open spec fn spec_message(self) -> Seq<char> {
        match self {
            RenderPassCreationError::OomError(_) => "not enough memory available"@,
            RenderPassCreationError::ColorAttachmentsLimitExceeded { .. } =>
                "the maximum number of color attachments has been exceeded"@,
            RenderPassCreationError::ClearedInputAttachment =>
                "a cleared attachment is first used as a pure input attachment"@,
            RenderPassCreationError::AttachmentReferenceOutOfRange =>
                "a subpass references an attachment that does not exist"@,
            RenderPassCreationError::DependencyOutOfRange =>
                "a dependency references a subpass that does not exist"@,
            RenderPassCreationError::AttachmentSamplesNotPowerOfTwo =>
                "an attachment's sample count is not a power of two"@,
            RenderPassCreationError::SubpassStructureInvalid =>
                "a subpass breaks a structural rule of the description"@,
            RenderPassCreationError::MultiviewShapeInvalid =>
                "the multiview description does not fit the render pass"@,
        }
    }

    /// Describes the error.
    pub fn message(&self) -> (r: &'static str)
        ensures
            r@ == self.spec_message(),
    {
        proof {
            reveal_strlit("not enough memory available");
            reveal_strlit("the maximum number of color attachments has been exceeded");
            reveal_strlit("a cleared attachment is first used as a pure input attachment");
            reveal_strlit("a subpass references an attachment that does not exist");
            reveal_strlit("a dependency references a subpass that does not exist");
            reveal_strlit("an attachment's sample count is not a power of two");
            reveal_strlit("a subpass breaks a structural rule of the description");
            reveal_strlit("the multiview description does not fit the render pass");
        }
        match self {
            RenderPassCreationError::OomError(_) => "not enough memory available",
            RenderPassCreationError::ColorAttachmentsLimitExceeded { .. } =>
                "the maximum number of color attachments has been exceeded",
            RenderPassCreationError::ClearedInputAttachment =>
                "a cleared attachment is first used as a pure input attachment",
            RenderPassCreationError::AttachmentReferenceOutOfRange =>
                "a subpass references an attachment that does not exist",
            RenderPassCreationError::DependencyOutOfRange =>
                "a dependency references a subpass that does not exist",
            RenderPassCreationError::AttachmentSamplesNotPowerOfTwo =>
                "an attachment's sample count is not a power of two",
            RenderPassCreationError::SubpassStructureInvalid =>
                "a subpass breaks a structural rule of the description",
            RenderPassCreationError::MultiviewShapeInvalid =>
                "the multiview description does not fit the render pass",
        }
    }
}

impl From<OomError> for RenderPassCreationError {
    /// Wraps a native memory failure.
    fn from(err: OomError) -> (r: RenderPassCreationError) {
        RenderPassCreationError::OomError(err)
    }
}

impl vstd::std_specs::convert::FromSpecImpl<OomError> for RenderPassCreationError {
    open spec fn obeys_from_spec() -> bool {
        true
    }

    open spec fn from_spec(err: OomError) -> RenderPassCreationError {
        RenderPassCreationError::OomError(err)
    }
}

/// The error a compilation reports, or `None` when it succeeds: the rule
/// batteries run in a fixed order — the clear-op rule, the color limit,
/// reference ranges, dependency ranges, then (at the full level) sample
/// counts, subpass structure and multiview shape — and only then is the
/// native creation call made.
pub open spec fn spec_compile_error(
    desc: RenderPassDesc,
    multiview: Option<MultiviewDesc>,
    device: Device,
    level: ValidationLevel,
) -> Option<RenderPassCreationError> {
    if !spec_clear_rule_ok(desc.spec_attachments(), desc.spec_subpasses()) {
        Some(RenderPassCreationError::ClearedInputAttachment)
    } else {
        match spec_first_limit_violation(desc.spec_subpasses(), device.max_color_attachments, 0) {
            Some(s) => Some(
                RenderPassCreationError::ColorAttachmentsLimitExceeded { subpass: s as usize },
            ),
            None => {
                if !spec_all_refs_in_range(
                    desc.spec_subpasses(),
                    desc.spec_attachments().len() as int,
                ) {
                    Some(RenderPassCreationError::AttachmentReferenceOutOfRange)
                } else if !spec_deps_in_range(
                    desc.spec_dependencies(),
                    desc.spec_subpasses().len() as int,
                ) {
                    Some(RenderPassCreationError::DependencyOutOfRange)
                } else if level == ValidationLevel::Full && !spec_samples_ok(
                    desc.spec_attachments(),
                ) {
                    Some(RenderPassCreationError::AttachmentSamplesNotPowerOfTwo)
                } else if level == ValidationLevel::Full && !spec_all_subpasses_ok(
                    desc.spec_attachments(),
                    desc.spec_subpasses(),
                ) {
                    Some(RenderPassCreationError::SubpassStructureInvalid)
                } else if level == ValidationLevel::Full && !(multiview matches Some(m)
                    ==> spec_multiview_shape_ok(
                    m,
                    desc.spec_subpasses().len() as int,
                    desc.spec_dependencies().len() as int,
                )) {
                    Some(RenderPassCreationError::MultiviewShapeInvalid)
                } else if device.exhausted {
                    Some(RenderPassCreationError::OomError(OomError::OutOfHostMemory))
                } else {
                    None
                }
            },
        }
    }
}

/// What the granularity cache may hold: nothing yet, or the values the
/// native object reports — and the query has run at most once, exactly
/// when the cache is populated.
struct GranularityCell {
    value: Option<(u32, u32)>,
    queries: u32,
}

/// The lock invariant of the granularity cache of one handle.
struct GranularityInv {
    width: u32,
    height: u32,
}

impl RwLockPredicate<GranularityCell> for GranularityInv {
    closed spec fn inv(self, v: GranularityCell) -> bool {
        &&& (v.value matches Some(g) ==> g.0 == self.width && g.1 == self.height)
        &&& (v.value is Some <==> v.queries == 1)
        &&& v.queries <= 1
    }
}

/// A compiled render pass: the native object, the device it came from, the
/// originating description, and the memoized render-area granularity.
///
/// The handle owns the native object exclusively; dropping the handle tears
/// it down exactly once. The description is retained unchanged for the
/// lifetime of the handle and can be read back through [`Self::desc`].
pub struct RenderPass {
    native: NativeRenderPass,
    device: Arc<Device>,
    desc: RenderPassDesc,
    granularity: RwLock<GranularityCell, GranularityInv>,
}

impl RenderPass {
    /// The originating description, usable in specifications.
    pub closed spec fn spec_desc(self) -> RenderPassDesc {
        self.desc
    }

    /// The device the handle was compiled against.
    pub closed spec fn spec_device(self) -> Device {
        *self.device
    }

    /// The well-formedness of a handle: the native object reports non-zero
    /// granularity values matching the device's, the granularity cache is
    /// locked under the invariant for exactly those values, and every
    /// subpass's color attachment count passed the capability limit check,
    /// so it fits the driver's 32-bit counts.
    pub closed spec fn wf(self) -> bool {
        &&& self.native.granularity_width == (*self.device).granularity_width
        &&& self.native.granularity_height == (*self.device).granularity_height
        &&& self.native.granularity_width > 0
        &&& self.native.granularity_height > 0
        &&& self.granularity.pred() == (GranularityInv {
            width: self.native.granularity_width,
            height: self.native.granularity_height,
        })
        &&& forall|i: int|
            0 <= i < self.desc.spec_subpasses().len() ==> spec_within_color_limit(
                #[trigger] self.desc.spec_subpasses()[i],
                (*self.device).max_color_attachments,
            )
    }

    /// Compiles a description, with an optional multiview description,
    /// against a device, at the chosen validation level.
    ///
    /// The hard rules and, at the full level, every structural and
    /// multiview invariant are checked before anything irreversible
    /// happens; the packed layout is built only for a description that
    /// passed, and exactly one native creation call is made. On any
    /// failure the error says which battery rejected the description, and
    /// no handle — partial or otherwise — exists.
    ///
    /// A description that satisfies the hard rules (and, at the full
    /// level, the structural and multiview rules) compiles successfully
    /// whenever the device does not report memory exhaustion, and the
    /// resulting handle retains the description unchanged.
    ///
    /// A description must have at least one subpass, and its attachment
    /// and subpass counts must fit the driver's 32-bit encoding.
    pub fn new(
        device: Arc<Device>,
        description: RenderPassDesc,
        multiview: Option<MultiviewDesc>,
        level: ValidationLevel,
    ) -> (r: Result<RenderPass, RenderPassCreationError>)
        requires
            (*device).wf(),
            description.spec_subpasses().len() >= 1,
            description.spec_attachments().len() <= 0xFFFF_FFFF,
            description.spec_subpasses().len() <= 0xFFFF_FFFF,
        ensures
            match r {
                Ok(rp) => {
                    &&& spec_compile_error(description, multiview, *device, level) is None
                    &&& rp.wf()
                    &&& rp.spec_desc() == description
                    &&& rp.spec_device() == *device
                    &&& rp.spec_granularity_width() == (*device).granularity_width
                    &&& rp.spec_granularity_height() == (*device).granularity_height
                },
                Err(e) => spec_compile_error(description, multiview, *device, level) == Some(e),
            },
            spec_hard_rules_ok(description, (*device).max_color_attachments) && (level
                == ValidationLevel::Full ==> spec_full_rules_ok(description, multiview)) && !(
            *device).exhausted ==> r is Ok,
    {
        let atts = description.attachments();
        let subs = description.subpasses();
        let deps = description.dependencies();

        // The rule batteries, in the order the reported error follows.
        if !check_clear_rule(atts, subs) {
            return Err(RenderPassCreationError::ClearedInputAttachment);
        }
        match find_limit_violation(subs, device.max_color_attachments) {
            Some(s) => {
                return Err(RenderPassCreationError::ColorAttachmentsLimitExceeded { subpass: s });
            },
            None => {},
        }
        if !check_refs_in_range(subs, atts.len()) {
            return Err(RenderPassCreationError::AttachmentReferenceOutOfRange);
        }
        if !check_deps_in_range(deps, subs.len()) {
            return Err(RenderPassCreationError::DependencyOutOfRange);
        }
        let full = match level {
            ValidationLevel::Full => true,
            ValidationLevel::Minimal => false,
        };
        if full {
            if !check_samples(atts) {
                return Err(RenderPassCreationError::AttachmentSamplesNotPowerOfTwo);
            }
            if !check_subpass_structures(atts, subs) {
                return Err(RenderPassCreationError::SubpassStructureInvalid);
            }
            match &multiview {
                Some(m) => {
                    if !check_multiview_shape(m, subs.len(), deps.len()) {
                        return Err(RenderPassCreationError::MultiviewShapeInvalid);
                    }
                },
                None => {},
            }
        }

        // Flatten the validated description and chain the multiview
        // side-structure, then make the one native creation call.
        let mut packed = pack_render_pass(&description);
        packed.multiview = match multiview {
            Some(m) => Some(
                RawMultiview {
                    view_masks: m.view_masks,
                    view_offsets: m.view_offsets,
                    correlation_masks: m.correlation_masks,
                },
            ),
            None => None,
        };
        let native = match device.create_render_pass(&packed) {
            Ok(n) => n,
            Err(e) => {
                return Err(RenderPassCreationError::OomError(e));
            },
        };

        proof {
            crate::validate::lemma_no_limit_violation(
                description.spec_subpasses(),
                (*device).max_color_attachments,
                0,
            );
        }

        let ghost inv = GranularityInv {
            width: native.granularity_width,
            height: native.granularity_height,
        };
        let granularity = RwLock::new(GranularityCell { value: None, queries: 0 }, Ghost(inv));
        Ok(RenderPass { native, device, desc: description, granularity })
    }

    /// Compiles a render pass with one subpass and no attachment, at the
    /// full validation level. Useful for quick tests.
    pub fn empty_single_pass(device: Arc<Device>) -> (r: Result<
        RenderPass,
        RenderPassCreationError,
    >)
        requires
            (*device).wf(),
        ensures
            match r {
                Ok(rp) => {
                    &&& !(*device).exhausted
                    &&& rp.wf()
                    &&& rp.spec_desc().spec_subpasses().len() == 1
                    &&& rp.spec_desc().spec_subpasses()[0].color_attachments@.len() == 0
                    &&& rp.spec_desc().spec_subpasses()[0].input_attachments@.len() == 0
                    &&& rp.spec_desc().spec_subpasses()[0].resolve_attachments@.len() == 0
                    &&& rp.spec_desc().spec_subpasses()[0].depth_stencil is None
                    &&& rp.spec_desc().spec_subpasses()[0].preserve_attachments@.len() == 0
                    &&& rp.spec_desc().spec_attachments().len() == 0
                    &&& rp.spec_granularity_width() == (*device).granularity_width
                    &&& rp.spec_granularity_height() == (*device).granularity_height
                },
                Err(e) => (*device).exhausted && e == RenderPassCreationError::OomError(
                    OomError::OutOfHostMemory,
                ),
            },
    {
        let description = RenderPassDesc::empty();
        proof {
            lemma_empty_description_compiles(description, *device);
        }
        RenderPass::new(device, description, None, ValidationLevel::Full)
    }

    /// A by-value snapshot of the native object's reported values.
    pub fn inner(&self) -> (r: RenderPassSys)
        ensures
            r.granularity_width == self.spec_granularity_width(),
            r.granularity_height == self.spec_granularity_height(),
    {
        RenderPassSys {
            granularity_width: self.native.granularity_width,
            granularity_height: self.native.granularity_height,
        }
    }

    /// The horizontal granularity the native object reports.
    pub closed spec fn spec_granularity_width(self) -> u32 {
        self.native.granularity_width
    }

    /// The vertical granularity the native object reports.
    pub closed spec fn spec_granularity_height(self) -> u32 {
        self.native.granularity_height
    }

    /// Returns the granularity of the render pass.
    ///
    /// If the render area of a render pass in a command buffer is a
    /// multiple of this granularity, the performance will be optimal.
    ///
    /// The first access queries the native object once and memoizes the
    /// answer under the cache lock; every later access, from any thread
    /// sharing the handle, returns the cached value without another
    /// query, and every caller sees the same non-zero dimensions.
    pub fn granularity(&self) -> (r: [u32; 2])
        requires
            self.wf(),
        ensures
            r[0] == self.spec_granularity_width(),
            r[1] == self.spec_granularity_height(),
            r[0] > 0,
            r[1] > 0,
    {
        let (mut cell, handle) = self.granularity.acquire_write();
        let g: (u32, u32) = match cell.value {
            Some(g) => g,
            None => {
                // The one query of the native object.
                let queried = (self.native.granularity_width, self.native.granularity_height);
                cell.value = Some(queried);
                cell.queries = cell.queries + 1;
                queried
            },
        };
        handle.release_write(cell);
        [g.0, g.1]
    }

    /// How many times the native granularity query has run for this
    /// handle: never more than once, and exactly once as soon as
    /// [`Self::granularity`] has been called.
    pub fn granularity_queries(&self) -> (n: u32)
        requires
            self.wf(),
        ensures
            n <= 1,
    {
        let read_handle = self.granularity.acquire_read();
        let n = read_handle.borrow().queries;
        read_handle.release_read();
        n
    }

    /// Returns the description of the render pass, unchanged since it was
    /// compiled.
    pub fn desc(&self) -> (r: &RenderPassDesc)
        ensures
            *r == self.spec_desc(),
    {
        &self.desc
    }

    /// Returns the device this render pass was compiled against.
    pub fn device(&self) -> (r: &Arc<Device>)
        ensures
            **r == self.spec_device(),
    {
        &self.device
    }
}

/// An empty description compiles on any well-formed device that has
/// memory: every rule battery passes vacuously.
proof fn lemma_empty_description_compiles(description: RenderPassDesc, device: Device)
    requires
        description.spec_attachments().len() == 0,
        description.spec_subpasses().len() == 1,
        description.spec_subpasses()[0].color_attachments@.len() == 0,
        description.spec_subpasses()[0].input_attachments@.len() == 0,
        description.spec_subpasses()[0].resolve_attachments@.len() == 0,
        description.spec_subpasses()[0].depth_stencil is None,
        description.spec_subpasses()[0].preserve_attachments@.len() == 0,
        description.spec_dependencies().len() == 0,
    ensures
        spec_hard_rules_ok(description, device.max_color_attachments),
        spec_full_rules_ok(description, None),
{
    let atts = description.spec_attachments();
    let subs = description.spec_subpasses();
    assert(spec_clear_rule_ok(atts, subs));
    assert(spec_first_limit_violation(subs, device.max_color_attachments, 1) is None);
    assert(spec_first_limit_violation(subs, device.max_color_attachments, 0) is None);
    assert(spec_all_refs_in_range(subs, 0));
    assert(spec_deps_in_range(description.spec_dependencies(), 1));
    assert(spec_samples_ok(atts));
    assert(spec_all_subpasses_ok(atts, subs));
}

/// Opaque object that represents the render pass's internals: what the
/// native layer reported for it.
#[derive(Clone, Copy, Debug, PartialEq, Eq, Structural)]
pub struct RenderPassSys {
    pub granularity_width: u32,
    pub granularity_height: u32,
}

/// The fragment-shader interface of a pipeline, as seen by the subpass
/// compatibility check. Implementors state the compatibility predicate as
/// a specification and decide it executably.
pub trait ShaderInterfaceDef {
    /// Whether this interface is compatible with subpass `subpass_id` of
    /// `desc`.
    spec fn spec_compatible(&self, desc: RenderPassDesc, subpass_id: u32) -> bool;

    /// Decides the compatibility predicate.
    fn is_compatible_with_subpass(&self, desc: &RenderPassDesc, subpass_id: u32) -> (r: bool)
        ensures
            r == self.spec_compatible(*desc, subpass_id),
    ;
}

/// The sample count of the first attachment, scanning the color references
/// from position `k` and then the depth/stencil reference, whose index is
/// in range; `None` when no such attachment exists.
pub open spec fn spec_first_samples(
    atts: Seq<AttachmentDesc>,
    colors: Seq<(usize, ImageLayout)>,
    ds: Option<(usize, ImageLayout)>,
    k: int,
) -> Option<u32>
    decreases colors.len() - k,
{
    if 0 <= k < colors.len() {
        if colors[k].0 < atts.len() {
            Some(atts[colors[k].0 as int].samples)
        } else {
            spec_first_samples(atts, colors, ds, k + 1)
        }
    } else {
        match ds {
            Some(d) => if d.0 < atts.len() {
                Some(atts[d.0 as int].samples)
            } else {
                None
            },
            None => None,
        }
    }
}

/// Represents one subpass of a [`RenderPass`].
///
/// A value of this type pairs a shared handle with a subpass index that
/// was checked against the subpass count when the value was built, so the
/// per-subpass queries need not re-validate it on every call.
#[derive(Clone)]
pub struct Subpass {
    render_pass: Arc<RenderPass>,
    subpass_id: u32,
}

impl Subpass {
    /// The handle this subpass belongs to.
    pub closed spec fn spec_render_pass(self) -> RenderPass {
        *self.render_pass
    }

    /// The index of this subpass.
    pub closed spec fn spec_index(self) -> u32 {
        self.subpass_id
    }

    /// A subpass view is well-formed when its handle is and its index lies
    /// below the handle's subpass count.
    pub open spec fn wf(self) -> bool {
        &&& self.spec_render_pass().wf()
        &&& (self.spec_index() as int) < self.spec_render_pass().spec_desc().spec_subpasses().len()
    }

    /// The description of this subpass.
    pub open spec fn spec_subpass_desc(self) -> SubpassDesc {
        self.spec_render_pass().spec_desc().spec_subpasses()[self.spec_index() as int]
    }

    /// The attachment list of the owning description.
    pub open spec fn spec_attachments(self) -> Seq<AttachmentDesc> {
        self.spec_render_pass().spec_desc().spec_attachments()
    }

    /// Returns a view of subpass `id` of a render pass, and nothing when
    /// `id` is not strictly below the subpass count.
    pub fn from(render_pass: Arc<RenderPass>, id: u32) -> (r: Option<Subpass>)
        requires
            (*render_pass).wf(),
        ensures
            match r {
                Some(s) => {
                    &&& (id as int) < (*render_pass).spec_desc().spec_subpasses().len()
                    &&& s.wf()
                    &&& s.spec_render_pass() == *render_pass
                    &&& s.spec_index() == id
                },
                None => (id as int) >= (*render_pass).spec_desc().spec_subpasses().len(),
            },
    {
        if (id as usize) < render_pass.desc().subpasses().len() {
            Some(Subpass { render_pass, subpass_id: id })
        } else {
            None
        }
    }

    /// The description of this subpass.
    fn subpass_desc(&self) -> (r: &SubpassDesc)
        requires
            self.wf(),
        ensures
            *r == self.spec_subpass_desc(),
    {
        &self.render_pass.desc().subpasses()[self.subpass_id as usize]
    }

    /// The metadata of attachment `atch_num`.
    fn attachment_desc(&self, atch_num: usize) -> (r: &AttachmentDesc)
        requires
            self.wf(),
            (atch_num as int) < self.spec_attachments().len(),
        ensures
            *r == self.spec_attachments()[atch_num as int],
    {
        &self.render_pass.desc().attachments()[atch_num]
    }

    /// Returns the number of color attachments in this subpass.
    pub fn num_color_attachments(&self) -> (r: u32)
        requires
            self.wf(),
        ensures
            r == self.spec_subpass_desc().color_attachments@.len(),
    {
        proof {
            assert(spec_within_color_limit(
                self.spec_subpass_desc(),
                self.spec_render_pass().spec_device().max_color_attachments,
            ));
        }
        self.subpass_desc().color_attachments.len() as u32
    }

    /// The depth/stencil reference of this subpass, when present, names an
    /// attachment that exists and whose format carries depth or stencil
    /// data.
    pub open spec fn spec_depth_stencil_format_ok(self) -> bool {
        match self.spec_subpass_desc().depth_stencil {
            Some(d) => (d.0 as int) < self.spec_attachments().len() && {
                let ty = self.spec_attachments()[d.0 as int].format.ty;
                ty == FormatTy::Depth || ty == FormatTy::Stencil || ty == FormatTy::DepthStencil
            },
            None => true,
        }
    }

    /// As [`Self::spec_depth_stencil_format_ok`], but only demanded when
    /// the reference's layout is writable: a read-only layout answers the
    /// writability queries without reading the format.
    pub open spec fn spec_writable_query_ok(self) -> bool {
        match self.spec_subpass_desc().depth_stencil {
            Some(d) => d.1 == ImageLayout::DepthStencilReadOnlyOptimal || ((d.0 as int)
                < self.spec_attachments().len() && {
                let ty = self.spec_attachments()[d.0 as int].format.ty;
                ty == FormatTy::Depth || ty == FormatTy::Stencil || ty == FormatTy::DepthStencil
            }),
            None => true,
        }
    }

    /// Returns true if the subpass has a depth attachment or a
    /// depth-stencil attachment.
    pub fn has_depth(&self) -> (r: bool)
        requires
            self.wf(),
            self.spec_depth_stencil_format_ok(),
        ensures
            r == match self.spec_subpass_desc().depth_stencil {
                Some(d) => {
                    let ty = self.spec_attachments()[d.0 as int].format.ty;
                    ty == FormatTy::Depth || ty == FormatTy::DepthStencil
                },
                None => false,
            },
    {
        let subpass_desc = self.subpass_desc();
        let atch_num = match subpass_desc.depth_stencil {
            Some((d, _)) => d,
            None => {
                return false;
            },
        };
        match self.attachment_desc(atch_num).format.ty() {
            FormatTy::Depth => true,
            FormatTy::Stencil => false,
            FormatTy::DepthStencil => true,
            FormatTy::Color => false,
            FormatTy::Other => false,
        }
    }

    /// Returns true if the subpass has a depth attachment or a
    /// depth-stencil attachment whose layout is not the read-only
    /// depth/stencil layout.
    pub fn has_writable_depth(&self) -> (r: bool)
        requires
            self.wf(),
            self.spec_writable_query_ok(),
        ensures
            r == match self.spec_subpass_desc().depth_stencil {
                Some(d) => d.1 != ImageLayout::DepthStencilReadOnlyOptimal && {
                    let ty = self.spec_attachments()[d.0 as int].format.ty;
                    ty == FormatTy::Depth || ty == FormatTy::DepthStencil
                },
                None => false,
            },
    {
        let subpass_desc = self.subpass_desc();
        let atch_num = match subpass_desc.depth_stencil {
            Some((d, l)) => {
                if l == ImageLayout::DepthStencilReadOnlyOptimal {
                    return false;
                }
                d
            },
            None => {
                return false;
            },
        };
        match self.attachment_desc(atch_num).format.ty() {
            FormatTy::Depth => true,
            FormatTy::Stencil => false,
            FormatTy::DepthStencil => true,
            FormatTy::Color => false,
            FormatTy::Other => false,
        }
    }

    /// Returns true if the subpass has a stencil attachment or a
    /// depth-stencil attachment.
    pub fn has_stencil(&self) -> (r: bool)
        requires
            self.wf(),
            self.spec_depth_stencil_format_ok(),
        ensures
            r == match self.spec_subpass_desc().depth_stencil {
                Some(d) => {
                    let ty = self.spec_attachments()[d.0 as int].format.ty;
                    ty == FormatTy::Stencil || ty == FormatTy::DepthStencil
                },
                None => false,
            },
    {
        let subpass_desc = self.subpass_desc();
        let atch_num = match subpass_desc.depth_stencil {
            Some((d, _)) => d,
            None => {
                return false;
            },
        };
        match self.attachment_desc(atch_num).format.ty() {
            FormatTy::Depth => false,
            FormatTy::Stencil => true,
            FormatTy::DepthStencil => true,
            FormatTy::Color => false,
            FormatTy::Other => false,
        }
    }

    /// Returns true if the subpass has a stencil attachment or a
    /// depth-stencil attachment whose layout is not the read-only
    /// depth/stencil layout.
    pub fn has_writable_stencil(&self) -> (r: bool)
        requires
            self.wf(),
            self.spec_writable_query_ok(),
        ensures
            r == match self.spec_subpass_desc().depth_stencil {
                Some(d) => d.1 != ImageLayout::DepthStencilReadOnlyOptimal && {
                    let ty = self.spec_attachments()[d.0 as int].format.ty;
                    ty == FormatTy::Stencil || ty == FormatTy::DepthStencil
                },
                None => false,
            },
    {
        let subpass_desc = self.subpass_desc();
        let atch_num = match subpass_desc.depth_stencil {
            Some((d, l)) => {
                if l == ImageLayout::DepthStencilReadOnlyOptimal {
                    return false;
                }
                d
            },
            None => {
                return false;
            },
        };
        match self.attachment_desc(atch_num).format.ty() {
            FormatTy::Depth => false,
            FormatTy::Stencil => true,
            FormatTy::DepthStencil => true,
            FormatTy::Color => false,
            FormatTy::Other => false,
        }
    }

    /// Returns true if the subpass has any color or depth/stencil
    /// attachment.
    pub fn has_color_or_depth_stencil_attachment(&self) -> (r: bool)
        requires
            self.wf(),
        ensures
            r == (self.spec_subpass_desc().color_attachments@.len() >= 1
                || self.spec_subpass_desc().depth_stencil is Some),
    {
        if self.num_color_attachments() >= 1 {
            return true;
        }
        let subpass_desc = self.subpass_desc();
        match subpass_desc.depth_stencil {
            Some(_) => true,
            None => false,
        }
    }

    /// Returns the number of samples in the color and/or depth/stencil
    /// attachments: the sample count of the first such attachment that
    /// exists, or `None` if the subpass has neither.
    pub fn num_samples(&self) -> (r: Option<u32>)
        requires
            self.wf(),
        ensures
            r == spec_first_samples(
                self.spec_attachments(),
                self.spec_subpass_desc().color_attachments@,
                self.spec_subpass_desc().depth_stencil,
                0,
            ),
    {
        let subpass_desc = self.subpass_desc();
        let atts = self.render_pass.desc().attachments();
        let ghost colors = subpass_desc.color_attachments@;
        let ghost ds = subpass_desc.depth_stencil;
        let mut k: usize = 0;
        while k < subpass_desc.color_attachments.len()
            invariant
                k <= colors.len(),
                colors == self.spec_subpass_desc().color_attachments@,
                ds == self.spec_subpass_desc().depth_stencil,
                colors == subpass_desc.color_attachments@,
                ds == subpass_desc.depth_stencil,
                atts@ == self.spec_attachments(),
                spec_first_samples(atts@, colors, ds, 0) == spec_first_samples(
                    atts@,
                    colors,
                    ds,
                    k as int,
                ),
            decreases colors.len() - k,
        {
            let (a, _) = subpass_desc.color_attachments[k];
            if a < atts.len() {
                proof {
                    assert(spec_first_samples(atts@, colors, ds, k as int) == Some(
                        atts@[colors[k as int].0 as int].samples,
                    ));
                }
                return Some(atts[a].samples);
            }
            proof {
                assert(spec_first_samples(atts@, colors, ds, k as int) == spec_first_samples(
                    atts@,
                    colors,
                    ds,
                    k + 1,
                ));
            }
            k = k + 1;
        }
        match subpass_desc.depth_stencil {
            Some((a, _)) => {
                if a < atts.len() {
                    Some(atts[a].samples)
                } else {
                    None
                }
            },
            None => None,
        }
    }

    /// Returns the render pass of this subpass.
    pub fn render_pass(&self) -> (r: &Arc<RenderPass>)
        ensures
            **r == self.spec_render_pass(),
    {
        &self.render_pass
    }

    /// Returns the index of this subpass within the render pass.
    pub fn index(&self) -> (r: u32)
        ensures
            r == self.spec_index(),
    {
        self.subpass_id
    }

    /// Returns true if this subpass is compatible with the fragment output
    /// definition: the description-level compatibility predicate, asked
    /// about this subpass's index.
    pub fn is_compatible_with<S: ShaderInterfaceDef>(&self, shader_interface: &S) -> (r: bool)
        ensures
            r == shader_interface.spec_compatible(
                self.spec_render_pass().spec_desc(),
                self.spec_index(),
            ),
    {
        shader_interface.is_compatible_with_subpass(self.render_pass.desc(), self.subpass_id)
    }
}

impl Subpass {
    /// Dissolves the view into its handle and index.
    pub fn into_parts(self) -> (r: (Arc<RenderPass>, u32))
        ensures
            *r.0 == self.spec_render_pass(),
            r.1 == self.spec_index(),
    {
        (self.render_pass, self.subpass_id)
    }
}

} // verus!
