//! Flattening a render pass description into the packed, driver-consumable
//! layout: one contiguous array of attachment records, two shared reference
//! pools filled by a single forward pass over the subpasses, and per-subpass
//! records that carry only offsets and counts into those pools.

use vstd::prelude::*;

use smallvec::SmallVec;

use crate::desc::{AttachmentDesc, ImageLayout, RenderPassDesc, SubpassDesc,
    SubpassDependencyDesc, SUBPASS_EXTERNAL};
use crate::validate::{spec_all_refs_in_range, spec_deps_in_range, spec_dependency_in_range,
    spec_list_in_range, spec_subpass_refs_in_range};

verus! {

/// One typed reference in the shared pool: an attachment index and the
/// required layout, both in the driver's encoding.
#[derive(Clone, Copy, Debug, PartialEq, Eq, Structural)]
pub struct AttachmentReference {
    pub attachment: u32,
    pub layout: u32,
}

/// One attachment record in the driver's encoding.
#[derive(Clone, Copy, Debug, PartialEq, Eq, Structural)]
pub struct RawAttachment {
    pub format: u32,
    pub samples: u32,
    pub load_op: u32,
    pub store_op: u32,
    pub stencil_load_op: u32,
    pub stencil_store_op: u32,
    pub initial_layout: u32,
    pub final_layout: u32,
}

/// One subpass record: offsets and counts into the shared pools, in the
/// fixed sub-order color, input, resolve, depth/stencil.
#[derive(Clone, Copy, Debug, PartialEq, Eq, Structural)]
pub struct RawSubpass {
    pub color_offset: usize,
    pub color_count: usize,
    pub input_offset: usize,
    pub input_count: usize,
    pub resolve_offset: usize,
    pub resolve_count: usize,
    /// Offset of the depth/stencil reference, when the subpass has one.
    pub depth_stencil_offset: Option<usize>,
    pub preserve_offset: usize,
    pub preserve_count: usize,
}

/// One dependency record in the driver's encoding.
#[derive(Clone, Copy, Debug, PartialEq, Eq, Structural)]
pub struct RawDependency {
    pub source_subpass: u32,
    pub destination_subpass: u32,
    pub source_stage_mask: u32,
    pub destination_stage_mask: u32,
    pub source_access_mask: u32,
    pub destination_access_mask: u32,
    pub flags: u32,
}

/// The multiview side-structure chained to a creation request.
#[derive(Clone, Debug, PartialEq)]
pub struct RawMultiview {
    pub view_masks: Vec<u32>,
    pub view_offsets: Vec<i32>,
    pub correlation_masks: Vec<u32>,
}

/// The typed reference pool: a small-vector arena that stays inline for
/// modest render passes and spills to the heap past sixteen references.
#[verifier::external_body]
pub struct RefPool {
    inner: SmallVec<[AttachmentReference; 16]>,
}

/// The contents of the typed reference pool, in order.
pub uninterp spec fn ref_pool_seq(v: &RefPool) -> Seq<AttachmentReference>;

/// The preserve index pool, backed the same way.
#[verifier::external_body]
pub struct PreservePool {
    inner: SmallVec<[u32; 16]>,
}

/// The contents of the preserve index pool, in order.
pub uninterp spec fn preserve_pool_seq(v: &PreservePool) -> Seq<u32>;

impl RefPool {
    /// Relies on smallvec::SmallVec::new: it constructs an empty vector.
    #[verifier::external_body]
    fn new() -> (v: RefPool)
        ensures
            ref_pool_seq(&v) == Seq::<AttachmentReference>::empty(),
    {
        RefPool { inner: SmallVec::new() }
    }

    /// Relies on smallvec::SmallVec::push: it appends the item at the end.
    #[verifier::external_body]
    fn push(&mut self, r: AttachmentReference)
        ensures
            ref_pool_seq(final(self)) == ref_pool_seq(old(self)).push(r),
    {
        self.inner.push(r);
    }

    /// Relies on smallvec::SmallVec::len: it returns the number of elements.
    #[verifier::external_body]
    fn len(&self) -> (n: usize)
        ensures
            n == ref_pool_seq(self).len(),
    {
        self.inner.len()
    }

    /// Relies on smallvec's Index impl, which indexes the elements in order.
    #[verifier::external_body]
    fn get(&self, i: usize) -> (r: AttachmentReference)
        requires
            i < ref_pool_seq(self).len(),
        ensures
            r == ref_pool_seq(self)[i as int],
    {
        self.inner[i]
    }
}

impl PreservePool {
    /// Relies on smallvec::SmallVec::new: it constructs an empty vector.
    #[verifier::external_body]
    fn new() -> (v: PreservePool)
        ensures
            preserve_pool_seq(&v) == Seq::<u32>::empty(),
    {
        PreservePool { inner: SmallVec::new() }
    }

    /// Relies on smallvec::SmallVec::push: it appends the item at the end.
    #[verifier::external_body]
    fn push(&mut self, r: u32)
        ensures
            preserve_pool_seq(final(self)) == preserve_pool_seq(old(self)).push(r),
    {
        self.inner.push(r);
    }

    /// Relies on smallvec::SmallVec::len: it returns the number of elements.
    #[verifier::external_body]
    fn len(&self) -> (n: usize)
        ensures
            n == preserve_pool_seq(self).len(),
    {
        self.inner.len()
    }

    /// Relies on smallvec's Index impl, which indexes the elements in order.
    #[verifier::external_body]
    fn get(&self, i: usize) -> (r: u32)
        requires
            i < preserve_pool_seq(self).len(),
        ensures
            r == preserve_pool_seq(self)[i as int],
    {
        self.inner[i]
    }
}

// ---------------------------------------------------------------------------
// The packed layout, as a specification
// ---------------------------------------------------------------------------

/// The pool record of one (attachment index, layout) reference.
pub open spec fn spec_attachment_reference(r: (usize, ImageLayout)) -> AttachmentReference {
    AttachmentReference { attachment: r.0 as u32, layout: r.1.spec_raw() }
}

/// A reference list, lowered element-wise.
pub open spec fn spec_ref_list(list: Seq<(usize, ImageLayout)>) -> Seq<AttachmentReference> {
    list.map_values(|r: (usize, ImageLayout)| spec_attachment_reference(r))
}

/// The zero-or-one pool records of an optional depth/stencil reference.
pub open spec fn spec_ds_refs(ds: Option<(usize, ImageLayout)>) -> Seq<AttachmentReference> {
    match ds {
        Some(r) => seq![spec_attachment_reference(r)],
        None => Seq::empty(),
    }
}

/// All typed references of one subpass, in the fixed sub-order
/// color, input, resolve, depth/stencil.
pub open spec fn spec_typed_refs(s: SubpassDesc) -> Seq<AttachmentReference> {
    spec_ref_list(s.color_attachments@) + spec_ref_list(s.input_attachments@) + spec_ref_list(
        s.resolve_attachments@,
    ) + spec_ds_refs(s.depth_stencil)
}

/// How many typed references one subpass contributes to the pool.
pub open spec fn spec_typed_count(s: SubpassDesc) -> int {
    s.color_attachments@.len() + s.input_attachments@.len() + s.resolve_attachments@.len()
        + spec_ds_refs(s.depth_stencil).len() as int
}

/// The typed reference pool contributed by the first `k` subpasses.
pub open spec fn spec_pool_prefix(subs: Seq<SubpassDesc>, k: int) -> Seq<AttachmentReference>
    decreases k,
{
    if k <= 0 {
        Seq::empty()
    } else {
        spec_pool_prefix(subs, k - 1) + spec_typed_refs(subs[k - 1])
    }
}

/// The running typed-reference cursor after the first `k` subpasses.
pub open spec fn spec_typed_total(subs: Seq<SubpassDesc>, k: int) -> int
    decreases k,
{
    if k <= 0 {
        0
    } else {
        spec_typed_total(subs, k - 1) + spec_typed_count(subs[k - 1])
    }
}

/// A preserve list, lowered element-wise.
pub open spec fn spec_preserve_list(list: Seq<usize>) -> Seq<u32> {
    list.map_values(|i: usize| (i as u32))
}

/// The preserve pool contributed by the first `k` subpasses.
pub open spec fn spec_preserve_prefix(subs: Seq<SubpassDesc>, k: int) -> Seq<u32>
    decreases k,
{
    if k <= 0 {
        Seq::empty()
    } else {
        spec_preserve_prefix(subs, k - 1) + spec_preserve_list(subs[k - 1].preserve_attachments@)
    }
}

/// The running preserve cursor after the first `k` subpasses.
pub open spec fn spec_preserve_total(subs: Seq<SubpassDesc>, k: int) -> int
    decreases k,
{
    if k <= 0 {
        0
    } else {
        spec_preserve_total(subs, k - 1) + subs[k - 1].preserve_attachments@.len()
    }
}

/// The whole typed reference pool of a description.
pub open spec fn spec_reference_pool(subs: Seq<SubpassDesc>) -> Seq<AttachmentReference> {
    spec_pool_prefix(subs, subs.len() as int)
}

/// The whole preserve pool of a description.
pub open spec fn spec_preserve_pool(subs: Seq<SubpassDesc>) -> Seq<u32> {
    spec_preserve_prefix(subs, subs.len() as int)
}

/// The driver record of one attachment.
pub open spec fn spec_raw_attachment(a: AttachmentDesc) -> RawAttachment {
    RawAttachment {
        format: a.format.tag,
        samples: a.samples,
        load_op: a.load.spec_raw(),
        store_op: a.store.spec_raw(),
        stencil_load_op: a.stencil_load.spec_raw(),
        stencil_store_op: a.stencil_store.spec_raw(),
        initial_layout: a.initial_layout.spec_raw(),
        final_layout: a.final_layout.spec_raw(),
    }
}

/// A dependency endpoint in the driver's encoding: the external sentinel
/// maps to the all-ones value.
pub open spec fn spec_raw_subpass_index(i: usize) -> u32 {
    if i == SUBPASS_EXTERNAL {
        0xFFFF_FFFFu32
    } else {
        i as u32
    }
}

/// The driver record of one dependency. The by-region flag maps to the
/// lowest flag bit.
pub open spec fn spec_raw_dependency(d: SubpassDependencyDesc) -> RawDependency {
    RawDependency {
        source_subpass: spec_raw_subpass_index(d.source_subpass),
        destination_subpass: spec_raw_subpass_index(d.destination_subpass),
        source_stage_mask: d.source_stages,
        destination_stage_mask: d.destination_stages,
        source_access_mask: d.source_access,
        destination_access_mask: d.destination_access,
        flags: if d.by_region {
            1u32
        } else {
            0u32
        },
    }
}

/// The record of subpass `i`: every offset is the value of the running
/// cursor when that group of references was appended.
pub open spec fn spec_raw_subpass(subs: Seq<SubpassDesc>, i: int) -> RawSubpass {
    let base = spec_typed_total(subs, i);
    let s = subs[i];
    let n_color = s.color_attachments@.len() as int;
    let n_input = s.input_attachments@.len() as int;
    let n_resolve = s.resolve_attachments@.len() as int;
    RawSubpass {
        color_offset: base as usize,
        color_count: n_color as usize,
        input_offset: (base + n_color) as usize,
        input_count: n_input as usize,
        resolve_offset: (base + n_color + n_input) as usize,
        resolve_count: n_resolve as usize,
        depth_stencil_offset: if s.depth_stencil is Some {
            Some((base + n_color + n_input + n_resolve) as usize)
        } else {
            None
        },
        preserve_offset: spec_preserve_total(subs, i) as usize,
        preserve_count: s.preserve_attachments@.len() as usize,
    }
}

// ---------------------------------------------------------------------------
// Packing is exact
// ---------------------------------------------------------------------------

/// Packing is exact: after the first `k` subpasses, the running cursors
/// equal the pool lengths, so the sum of the per-subpass reference counts
/// across all subpasses equals the total pool size — the pools have no gap
/// and no overlap.
pub proof fn lemma_packing_exact(subs: Seq<SubpassDesc>, k: int)
    requires
        0 <= k <= subs.len(),
    ensures
        spec_pool_prefix(subs, k).len() == spec_typed_total(subs, k),
        spec_preserve_prefix(subs, k).len() == spec_preserve_total(subs, k),
    decreases k,
{
    if k > 0 {
        lemma_packing_exact(subs, k - 1);
    }
}

/// The running cursors never move backwards.
pub proof fn lemma_totals_monotonic(subs: Seq<SubpassDesc>, i: int, j: int)
    requires
        0 <= i <= j <= subs.len(),
    ensures
        spec_typed_total(subs, i) <= spec_typed_total(subs, j),
        spec_preserve_total(subs, i) <= spec_preserve_total(subs, j),
    decreases j - i,
{
    if i < j {
        lemma_totals_monotonic(subs, i, j - 1);
    }
}

/// Within the pool built from the first `k` subpasses, the range between
/// the cursors of subpass `i` holds exactly that subpass's references.
proof fn lemma_prefix_range(subs: Seq<SubpassDesc>, i: int, k: int)
    requires
        0 <= i < k <= subs.len(),
    ensures
        spec_pool_prefix(subs, k).subrange(
            spec_typed_total(subs, i),
            spec_typed_total(subs, i + 1),
        ) == spec_typed_refs(subs[i]),
        spec_preserve_prefix(subs, k).subrange(
            spec_preserve_total(subs, i),
            spec_preserve_total(subs, i + 1),
        ) == spec_preserve_list(subs[i].preserve_attachments@),
    decreases k,
{
    lemma_packing_exact(subs, i);
    lemma_packing_exact(subs, k - 1);
    lemma_totals_monotonic(subs, 0, i);
    if k == i + 1 {
        assert(spec_pool_prefix(subs, k).subrange(
            spec_typed_total(subs, i),
            spec_typed_total(subs, i + 1),
        ) =~= spec_typed_refs(subs[i]));
        assert(spec_preserve_prefix(subs, k).subrange(
            spec_preserve_total(subs, i),
            spec_preserve_total(subs, i + 1),
        ) =~= spec_preserve_list(subs[i].preserve_attachments@));
    } else {
        lemma_prefix_range(subs, i, k - 1);
        lemma_totals_monotonic(subs, i + 1, k - 1);
        assert(spec_pool_prefix(subs, k).subrange(
            spec_typed_total(subs, i),
            spec_typed_total(subs, i + 1),
        ) =~= spec_pool_prefix(subs, k - 1).subrange(
            spec_typed_total(subs, i),
            spec_typed_total(subs, i + 1),
        ));
        assert(spec_preserve_prefix(subs, k).subrange(
            spec_preserve_total(subs, i),
            spec_preserve_total(subs, i + 1),
        ) =~= spec_preserve_prefix(subs, k - 1).subrange(
            spec_preserve_total(subs, i),
            spec_preserve_total(subs, i + 1),
        ));
    }
}

/// The per-subpass ranges tile the pools: subpass `i`'s slice of the typed
/// pool is exactly its references in the fixed sub-order, and likewise for
/// the preserve pool, so consecutive ranges neither overlap nor leave a
/// gap.
pub proof fn lemma_record_ranges(subs: Seq<SubpassDesc>, i: int)
    requires
        0 <= i < subs.len(),
    ensures
        spec_reference_pool(subs).subrange(
            spec_typed_total(subs, i),
            spec_typed_total(subs, i + 1),
        ) == spec_typed_refs(subs[i]),
        spec_preserve_pool(subs).subrange(
            spec_preserve_total(subs, i),
            spec_preserve_total(subs, i + 1),
        ) == spec_preserve_list(subs[i].preserve_attachments@),
{
    lemma_prefix_range(subs, i, subs.len() as int);
}

// ---------------------------------------------------------------------------
// The packed result
// ---------------------------------------------------------------------------

/// A render pass description flattened into the driver's layout. The pools
/// outlive the creation call; the per-subpass records point into them by
/// offset and count only.
pub struct PackedRenderPass {
    pub attachments: Vec<RawAttachment>,
    pub references: RefPool,
    pub preserve_references: PreservePool,
    pub subpasses: Vec<RawSubpass>,
    pub dependencies: Vec<RawDependency>,
    pub multiview: Option<RawMultiview>,
}

impl PackedRenderPass {
    /// The number of entries in the typed reference pool.
    pub fn num_references(&self) -> (n: usize)
        ensures
            n == ref_pool_seq(&self.references).len(),
    {
        self.references.len()
    }

    /// Reads one entry of the typed reference pool.
    pub fn reference(&self, i: usize) -> (r: AttachmentReference)
        requires
            i < ref_pool_seq(&self.references).len(),
        ensures
            r == ref_pool_seq(&self.references)[i as int],
    {
        self.references.get(i)
    }

    /// The number of entries in the preserve index pool.
    pub fn num_preserve_references(&self) -> (n: usize)
        ensures
            n == preserve_pool_seq(&self.preserve_references).len(),
    {
        self.preserve_references.len()
    }

    /// Reads one entry of the preserve index pool.
    pub fn preserve_reference(&self, i: usize) -> (r: u32)
        requires
            i < preserve_pool_seq(&self.preserve_references).len(),
        ensures
            r == preserve_pool_seq(&self.preserve_references)[i as int],
    {
        self.preserve_references.get(i)
    }
}

// ---------------------------------------------------------------------------
// The packing pass
// ---------------------------------------------------------------------------

/// Lowers one attachment to its driver record.
fn raw_attachment(a: &AttachmentDesc) -> (r: RawAttachment)
    ensures
        r == spec_raw_attachment(*a),
{
    RawAttachment {
        format: a.format.tag,
        samples: a.samples,
        load_op: a.load.raw(),
        store_op: a.store.raw(),
        stencil_load_op: a.stencil_load.raw(),
        stencil_store_op: a.stencil_store.raw(),
        initial_layout: a.initial_layout.raw(),
        final_layout: a.final_layout.raw(),
    }
}

/// Lowers one dependency to its driver record.
fn raw_dependency(d: &SubpassDependencyDesc, n_subs: usize) -> (r: RawDependency)
    requires
        n_subs <= 0xFFFF_FFFF,
        spec_dependency_in_range(*d, n_subs as int),
    ensures
        r == spec_raw_dependency(*d),
{
    let source_subpass = if d.source_subpass == SUBPASS_EXTERNAL {
        0xFFFF_FFFFu32
    } else {
        d.source_subpass as u32
    };
    let destination_subpass = if d.destination_subpass == SUBPASS_EXTERNAL {
        0xFFFF_FFFFu32
    } else {
        d.destination_subpass as u32
    };
    RawDependency {
        source_subpass,
        destination_subpass,
        source_stage_mask: d.source_stages,
        destination_stage_mask: d.destination_stages,
        source_access_mask: d.source_access,
        destination_access_mask: d.destination_access,
        flags: if d.by_region {
            1u32
        } else {
            0u32
        },
    }
}

/// Appends a whole reference list to the typed pool.
fn push_refs(pool: &mut RefPool, list: &Vec<(usize, ImageLayout)>)
    requires
        spec_list_in_range(list@, 0x1_0000_0000int),
    ensures
        ref_pool_seq(final(pool)) == ref_pool_seq(old(pool)) + spec_ref_list(list@),
{
    let ghost orig = ref_pool_seq(old(pool));
    let mut j: usize = 0;
    while j < list.len()
        invariant
            j <= list@.len(),
            spec_list_in_range(list@, 0x1_0000_0000int),
            ref_pool_seq(pool) == orig + spec_ref_list(list@.subrange(0, j as int)),
        decreases list@.len() - j,
    {
        let (a, l) = list[j];
        pool.push(AttachmentReference { attachment: a as u32, layout: l.raw() });
        proof {
            assert(spec_ref_list(list@.subrange(0, j + 1)) =~= spec_ref_list(
                list@.subrange(0, j as int),
            ).push(spec_attachment_reference(list@[j as int])));
            assert(ref_pool_seq(pool) =~= orig + spec_ref_list(list@.subrange(0, j + 1)));
        }
        j = j + 1;
    }
    proof {
        assert(list@.subrange(0, list@.len() as int) =~= list@);
    }
}

/// Appends a whole preserve list to the preserve pool.
fn push_preserves(pool: &mut PreservePool, list: &Vec<usize>)
    requires
        forall|j: int| 0 <= j < list@.len() ==> list@[j] < 0x1_0000_0000,
    ensures
        preserve_pool_seq(final(pool)) == preserve_pool_seq(old(pool)) + spec_preserve_list(list@),
{
    let ghost orig = preserve_pool_seq(old(pool));
    let mut j: usize = 0;
    while j < list.len()
        invariant
            j <= list@.len(),
            forall|x: int| 0 <= x < list@.len() ==> list@[x] < 0x1_0000_0000,
            preserve_pool_seq(pool) == orig + spec_preserve_list(list@.subrange(0, j as int)),
        decreases list@.len() - j,
    {
        let a = list[j];
        pool.push(a as u32);
        proof {
            assert(spec_preserve_list(list@.subrange(0, j + 1)) =~= spec_preserve_list(
                list@.subrange(0, j as int),
            ).push((list@[j as int] as u32)));
            assert(preserve_pool_seq(pool) =~= orig + spec_preserve_list(
                list@.subrange(0, j + 1),
            ));
        }
        j = j + 1;
    }
    proof {
        assert(list@.subrange(0, list@.len() as int) =~= list@);
    }
}

/// Flattens a description into the packed layout.
///
/// The pools are filled by a single forward pass over the subpasses in
/// declared order; a second pass derives each subpass's offsets from the
/// running cursors and proves that the cursors end exactly at the pool
/// lengths. The multiview side-structure is left unset; the compiler
/// chains it separately.
pub fn pack_render_pass(description: &RenderPassDesc) -> (r: PackedRenderPass)
    requires
        description.spec_attachments().len() <= 0xFFFF_FFFF,
        description.spec_subpasses().len() <= 0xFFFF_FFFF,
        spec_all_refs_in_range(
            description.spec_subpasses(),
            description.spec_attachments().len() as int,
        ),
        spec_deps_in_range(
            description.spec_dependencies(),
            description.spec_subpasses().len() as int,
        ),
    ensures
        r.attachments@ == description.spec_attachments().map_values(
            |a: AttachmentDesc| spec_raw_attachment(a),
        ),
        ref_pool_seq(&r.references) == spec_reference_pool(description.spec_subpasses()),
        preserve_pool_seq(&r.preserve_references) == spec_preserve_pool(
            description.spec_subpasses(),
        ),
        r.subpasses@.len() == description.spec_subpasses().len(),
        forall|i: int|
            0 <= i < r.subpasses@.len() ==> r.subpasses@[i] == spec_raw_subpass(
                description.spec_subpasses(),
                i,
            ),
        r.dependencies@ == description.spec_dependencies().map_values(
            |d: SubpassDependencyDesc| spec_raw_dependency(d),
        ),
        r.multiview is None,
{
    let atts = description.attachments();
    let subs = description.subpasses();
    let deps = description.dependencies();
    let n_atts = atts.len();
    let n = subs.len();

    // Attachments pack one-to-one.
    let mut attachments: Vec<RawAttachment> = Vec::new();
    let mut i: usize = 0;
    while i < n_atts
        invariant
            i <= n_atts,
            n_atts == atts@.len(),
            attachments@ == atts@.subrange(0, i as int).map_values(
                |a: AttachmentDesc| spec_raw_attachment(a),
            ),
        decreases n_atts - i,
    {
        attachments.push(raw_attachment(&atts[i]));
        proof {
            assert(atts@.subrange(0, i + 1).map_values(
                |a: AttachmentDesc| spec_raw_attachment(a),
            ) =~= atts@.subrange(0, i as int).map_values(
                |a: AttachmentDesc| spec_raw_attachment(a),
            ).push(spec_raw_attachment(atts@[i as int])));
        }
        i = i + 1;
    }
    proof {
        assert(atts@.subrange(0, n_atts as int) =~= atts@);
    }

    // First pass: fill both pools, one subpass after the other, in the
    // fixed sub-order color, input, resolve, depth/stencil.
    let mut references = RefPool::new();
    let mut preserve_references = PreservePool::new();
    let mut k: usize = 0;
    while k < n
        invariant
            k <= n,
            n == subs@.len(),
            n_atts == atts@.len(),
            n_atts <= 0xFFFF_FFFF,
            spec_all_refs_in_range(subs@, n_atts as int),
            ref_pool_seq(&references) == spec_pool_prefix(subs@, k as int),
            preserve_pool_seq(&preserve_references) == spec_preserve_prefix(subs@, k as int),
        decreases n - k,
    {
        let s = &subs[k];
        proof {
            assert(spec_subpass_refs_in_range(subs@[k as int], n_atts as int));
        }
        let ghost before = ref_pool_seq(&references);
        push_refs(&mut references, &s.color_attachments);
        push_refs(&mut references, &s.input_attachments);
        push_refs(&mut references, &s.resolve_attachments);
        match s.depth_stencil {
            Some((a, l)) => {
                references.push(AttachmentReference { attachment: a as u32, layout: l.raw() });
            }
            None => {}
        }
        proof {
            assert(ref_pool_seq(&references) =~= before + spec_typed_refs(subs@[k as int]));
            assert(ref_pool_seq(&references) =~= spec_pool_prefix(subs@, k + 1));
        }
        push_preserves(&mut preserve_references, &s.preserve_attachments);
        proof {
            assert(preserve_pool_seq(&preserve_references) =~= spec_preserve_prefix(
                subs@,
                k + 1,
            ));
        }
        k = k + 1;
    }

    // Second pass: derive each subpass's offsets from the running cursors.
    // The cursors are proved to end exactly at the pool lengths: the pools
    // have no gap and no overlap.
    let pool_len = references.len();
    let preserve_len = preserve_references.len();
    proof {
        lemma_packing_exact(subs@, n as int);
    }

    let mut subpasses: Vec<RawSubpass> = Vec::new();
    let mut cursor: usize = 0;
    let mut preserve_cursor: usize = 0;
    let mut k: usize = 0;
    while k < n
        invariant
            k <= n,
            n == subs@.len(),
            cursor == spec_typed_total(subs@, k as int),
            preserve_cursor == spec_preserve_total(subs@, k as int),
            pool_len == spec_typed_total(subs@, n as int),
            preserve_len == spec_preserve_total(subs@, n as int),
            subpasses@.len() == k,
            forall|i: int| 0 <= i < k ==> subpasses@[i] == spec_raw_subpass(subs@, i),
        decreases n - k,
    {
        proof {
            lemma_totals_monotonic(subs@, k + 1, n as int);
        }
        let s = &subs[k];
        let n_color = s.color_attachments.len();
        let n_input = s.input_attachments.len();
        let n_resolve = s.resolve_attachments.len();
        let has_ds = s.depth_stencil.is_some();
        let n_preserve = s.preserve_attachments.len();
        proof {
            assert(spec_typed_total(subs@, k + 1) == cursor + spec_typed_count(subs@[k as int]));
            assert(spec_typed_count(subs@[k as int]) == n_color + n_input + n_resolve + (
            if has_ds {
                1int
            } else {
                0int
            }));
            assert(spec_preserve_total(subs@, k + 1) == preserve_cursor + n_preserve);
        }
        let color_offset = cursor;
        let input_offset = cursor + n_color;
        let resolve_offset = input_offset + n_input;
        let after_resolve = resolve_offset + n_resolve;
        let depth_stencil_offset = if has_ds {
            Some(after_resolve)
        } else {
            None
        };
        let record = RawSubpass {
            color_offset,
            color_count: n_color,
            input_offset,
            input_count: n_input,
            resolve_offset,
            resolve_count: n_resolve,
            depth_stencil_offset,
            preserve_offset: preserve_cursor,
            preserve_count: n_preserve,
        };
        proof {
            assert(record == spec_raw_subpass(subs@, k as int));
        }
        subpasses.push(record);
        cursor = if has_ds {
            after_resolve + 1
        } else {
            after_resolve
        };
        preserve_cursor = preserve_cursor + n_preserve;
        k = k + 1;
    }
    // The internal consistency check of the packing step: the cursors have
    // consumed the pools exactly. Holding here by proof, an inconsistency
    // is impossible rather than a run-time condition.
    assert(cursor == pool_len);
    assert(preserve_cursor == preserve_len);

    // Dependencies pack one-to-one.
    let mut dependencies: Vec<RawDependency> = Vec::new();
    let mut i: usize = 0;
    while i < deps.len()
        invariant
            i <= deps@.len(),
            n == subs@.len(),
            n <= 0xFFFF_FFFF,
            spec_deps_in_range(deps@, n as int),
            dependencies@ == deps@.subrange(0, i as int).map_values(
                |d: SubpassDependencyDesc| spec_raw_dependency(d),
            ),
        decreases deps@.len() - i,
    {
        proof {
            assert(spec_dependency_in_range(deps@[i as int], n as int));
        }
        dependencies.push(raw_dependency(&deps[i], n));
        proof {
            assert(deps@.subrange(0, i + 1).map_values(
                |d: SubpassDependencyDesc| spec_raw_dependency(d),
            ) =~= deps@.subrange(0, i as int).map_values(
                |d: SubpassDependencyDesc| spec_raw_dependency(d),
            ).push(spec_raw_dependency(deps@[i as int])));
        }
        i = i + 1;
    }
    proof {
        assert(deps@.subrange(0, deps@.len() as int) =~= deps@);
    }

    PackedRenderPass {
        attachments,
        references,
        preserve_references,
        subpasses,
        dependencies,
        multiview: None,
    }
}

} // verus!
