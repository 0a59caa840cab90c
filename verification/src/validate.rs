//! The structural invariants of a render pass description, as spec-level
//! predicates, together with the executable checks the compiler runs.
//!
//! Two tiers exist. The hard rules (the clear-op rule, the color attachment
//! capability limit, attachment references staying in range, dependency
//! stage indices staying in range) are enforced by every compilation. The
//! remaining structural rules (resolve pairing, sample counts, format
//! matching, preserve exclusivity, layout consistency, multiview shape) are
//! enforced only at the full validation level.

use vstd::prelude::*;

use crate::desc::{AttachmentDesc, LoadOp, ImageLayout, RenderPassDesc, SubpassDesc,
    SubpassDependencyDesc, SUBPASS_EXTERNAL};
use crate::multiview::MultiviewDesc;

verus! {

/// How much of the invariant battery a compilation enforces.
///
/// The hard rules are always on; `Full` additionally enforces every
/// structural and multiview invariant.
#[derive(Clone, Copy, Debug, PartialEq, Eq, Structural)]
pub enum ValidationLevel {
    /// Hard rules only.
    Minimal,
    /// Hard rules plus all structural and multiview invariants.
    Full,
}

// ---------------------------------------------------------------------------
// Attachment roles within one subpass
// ---------------------------------------------------------------------------

/// Whether a reference list names attachment `a`.
pub open spec fn spec_list_uses(list: Seq<(usize, ImageLayout)>, a: int) -> bool {
    exists|j: int| 0 <= j < list.len() && list[j].0 == a
}

/// Whether subpass `s` uses attachment `a` as a color target.
pub open spec fn spec_uses_as_color(s: SubpassDesc, a: int) -> bool {
    spec_list_uses(s.color_attachments@, a)
}

/// Whether subpass `s` uses attachment `a` as its depth/stencil target.
pub open spec fn spec_uses_as_depth_stencil(s: SubpassDesc, a: int) -> bool {
    s.depth_stencil matches Some(d) && d.0 == a
}

/// Whether subpass `s` reads attachment `a` as an input attachment.
pub open spec fn spec_uses_as_input(s: SubpassDesc, a: int) -> bool {
    spec_list_uses(s.input_attachments@, a)
}

/// Whether subpass `s` names attachment `a` in any active role.
pub open spec fn spec_uses_active(s: SubpassDesc, a: int) -> bool {
    spec_uses_as_color(s, a)
        || spec_uses_as_depth_stencil(s, a)
        || spec_uses_as_input(s, a)
        || spec_list_uses(s.resolve_attachments@, a)
}

/// Scans a reference list for attachment `a`.
fn list_contains_attachment(list: &Vec<(usize, ImageLayout)>, a: usize) -> (r: bool)
    ensures
        r == spec_list_uses(list@, a as int),
{
    let mut i: usize = 0;
    while i < list.len()
        invariant
            i <= list@.len(),
            forall|j: int| 0 <= j < i ==> list@[j].0 != a,
        decreases list@.len() - i,
    {
        if list[i].0 == a {
            return true;
        }
        i = i + 1;
    }
    false
}

/// Whether subpass `s` names attachment `a` in any active role.
fn uses_active(s: &SubpassDesc, a: usize) -> (r: bool)
    ensures
        r == spec_uses_active(*s, a as int),
{
    if list_contains_attachment(&s.color_attachments, a) {
        return true;
    }
    match s.depth_stencil {
        Some(d) => {
            if d.0 == a {
                return true;
            }
        }
        None => {}
    }
    if list_contains_attachment(&s.input_attachments, a) {
        return true;
    }
    list_contains_attachment(&s.resolve_attachments, a)
}

// ---------------------------------------------------------------------------
// The clear-op rule (always enforced)
// ---------------------------------------------------------------------------

/// Scanning subpasses from `k` in declared order, the first subpass that
/// uses attachment `a` must not read it purely as an input attachment.
///
/// A subpass that writes `a` (color or depth/stencil) settles the scan in
/// favour of the attachment, whether or not it also reads it; a subpass
/// that only reads it as input settles it against; a subpass that does not
/// name it leaves the scan to the subpasses after it.
pub open spec fn spec_clear_rule_ok_from(subs: Seq<SubpassDesc>, a: int, k: int) -> bool
    decreases subs.len() - k,
{
    if k < 0 || k >= subs.len() {
        true
    } else if spec_uses_as_color(subs[k], a) || spec_uses_as_depth_stencil(subs[k], a) {
        true
    } else if spec_uses_as_input(subs[k], a) {
        false
    } else {
        spec_clear_rule_ok_from(subs, a, k + 1)
    }
}

/// The clear-op rule over a whole description: an attachment whose load
/// operation clears it must not have its first use be input-only.
pub open spec fn spec_clear_rule_ok(atts: Seq<AttachmentDesc>, subs: Seq<SubpassDesc>) -> bool {
    forall|a: int|
        0 <= a < atts.len() && atts[a].load == LoadOp::Clear ==> spec_clear_rule_ok_from(
            subs,
            a,
            0,
        )
}

/// Runs the first-use scan for one attachment.
fn clear_rule_ok_for(subs: &Vec<SubpassDesc>, a: usize) -> (r: bool)
    ensures
        r == spec_clear_rule_ok_from(subs@, a as int, 0),
{
    let mut k: usize = 0;
    while k < subs.len()
        invariant
            k <= subs@.len(),
            spec_clear_rule_ok_from(subs@, a as int, 0) == spec_clear_rule_ok_from(
                subs@,
                a as int,
                k as int,
            ),
        decreases subs@.len() - k,
    {
        let s = &subs[k];
        let written = list_contains_attachment(&s.color_attachments, a) || (match s.depth_stencil {
            Some(d) => d.0 == a,
            None => false,
        });
        if written {
            assert(spec_clear_rule_ok_from(subs@, a as int, k as int));
            return true;
        }
        if list_contains_attachment(&s.input_attachments, a) {
            assert(!spec_clear_rule_ok_from(subs@, a as int, k as int));
            return false;
        }
        assert(spec_clear_rule_ok_from(subs@, a as int, k as int) == spec_clear_rule_ok_from(
            subs@,
            a as int,
            k + 1,
        ));
        k = k + 1;
    }
    true
}

/// Checks the clear-op rule for every attachment of the description.
pub fn check_clear_rule(atts: &Vec<AttachmentDesc>, subs: &Vec<SubpassDesc>) -> (r: bool)
    ensures
        r == spec_clear_rule_ok(atts@, subs@),
{
    let mut a: usize = 0;
    while a < atts.len()
        invariant
            a <= atts@.len(),
            forall|x: int|
                0 <= x < a && atts@[x].load == LoadOp::Clear ==> spec_clear_rule_ok_from(
                    subs@,
                    x,
                    0,
                ),
        decreases atts@.len() - a,
    {
        let is_clear = atts[a].load == LoadOp::Clear;
        if is_clear {
            if !clear_rule_ok_for(subs, a) {
                return false;
            }
        }
        a = a + 1;
    }
    true
}

// ---------------------------------------------------------------------------
// The color attachment capability limit (always enforced)
// ---------------------------------------------------------------------------

/// Whether subpass `s` keeps within a color attachment limit.
pub open spec fn spec_within_color_limit(s: SubpassDesc, max: u32) -> bool {
    s.color_attachments@.len() <= max
}

/// The first subpass, scanning in declared order from `k`, whose color
/// attachment count exceeds the limit.
pub open spec fn spec_first_limit_violation(subs: Seq<SubpassDesc>, max: u32, k: int) -> Option<
    int,
>
    decreases subs.len() - k,
{
    if k < 0 || k >= subs.len() {
        None
    } else if !spec_within_color_limit(subs[k], max) {
        Some(k)
    } else {
        spec_first_limit_violation(subs, max, k + 1)
    }
}

/// Finds the first subpass over the color attachment limit, if any.
pub fn find_limit_violation(subs: &Vec<SubpassDesc>, max: u32) -> (r: Option<usize>)
    ensures
        match r {
            Some(i) => spec_first_limit_violation(subs@, max, 0) == Some(i as int),
            None => spec_first_limit_violation(subs@, max, 0) is None,
        },
{
    let mut k: usize = 0;
    while k < subs.len()
        invariant
            k <= subs@.len(),
            spec_first_limit_violation(subs@, max, 0) == spec_first_limit_violation(
                subs@,
                max,
                k as int,
            ),
        decreases subs@.len() - k,
    {
        if subs[k].color_attachments.len() > max as usize {
            assert(spec_first_limit_violation(subs@, max, k as int) == Some(k as int));
            return Some(k);
        }
        k = k + 1;
    }
    None
}

/// A limit scan that reports no violation from `k` on has found every
/// later subpass within the limit.
pub proof fn lemma_no_limit_violation(subs: Seq<SubpassDesc>, max: u32, k: int)
    requires
        0 <= k <= subs.len(),
        spec_first_limit_violation(subs, max, k) is None,
    ensures
        forall|i: int| k <= i < subs.len() ==> spec_within_color_limit(#[trigger] subs[i], max),
    decreases subs.len() - k,
{
    if k < subs.len() {
        lemma_no_limit_violation(subs, max, k + 1);
    }
}

// ---------------------------------------------------------------------------
// Attachment references in range (always enforced)
// ---------------------------------------------------------------------------

/// Every index a reference list names lies below the attachment count.
pub open spec fn spec_list_in_range(list: Seq<(usize, ImageLayout)>, n: int) -> bool {
    forall|j: int| 0 <= j < list.len() ==> list[j].0 < n
}

/// Every attachment reference of subpass `s`, in any role, lies in range.
pub open spec fn spec_subpass_refs_in_range(s: SubpassDesc, n: int) -> bool {
    &&& spec_list_in_range(s.color_attachments@, n)
    &&& spec_list_in_range(s.input_attachments@, n)
    &&& spec_list_in_range(s.resolve_attachments@, n)
    &&& (s.depth_stencil matches Some(d) ==> d.0 < n)
    &&& (forall|j: int| 0 <= j < s.preserve_attachments@.len() ==> s.preserve_attachments@[j] < n)
}

/// Every reference of every subpass lies in range.
pub open spec fn spec_all_refs_in_range(subs: Seq<SubpassDesc>, n: int) -> bool {
    forall|i: int| 0 <= i < subs.len() ==> spec_subpass_refs_in_range(#[trigger] subs[i], n)
}

/// Scans a reference list for an out-of-range index.
fn list_in_range(list: &Vec<(usize, ImageLayout)>, n: usize) -> (r: bool)
    ensures
        r == spec_list_in_range(list@, n as int),
{
    let mut i: usize = 0;
    while i < list.len()
        invariant
            i <= list@.len(),
            forall|j: int| 0 <= j < i ==> list@[j].0 < n,
        decreases list@.len() - i,
    {
        if list[i].0 >= n {
            return false;
        }
        i = i + 1;
    }
    true
}

/// Checks all reference lists of one subpass against the attachment count.
fn subpass_refs_in_range(s: &SubpassDesc, n: usize) -> (r: bool)
    ensures
        r == spec_subpass_refs_in_range(*s, n as int),
{
    if !list_in_range(&s.color_attachments, n) {
        return false;
    }
    if !list_in_range(&s.input_attachments, n) {
        return false;
    }
    if !list_in_range(&s.resolve_attachments, n) {
        return false;
    }
    match s.depth_stencil {
        Some(d) => {
            if d.0 >= n {
                return false;
            }
        }
        None => {}
    }
    let mut i: usize = 0;
    while i < s.preserve_attachments.len()
        invariant
            i <= s.preserve_attachments@.len(),
            spec_list_in_range(s.color_attachments@, n as int),
            spec_list_in_range(s.input_attachments@, n as int),
            spec_list_in_range(s.resolve_attachments@, n as int),
            s.depth_stencil matches Some(d) ==> d.0 < n,
            forall|j: int| 0 <= j < i ==> s.preserve_attachments@[j] < n,
        decreases s.preserve_attachments@.len() - i,
    {
        if s.preserve_attachments[i] >= n {
            return false;
        }
        i = i + 1;
    }
    true
}

/// Checks every subpass's references against the attachment count.
pub fn check_refs_in_range(subs: &Vec<SubpassDesc>, n: usize) -> (r: bool)
    ensures
        r == spec_all_refs_in_range(subs@, n as int),
{
    let mut k: usize = 0;
    while k < subs.len()
        invariant
            k <= subs@.len(),
            forall|i: int| 0 <= i < k ==> spec_subpass_refs_in_range(#[trigger] subs@[i], n as int),
        decreases subs@.len() - k,
    {
        if !subpass_refs_in_range(&subs[k], n) {
            return false;
        }
        k = k + 1;
    }
    true
}

// ---------------------------------------------------------------------------
// Dependency stage indices in range (always enforced)
// ---------------------------------------------------------------------------

/// A dependency endpoint is either the external sentinel or a subpass index.
pub open spec fn spec_dependency_in_range(d: SubpassDependencyDesc, n: int) -> bool {
    &&& (d.source_subpass == SUBPASS_EXTERNAL || d.source_subpass < n)
    &&& (d.destination_subpass == SUBPASS_EXTERNAL || d.destination_subpass < n)
}

/// Every dependency's endpoints lie in range.
pub open spec fn spec_deps_in_range(deps: Seq<SubpassDependencyDesc>, n: int) -> bool {
    forall|i: int| 0 <= i < deps.len() ==> spec_dependency_in_range(#[trigger] deps[i], n)
}

/// Checks every dependency's endpoints against the subpass count.
pub fn check_deps_in_range(deps: &Vec<SubpassDependencyDesc>, n: usize) -> (r: bool)
    ensures
        r == spec_deps_in_range(deps@, n as int),
{
    let mut k: usize = 0;
    while k < deps.len()
        invariant
            k <= deps@.len(),
            forall|i: int| 0 <= i < k ==> spec_dependency_in_range(#[trigger] deps@[i], n as int),
        decreases deps@.len() - k,
    {
        let d = &deps[k];
        let src_ok = d.source_subpass == SUBPASS_EXTERNAL || d.source_subpass < n;
        let dst_ok = d.destination_subpass == SUBPASS_EXTERNAL || d.destination_subpass < n;
        if !(src_ok && dst_ok) {
            return false;
        }
        k = k + 1;
    }
    true
}

// ---------------------------------------------------------------------------
// Sample counts are powers of two (full tier)
// ---------------------------------------------------------------------------

/// Whether `n` is a power of two, by repeated halving.
pub open spec fn spec_is_power_of_two(n: int) -> bool
    decreases n,
{
    if n <= 0 {
        false
    } else if n == 1 {
        true
    } else {
        n % 2 == 0 && spec_is_power_of_two(n / 2)
    }
}

/// Every attachment's sample count is a power of two.
pub open spec fn spec_samples_ok(atts: Seq<AttachmentDesc>) -> bool {
    forall|i: int| 0 <= i < atts.len() ==> spec_is_power_of_two(#[trigger] atts[i].samples as int)
}

/// Decides whether `n` is a power of two.
fn is_power_of_two(n: u32) -> (r: bool)
    ensures
        r == spec_is_power_of_two(n as int),
{
    if n == 0 {
        return false;
    }
    let mut m: u32 = n;
    while m > 1
        invariant
            m >= 1,
            spec_is_power_of_two(m as int) == spec_is_power_of_two(n as int),
        decreases m,
    {
        if m % 2 == 1 {
            return false;
        }
        m = m / 2;
    }
    true
}

/// Checks every attachment's sample count.
pub fn check_samples(atts: &Vec<AttachmentDesc>) -> (r: bool)
    ensures
        r == spec_samples_ok(atts@),
{
    let mut i: usize = 0;
    while i < atts.len()
        invariant
            i <= atts@.len(),
            forall|j: int| 0 <= j < i ==> spec_is_power_of_two(#[trigger] atts@[j].samples as int),
        decreases atts@.len() - i,
    {
        if !is_power_of_two(atts[i].samples) {
            return false;
        }
        i = i + 1;
    }
    true
}

// ---------------------------------------------------------------------------
// Per-subpass structural rules (full tier)
// ---------------------------------------------------------------------------

/// The layout under which the input list first names attachment `a`,
/// scanning from position `k`.
pub open spec fn spec_first_input_layout(
    inputs: Seq<(usize, ImageLayout)>,
    a: int,
    k: int,
) -> Option<ImageLayout>
    decreases inputs.len() - k,
{
    if k < 0 || k >= inputs.len() {
        None
    } else if inputs[k].0 == a {
        Some(inputs[k].1)
    } else {
        spec_first_input_layout(inputs, a, k + 1)
    }
}

/// If the subpass also reads attachment `a` as an input, the first such
/// input reference must ask for layout `l`.
pub open spec fn spec_layout_consistent(s: SubpassDesc, a: int, l: ImageLayout) -> bool {
    match spec_first_input_layout(s.input_attachments@, a, 0) {
        Some(l2) => l2 == l,
        None => true,
    }
}

/// The structural rules of one subpass:
/// - the resolve list is empty or pairs one-to-one with the color list;
/// - every resolve target is single-sampled;
/// - when resolving, every color attachment is multisampled;
/// - paired color and resolve attachments share a format;
/// - no preserved attachment is also used in an active role;
/// - a color or depth/stencil target that is also read as input keeps one
///   layout across both roles.
pub open spec fn spec_subpass_structure_ok(atts: Seq<AttachmentDesc>, s: SubpassDesc) -> bool {
    &&& (s.resolve_attachments@.len() == 0 || s.resolve_attachments@.len()
        == s.color_attachments@.len())
    &&& (forall|j: int|
        0 <= j < s.resolve_attachments@.len() ==> atts[#[trigger] s.resolve_attachments@[j].0 as int].samples
            == 1)
    &&& (s.resolve_attachments@.len() == 0 || (forall|j: int|
        0 <= j < s.color_attachments@.len() ==> atts[#[trigger] s.color_attachments@[j].0 as int].samples
            > 1))
    &&& (forall|j: int|
        0 <= j < s.resolve_attachments@.len() && j < s.color_attachments@.len()
            ==> atts[#[trigger] s.resolve_attachments@[j].0 as int].format == atts[s.color_attachments@[j].0 as int].format)
    &&& (forall|j: int|
        0 <= j < s.preserve_attachments@.len() ==> !spec_uses_active(
            s,
            #[trigger] s.preserve_attachments@[j] as int,
        ))
    &&& (forall|j: int|
        0 <= j < s.color_attachments@.len() ==> spec_layout_consistent(
            s,
            #[trigger] s.color_attachments@[j].0 as int,
            s.color_attachments@[j].1,
        ))
    &&& (s.depth_stencil matches Some(d) ==> spec_layout_consistent(s, d.0 as int, d.1))
}

/// Every subpass obeys the structural rules.
pub open spec fn spec_all_subpasses_ok(atts: Seq<AttachmentDesc>, subs: Seq<SubpassDesc>) -> bool {
    forall|i: int| 0 <= i < subs.len() ==> spec_subpass_structure_ok(atts, #[trigger] subs[i])
}

/// Looks up the layout of the first input reference to attachment `a`.
fn first_input_layout(inputs: &Vec<(usize, ImageLayout)>, a: usize) -> (r: Option<ImageLayout>)
    ensures
        r == spec_first_input_layout(inputs@, a as int, 0),
{
    let mut k: usize = 0;
    while k < inputs.len()
        invariant
            k <= inputs@.len(),
            spec_first_input_layout(inputs@, a as int, 0) == spec_first_input_layout(
                inputs@,
                a as int,
                k as int,
            ),
        decreases inputs@.len() - k,
    {
        if inputs[k].0 == a {
            assert(spec_first_input_layout(inputs@, a as int, k as int) == Some(inputs@[k as int].1));
            return Some(inputs[k].1);
        }
        k = k + 1;
    }
    None
}

/// Checks that a target's layout matches its first input reference, if any.
fn layout_consistent(s: &SubpassDesc, a: usize, l: ImageLayout) -> (r: bool)
    ensures
        r == spec_layout_consistent(*s, a as int, l),
{
    match first_input_layout(&s.input_attachments, a) {
        Some(l2) => l2 == l,
        None => true,
    }
}

/// Checks the structural rules of one subpass.
///
/// The attachment indices the subpass names must already be in range, since
/// the rules read the named attachments' metadata.
fn subpass_structure_ok(atts: &Vec<AttachmentDesc>, s: &SubpassDesc) -> (r: bool)
    requires
        spec_subpass_refs_in_range(*s, atts@.len() as int),
    ensures
        r == spec_subpass_structure_ok(atts@, *s),
{
    let n_resolve = s.resolve_attachments.len();
    let n_color = s.color_attachments.len();
    if !(n_resolve == 0 || n_resolve == n_color) {
        return false;
    }

    let mut j: usize = 0;
    while j < n_resolve
        invariant
            j <= n_resolve,
            n_resolve == s.resolve_attachments@.len(),
            spec_subpass_refs_in_range(*s, atts@.len() as int),
            forall|x: int|
                0 <= x < j ==> atts@[#[trigger] s.resolve_attachments@[x].0 as int].samples == 1,
        decreases n_resolve - j,
    {
        if atts[s.resolve_attachments[j].0].samples != 1 {
            return false;
        }
        j = j + 1;
    }

    if n_resolve > 0 {
        let mut j: usize = 0;
        while j < n_color
            invariant
                j <= n_color,
                n_color == s.color_attachments@.len(),
                n_resolve == s.resolve_attachments@.len(),
                n_resolve > 0,
                spec_subpass_refs_in_range(*s, atts@.len() as int),
                forall|x: int|
                    0 <= x < j ==> atts@[#[trigger] s.color_attachments@[x].0 as int].samples > 1,
            decreases n_color - j,
        {
            if atts[s.color_attachments[j].0].samples <= 1 {
                return false;
            }
            j = j + 1;
        }
    }

    let mut j: usize = 0;
    while j < n_resolve
        invariant
            j <= n_resolve,
            n_resolve == s.resolve_attachments@.len(),
            n_color == s.color_attachments@.len(),
            spec_subpass_refs_in_range(*s, atts@.len() as int),
            forall|x: int|
                0 <= x < j && x < n_color ==> atts@[#[trigger] s.resolve_attachments@[x].0 as int].format
                    == atts@[s.color_attachments@[x].0 as int].format,
        decreases n_resolve - j,
    {
        if j < n_color {
            let rf = atts[s.resolve_attachments[j].0].format;
            let cf = atts[s.color_attachments[j].0].format;
            if !(rf == cf) {
                return false;
            }
        }
        j = j + 1;
    }

    let mut j: usize = 0;
    while j < s.preserve_attachments.len()
        invariant
            j <= s.preserve_attachments@.len(),
            forall|x: int|
                0 <= x < j ==> !spec_uses_active(*s, #[trigger] s.preserve_attachments@[x] as int),
        decreases s.preserve_attachments@.len() - j,
    {
        if uses_active(s, s.preserve_attachments[j]) {
            return false;
        }
        j = j + 1;
    }

    let mut j: usize = 0;
    while j < n_color
        invariant
            j <= n_color,
            n_color == s.color_attachments@.len(),
            forall|x: int|
                0 <= x < j ==> spec_layout_consistent(
                    *s,
                    #[trigger] s.color_attachments@[x].0 as int,
                    s.color_attachments@[x].1,
                ),
        decreases n_color - j,
    {
        let (a, l) = s.color_attachments[j];
        if !layout_consistent(s, a, l) {
            return false;
        }
        j = j + 1;
    }

    match s.depth_stencil {
        Some((a, l)) => {
            if !layout_consistent(s, a, l) {
                return false;
            }
        }
        None => {}
    }

    true
}

/// Checks the structural rules of every subpass.
pub fn check_subpass_structures(atts: &Vec<AttachmentDesc>, subs: &Vec<SubpassDesc>) -> (r: bool)
    requires
        spec_all_refs_in_range(subs@, atts@.len() as int),
    ensures
        r == spec_all_subpasses_ok(atts@, subs@),
{
    let mut k: usize = 0;
    while k < subs.len()
        invariant
            k <= subs@.len(),
            spec_all_refs_in_range(subs@, atts@.len() as int),
            forall|i: int|
                0 <= i < k ==> spec_subpass_structure_ok(atts@, #[trigger] subs@[i]),
        decreases subs@.len() - k,
    {
        if !subpass_structure_ok(atts, &subs[k]) {
            return false;
        }
        k = k + 1;
    }
    true
}

// ---------------------------------------------------------------------------
// Multiview shape rules (full tier)
// ---------------------------------------------------------------------------

/// The shape rules of a multiview description against a description with
/// `n_subs` subpasses and `n_deps` dependencies:
/// - the view mask list is empty or has one mask per subpass;
/// - the view masks are uniformly zero or uniformly non-zero;
/// - the view offset list is empty or has one offset per dependency;
/// - the correlation masks are pairwise disjoint.
pub open spec fn spec_multiview_shape_ok(mv: MultiviewDesc, n_subs: int, n_deps: int) -> bool {
    &&& (mv.view_masks@.len() == 0 || mv.view_masks@.len() == n_subs)
    &&& ((forall|i: int| 0 <= i < mv.view_masks@.len() ==> mv.view_masks@[i] == 0) || (forall|
        i: int,
    | 0 <= i < mv.view_masks@.len() ==> mv.view_masks@[i] != 0))
    &&& (mv.view_offsets@.len() == 0 || mv.view_offsets@.len() == n_deps)
    &&& (forall|i: int, j: int|
        0 <= i < mv.correlation_masks@.len() && 0 <= j < mv.correlation_masks@.len() && i != j
            ==> mv.correlation_masks@[i] & mv.correlation_masks@[j] == 0)
}

/// Checks whether every listed mask is zero, or every listed mask is
/// non-zero.
fn masks_uniform(masks: &Vec<u32>) -> (r: bool)
    ensures
        r == ((forall|i: int| 0 <= i < masks@.len() ==> masks@[i] == 0) || (forall|i: int|
            0 <= i < masks@.len() ==> masks@[i] != 0)),
{
    let n = masks.len();
    let mut any_zero = false;
    let mut any_nonzero = false;
    let mut i: usize = 0;
    while i < n
        invariant
            i <= n,
            n == masks@.len(),
            any_zero == exists|j: int| 0 <= j < i && masks@[j] == 0,
            any_nonzero == exists|j: int| 0 <= j < i && masks@[j] != 0,
        decreases n - i,
    {
        if masks[i] == 0 {
            any_zero = true;
        } else {
            any_nonzero = true;
        }
        i = i + 1;
    }
    !(any_zero && any_nonzero)
}

/// Checks that the correlation masks are pairwise disjoint.
fn masks_disjoint(masks: &Vec<u32>) -> (r: bool)
    ensures
        r == (forall|i: int, j: int|
            0 <= i < masks@.len() && 0 <= j < masks@.len() && i != j ==> masks@[i] & masks@[j]
                == 0),
{
    let n = masks.len();
    let mut i: usize = 0;
    while i < n
        invariant
            i <= n,
            n == masks@.len(),
            forall|x: int, y: int|
                0 <= x < i && 0 <= y < n && x != y ==> masks@[x] & masks@[y] == 0,
        decreases n - i,
    {
        let mut j: usize = 0;
        while j < n
            invariant
                i < n,
                j <= n,
                n == masks@.len(),
                forall|x: int, y: int|
                    0 <= x < i && 0 <= y < n && x != y ==> masks@[x] & masks@[y] == 0,
                forall|y: int| 0 <= y < j && y != i ==> masks@[i as int] & masks@[y] == 0,
            decreases n - j,
        {
            if j != i {
                if masks[i] & masks[j] != 0 {
                    return false;
                }
            }
            j = j + 1;
        }
        i = i + 1;
    }
    true
}

/// Checks the multiview shape rules.
pub fn check_multiview_shape(mv: &MultiviewDesc, n_subs: usize, n_deps: usize) -> (r: bool)
    ensures
        r == spec_multiview_shape_ok(*mv, n_subs as int, n_deps as int),
{
    let n_masks = mv.view_masks.len();
    if !(n_masks == 0 || n_masks == n_subs) {
        return false;
    }
    if !masks_uniform(&mv.view_masks) {
        return false;
    }
    let n_offsets = mv.view_offsets.len();
    if !(n_offsets == 0 || n_offsets == n_deps) {
        return false;
    }
    masks_disjoint(&mv.correlation_masks)
}

// ---------------------------------------------------------------------------
// Tier summaries
// ---------------------------------------------------------------------------

/// The always-enforced rules of a description against a color limit.
pub open spec fn spec_hard_rules_ok(desc: RenderPassDesc, max_color: u32) -> bool {
    &&& spec_clear_rule_ok(desc.spec_attachments(), desc.spec_subpasses())
    &&& spec_first_limit_violation(desc.spec_subpasses(), max_color, 0) is None
    &&& spec_all_refs_in_range(desc.spec_subpasses(), desc.spec_attachments().len() as int)
    &&& spec_deps_in_range(desc.spec_dependencies(), desc.spec_subpasses().len() as int)
}

/// The full-tier structural rules of a description and its optional
/// multiview description.
pub open spec fn spec_full_rules_ok(desc: RenderPassDesc, mv: Option<MultiviewDesc>) -> bool {
    &&& spec_samples_ok(desc.spec_attachments())
    &&& spec_all_subpasses_ok(desc.spec_attachments(), desc.spec_subpasses())
    &&& (mv matches Some(m) ==> spec_multiview_shape_ok(
        m,
        desc.spec_subpasses().len() as int,
        desc.spec_dependencies().len() as int,
    ))
}

} // verus!
