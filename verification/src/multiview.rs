//! Replicated-view rendering: per-subpass view bitmasks, per-dependency
//! view offsets, and correlation bitmasks.

use vstd::prelude::*;

verus! {

/// The description of the multiview behaviour of a render pass.
///
/// When present, every subpass runs once per view set in its view mask;
/// view offsets shift the view relation across dependencies, and each
/// correlation mask names a group of views that may be rendered
/// concurrently. The shape invariants over these lists (lengths matching
/// the subpass and dependency counts, masks uniformly zero or uniformly
/// non-zero, correlation masks pairwise disjoint) are checked by the
/// compiler, not by this type.
#[derive(Clone, Debug, PartialEq)]
pub struct MultiviewDesc {
    pub view_masks: Vec<u32>,
    pub view_offsets: Vec<i32>,
    pub correlation_masks: Vec<u32>,
}

impl MultiviewDesc {
    /// Creates a description from its three lists.
    pub fn new(
        view_masks: Vec<u32>,
        view_offsets: Vec<i32>,
        correlation_masks: Vec<u32>,
    ) -> (r: MultiviewDesc)
        ensures
            r.view_masks@ == view_masks@,
            r.view_offsets@ == view_offsets@,
            r.correlation_masks@ == correlation_masks@,
    {
        MultiviewDesc { view_masks, view_offsets, correlation_masks }
    }

    /// Creates an empty description that does not enable multiview
    /// functionality.
    pub fn empty() -> (r: MultiviewDesc)
        ensures
            r.view_masks@ == Seq::<u32>::empty(),
            r.view_offsets@ == Seq::<i32>::empty(),
            r.correlation_masks@ == Seq::<u32>::empty(),
    {
        MultiviewDesc {
            view_masks: Vec::new(),
            view_offsets: Vec::new(),
            correlation_masks: Vec::new(),
        }
    }

    /// The mask with the low `views` bits set: one bit per enabled view.
    pub open spec fn spec_views_mask(views: u8) -> u32 {
        (((1u64 << (views as u64)) - 1) as u32)
    }

    /// Creates a description of a single-subpass multiview over the given
    /// number of views, with no offsets and no correlation masks.
    pub fn with_views(views: u8) -> (r: MultiviewDesc)
        requires
            views <= 32,
        ensures
            r.view_masks@ == seq![Self::spec_views_mask(views)],
            r.view_offsets@ == Seq::<i32>::empty(),
            r.correlation_masks@ == Seq::<u32>::empty(),
    {
        let mask = Self::views_mask(views);
        let mut view_masks: Vec<u32> = Vec::new();
        view_masks.push(mask);
        proof {
            assert(view_masks@ =~= seq![Self::spec_views_mask(views)]);
        }
        MultiviewDesc { view_masks, view_offsets: Vec::new(), correlation_masks: Vec::new() }
    }

    /// Creates a description of a single-subpass multiview over the given
    /// number of views, all of them correlated.
    pub fn with_views_correlated(views: u8) -> (r: MultiviewDesc)
        requires
            views <= 32,
        ensures
            r.view_masks@ == seq![Self::spec_views_mask(views)],
            r.view_offsets@ == Seq::<i32>::empty(),
            r.correlation_masks@ == seq![Self::spec_views_mask(views)],
    {
        let mask = Self::views_mask(views);
        let mut view_masks: Vec<u32> = Vec::new();
        view_masks.push(mask);
        let mut correlation_masks: Vec<u32> = Vec::new();
        correlation_masks.push(mask);
        proof {
            assert(view_masks@ =~= seq![Self::spec_views_mask(views)]);
            assert(correlation_masks@ =~= seq![Self::spec_views_mask(views)]);
        }
        MultiviewDesc { view_masks, view_offsets: Vec::new(), correlation_masks }
    }

    /// Returns the view masks of the description.
    pub fn view_masks(&self) -> (r: &Vec<u32>)
        ensures
            r@ == self.view_masks@,
    {
        &self.view_masks
    }

    /// Returns the view offsets of the description.
    pub fn view_offsets(&self) -> (r: &Vec<i32>)
        ensures
            r@ == self.view_offsets@,
    {
        &self.view_offsets
    }

    /// Returns the correlation masks of the description.
    pub fn correlation_masks(&self) -> (r: &Vec<u32>)
        ensures
            r@ == self.correlation_masks@,
    {
        &self.correlation_masks
    }

    /// Computes the mask with the low `views` bits set.
    fn views_mask(views: u8) -> (r: u32)
        requires
            views <= 32,
        ensures
            r == Self::spec_views_mask(views),
    {
        let shift: u64 = views as u64;
        assert((1u64 << shift) >= 1 && (1u64 << shift) - 1 <= 0xFFFF_FFFFu64) by (bit_vector)
            requires shift <= 32;
        (((1u64 << shift) - 1) as u32)
    }
}

impl Default for MultiviewDesc {
    /// The empty description: multiview disabled.
    fn default() -> (r: Self)
        ensures
            r.view_masks@ == Seq::<u32>::empty(),
            r.view_offsets@ == Seq::<i32>::empty(),
            r.correlation_masks@ == Seq::<u32>::empty(),
    {
        Self::empty()
    }
}

} // verus!
