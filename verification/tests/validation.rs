//! The full-tier structural batteries: resolve pairing and multiview
//! shape, accepted and rejected.

use std::sync::Arc;

use render_pass::desc::{AttachmentDesc, ImageLayout, LoadOp, RenderPassDesc, StoreOp,
    SubpassDesc};
use render_pass::device::Device;
use render_pass::format::{Format, FormatTy};
use render_pass::multiview::MultiviewDesc;
use render_pass::render_pass::{RenderPass, RenderPassCreationError, Subpass};
use render_pass::validate::ValidationLevel;

fn attachment(tag: u32, samples: u32) -> AttachmentDesc {
    AttachmentDesc {
        format: Format::new(tag, FormatTy::Color),
        samples,
        load: LoadOp::DontCare,
        store: StoreOp::Store,
        stencil_load: LoadOp::DontCare,
        stencil_store: StoreOp::DontCare,
        initial_layout: ImageLayout::Undefined,
        final_layout: ImageLayout::General,
    }
}

fn device() -> Arc<Device> {
    Arc::new(Device::new(8, 2, 2, false))
}

fn resolving_subpass() -> SubpassDesc {
    let mut s = SubpassDesc::empty();
    s.color_attachments.push((0, ImageLayout::ColorAttachmentOptimal));
    s.resolve_attachments.push((1, ImageLayout::ColorAttachmentOptimal));
    s
}

#[test]
fn matched_resolve_pair_is_accepted() {
    // A multisampled color attachment resolving into a single-sampled
    // attachment of the same format.
    let attachments = vec![attachment(37, 4), attachment(37, 1)];
    let desc = RenderPassDesc::new(attachments, vec![resolving_subpass()], Vec::new());
    assert!(RenderPass::new(device(), desc, None, ValidationLevel::Full).is_ok());
}

#[test]
fn multisampled_resolve_target_is_rejected() {
    let attachments = vec![attachment(37, 4), attachment(37, 2)];
    let desc = RenderPassDesc::new(attachments, vec![resolving_subpass()], Vec::new());
    let rp = RenderPass::new(device(), desc, None, ValidationLevel::Full);
    assert_eq!(rp.err().unwrap(), RenderPassCreationError::SubpassStructureInvalid);
}

#[test]
fn single_sampled_color_with_resolve_is_rejected() {
    let attachments = vec![attachment(37, 1), attachment(37, 1)];
    let desc = RenderPassDesc::new(attachments, vec![resolving_subpass()], Vec::new());
    let rp = RenderPass::new(device(), desc, None, ValidationLevel::Full);
    assert_eq!(rp.err().unwrap(), RenderPassCreationError::SubpassStructureInvalid);
}

#[test]
fn resolve_format_mismatch_is_rejected() {
    let attachments = vec![attachment(37, 4), attachment(44, 1)];
    let desc = RenderPassDesc::new(attachments, vec![resolving_subpass()], Vec::new());
    let rp = RenderPass::new(device(), desc, None, ValidationLevel::Full);
    assert_eq!(rp.err().unwrap(), RenderPassCreationError::SubpassStructureInvalid);
}

fn one_stage_desc() -> RenderPassDesc {
    let mut s = SubpassDesc::empty();
    s.color_attachments.push((0, ImageLayout::ColorAttachmentOptimal));
    RenderPassDesc::new(vec![attachment(37, 1)], vec![s], Vec::new())
}

#[test]
fn view_mask_count_must_match_the_stage_count() {
    // One stage, two view masks.
    let mv = MultiviewDesc::new(vec![0b01, 0b01], Vec::new(), Vec::new());
    let rp = RenderPass::new(device(), one_stage_desc(), Some(mv), ValidationLevel::Full);
    assert_eq!(rp.err().unwrap(), RenderPassCreationError::MultiviewShapeInvalid);
}

#[test]
fn view_masks_must_be_uniformly_enabled() {
    // Two stages, one enabled mask and one zero mask.
    let attachments = vec![attachment(37, 1)];
    let mut first = SubpassDesc::empty();
    first.color_attachments.push((0, ImageLayout::ColorAttachmentOptimal));
    let second = SubpassDesc::empty();
    let desc = RenderPassDesc::new(attachments, vec![first, second], Vec::new());
    let mv = MultiviewDesc::new(vec![0b01, 0], Vec::new(), Vec::new());
    let rp = RenderPass::new(device(), desc, Some(mv), ValidationLevel::Full);
    assert_eq!(rp.err().unwrap(), RenderPassCreationError::MultiviewShapeInvalid);
}

#[test]
fn view_offset_count_must_match_the_dependency_count() {
    // No dependency, one view offset.
    let mv = MultiviewDesc::new(vec![0b01], vec![1], Vec::new());
    let rp = RenderPass::new(device(), one_stage_desc(), Some(mv), ValidationLevel::Full);
    assert_eq!(rp.err().unwrap(), RenderPassCreationError::MultiviewShapeInvalid);
}

#[test]
fn single_stage_multiview_from_the_builder_is_accepted() {
    let mv = MultiviewDesc::with_views_correlated(2);
    assert!(RenderPass::new(device(), one_stage_desc(), Some(mv), ValidationLevel::Full).is_ok());
}

#[test]
fn a_subpass_dissolves_into_its_parts() {
    let rp = Arc::new(RenderPass::empty_single_pass(device()).unwrap());
    let subpass = Subpass::from(rp, 0).unwrap();
    let (handle, id) = subpass.into_parts();
    assert_eq!(id, 0);
    assert_eq!(handle.desc().subpasses().len(), 1);
}
