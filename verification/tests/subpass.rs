//! The per-subpass query layer of a compiled handle.

use std::sync::Arc;

use render_pass::desc::{AttachmentDesc, ImageLayout, LoadOp, RenderPassDesc, StoreOp, SubpassDesc};
use render_pass::device::Device;
use render_pass::format::{Format, FormatTy};
use render_pass::render_pass::{RenderPass, Subpass};
use render_pass::validate::ValidationLevel;

fn attachment(format: Format, samples: u32) -> AttachmentDesc {
    AttachmentDesc {
        format,
        samples,
        load: LoadOp::DontCare,
        store: StoreOp::Store,
        stencil_load: LoadOp::DontCare,
        stencil_store: StoreOp::DontCare,
        initial_layout: ImageLayout::Undefined,
        final_layout: ImageLayout::General,
    }
}

fn device() -> Arc<Device> {
    Arc::new(Device::new(8, 4, 4, false))
}

fn compile(desc: RenderPassDesc) -> Arc<RenderPass> {
    Arc::new(RenderPass::new(device(), desc, None, ValidationLevel::Full).unwrap())
}

#[test]
fn from_rejects_the_stage_count_boundary() {
    let rp = Arc::new(RenderPass::empty_single_pass(device()).unwrap());
    // One subpass: index zero exists, index one (== the count) does not.
    assert!(Subpass::from(rp.clone(), 0).is_some());
    assert!(Subpass::from(rp.clone(), 1).is_none());
    assert!(Subpass::from(rp, 7).is_none());
}

#[test]
fn index_and_render_pass_are_kept() {
    let rp = Arc::new(RenderPass::empty_single_pass(device()).unwrap());
    let subpass = Subpass::from(rp, 0).unwrap();
    assert_eq!(subpass.index(), 0);
    assert_eq!(subpass.render_pass().desc().subpasses().len(), 1);
}

#[test]
fn num_samples_of_an_empty_stage_is_none() {
    let rp = Arc::new(RenderPass::empty_single_pass(device()).unwrap());
    let subpass = Subpass::from(rp, 0).unwrap();
    assert_eq!(subpass.num_samples(), None);
    assert_eq!(subpass.num_color_attachments(), 0);
    assert!(!subpass.has_color_or_depth_stencil_attachment());
    assert!(!subpass.has_depth());
    assert!(!subpass.has_stencil());
}

#[test]
fn num_samples_takes_the_first_color_attachment() {
    let attachments = vec![attachment(Format::new(37, FormatTy::Color), 4)];
    let mut subpass = SubpassDesc::empty();
    subpass.color_attachments.push((0, ImageLayout::ColorAttachmentOptimal));
    let rp = compile(RenderPassDesc::new(attachments, vec![subpass], Vec::new()));
    let subpass = Subpass::from(rp, 0).unwrap();
    assert_eq!(subpass.num_samples(), Some(4));
    assert_eq!(subpass.num_color_attachments(), 1);
    assert!(subpass.has_color_or_depth_stencil_attachment());
}

#[test]
fn num_samples_falls_back_to_the_depth_stencil_attachment() {
    let attachments = vec![attachment(Format::new(129, FormatTy::DepthStencil), 2)];
    let mut subpass = SubpassDesc::empty();
    subpass.depth_stencil = Some((0, ImageLayout::DepthStencilAttachmentOptimal));
    let rp = compile(RenderPassDesc::new(attachments, vec![subpass], Vec::new()));
    let subpass = Subpass::from(rp, 0).unwrap();
    assert_eq!(subpass.num_samples(), Some(2));
    assert!(subpass.has_color_or_depth_stencil_attachment());
}

#[test]
fn depth_and_stencil_follow_the_format_kind() {
    let cases = [
        (FormatTy::Depth, true, false),
        (FormatTy::Stencil, false, true),
        (FormatTy::DepthStencil, true, true),
    ];
    for (ty, depth, stencil) in cases {
        let attachments = vec![attachment(Format::new(124, ty), 1)];
        let mut subpass = SubpassDesc::empty();
        subpass.depth_stencil = Some((0, ImageLayout::DepthStencilAttachmentOptimal));
        let rp = compile(RenderPassDesc::new(attachments, vec![subpass], Vec::new()));
        let subpass = Subpass::from(rp, 0).unwrap();
        assert_eq!(subpass.has_depth(), depth);
        assert_eq!(subpass.has_stencil(), stencil);
        assert_eq!(subpass.has_writable_depth(), depth);
        assert_eq!(subpass.has_writable_stencil(), stencil);
    }
}

#[test]
fn read_only_layout_makes_nothing_writable() {
    let attachments = vec![attachment(Format::new(129, FormatTy::DepthStencil), 1)];
    let mut subpass = SubpassDesc::empty();
    subpass.depth_stencil = Some((0, ImageLayout::DepthStencilReadOnlyOptimal));
    let rp = compile(RenderPassDesc::new(attachments, vec![subpass], Vec::new()));
    let subpass = Subpass::from(rp, 0).unwrap();
    assert!(subpass.has_depth());
    assert!(subpass.has_stencil());
    assert!(!subpass.has_writable_depth());
    assert!(!subpass.has_writable_stencil());
}
