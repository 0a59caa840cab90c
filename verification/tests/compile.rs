//! Compiling descriptions: success, each rejection, and the handle's
//! retained state.

use std::sync::Arc;

use render_pass::desc::{AttachmentDesc, ImageLayout, LoadOp, RenderPassDesc, StoreOp,
    SubpassDesc, SubpassDependencyDesc, SUBPASS_EXTERNAL};
use render_pass::device::{Device, OomError};
use render_pass::format::{Format, FormatTy};
use render_pass::multiview::MultiviewDesc;
use render_pass::render_pass::{RenderPass, RenderPassCreationError};
use render_pass::validate::ValidationLevel;

fn color_format() -> Format {
    Format::new(37, FormatTy::Color)
}

fn color_attachment(load: LoadOp, samples: u32) -> AttachmentDesc {
    AttachmentDesc {
        format: color_format(),
        samples,
        load,
        store: StoreOp::DontCare,
        stencil_load: LoadOp::DontCare,
        stencil_store: StoreOp::DontCare,
        initial_layout: ImageLayout::Undefined,
        final_layout: ImageLayout::ColorAttachmentOptimal,
    }
}

fn subpass_with_colors(indices: &[usize]) -> SubpassDesc {
    let mut s = SubpassDesc::empty();
    for &i in indices {
        s.color_attachments.push((i, ImageLayout::ColorAttachmentOptimal));
    }
    s
}

fn device() -> Arc<Device> {
    Arc::new(Device::new(8, 64, 32, false))
}

#[test]
fn empty() {
    let device = device();
    let _ = RenderPass::empty_single_pass(device).unwrap();
}

#[test]
fn too_many_color_atch() {
    let device = device();
    // The modeled device reports a limit below ten; a single subpass
    // drawing to ten color attachments must be rejected before any native
    // call.
    let attachments: Vec<AttachmentDesc> =
        (0..10).map(|_| color_attachment(LoadOp::Clear, 1)).collect();
    let subpasses = vec![subpass_with_colors(&[0, 1, 2, 3, 4, 5, 6, 7, 8, 9])];
    let desc = RenderPassDesc::new(attachments, subpasses, Vec::new());
    let rp = RenderPass::new(device, desc, None, ValidationLevel::Full);
    match rp {
        Err(RenderPassCreationError::ColorAttachmentsLimitExceeded { .. }) => (),
        _ => panic!(),
    }
}

#[test]
fn non_zero_granularity() {
    let device = device();
    let attachments = vec![color_attachment(LoadOp::Clear, 1)];
    let subpasses = vec![subpass_with_colors(&[0])];
    let desc = RenderPassDesc::new(attachments, subpasses, Vec::new());
    let rp = RenderPass::new(device, desc, None, ValidationLevel::Full).unwrap();
    let granularity = rp.granularity();
    assert_ne!(granularity[0], 0);
    assert_ne!(granularity[1], 0);
}

#[test]
fn valid_description_compiles_and_keeps_stage_count() {
    let device = device();
    let attachments = vec![
        color_attachment(LoadOp::Clear, 1),
        color_attachment(LoadOp::DontCare, 1),
    ];
    let mut second = subpass_with_colors(&[1]);
    second.input_attachments.push((0, ImageLayout::ShaderReadOnlyOptimal));
    let subpasses = vec![subpass_with_colors(&[0]), second];
    let dependencies = vec![SubpassDependencyDesc {
        source_subpass: 0,
        destination_subpass: 1,
        source_stages: 0x400,
        destination_stages: 0x80,
        source_access: 0x100,
        destination_access: 0x20,
        by_region: true,
    }];
    let desc = RenderPassDesc::new(attachments, subpasses, dependencies);
    let expected = desc.clone();
    let rp = RenderPass::new(device, desc, None, ValidationLevel::Full).unwrap();
    // The description is retained unchanged: same attachment, subpass and
    // dependency contents.
    assert_eq!(*rp.desc(), expected);
    assert_eq!(rp.desc().subpasses().len(), 2);
}

#[test]
fn cleared_attachment_first_used_as_input_is_rejected() {
    let device = device();
    // One attachment, cleared on load, referenced by the only subpass
    // solely as an input attachment.
    let attachments = vec![color_attachment(LoadOp::Clear, 1)];
    let mut subpass = SubpassDesc::empty();
    subpass.input_attachments.push((0, ImageLayout::ShaderReadOnlyOptimal));
    let desc = RenderPassDesc::new(attachments, vec![subpass], Vec::new());
    let rp = RenderPass::new(device, desc, None, ValidationLevel::Minimal);
    assert_eq!(rp.err().unwrap(), RenderPassCreationError::ClearedInputAttachment);
}

#[test]
fn cleared_attachment_written_in_same_stage_is_accepted() {
    let device = device();
    // The same input read is fine when the stage also writes the
    // attachment as a color target.
    let attachments = vec![color_attachment(LoadOp::Clear, 1)];
    let mut subpass = subpass_with_colors(&[0]);
    subpass.input_attachments.push((0, ImageLayout::ColorAttachmentOptimal));
    let desc = RenderPassDesc::new(attachments, vec![subpass], Vec::new());
    assert!(RenderPass::new(device, desc, None, ValidationLevel::Full).is_ok());
}

#[test]
fn limit_violation_reports_before_any_native_call() {
    // Eleven color attachments against a capability limit of ten: the
    // limit error is reported even on a device whose creation call would
    // fail, showing the call is never attempted.
    let device = Arc::new(Device::new(10, 64, 32, true));
    let attachments: Vec<AttachmentDesc> =
        (0..11).map(|_| color_attachment(LoadOp::Clear, 1)).collect();
    let subpasses = vec![subpass_with_colors(&[0, 1, 2, 3, 4, 5, 6, 7, 8, 9, 10])];
    let desc = RenderPassDesc::new(attachments, subpasses, Vec::new());
    let rp = RenderPass::new(device, desc, None, ValidationLevel::Minimal);
    assert_eq!(
        rp.err().unwrap(),
        RenderPassCreationError::ColorAttachmentsLimitExceeded { subpass: 0 }
    );
}

#[test]
fn exhausted_device_reports_oom() {
    let device = Arc::new(Device::new(8, 64, 32, true));
    let rp = RenderPass::empty_single_pass(device);
    assert_eq!(
        rp.err().unwrap(),
        RenderPassCreationError::OomError(OomError::OutOfHostMemory)
    );
}

#[test]
fn out_of_range_reference_is_rejected() {
    let device = device();
    let attachments = vec![color_attachment(LoadOp::DontCare, 1)];
    let subpasses = vec![subpass_with_colors(&[5])];
    let desc = RenderPassDesc::new(attachments, subpasses, Vec::new());
    let rp = RenderPass::new(device, desc, None, ValidationLevel::Minimal);
    assert_eq!(rp.err().unwrap(), RenderPassCreationError::AttachmentReferenceOutOfRange);
}

#[test]
fn out_of_range_dependency_is_rejected() {
    let device = device();
    let attachments = vec![color_attachment(LoadOp::DontCare, 1)];
    let subpasses = vec![subpass_with_colors(&[0])];
    let dependencies = vec![SubpassDependencyDesc {
        source_subpass: 0,
        destination_subpass: 3,
        source_stages: 0,
        destination_stages: 0,
        source_access: 0,
        destination_access: 0,
        by_region: false,
    }];
    let desc = RenderPassDesc::new(attachments, subpasses, dependencies);
    let rp = RenderPass::new(device, desc, None, ValidationLevel::Minimal);
    assert_eq!(rp.err().unwrap(), RenderPassCreationError::DependencyOutOfRange);
}

#[test]
fn external_dependency_endpoints_are_accepted() {
    let device = device();
    let attachments = vec![color_attachment(LoadOp::DontCare, 1)];
    let subpasses = vec![subpass_with_colors(&[0])];
    let dependencies = vec![SubpassDependencyDesc {
        source_subpass: SUBPASS_EXTERNAL,
        destination_subpass: 0,
        source_stages: 0,
        destination_stages: 0,
        source_access: 0,
        destination_access: 0,
        by_region: false,
    }];
    let desc = RenderPassDesc::new(attachments, subpasses, dependencies);
    assert!(RenderPass::new(device, desc, None, ValidationLevel::Full).is_ok());
}

#[test]
fn non_power_of_two_samples_rejected_at_full_level_only() {
    let attachments = vec![color_attachment(LoadOp::DontCare, 3)];
    let subpasses = vec![subpass_with_colors(&[0])];
    let desc = RenderPassDesc::new(attachments, subpasses, Vec::new());
    let rp = RenderPass::new(device(), desc.clone(), None, ValidationLevel::Full);
    assert_eq!(rp.err().unwrap(), RenderPassCreationError::AttachmentSamplesNotPowerOfTwo);
    assert!(RenderPass::new(device(), desc, None, ValidationLevel::Minimal).is_ok());
}

#[test]
fn resolve_pairing_violation_rejected_at_full_level() {
    // A resolve list that is non-empty but shorter than the color list.
    let attachments = vec![
        color_attachment(LoadOp::DontCare, 2),
        color_attachment(LoadOp::DontCare, 2),
        color_attachment(LoadOp::DontCare, 1),
    ];
    let mut subpass = subpass_with_colors(&[0, 1]);
    subpass.resolve_attachments.push((2, ImageLayout::ColorAttachmentOptimal));
    let desc = RenderPassDesc::new(attachments, vec![subpass], Vec::new());
    let rp = RenderPass::new(device(), desc.clone(), None, ValidationLevel::Full);
    assert_eq!(rp.err().unwrap(), RenderPassCreationError::SubpassStructureInvalid);
    assert!(RenderPass::new(device(), desc, None, ValidationLevel::Minimal).is_ok());
}

#[test]
fn preserved_active_attachment_rejected_at_full_level() {
    let attachments = vec![color_attachment(LoadOp::DontCare, 1)];
    let mut subpass = subpass_with_colors(&[0]);
    subpass.preserve_attachments.push(0);
    let desc = RenderPassDesc::new(attachments, vec![subpass], Vec::new());
    let rp = RenderPass::new(device(), desc, None, ValidationLevel::Full);
    assert_eq!(rp.err().unwrap(), RenderPassCreationError::SubpassStructureInvalid);
}

#[test]
fn input_layout_mismatch_rejected_at_full_level() {
    let attachments = vec![color_attachment(LoadOp::DontCare, 1)];
    let mut subpass = subpass_with_colors(&[0]);
    subpass.input_attachments.push((0, ImageLayout::ShaderReadOnlyOptimal));
    let desc = RenderPassDesc::new(attachments, vec![subpass], Vec::new());
    let rp = RenderPass::new(device(), desc, None, ValidationLevel::Full);
    assert_eq!(rp.err().unwrap(), RenderPassCreationError::SubpassStructureInvalid);
}

#[test]
fn overlapping_correlation_masks_rejected() {
    // Correlation masks 0b011 and 0b110 share bit one.
    let attachments = vec![color_attachment(LoadOp::DontCare, 1)];
    let subpasses = vec![subpass_with_colors(&[0])];
    let desc = RenderPassDesc::new(attachments, subpasses, Vec::new());
    let mv = MultiviewDesc::new(vec![0b01], Vec::new(), vec![0b011, 0b110]);
    let rp = RenderPass::new(device(), desc.clone(), Some(mv.clone()), ValidationLevel::Full);
    assert_eq!(rp.err().unwrap(), RenderPassCreationError::MultiviewShapeInvalid);
    // The shape rules are a full-level battery: the minimal level lets the
    // same description through.
    assert!(RenderPass::new(device(), desc, Some(mv), ValidationLevel::Minimal).is_ok());
}

#[test]
fn disjoint_correlation_masks_accepted() {
    let attachments = vec![color_attachment(LoadOp::DontCare, 1)];
    let subpasses = vec![subpass_with_colors(&[0])];
    let desc = RenderPassDesc::new(attachments, subpasses, Vec::new());
    let mv = MultiviewDesc::new(vec![0b11], Vec::new(), vec![0b001, 0b110]);
    assert!(RenderPass::new(device(), desc, Some(mv), ValidationLevel::Full).is_ok());
}

#[test]
fn granularity_is_memoized_and_queried_once() {
    let device = Arc::new(Device::new(8, 128, 256, false));
    let rp = RenderPass::empty_single_pass(device).unwrap();
    assert_eq!(rp.granularity_queries(), 0);
    let first = rp.granularity();
    let second = rp.granularity();
    assert_eq!(first, [128, 256]);
    assert_eq!(second, first);
    // Both calls were served by exactly one query of the native object.
    assert_eq!(rp.granularity_queries(), 1);
}

#[test]
fn inner_reports_the_native_values() {
    let device = Arc::new(Device::new(8, 16, 8, false));
    let rp = RenderPass::empty_single_pass(device).unwrap();
    let sys = rp.inner();
    assert_eq!(sys.granularity_width, 16);
    assert_eq!(sys.granularity_height, 8);
    assert_eq!(rp.granularity(), [16, 8]);
}

#[test]
fn error_messages_describe_each_variant() {
    assert_eq!(
        RenderPassCreationError::OomError(OomError::OutOfHostMemory).message(),
        "not enough memory available"
    );
    assert_eq!(
        RenderPassCreationError::ColorAttachmentsLimitExceeded { subpass: 2 }.message(),
        "the maximum number of color attachments has been exceeded"
    );
    assert_eq!(OomError::OutOfDeviceMemory.message(), "no memory available on the device");
}
