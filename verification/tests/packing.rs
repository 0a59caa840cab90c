//! The packed, driver-consumable layout: pool contents, per-subpass
//! offsets and counts, and the lowering of attachments and dependencies.

use render_pass::desc::{AttachmentDesc, ImageLayout, LoadOp, RenderPassDesc, StoreOp,
    SubpassDesc, SubpassDependencyDesc, SUBPASS_EXTERNAL};
use render_pass::format::{Format, FormatTy};
use render_pass::pack::pack_render_pass;

fn attachment(samples: u32) -> AttachmentDesc {
    AttachmentDesc {
        format: Format::new(37, FormatTy::Color),
        samples,
        load: LoadOp::Clear,
        store: StoreOp::Store,
        stencil_load: LoadOp::DontCare,
        stencil_store: StoreOp::DontCare,
        initial_layout: ImageLayout::Undefined,
        final_layout: ImageLayout::PresentSrc,
    }
}

fn two_stage_description() -> RenderPassDesc {
    let attachments = vec![attachment(1), attachment(1), attachment(1)];
    let mut first = SubpassDesc::empty();
    first.color_attachments.push((0, ImageLayout::ColorAttachmentOptimal));
    first.color_attachments.push((1, ImageLayout::General));
    first.depth_stencil = Some((2, ImageLayout::DepthStencilAttachmentOptimal));
    first.preserve_attachments.push(1);
    let mut second = SubpassDesc::empty();
    second.color_attachments.push((1, ImageLayout::ColorAttachmentOptimal));
    second.input_attachments.push((0, ImageLayout::ShaderReadOnlyOptimal));
    let dependencies = vec![SubpassDependencyDesc {
        source_subpass: SUBPASS_EXTERNAL,
        destination_subpass: 1,
        source_stages: 0x1,
        destination_stages: 0x2,
        source_access: 0x4,
        destination_access: 0x8,
        by_region: true,
    }];
    RenderPassDesc::new(attachments, vec![first, second], dependencies)
}

#[test]
fn packing_is_exact() {
    // Stage one contributes two color references, a depth/stencil
    // reference and one preserve index; stage two one color and one input
    // reference. The pools hold exactly the sum, with no gap or overlap.
    let packed = pack_render_pass(&two_stage_description());
    assert_eq!(packed.num_references(), 5);
    assert_eq!(packed.num_preserve_references(), 1);
    let total: usize = packed
        .subpasses
        .iter()
        .map(|s| {
            s.color_count + s.input_count + s.resolve_count
                + if s.depth_stencil_offset.is_some() { 1 } else { 0 }
        })
        .sum();
    assert_eq!(total, packed.num_references());
    let preserve_total: usize = packed.subpasses.iter().map(|s| s.preserve_count).sum();
    assert_eq!(preserve_total, packed.num_preserve_references());
}

#[test]
fn subpass_records_point_at_their_pool_ranges() {
    let packed = pack_render_pass(&two_stage_description());
    let first = packed.subpasses[0];
    assert_eq!(first.color_offset, 0);
    assert_eq!(first.color_count, 2);
    assert_eq!(first.input_offset, 2);
    assert_eq!(first.input_count, 0);
    assert_eq!(first.resolve_offset, 2);
    assert_eq!(first.resolve_count, 0);
    assert_eq!(first.depth_stencil_offset, Some(2));
    assert_eq!(first.preserve_offset, 0);
    assert_eq!(first.preserve_count, 1);
    let second = packed.subpasses[1];
    assert_eq!(second.color_offset, 3);
    assert_eq!(second.color_count, 1);
    assert_eq!(second.input_offset, 4);
    assert_eq!(second.input_count, 1);
    assert_eq!(second.resolve_offset, 5);
    assert_eq!(second.resolve_count, 0);
    assert_eq!(second.depth_stencil_offset, None);
    assert_eq!(second.preserve_offset, 1);
    assert_eq!(second.preserve_count, 0);
}

#[test]
fn pool_entries_carry_index_and_layout() {
    let packed = pack_render_pass(&two_stage_description());
    // Stage one, in the fixed sub-order color, input, resolve,
    // depth/stencil.
    let r0 = packed.reference(0);
    assert_eq!((r0.attachment, r0.layout), (0, 2));
    let r1 = packed.reference(1);
    assert_eq!((r1.attachment, r1.layout), (1, 1));
    let r2 = packed.reference(2);
    assert_eq!((r2.attachment, r2.layout), (2, 3));
    // Stage two.
    let r3 = packed.reference(3);
    assert_eq!((r3.attachment, r3.layout), (1, 2));
    let r4 = packed.reference(4);
    assert_eq!((r4.attachment, r4.layout), (0, 5));
    assert_eq!(packed.preserve_reference(0), 1);
}

#[test]
fn attachments_lower_to_driver_records() {
    let packed = pack_render_pass(&two_stage_description());
    assert_eq!(packed.attachments.len(), 3);
    let raw = packed.attachments[0];
    assert_eq!(raw.format, 37);
    assert_eq!(raw.samples, 1);
    assert_eq!(raw.load_op, 1);
    assert_eq!(raw.store_op, 0);
    assert_eq!(raw.stencil_load_op, 2);
    assert_eq!(raw.stencil_store_op, 1);
    assert_eq!(raw.initial_layout, 0);
    assert_eq!(raw.final_layout, 1000001002);
}

#[test]
fn dependencies_lower_with_the_external_sentinel() {
    let packed = pack_render_pass(&two_stage_description());
    assert_eq!(packed.dependencies.len(), 1);
    let raw = packed.dependencies[0];
    assert_eq!(raw.source_subpass, u32::MAX);
    assert_eq!(raw.destination_subpass, 1);
    assert_eq!(raw.source_stage_mask, 0x1);
    assert_eq!(raw.destination_stage_mask, 0x2);
    assert_eq!(raw.source_access_mask, 0x4);
    assert_eq!(raw.destination_access_mask, 0x8);
    assert_eq!(raw.flags, 1);
}

#[test]
fn packing_an_empty_stage_leaves_the_pools_empty() {
    let desc = RenderPassDesc::empty();
    let packed = pack_render_pass(&desc);
    assert_eq!(packed.num_references(), 0);
    assert_eq!(packed.num_preserve_references(), 0);
    assert_eq!(packed.subpasses.len(), 1);
    assert!(packed.multiview.is_none());
}
