use render_levels::attachments::{build_attachment_set, framebuffer_slots, FramebufferSlot};
use render_levels::frame::{
    build_frame_targets, clear_values, draw_call, frame_flags, frame_step, ClearKind,
    FrameContext, FrameStep,
};
use render_levels::pipeline::{
    build, vertex_input_layout, DepthStencilMode, InstanceAttribute, RenderError, VertexAttribute,
};
use render_levels::render_pass::{select, AttachmentFormat, RenderPassTopology, StoreOp};
use render_levels::settings::Levels;

#[test]
fn select_is_direct_below_multisample() {
    assert_eq!(select(Levels::ONE), RenderPassTopology::Direct);
    assert_eq!(select(Levels::TWO), RenderPassTopology::Direct);
    assert_eq!(select(Levels::THREE), RenderPassTopology::Direct);
    assert_eq!(select(Levels::FOUR), RenderPassTopology::ResolveMsaa);
    assert_eq!(select(Levels::FIVE), RenderPassTopology::ResolveMsaa);
}

#[test]
fn attachment_set_has_intermediary_iff_multisampling() {
    for n in 1u8..=5 {
        let level = Levels::from_index(n).unwrap();
        let s = build_attachment_set(level, 1920, 1080);
        assert_eq!(s.color_intermediary.is_some(), n >= 4);
        if let Some(c) = s.color_intermediary {
            assert_eq!(c.samples, 8);
            assert_eq!(c.format, AttachmentFormat::TargetColor);
            assert_eq!((c.width, c.height), (1920, 1080));
        }
        assert_eq!(s.depth.format, AttachmentFormat::D16Unorm);
        assert_eq!(s.depth.samples, if n >= 4 { 8 } else { 1 });
        assert_eq!((s.depth.width, s.depth.height), (1920, 1080));
    }
}

#[test]
fn base_level_pipeline() {
    // level ONE: depth test disabled, multisample disabled, direct pass
    let pass = select(Levels::ONE);
    assert_eq!(pass, RenderPassTopology::Direct);
    let p = build(pass, Levels::ONE, 1280, 720).unwrap();
    assert_eq!(p.depth_stencil, DepthStencilMode::Disabled);
    assert_eq!(p.rasterization_samples, 1);
    assert_eq!(p.render_pass, RenderPassTopology::Direct);
    assert_eq!(p.subpass_index, 0);
    assert_eq!((p.viewport.width, p.viewport.height), (1280, 720));
}

#[test]
fn depth_level_pipeline() {
    // level THREE: depth test enabled, multisample disabled, direct pass
    let pass = select(Levels::THREE);
    assert_eq!(pass, RenderPassTopology::Direct);
    let p = build(pass, Levels::THREE, 1280, 720).unwrap();
    assert_eq!(p.depth_stencil, DepthStencilMode::SimpleLessTest);
    assert_eq!(p.rasterization_samples, 1);
}

#[test]
fn multisample_level_pipeline() {
    // level FOUR: depth test enabled, 8-sample rasterization, resolve pass,
    // and an attachment set with an 8-sample depth and 8-sample intermediary
    let pass = select(Levels::FOUR);
    assert_eq!(pass, RenderPassTopology::ResolveMsaa);
    let p = build(pass, Levels::FOUR, 1280, 720).unwrap();
    assert_eq!(p.depth_stencil, DepthStencilMode::SimpleLessTest);
    assert_eq!(p.rasterization_samples, 8);
    let s = build_attachment_set(Levels::FOUR, 1280, 720);
    assert_eq!(s.depth.samples, 8);
    assert_eq!(s.color_intermediary.unwrap().samples, 8);
}

#[test]
fn mismatched_pass_is_rejected() {
    let r = build(RenderPassTopology::Direct, Levels::FOUR, 640, 480);
    assert_eq!(r.unwrap_err(), RenderError::ConfigurationMismatch);
    let r = build(RenderPassTopology::ResolveMsaa, Levels::THREE, 640, 480);
    assert_eq!(r.unwrap_err(), RenderError::ConfigurationMismatch);
}

#[test]
fn render_pass_attachment_lists() {
    let direct = RenderPassTopology::Direct.attachments();
    assert_eq!(direct.len(), 2);
    assert_eq!(direct[0].format, AttachmentFormat::TargetColor);
    assert_eq!(direct[0].samples, 1);
    assert_eq!(direct[0].store, StoreOp::Store);
    assert_eq!(direct[1].format, AttachmentFormat::D16Unorm);
    assert_eq!(direct[1].samples, 1);
    assert_eq!(direct[1].store, StoreOp::DontCare);

    let msaa = RenderPassTopology::ResolveMsaa.attachments();
    assert_eq!(msaa.len(), 3);
    assert_eq!(msaa[0].format, AttachmentFormat::TargetColor);
    assert_eq!(msaa[0].samples, 8);
    assert_eq!(msaa[0].store, StoreOp::DontCare);
    assert_eq!(msaa[1].format, AttachmentFormat::TargetColor);
    assert_eq!(msaa[1].samples, 1);
    assert_eq!(msaa[1].store, StoreOp::Store);
    assert_eq!(msaa[2].format, AttachmentFormat::D16Unorm);
    assert_eq!(msaa[2].samples, 8);
}

#[test]
fn framebuffer_plans_match_passes() {
    assert_eq!(
        framebuffer_slots(&RenderPassTopology::Direct),
        vec![FramebufferSlot::Output, FramebufferSlot::Depth]
    );
    assert_eq!(
        framebuffer_slots(&RenderPassTopology::ResolveMsaa),
        vec![FramebufferSlot::Intermediary, FramebufferSlot::Output, FramebufferSlot::Depth]
    );
    // each plan is one image per attachment of its pass
    for t in [RenderPassTopology::Direct, RenderPassTopology::ResolveMsaa] {
        assert_eq!(framebuffer_slots(&t).len(), t.attachments().len());
    }
}

#[test]
fn subpass_layouts_point_into_attachment_lists() {
    let d = RenderPassTopology::Direct.subpass();
    assert_eq!((d.color_index, d.depth_index, d.resolve_index), (0, 1, None));
    let m = RenderPassTopology::ResolveMsaa.subpass();
    assert_eq!((m.color_index, m.depth_index, m.resolve_index), (0, 2, Some(1)));
    assert_eq!(RenderPassTopology::Direct.color_samples(), 1);
    assert_eq!(RenderPassTopology::ResolveMsaa.color_samples(), 8);
}

#[test]
fn vertex_layout_streams() {
    let c = vertex_input_layout();
    assert_eq!(c.vertex_stream, vec![VertexAttribute::Position, VertexAttribute::Normal]);
    assert_eq!(
        c.instance_stream,
        vec![InstanceAttribute::Transform, InstanceAttribute::Colour, InstanceAttribute::Scale]
    );
}

#[test]
fn clear_value_lists_match_passes() {
    assert_eq!(
        clear_values(&RenderPassTopology::Direct),
        vec![ClearKind::Color, ClearKind::Depth]
    );
    assert_eq!(
        clear_values(&RenderPassTopology::ResolveMsaa),
        vec![ClearKind::Color, ClearKind::Color, ClearKind::Depth]
    );
}

#[test]
fn frame_flags_per_level() {
    let f = frame_flags(Levels::ONE);
    assert_eq!((f.projection, f.lighting), (0, 0));
    let f = frame_flags(Levels::TWO);
    assert_eq!((f.projection, f.lighting), (1, 0));
    let f = frame_flags(Levels::FOUR);
    assert_eq!((f.projection, f.lighting), (1, 0));
    let f = frame_flags(Levels::FIVE);
    assert_eq!((f.projection, f.lighting), (1, 1));
}

#[test]
fn frame_step_decision() {
    assert_eq!(frame_step(true, 0, 720), FrameStep::Skip);
    assert_eq!(frame_step(false, 1280, 0), FrameStep::Skip);
    assert_eq!(frame_step(true, 1280, 720), FrameStep::RebuildAndDraw);
    assert_eq!(frame_step(false, 1280, 720), FrameStep::Draw);
}

#[test]
fn frame_targets_are_mutually_consistent() {
    for n in 1u8..=5 {
        let level = Levels::from_index(n).unwrap();
        let t = build_frame_targets(level, 800, 600);
        assert_eq!(t.render_pass, select(level));
        assert_eq!(t.attachments, build_attachment_set(level, 800, 600));
        assert_eq!(t.pipeline.render_pass, t.render_pass);
        assert_eq!(t.pipeline.rasterization_samples, t.attachments.depth.samples);
        assert_eq!(
            t.attachments.color_intermediary.is_some(),
            t.render_pass == RenderPassTopology::ResolveMsaa
        );
    }
}

#[test]
fn frame_context_rebuilds_only_on_change() {
    let mut c = FrameContext::new(Levels::ONE, 640, 480);
    assert_eq!(c.current_render_pass(), &RenderPassTopology::Direct);
    assert_eq!(c.current_pipeline().depth_stencil, DepthStencilMode::Disabled);

    assert!(!c.update(Levels::ONE, 640, 480));

    assert!(c.update(Levels::FOUR, 640, 480));
    assert_eq!(c.current_render_pass(), &RenderPassTopology::ResolveMsaa);
    assert_eq!(c.current_pipeline().depth_stencil, DepthStencilMode::SimpleLessTest);
    assert_eq!(c.current_pipeline().rasterization_samples, 8);
    assert_eq!(c.current_attachment_set().depth.samples, 8);

    assert!(c.update(Levels::FOUR, 1024, 768));
    assert_eq!(c.current_pipeline().viewport.width, 1024);
    assert_eq!(c.current_attachment_set().depth.height, 768);
}

#[test]
fn draw_call_covers_buffers_from_start() {
    let d = draw_call(2904, 8);
    assert_eq!(d.index_count, 2904);
    assert_eq!(d.instance_count, 8);
    assert_eq!((d.first_index, d.vertex_offset, d.first_instance), (0, 0, 0));
}
