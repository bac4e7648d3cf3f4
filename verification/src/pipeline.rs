//! Assembly of the graphics pipeline's fixed-function state for a level.

use vstd::assert_seqs_equal;
use vstd::prelude::*;

use crate::render_pass::RenderPassTopology;
use crate::settings::Levels;

verus! {

/// A per-vertex input attribute, in binding order.
#[derive(Clone, Copy, Debug, PartialEq, Eq, Structural)]
pub enum VertexAttribute {
    Position,
    Normal,
}

/// A per-instance input attribute, in binding order.
#[derive(Clone, Copy, Debug, PartialEq, Eq, Structural)]
pub enum InstanceAttribute {
    Transform,
    Colour,
    Scale,
}

/// The pipeline's two vertex input streams: one advancing per vertex, one
/// per instance.
#[derive(Clone, Debug, PartialEq, Eq)]
pub struct VertexInputConfig {
    pub vertex_stream: Vec<VertexAttribute>,
    pub instance_stream: Vec<InstanceAttribute>,
}

/// Depth-stencil state: either disabled outright (no depth writes or tests)
/// or the standard less-than test with writes.
#[derive(Clone, Copy, Debug, PartialEq, Eq, Structural)]
pub enum DepthStencilMode {
    Disabled,
    SimpleLessTest,
}

/// Fixed-function viewport covering the whole target (origin at zero, full
/// depth range, scissor irrelevant).
#[derive(Clone, Copy, Debug, PartialEq, Eq, Structural)]
pub struct ViewportConfig {
    pub width: u32,
    pub height: u32,
}

/// Errors of pipeline and frame-target construction.
#[derive(Clone, Copy, Debug, PartialEq, Eq, Structural)]
pub enum RenderError {
    /// The attachment structure or sample count disagrees with the render
    /// pass the pipeline is compiled against; a programming error, never
    /// produced when pass and state are derived from one level.
    ConfigurationMismatch,
    /// GPU image or memory allocation failed; fatal, surfaced upward.
    ResourceAllocationFailure,
    /// The pipeline failed to compile on the device; fatal, surfaced upward.
    PipelineCompilationFailure,
}

/// The complete fixed-function state of one graphics pipeline, bound to one
/// render-pass topology.
#[derive(Clone, Debug, PartialEq, Eq)]
pub struct PipelineConfig {
    pub vertex_input: VertexInputConfig,
    pub viewport: ViewportConfig,
    pub depth_stencil: DepthStencilMode,
    pub rasterization_samples: u8,
    pub render_pass: RenderPassTopology,
    pub subpass_index: usize,
}

/// The per-vertex stream carries position then normal.
pub open spec fn spec_vertex_stream() -> Seq<VertexAttribute> {
    seq![VertexAttribute::Position, VertexAttribute::Normal]
}

/// The per-instance stream carries transform, colour, then scale.
pub open spec fn spec_instance_stream() -> Seq<InstanceAttribute> {
    seq![InstanceAttribute::Transform, InstanceAttribute::Colour, InstanceAttribute::Scale]
}

/// The depth-stencil mode of a level: the standard less-than test exactly
/// when the level enables depth testing.
pub open spec fn spec_depth_mode(level: Levels) -> DepthStencilMode {
    if level.spec_depth_test_enabled() {
        DepthStencilMode::SimpleLessTest
    } else {
        DepthStencilMode::Disabled
    }
}

/// What `build` promises of a pipeline constructed for `pass`, `level` and
/// a viewport of `width` by `height`.
pub open spec fn spec_pipeline_for(
    p: PipelineConfig,
    pass: RenderPassTopology,
    level: Levels,
    width: u32,
    height: u32,
) -> bool {
    &&& p.vertex_input.vertex_stream@ == spec_vertex_stream()
    &&& p.vertex_input.instance_stream@ == spec_instance_stream()
    &&& p.viewport == (ViewportConfig { width, height })
    &&& p.depth_stencil == spec_depth_mode(level)
    &&& p.rasterization_samples == crate::attachments::spec_sample_count(level)
    &&& p.render_pass == pass
    &&& p.subpass_index == 0
}

/// Builds the vertex input layout: one per-vertex stream (position, normal)
/// and one per-instance stream (transform, colour, scale).
pub fn vertex_input_layout() -> (c: VertexInputConfig)
    ensures
        c.vertex_stream@ == spec_vertex_stream(),
        c.instance_stream@ == spec_instance_stream(),
{
    let vertex_stream = vec![VertexAttribute::Position, VertexAttribute::Normal];
    let instance_stream = vec![
        InstanceAttribute::Transform,
        InstanceAttribute::Colour,
        InstanceAttribute::Scale,
    ];
    proof {
        assert_seqs_equal!(vertex_stream@ == spec_vertex_stream());
        assert_seqs_equal!(instance_stream@ == spec_instance_stream());
    }
    VertexInputConfig { vertex_stream, instance_stream }
}

/// Assembles the pipeline state for a level against a render pass, with a
/// viewport sized to the target.
///
/// Succeeds exactly when the pass is the one the level requires; a pipeline
/// whose sample count disagrees with its render pass cannot compile, and is
/// reported as a `ConfigurationMismatch` instead of being built.
pub fn build(pass: RenderPassTopology, level: Levels, width: u32, height: u32) -> (r: Result<
    PipelineConfig,
    RenderError,
>)
    ensures
        r is Ok <==> pass == crate::render_pass::spec_select(level),
        r matches Ok(p) ==> spec_pipeline_for(p, pass, level, width, height),
        r matches Err(e) ==> e is ConfigurationMismatch,
{
    let samples = crate::attachments::sample_count(level);
    if samples != pass.color_samples() {
        return Err(RenderError::ConfigurationMismatch);
    }
    let depth_stencil = if level.depth_test_enabled() {
        DepthStencilMode::SimpleLessTest
    } else {
        DepthStencilMode::Disabled
    };
    Ok(
        PipelineConfig {
            vertex_input: vertex_input_layout(),
            viewport: ViewportConfig { width, height },
            depth_stencil,
            rasterization_samples: samples,
            render_pass: pass,
            subpass_index: 0,
        },
    )
}

} // verus!
