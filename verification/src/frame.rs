//! Per-frame decisions of the frame loop: when to rebuild the frame
//! targets, what to clear, what uniform flags to upload, and what to draw.

use vstd::pervasive::unreached;
use vstd::prelude::*;

use crate::attachments::{build_attachment_set, spec_attachment_set, AttachmentSet};
use crate::pipeline::{build, spec_pipeline_for, PipelineConfig};
use crate::render_pass::{select, spec_select, RenderPassTopology};
use crate::settings::Levels;

verus! {

/// The three mutually consistent pieces a frame target is built from: the
/// render-pass topology, the attachment set, and the pipeline state.
///
/// Bundling them in one constructor makes the compatibility invariant
/// between them structural: a `FrameTargets` cannot be built partially, so
/// its pieces can never disagree about the level they serve.
#[derive(Clone, Debug, PartialEq, Eq)]
pub struct FrameTargets {
    pub render_pass: RenderPassTopology,
    pub attachments: AttachmentSet,
    pub pipeline: PipelineConfig,
}

impl FrameTargets {
    /// The bundle is exactly what one level and target extent require: the
    /// selected topology, the matching attachment set, and a pipeline built
    /// against that topology, all mutually compatible.
    pub open spec fn wf_for(self, level: Levels, width: u32, height: u32) -> bool {
        &&& self.render_pass == spec_select(level)
        &&& self.attachments == spec_attachment_set(level, width, height)
        &&& self.attachments.compatible_with(self.render_pass)
        &&& spec_pipeline_for(self.pipeline, self.render_pass, level, width, height)
    }
}

/// Builds the render pass, attachment set, and pipeline for one level and
/// target extent in a single step.
///
/// The pipeline is compiled against the topology selected for the same
/// level, so the construction cannot hit a configuration mismatch.
pub fn build_frame_targets(level: Levels, width: u32, height: u32) -> (t: FrameTargets)
    ensures
        t.wf_for(level, width, height),
{
    let render_pass = select(level);
    let attachments = build_attachment_set(level, width, height);
    match build(render_pass, level, width, height) {
        Ok(pipeline) => FrameTargets { render_pass, attachments, pipeline },
        Err(_) => unreached(),
    }
}

/// The frame loop's configuration state: the level and target extent last
/// rendered at, and the targets built for them.
#[derive(Clone, Debug)]
pub struct FrameContext {
    pub level: Levels,
    pub width: u32,
    pub height: u32,
    pub targets: FrameTargets,
}

impl FrameContext {
    /// The held targets are the ones the held level and extent require.
    pub open spec fn wf(self) -> bool {
        self.targets.wf_for(self.level, self.width, self.height)
    }

    /// Builds the initial configuration for a level and target extent.
    pub fn new(level: Levels, width: u32, height: u32) -> (c: FrameContext)
        ensures
            c.wf(),
            c.level == level,
            c.width == width,
            c.height == height,
    {
        FrameContext { level, width, height, targets: build_frame_targets(level, width, height) }
    }

    /// Brings the configuration up to date with the level and extent read
    /// this frame: rebuilds all three targets if either changed, and leaves
    /// everything untouched otherwise. Returns whether a rebuild happened.
    pub fn update(&mut self, level: Levels, width: u32, height: u32) -> (rebuilt: bool)
        requires
            old(self).wf(),
        ensures
            final(self).wf(),
            final(self).level == level,
            final(self).width == width,
            final(self).height == height,
            rebuilt == !(old(self).level == level && old(self).width == width && old(
                self,
            ).height == height),
            !rebuilt ==> *final(self) == *old(self),
    {
        let changed = !(self.level.index() == level.index() && self.width == width && self.height
            == height);
        if changed {
            self.level = level;
            self.width = width;
            self.height = height;
            self.targets = build_frame_targets(level, width, height);
        }
        changed
    }

    pub fn current_render_pass(&self) -> (t: &RenderPassTopology)
        ensures
            t == self.targets.render_pass,
    {
        &self.targets.render_pass
    }

    pub fn current_attachment_set(&self) -> (s: &AttachmentSet)
        ensures
            s == self.targets.attachments,
    {
        &self.targets.attachments
    }

    pub fn current_pipeline(&self) -> (p: &PipelineConfig)
        ensures
            p == self.targets.pipeline,
    {
        &self.targets.pipeline
    }
}

/// What a frame iteration does before any drawing.
#[derive(Clone, Copy, Debug, PartialEq, Eq, Structural)]
pub enum FrameStep {
    /// The target has zero area; render nothing this frame.
    Skip,
    /// Level or extent changed; rebuild the frame targets, then draw.
    RebuildAndDraw,
    /// Nothing changed; draw with the current targets.
    Draw,
}

/// Decides what a frame iteration does, from the rebuild flag and the
/// window extent read this frame: a zero-area target skips the frame, a
/// pending rebuild request rebuilds first, and otherwise the frame draws
/// directly.
pub fn frame_step(rebuild_requested: bool, width: u32, height: u32) -> (s: FrameStep)
    ensures
        s is Skip <==> (width == 0 || height == 0),
        s is RebuildAndDraw <==> (width != 0 && height != 0 && rebuild_requested),
        s is Draw <==> (width != 0 && height != 0 && !rebuild_requested),
{
    if width == 0 || height == 0 {
        FrameStep::Skip
    } else if rebuild_requested {
        FrameStep::RebuildAndDraw
    } else {
        FrameStep::Draw
    }
}

/// The kind of clear value each attachment of a pass needs when the pass
/// begins.
#[derive(Clone, Copy, Debug, PartialEq, Eq, Structural)]
pub enum ClearKind {
    /// A clear color (the background color of the demo).
    Color,
    /// A clear depth (the far value 1.0).
    Depth,
}

/// One clear value per attachment of the pass, in attachment order: a color
/// clear for each color attachment and a depth clear for the depth
/// attachment.
pub fn clear_values(t: &RenderPassTopology) -> (v: Vec<ClearKind>)
    ensures
        v@.len() == t.spec_attachments().len(),
        forall|i: int|
            0 <= i < v@.len() ==> (v@[i] is Depth <==> t.spec_attachments()[i].format is D16Unorm),
{
    match t {
        RenderPassTopology::Direct => vec![ClearKind::Color, ClearKind::Depth],
        RenderPassTopology::ResolveMsaa => vec![ClearKind::Color, ClearKind::Color, ClearKind::Depth],
    }
}

/// The per-frame uniform flags handed to the shader stages, already in the
/// 0/1 word encoding the uniform block uses.
#[derive(Clone, Copy, Debug, PartialEq, Eq, Structural)]
pub struct FrameFlags {
    /// 1 when perspective projection is applied to vertices.
    pub projection: u32,
    /// 1 when the fragment stage applies lighting.
    pub lighting: u32,
}

/// Computes the uniform flags for a level: projection from `TWO` upward,
/// lighting at `FIVE`.
pub fn frame_flags(level: Levels) -> (f: FrameFlags)
    ensures
        f.projection == (if level.spec_projection_enabled() { 1u32 } else { 0u32 }),
        f.lighting == (if level.spec_lighting_enabled() { 1u32 } else { 0u32 }),
{
    FrameFlags {
        projection: if level.projection_enabled() { 1 } else { 0 },
        lighting: if level.lighting_enabled() { 1 } else { 0 },
    }
}

/// The one indexed, instanced draw of a frame, covering every index of the
/// mesh and every configured instance from the start of both buffers.
#[derive(Clone, Copy, Debug, PartialEq, Eq, Structural)]
pub struct DrawCall {
    pub index_count: u32,
    pub instance_count: u32,
    pub first_index: u32,
    pub vertex_offset: i32,
    pub first_instance: u32,
}

/// Builds the frame's single draw call from the sizes of the index and
/// instance buffers.
pub fn draw_call(index_count: u32, instance_count: u32) -> (d: DrawCall)
    ensures
        d == (DrawCall {
            index_count,
            instance_count,
            first_index: 0u32,
            vertex_offset: 0i32,
            first_instance: 0u32,
        }),
{
    DrawCall { index_count, instance_count, first_index: 0, vertex_offset: 0, first_instance: 0 }
}

} // verus!
