//! Construction of the attachment images a frame target needs at a level.

use vstd::assert_seqs_equal;
use vstd::prelude::*;

use crate::render_pass::{AttachmentDesc, AttachmentFormat, RenderPassTopology};
use crate::settings::Levels;

verus! {

/// Description of one attachment image to allocate: its format, sample
/// count, and extent in pixels.
#[derive(Clone, Copy, Debug, PartialEq, Eq, Structural)]
pub struct ImageViewDesc {
    pub format: AttachmentFormat,
    pub samples: u8,
    pub width: u32,
    pub height: u32,
}

/// The attachment images owned by one frame target at a given level: always
/// a depth attachment, and additionally a multisampled color intermediary
/// when the level multisamples. The presentation image itself is owned by
/// the swapchain and is not listed here.
#[derive(Clone, Copy, Debug, PartialEq, Eq, Structural)]
pub struct AttachmentSet {
    pub depth: ImageViewDesc,
    pub color_intermediary: Option<ImageViewDesc>,
}

/// The sample count a level renders at: 8 when multisampling, 1 otherwise.
pub open spec fn spec_sample_count(level: Levels) -> u8 {
    if level.spec_multisample_enabled() {
        8
    } else {
        1
    }
}

/// The sample count a level renders at.
pub fn sample_count(level: Levels) -> (n: u8)
    ensures
        n == spec_sample_count(level),
{
    if level.multisample_enabled() {
        8
    } else {
        1
    }
}

/// The attachment set a level requires for a target of the given extent.
pub open spec fn spec_attachment_set(level: Levels, width: u32, height: u32) -> AttachmentSet {
    AttachmentSet {
        depth: ImageViewDesc {
            format: AttachmentFormat::D16Unorm,
            samples: spec_sample_count(level),
            width,
            height,
        },
        color_intermediary: if level.spec_multisample_enabled() {
            Some(ImageViewDesc {
                format: AttachmentFormat::TargetColor,
                samples: 8,
                width,
                height,
            })
        } else {
            None
        },
    }
}

impl AttachmentSet {
    /// Well-formedness for a target extent: the depth attachment covers the
    /// target at the fixed depth format, the intermediary (when present)
    /// covers it at the color format with 8 samples, and the depth sample
    /// count equals the color sample count (8 with an intermediary, 1
    /// without).
    pub open spec fn wf(self, width: u32, height: u32) -> bool {
        &&& self.depth.format is D16Unorm
        &&& self.depth.width == width
        &&& self.depth.height == height
        &&& match self.color_intermediary {
            Some(c) => {
                &&& c.format is TargetColor
                &&& c.samples == 8
                &&& c.width == width
                &&& c.height == height
                &&& self.depth.samples == 8
            },
            None => self.depth.samples == 1,
        }
    }

    /// The set fits a render-pass topology when it supplies exactly the
    /// pass-owned attachments the topology draws into: an 8-sample depth
    /// attachment and an 8-sample color intermediary for `ResolveMsaa`, a
    /// single-sample depth attachment and no intermediary for `Direct`.
    pub open spec fn compatible_with(self, t: RenderPassTopology) -> bool {
        match t {
            RenderPassTopology::Direct => {
                &&& self.color_intermediary is None
                &&& self.depth.samples == 1
            },
            RenderPassTopology::ResolveMsaa => {
                &&& self.color_intermediary matches Some(c) && c.samples == 8
                &&& self.depth.samples == 8
            },
        }
    }
}

/// Builds the attachment set for a level and target extent.
///
/// The returned set always holds a depth attachment in the fixed 16-bit
/// depth format whose sample count matches the level (8 when multisampling,
/// 1 otherwise), and holds an 8-sample color intermediary exactly when the
/// level multisamples.
pub fn build_attachment_set(level: Levels, width: u32, height: u32) -> (s: AttachmentSet)
    ensures
        s == spec_attachment_set(level, width, height),
        s.wf(width, height),
        s.color_intermediary is Some <==> level.spec_multisample_enabled(),
        s.depth.samples == spec_sample_count(level),
{
    let samples = sample_count(level);
    let depth = ImageViewDesc {
        format: AttachmentFormat::D16Unorm,
        samples,
        width,
        height,
    };
    let color_intermediary = if level.multisample_enabled() {
        Some(ImageViewDesc {
            format: AttachmentFormat::TargetColor,
            samples: 8,
            width,
            height,
        })
    } else {
        None
    };
    AttachmentSet { depth, color_intermediary }
}

/// Which image is bound in one framebuffer slot.
#[derive(Clone, Copy, Debug, PartialEq, Eq, Structural)]
pub enum FramebufferSlot {
    /// The 8-sample color intermediary of the attachment set.
    Intermediary,
    /// The single-sample presentation image of the swapchain.
    Output,
    /// The depth attachment of the attachment set.
    Depth,
}

/// The image in a slot supplies what the render-pass attachment declared
/// there expects: color format and 8 samples for the intermediary, color
/// format and 1 sample for the presentation image, the depth format for the
/// depth attachment.
pub open spec fn slot_fits(s: FramebufferSlot, a: AttachmentDesc) -> bool {
    match s {
        FramebufferSlot::Intermediary => a.format is TargetColor && a.samples == 8,
        FramebufferSlot::Output => a.format is TargetColor && a.samples == 1,
        FramebufferSlot::Depth => a.format is D16Unorm,
    }
}

/// The images to bind for one framebuffer, in the attachment order of the
/// pass: intermediary, presentation image and depth for `ResolveMsaa`;
/// presentation image and depth for `Direct`. Slot by slot, each bound
/// image fits the attachment the pass declares there.
pub fn framebuffer_slots(t: &RenderPassTopology) -> (v: Vec<FramebufferSlot>)
    ensures
        v@.len() == t.spec_attachments().len(),
        forall|i: int| 0 <= i < v@.len() ==> slot_fits(v@[i], t.spec_attachments()[i]),
        t is ResolveMsaa ==> v@ == seq![
            FramebufferSlot::Intermediary,
            FramebufferSlot::Output,
            FramebufferSlot::Depth,
        ],
        t is Direct ==> v@ == seq![FramebufferSlot::Output, FramebufferSlot::Depth],
{
    match t {
        RenderPassTopology::Direct => {
            let v = vec![FramebufferSlot::Output, FramebufferSlot::Depth];
            proof {
                assert_seqs_equal!(v@ == seq![FramebufferSlot::Output, FramebufferSlot::Depth]);
            }
            v
        },
        RenderPassTopology::ResolveMsaa => {
            let v = vec![
                FramebufferSlot::Intermediary,
                FramebufferSlot::Output,
                FramebufferSlot::Depth,
            ];
            proof {
                assert_seqs_equal!(v@ == seq![
                    FramebufferSlot::Intermediary,
                    FramebufferSlot::Output,
                    FramebufferSlot::Depth,
                ]);
            }
            v
        },
    }
}

/// A well-formed set compatible with a topology supplies its images at the
/// sample counts and formats the pass declares for their slots: the depth
/// image matches the pass's depth attachment, and when the pass resolves,
/// the color intermediary exists and matches the pass's multisampled color
/// attachment.
pub proof fn lemma_compatible_set_fills_slots(
    s: AttachmentSet,
    t: RenderPassTopology,
    width: u32,
    height: u32,
)
    requires
        s.wf(width, height),
        s.compatible_with(t),
    ensures
        ({
            let depth_slot = t.spec_attachments()[t.spec_subpass().depth_index as int];
            s.depth.samples == depth_slot.samples && s.depth.format == depth_slot.format
        }),
        t is ResolveMsaa ==> (s.color_intermediary matches Some(c) && c.samples
            == t.spec_attachments()[0].samples && c.format == t.spec_attachments()[0].format),
{
}

/// The attachment set built for a level always fits the render-pass
/// topology selected for the same level, so building both from one level
/// can never produce a configuration mismatch.
pub proof fn lemma_attachments_fit_selected_pass(level: Levels, width: u32, height: u32)
    ensures
        spec_attachment_set(level, width, height).compatible_with(
            crate::render_pass::spec_select(level),
        ),
{
}

} // verus!
