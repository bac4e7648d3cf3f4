//! The two render-pass topologies of the demo and the selection between them.

use vstd::assert_seqs_equal;
use vstd::prelude::*;

use crate::settings::Levels;

verus! {

/// Pixel format of an attachment image.
#[derive(Clone, Copy, Debug, PartialEq, Eq, Structural)]
pub enum AttachmentFormat {
    /// The format of the presentation target (fixed at swapchain creation).
    TargetColor,
    /// 16-bit unsigned normalized depth.
    D16Unorm,
}

/// What happens to an attachment's contents when the pass begins.
#[derive(Clone, Copy, Debug, PartialEq, Eq, Structural)]
pub enum LoadOp {
    Clear,
}

/// What happens to an attachment's contents when the pass ends.
#[derive(Clone, Copy, Debug, PartialEq, Eq, Structural)]
pub enum StoreOp {
    Store,
    DontCare,
}

/// One attachment slot of a render pass.
#[derive(Clone, Copy, Debug, PartialEq, Eq, Structural)]
pub struct AttachmentDesc {
    pub format: AttachmentFormat,
    pub samples: u8,
    pub load: LoadOp,
    pub store: StoreOp,
}

/// Where the single subpass finds each of its attachments, as indices into
/// the pass's attachment list.
#[derive(Clone, Copy, Debug, PartialEq, Eq, Structural)]
pub struct SubpassLayout {
    /// The attachment rendered into.
    pub color_index: usize,
    /// The depth attachment.
    pub depth_index: usize,
    /// The single-sample attachment the color attachment resolves into,
    /// when the pass multisamples.
    pub resolve_index: Option<usize>,
}

/// One of the two immutable render-pass shapes a pipeline can be compiled
/// against.
#[derive(Clone, Copy, Debug, PartialEq, Eq, Structural)]
pub enum RenderPassTopology {
    /// Single-sample color + depth, one subpass, no resolve.
    Direct,
    /// 8-sample color + depth, resolving into a single-sample color target.
    ResolveMsaa,
}

impl RenderPassTopology {
    /// The pass's attachment list, in declaration order.
    pub open spec fn spec_attachments(self) -> Seq<AttachmentDesc> {
        match self {
            RenderPassTopology::Direct => seq![
                AttachmentDesc {
                    format: AttachmentFormat::TargetColor,
                    samples: 1,
                    load: LoadOp::Clear,
                    store: StoreOp::Store,
                },
                AttachmentDesc {
                    format: AttachmentFormat::D16Unorm,
                    samples: 1,
                    load: LoadOp::Clear,
                    store: StoreOp::DontCare,
                },
            ],
            RenderPassTopology::ResolveMsaa => seq![
                AttachmentDesc {
                    format: AttachmentFormat::TargetColor,
                    samples: 8,
                    load: LoadOp::Clear,
                    store: StoreOp::DontCare,
                },
                AttachmentDesc {
                    format: AttachmentFormat::TargetColor,
                    samples: 1,
                    load: LoadOp::Clear,
                    store: StoreOp::Store,
                },
                AttachmentDesc {
                    format: AttachmentFormat::D16Unorm,
                    samples: 8,
                    load: LoadOp::Clear,
                    store: StoreOp::DontCare,
                },
            ],
        }
    }

    pub fn attachments(&self) -> (v: Vec<AttachmentDesc>)
        ensures
            v@ == self.spec_attachments(),
    {
        match self {
            RenderPassTopology::Direct => {
                let v = vec![
                    AttachmentDesc {
                        format: AttachmentFormat::TargetColor,
                        samples: 1,
                        load: LoadOp::Clear,
                        store: StoreOp::Store,
                    },
                    AttachmentDesc {
                        format: AttachmentFormat::D16Unorm,
                        samples: 1,
                        load: LoadOp::Clear,
                        store: StoreOp::DontCare,
                    },
                ];
                proof {
                    assert_seqs_equal!(v@ == self.spec_attachments());
                }
                v
            },
            RenderPassTopology::ResolveMsaa => {
                let v = vec![
                    AttachmentDesc {
                        format: AttachmentFormat::TargetColor,
                        samples: 8,
                        load: LoadOp::Clear,
                        store: StoreOp::DontCare,
                    },
                    AttachmentDesc {
                        format: AttachmentFormat::TargetColor,
                        samples: 1,
                        load: LoadOp::Clear,
                        store: StoreOp::Store,
                    },
                    AttachmentDesc {
                        format: AttachmentFormat::D16Unorm,
                        samples: 8,
                        load: LoadOp::Clear,
                        store: StoreOp::DontCare,
                    },
                ];
                proof {
                    assert_seqs_equal!(v@ == self.spec_attachments());
                }
                v
            },
        }
    }

    /// How the single subpass uses the attachment list.
    pub open spec fn spec_subpass(self) -> SubpassLayout {
        match self {
            RenderPassTopology::Direct => SubpassLayout {
                color_index: 0,
                depth_index: 1,
                resolve_index: None,
            },
            RenderPassTopology::ResolveMsaa => SubpassLayout {
                color_index: 0,
                depth_index: 2,
                resolve_index: Some(1),
            },
        }
    }

    pub fn subpass(&self) -> (s: SubpassLayout)
        ensures
            s == self.spec_subpass(),
    {
        match self {
            RenderPassTopology::Direct => SubpassLayout {
                color_index: 0,
                depth_index: 1,
                resolve_index: None,
            },
            RenderPassTopology::ResolveMsaa => SubpassLayout {
                color_index: 0,
                depth_index: 2,
                resolve_index: Some(1),
            },
        }
    }

    /// Sample count of the attachment the subpass renders into.
    pub open spec fn spec_color_samples(self) -> u8 {
        match self {
            RenderPassTopology::Direct => 1,
            RenderPassTopology::ResolveMsaa => 8,
        }
    }

    pub fn color_samples(&self) -> (n: u8)
        ensures
            n == self.spec_color_samples(),
    {
        match self {
            RenderPassTopology::Direct => 1,
            RenderPassTopology::ResolveMsaa => 8,
        }
    }
}

/// The topology required by a level: `ResolveMsaa` exactly when the level
/// enables multisampling, `Direct` otherwise.
pub open spec fn spec_select(level: Levels) -> RenderPassTopology {
    if level.spec_multisample_enabled() {
        RenderPassTopology::ResolveMsaa
    } else {
        RenderPassTopology::Direct
    }
}

/// Chooses the render-pass topology for a level.
pub fn select(level: Levels) -> (t: RenderPassTopology)
    ensures
        t == spec_select(level),
        t is ResolveMsaa <==> level.spec_multisample_enabled(),
{
    if level.multisample_enabled() {
        RenderPassTopology::ResolveMsaa
    } else {
        RenderPassTopology::Direct
    }
}

/// The subpass layout of either topology stays inside its attachment list
/// and points at attachments of the kind and sample count it names: the
/// color and resolve slots are color-format, the depth slot is depth-format,
/// and a resolve target is always single-sample.
pub proof fn lemma_subpass_layout_consistent(t: RenderPassTopology)
    ensures
        t.spec_subpass().color_index < t.spec_attachments().len(),
        t.spec_subpass().depth_index < t.spec_attachments().len(),
        t.spec_attachments()[t.spec_subpass().color_index as int].format is TargetColor,
        t.spec_attachments()[t.spec_subpass().color_index as int].samples
            == t.spec_color_samples(),
        t.spec_attachments()[t.spec_subpass().depth_index as int].format is D16Unorm,
        t.spec_attachments()[t.spec_subpass().depth_index as int].samples
            == t.spec_color_samples(),
        t.spec_subpass().resolve_index matches Some(i)
            ==> i < t.spec_attachments().len()
                && t.spec_attachments()[i as int].format is TargetColor
                && t.spec_attachments()[i as int].samples == 1,
        t.spec_subpass().resolve_index is Some <==> t is ResolveMsaa,
{
}

} // verus!
