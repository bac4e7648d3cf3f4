//! Feature-level-driven configuration for a staged rendering demo.
//!
//! A discrete capability level selects which rendering techniques are active
//! (perspective projection, depth testing, multisampling, lighting). This
//! crate holds the configuration logic that must stay mutually consistent
//! when the level or the window size changes: which render-pass topology to
//! use, which framebuffer attachments to allocate, and how the graphics
//! pipeline's fixed-function state is set. The GPU and windowing layer itself
//! consumes these descriptions; it is not part of this crate.

pub mod attachments;
pub mod frame;
pub mod pipeline;
pub mod render_pass;
pub mod settings;
