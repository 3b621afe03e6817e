//! Render-pass planning.
//!
//! One frame uses a single color attachment: cleared on load, kept on
//! store, stencil ignored, arriving in an undefined layout and leaving
//! ready to present.

use vstd::prelude::*;

verus! {

/// Sample count of the single-sampled attachment.
pub const SAMPLE_COUNT_SINGLE: u32 = 1;

#[derive(Clone, Copy, Debug, PartialEq, Eq, Structural)]
pub enum AttachmentLoadOp {
    Clear,
    DontCare,
}

#[derive(Clone, Copy, Debug, PartialEq, Eq, Structural)]
pub enum AttachmentStoreOp {
    Store,
    DontCare,
}

#[derive(Clone, Copy, Debug, PartialEq, Eq, Structural)]
pub enum ImageLayout {
    Undefined,
    ColorAttachmentOptimal,
    PresentSource,
}

/// One attachment's load/store/transition behavior. The format is the
/// native format code of the swapchain images.
#[derive(Clone, Copy, Debug, PartialEq, Eq, Structural)]
pub struct AttachmentDescription {
    pub format: u32,
    pub samples: u32,
    pub load_op: AttachmentLoadOp,
    pub store_op: AttachmentStoreOp,
    pub stencil_load_op: AttachmentLoadOp,
    pub stencil_store_op: AttachmentStoreOp,
    pub initial_layout: ImageLayout,
    pub final_layout: ImageLayout,
}

/// The subpass's reference to the color attachment.
#[derive(Clone, Copy, Debug, PartialEq, Eq, Structural)]
pub struct AttachmentReference {
    pub attachment: u32,
    pub layout: ImageLayout,
}

/// The declared behavior of the one render pass the engine uses.
#[derive(Clone, Copy, Debug, PartialEq, Eq, Structural)]
pub struct RenderPassPlan {
    pub attachment: AttachmentDescription,
    pub color_reference: AttachmentReference,
}

/// Declare the render pass over images of the given format: clear on
/// load, keep on store, stencil untouched, undefined layout in,
/// present-ready layout out, and the color reference bound to attachment
/// zero in color-attachment layout.
pub fn plan_render_pass(image_format: u32) -> (r: RenderPassPlan)
    ensures
        r.attachment.format == image_format,
        r.attachment.samples == SAMPLE_COUNT_SINGLE,
        r.attachment.load_op == AttachmentLoadOp::Clear,
        r.attachment.store_op == AttachmentStoreOp::Store,
        r.attachment.stencil_load_op == AttachmentLoadOp::DontCare,
        r.attachment.stencil_store_op == AttachmentStoreOp::DontCare,
        r.attachment.initial_layout == ImageLayout::Undefined,
        r.attachment.final_layout == ImageLayout::PresentSource,
        r.color_reference.attachment == 0,
        r.color_reference.layout == ImageLayout::ColorAttachmentOptimal,
{
    RenderPassPlan {
        attachment: AttachmentDescription {
            format: image_format,
            samples: SAMPLE_COUNT_SINGLE,
            load_op: AttachmentLoadOp::Clear,
            store_op: AttachmentStoreOp::Store,
            stencil_load_op: AttachmentLoadOp::DontCare,
            stencil_store_op: AttachmentStoreOp::DontCare,
            initial_layout: ImageLayout::Undefined,
            final_layout: ImageLayout::PresentSource,
        },
        color_reference: AttachmentReference {
            attachment: 0,
            layout: ImageLayout::ColorAttachmentOptimal,
        },
    }
}

} // verus!
