//! Plain values exchanged with the windowing collaborator.
//!
//! Window creation and event polling happen outside this crate; the engine
//! only consumes the framebuffer size the collaborator reports.

use vstd::prelude::*;
use crate::swapchain::Extent2d;

verus! {

/// A window size in pixels.
#[derive(Clone, Copy, Debug, PartialEq, Eq, Structural)]
pub struct WindowSize {
    pub width: u32,
    pub height: u32,
}

impl WindowSize {
    /// The same size, as a surface extent.
    pub fn as_extent(&self) -> (r: Extent2d)
        ensures
            r.width == self.width,
            r.height == self.height,
    {
        Extent2d { width: self.width, height: self.height }
    }
}

} // verus!
