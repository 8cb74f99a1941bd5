//! The normalized frame value that flows through the pipeline.

use vstd::prelude::*;

verus! {

/// One normalized snapshot of pixel data. Each element of `buffer`
/// packs 8-bit red, green and blue into one 32-bit value,
/// `(r << 16) | (g << 8) | b`, row-major with no padding.
#[derive(Debug)]
pub struct FrameData {
    pub width: u32,
    pub height: u32,
    pub buffer: Vec<u32>,
}

impl FrameData {
    /// A frame is well formed when its buffer holds exactly one
    /// packed pixel per coordinate. Frames that violate this are
    /// discarded by the pipeline, never delivered downstream.
    pub open spec fn wf(self) -> bool {
        self.buffer@.len() == self.width * self.height
    }
}

} // verus!
