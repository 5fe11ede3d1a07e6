//! The commands that a renderer records for the graphics device.

use vstd::prelude::*;
use crate::resource::{BoundResources, ColorTarget, DepthTarget};

verus! {

/// The vertices that a draw call covers: from `start` up to, not including,
/// `end`.
#[derive(Clone, Copy, Debug, PartialEq, Eq)]
pub struct DrawRange {
    pub start: u32,
    pub end: u32,
}

impl DrawRange {
    /// Number of vertices in the range.
    pub open spec fn count(self) -> int {
        self.end - self.start
    }
}

/// One command for the graphics device.
#[allow(inconsistent_fields)]
#[derive(Clone, Copy, Debug, PartialEq, Eq)]
pub enum Command {
    /// Fill a color target with one color: red, green, blue, alpha, each a
    /// single-precision bit pattern.
    ClearColor { target: ColorTarget, value: [u32; 4] },
    /// Fill the depth of a target with one depth, a single-precision bit
    /// pattern.
    ClearDepth { target: DepthTarget, depth: u32 },
    /// Fill the stencil of a target with one value.
    ClearStencil { target: DepthTarget, stencil: u8 },
    /// Run the pipeline over a range of the bound vertex buffer. The
    /// resources are those bound when the command was recorded.
    Draw { range: DrawRange, data: BoundResources },
}

impl Command {
    /// Whether the command clears a target.
    pub open spec fn is_clear(self) -> bool {
        self is ClearColor || self is ClearDepth || self is ClearStencil
    }

    /// Whether the command draws.
    pub open spec fn is_draw(self) -> bool {
        self is Draw
    }
}

} // verus!
