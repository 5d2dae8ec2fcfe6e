//! The MetalFX operating modes.

use vstd::prelude::*;

verus! {

/// MetalFX operating mode.
#[derive(Debug, Clone, Copy, PartialEq, Eq, Structural)]
pub enum MetalFxMode {
    /// Single-frame spatial upscaling. Needs only color input.
    Spatial,
    /// Temporal upscaling with motion vectors and jitter.
    Temporal,
    /// Frame interpolation: generates intermediate frames between rendered frames.
    FrameInterpolation,
    /// Bypass MetalFX and render with Bevy's own upscaling.
    Disabled,
}

impl Default for MetalFxMode {
    fn default() -> (r: Self)
        ensures
            r == MetalFxMode::Spatial,
    {
        MetalFxMode::Spatial
    }
}

} // verus!
