//! The scene description handed to the renderer's driver entry point.
use vstd::prelude::*;

use crate::cpu::integrator::MAX_SPP;
use crate::lights::Light;
use crate::primitives::SceneAggregate;

verus! {

/// Everything a render needs: geometry, lights, and the sampling and film
/// configuration.  Scene-description parsing lives with the driver; this is
/// the already-built form.
pub struct BasicScene {
    /// The scene's combined geometry.
    pub aggregate: SceneAggregate,
    /// All lights, finite and infinite, not yet preprocessed.
    pub lights: Vec<Light>,
    /// Maximum recursion depth of the radiance estimator.
    pub max_depth: i32,
    /// Samples per pixel.
    pub spp: i32,
    /// Seed of the deterministic sample streams.
    pub seed: u64,
    /// Film width in pixels.
    pub width: i32,
    /// Film height in pixels.
    pub height: i32,
    /// Whether the film records auxiliary first-hit buffers.
    pub uses_visible_surface: bool,
}

impl BasicScene {
    /// A renderable configuration: at least one sample per pixel, a sane
    /// depth limit, and a film that fits the supported pixel range.
    pub open spec fn wf(self) -> bool {
        &&& 1 <= self.spp <= MAX_SPP
        &&& 0 <= self.max_depth <= 0x10_0000
        &&& 0 <= self.width <= 16384
        &&& 0 <= self.height <= 16384
    }

    /// Check at run time that the configuration is renderable.
    pub fn is_renderable(&self) -> (r: bool)
        ensures
            r == self.wf(),
    {
        1 <= self.spp && self.spp <= MAX_SPP && 0 <= self.max_depth && self.max_depth <= 0x10_0000
            && 0 <= self.width && self.width <= 16384 && 0 <= self.height && self.height <= 16384
    }
}

} // verus!
