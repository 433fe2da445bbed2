//! An earlier, smaller configuration surface kept alongside the main one.
use vstd::prelude::*;

use crate::film::Film;
use crate::scene::BasicScene;
use crate::{spec_rendered_film, Context};

verus! {

/// A reduced option set: execution backend switches and the scene list.
#[derive(Debug)]
pub struct LiliOptions {
    pub use_gpu: bool,
    pub use_wavefront: bool,
    /// Scene description names handed over by the driver.
    pub scenes: Vec<String>,
    pub quiet: bool,
}

impl LiliOptions {
    pub fn new(use_gpu: bool, use_wavefront: bool, scenes: Vec<String>, quiet: bool) -> (r:
        LiliOptions)
        ensures
            r.use_gpu == use_gpu,
            r.use_wavefront == use_wavefront,
            r.scenes == scenes,
            r.quiet == quiet,
    {
        LiliOptions { use_gpu, use_wavefront, scenes, quiet }
    }
}

/// The driver's handle on the renderer, built from the reduced options.
pub struct LiliContext {
    /// Whether progress reporting should keep quiet.
    pub quiet: bool,
}

impl LiliContext {
    pub fn new(options: &LiliOptions) -> (r: Self)
        ensures
            r.quiet == options.quiet,
    {
        LiliContext { quiet: options.quiet }
    }

    /// Run the full render over the scene and hand back the populated film.
    pub fn render(&self, scene: BasicScene) -> (r: Film)
        requires
            scene.wf(),
        ensures
            spec_rendered_film(scene, r),
    {
        let inner = Context { quiet: self.quiet };
        inner.render(scene)
    }
}

} // verus!
