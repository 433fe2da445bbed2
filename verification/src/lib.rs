//! Core of an offline physically based renderer: a scene-query surface over
//! an aggregate and its lights, a reproducible sampler, a wave scheduler that
//! drives per-pixel sampling in geometrically growing batches, and a recursive
//! random-walk radiance estimator.
//!
//! Radiometric and geometric quantities are carried as fixed-point values
//! ([`fp::Fp`]), so every arithmetic step has an exact, machine-checked
//! meaning.
use vstd::prelude::*;

pub mod bounds;
pub mod camera;
pub mod context;
pub mod cpu;
pub mod film;
pub mod fp;
pub mod lights;
pub mod math;
pub mod media;
pub mod primitives;
pub mod rays;
pub mod sampler;
pub mod scene;
pub mod scratch;
pub mod spectrum;

use crate::bounds::Bounds2i;
use crate::camera::OrthographicCamera;
use crate::cpu::integrator::{
    spec_cell_after, AggregateIntersector, RandomWalkIntegrator, RayIntegrator,
};
use crate::film::{spec_empty_pixel, spec_pixel_index, Film, Filter};
use crate::fp::Fp;
use crate::lights::spec_preprocess;
use crate::primitives::SceneAggregate;
use crate::sampler::{spec_new_sampler, Sampler};
use crate::scene::BasicScene;

verus! {

/// What it means for a film to be the render of a scene: there is a
/// preprocessed scene-query surface, determined by the scene, under which
/// every pixel's accumulator is the fold of all its sample contributions in
/// index order, starting from an empty film.
pub open spec fn spec_rendered_film(scene: BasicScene, film: Film) -> bool {
    exists|inter: AggregateIntersector<SceneAggregate>|
        {
            &&& (#[trigger] inter.wf())
            &&& inter.aggregate == scene.aggregate
            &&& inter.lights@.len() == scene.lights@.len()
            &&& forall|i: int|
                0 <= i < scene.lights@.len() ==> inter.lights@[i] == spec_preprocess(
                    #[trigger] scene.lights@[i],
                    AggregateIntersector::<SceneAggregate>::spec_scene_bounds(scene.aggregate),
                )
            &&& film.bounds == (Bounds2i { nx: scene.width, ny: scene.height })
            &&& film.filter == (Filter { radius: Fp { bits: 32768 } })
            &&& film.uses_vis == scene.uses_visible_surface
            &&& film.wf()
            &&& forall|a: int, b: int|
                0 <= a < scene.width && 0 <= b < scene.height
                    ==> #[trigger] film.pixels@[spec_pixel_index(film.bounds, a, b)]
                    == spec_cell_after(
                    RayIntegrator {
                        radiance_computer: RandomWalkIntegrator {
                            intersector: inter,
                            max_depth: scene.max_depth,
                        },
                        scale_differentials: false,
                    },
                    OrthographicCamera { shutter_time: Fp { bits: 0 } },
                    Filter { radius: Fp { bits: 32768 } },
                    scene.uses_visible_surface,
                    spec_new_sampler(scene.seed, scene.spp),
                    a,
                    b,
                    spec_empty_pixel(),
                    scene.spp as int,
                )
        }
}

/// The driver's handle on the renderer.
pub struct Context {
    /// Whether progress reporting should keep quiet.
    pub quiet: bool,
}

impl Context {
    pub fn new(options: &Options) -> (r: Self)
        ensures
            r.quiet == options.quiet,
    {
        Context { quiet: options.quiet }
    }

    /// Run the full render over the scene and hand back the populated film.
    pub fn render(&self, scene: BasicScene) -> (r: Film)
        requires
            scene.wf(),
        ensures
            spec_rendered_film(scene, r),
    {
        let bounds = Bounds2i::new(scene.width, scene.height);
        let filter = Filter { radius: Fp { bits: 32768 } };
        let film = Film::new(bounds, filter, scene.uses_visible_surface);
        let camera = OrthographicCamera { shutter_time: Fp { bits: 0 } };
        let sampler = Sampler::new(scene.seed, scene.spp);
        let intersector = AggregateIntersector::new(scene.aggregate, scene.lights);
        let ghost witness = intersector;
        let ghost pixels0 = film.pixels@;
        let mut integrator = RandomWalkIntegrator::new(
            scene.max_depth,
            camera,
            film,
            sampler,
            intersector,
        );
        let mut options = Options::default();
        options.quiet = self.quiet;
        let _progress = integrator.render(&options);
        let rendered = integrator.film;
        proof {
            assert forall|a: int, b: int|
                0 <= a < scene.width && 0 <= b < scene.height implies #[trigger] rendered.pixels@[spec_pixel_index(
                rendered.bounds,
                a,
                b,
            )] == spec_cell_after(
                RayIntegrator {
                    radiance_computer: RandomWalkIntegrator {
                        intersector: witness,
                        max_depth: scene.max_depth,
                    },
                    scale_differentials: false,
                },
                OrthographicCamera { shutter_time: Fp { bits: 0 } },
                Filter { radius: Fp { bits: 32768 } },
                scene.uses_visible_surface,
                spec_new_sampler(scene.seed, scene.spp),
                a,
                b,
                spec_empty_pixel(),
                scene.spp as int,
            ) by {
                crate::film::lemma_pixel_index_in_range(rendered.bounds, a, b);
            }
            assert(spec_rendered_film(scene, rendered));
        }
        rendered
    }
}

/// Which coordinate system the renderer works in.
#[derive(Clone, Copy, PartialEq, Eq, Structural, Debug)]
pub enum RenderingCoordinateSystem {
    Camera,
    CameraWorld,
    World,
}

impl Default for RenderingCoordinateSystem {
    fn default() -> (r: RenderingCoordinateSystem)
        ensures
            r == RenderingCoordinateSystem::CameraWorld,
    {
        RenderingCoordinateSystem::CameraWorld
    }
}

/// Process-wide rendering options.
#[derive(Debug)]
pub struct Options {
    pub seed: u32,
    pub quiet: bool,
    pub disable_pixel_jitter: bool,
    pub disable_wavelength_jitter: bool,
    pub disable_texture_filtering: bool,
    pub force_diffuse: bool,
    pub use_gpu: bool,
    pub wavefront: bool,
    pub rendering_space: RenderingCoordinateSystem,
    /// Scene description names handed over by the driver.
    pub scenes: Vec<String>,
}

impl Default for Options {
    fn default() -> (r: Options)
        ensures
            r.seed == 0,
            r.quiet == false,
            r.disable_pixel_jitter == false,
            r.disable_wavelength_jitter == false,
            r.disable_texture_filtering == false,
            r.force_diffuse == false,
            r.use_gpu == false,
            r.wavefront == false,
            r.rendering_space == RenderingCoordinateSystem::CameraWorld,
            r.scenes@.len() == 0,
    {
        Options {
            seed: 0,
            quiet: false,
            disable_pixel_jitter: false,
            disable_wavelength_jitter: false,
            disable_texture_filtering: false,
            force_diffuse: false,
            use_gpu: false,
            wavefront: false,
            rendering_space: RenderingCoordinateSystem::CameraWorld,
            scenes: Vec::new(),
        }
    }
}

} // verus!
