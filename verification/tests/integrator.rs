use lili::bounds::{Bounds2i, Bounds3f};
use lili::camera::{BlockedCamera, Camera, CameraSample, OrthographicCamera};
use lili::cpu::integrator::{
    abs_dot, advance_wave, sample_uniform_sphere, AggregateIntersector, ProgressReporter,
    RandomWalkIntegrator,
};
use lili::film::{Film, Filter, VisibleSurface};
use lili::fp::{Fp, FP_ONE};
use lili::lights::{Light, LightType};
use lili::math::points::{Point2, Point3};
use lili::math::vectors::Vector3;
use lili::primitives::{
    ConstantBsdf, EnclosureSurface, SceneAggregate, Shading, ShapeIntersection,
    SurfaceInteraction,
};
use lili::rays::RayDifferential;
use lili::sampler::Sampler;
use lili::scene::BasicScene;
use lili::scratch::ScratchBuffer;
use lili::spectrum::{SampledSpectrum, SampledWavelengths};
use lili::context::{LiliContext, LiliOptions};
use lili::{Context, Options};

fn fp(bits: i64) -> Fp {
    Fp { bits }
}

fn test_wavelengths() -> SampledWavelengths {
    SampledWavelengths { l0: fp(23592960), l1: fp(31293440), l2: fp(38993920), l3: fp(46694400) }
}

fn enclosure(reflectance: SampledSpectrum, emission: SampledSpectrum) -> SceneAggregate {
    SceneAggregate::Enclosure(EnclosureSurface {
        surface: ShapeIntersection {
            intr: SurfaceInteraction {
                p: Point3::new(fp(0), fp(0), fp(FP_ONE)),
                time: fp(0),
            },
            shading: Shading { n: Vector3::new(fp(0), fp(0), fp(FP_ONE)) },
            emission,
            bsdf: ConstantBsdf { reflectance },
        },
        bounds: Bounds3f::default(),
    })
}

fn primary_ray() -> RayDifferential {
    RayDifferential::new(
        Point3::new(fp(0), fp(0), fp(0)),
        Vector3::new(fp(0), fp(0), fp(FP_ONE)),
        None,
    )
}

fn started_sampler(seed: u64, spp: i32) -> Sampler {
    let mut sampler = Sampler::new(seed, spp);
    sampler.start_pixel_sample(&Point2::new(0, 0), 0);
    sampler
}

#[test]
fn estimator_zero_lights_invalid_aggregate_is_zero() {
    let intersector = AggregateIntersector::new(SceneAggregate::Invalid, Vec::new());
    let walk = RandomWalkIntegrator { intersector, max_depth: 5 };
    let camera = OrthographicCamera { shutter_time: fp(0) };
    let mut sampler = started_sampler(9, 4);
    let mut scratch = ScratchBuffer::new();
    let lambda = test_wavelengths();
    for depth in 0..6 {
        let estimate =
            walk.li_random_walk(primary_ray(), &lambda, &mut sampler, &mut scratch, &camera, depth);
        assert_eq!(estimate, SampledSpectrum::zero());
    }
}

#[test]
fn estimator_single_infinite_light_returns_its_emission() {
    let l0 = SampledSpectrum::new(fp(3 * FP_ONE));
    let lights = vec![Light::new_infinite(l0)];
    let intersector = AggregateIntersector::new(SceneAggregate::Invalid, lights);
    let walk = RandomWalkIntegrator { intersector, max_depth: 3 };
    let camera = OrthographicCamera { shutter_time: fp(0) };
    let mut sampler = started_sampler(1, 4);
    let mut scratch = ScratchBuffer::new();
    let lambda = test_wavelengths();
    let estimate =
        walk.li_random_walk(primary_ray(), &lambda, &mut sampler, &mut scratch, &camera, 0);
    assert_eq!(estimate, l0);
}

#[test]
fn estimator_zero_bsdf_short_circuits_at_the_hit() {
    let emission = SampledSpectrum::new(fp(2 * FP_ONE));
    let aggregate = enclosure(SampledSpectrum::zero(), emission);
    let intersector = AggregateIntersector::new(aggregate, Vec::new());
    let walk = RandomWalkIntegrator { intersector, max_depth: 8 };
    let camera = OrthographicCamera { shutter_time: fp(0) };
    let mut sampler = started_sampler(5, 2);
    let mut scratch = ScratchBuffer::new();
    let lambda = test_wavelengths();
    let estimate =
        walk.li_random_walk(primary_ray(), &lambda, &mut sampler, &mut scratch, &camera, 0);
    assert_eq!(estimate, emission);
}

#[test]
fn estimator_terminates_at_the_depth_cutoff() {
    // A closed reflective environment: every path hits, so only the depth
    // cutoff can stop the walk.
    let emission = SampledSpectrum::new(fp(FP_ONE / 2));
    let aggregate = enclosure(SampledSpectrum::new(fp(FP_ONE)), emission);
    let intersector = AggregateIntersector::new(aggregate, Vec::new());
    let walk = RandomWalkIntegrator { intersector, max_depth: 6 };
    let camera = OrthographicCamera { shutter_time: fp(0) };
    let mut sampler = started_sampler(11, 2);
    let mut scratch = ScratchBuffer::new();
    let lambda = test_wavelengths();
    let estimate =
        walk.li_random_walk(primary_ray(), &lambda, &mut sampler, &mut scratch, &camera, 0);
    // Emission is collected at least once; the walk came back, so it ended
    // at or before the cutoff.
    assert!(estimate.c0.bits >= emission.c0.bits);
}

#[test]
fn wave_sizes_for_ten_samples() {
    assert_eq!(wave_sizes(10), vec![1, 1, 2, 4, 2]);
    assert_eq!(wave_sizes(10).iter().sum::<i32>(), 10);
}

#[test]
fn wave_sizes_for_two_hundred_samples() {
    assert_eq!(wave_sizes(200), vec![1, 1, 2, 4, 8, 16, 32, 64, 64, 8]);
    assert_eq!(wave_sizes(200).iter().sum::<i32>(), 200);
}

fn wave_sizes(spp: i32) -> Vec<i32> {
    let mut sizes = Vec::new();
    let mut wave_start: i32 = 0;
    let mut wave_end: i32 = if spp < 1 { spp } else { 1 };
    let mut next_wave_size: i32 = 1;
    while wave_start < spp {
        sizes.push(wave_end - wave_start);
        let advanced = advance_wave(wave_end, next_wave_size, spp);
        wave_start = wave_end;
        wave_end = advanced.0;
        next_wave_size = advanced.1;
    }
    sizes
}

#[test]
fn progress_updates_sum_to_spp_times_pixel_count() {
    let film = Film::new(Bounds2i::new(3, 2), Filter { radius: fp(FP_ONE / 2) }, false);
    let camera = OrthographicCamera { shutter_time: fp(0) };
    let sampler = Sampler::new(1, 10);
    let lights = vec![Light::new_infinite(SampledSpectrum::new(fp(FP_ONE)))];
    let intersector = AggregateIntersector::new(SceneAggregate::Invalid, lights);
    let mut integrator = RandomWalkIntegrator::new(2, camera, film, sampler, intersector);
    let progress = integrator.render(&Options::default());
    assert_eq!(progress.total, 10 * 6);
    assert_eq!(progress.done, progress.total);
}

#[test]
fn render_is_deterministic_for_a_fixed_seed() {
    let scene = || BasicScene {
        aggregate: enclosure(
            SampledSpectrum::new(fp(FP_ONE / 2)),
            SampledSpectrum::new(fp(FP_ONE)),
        ),
        lights: vec![Light::new_infinite(SampledSpectrum::new(fp(2 * FP_ONE)))],
        max_depth: 4,
        spp: 5,
        seed: 42,
        width: 4,
        height: 4,
        uses_visible_surface: false,
    };
    let context = Context::new(&Options::default());
    let film_one = context.render(scene());
    let film_two = context.render(scene());
    assert_eq!(film_one, film_two);
}

#[test]
fn render_of_empty_scene_accumulates_the_environment() {
    let l0 = SampledSpectrum::new(fp(3 * FP_ONE));
    let scene = BasicScene {
        aggregate: SceneAggregate::Invalid,
        lights: vec![Light::new_infinite(l0)],
        max_depth: 2,
        spp: 3,
        seed: 7,
        width: 2,
        height: 2,
        uses_visible_surface: false,
    };
    let context = Context::new(&Options::default());
    let film = context.render(scene);
    assert_eq!(film.pixels.len(), 4);
    for cell in &film.pixels {
        // Each of the three samples contributes the environment emission at
        // unit camera weight and unit filter weight.
        assert_eq!(cell.sum, SampledSpectrum::new(fp(9 * FP_ONE)));
        assert_eq!(cell.weight_sum, fp(3 * FP_ONE));
    }
    // Valid radiance throughout: nothing was clamped.
    assert_eq!(film.invalid_sample_count(), 0);
}

#[test]
fn both_context_surfaces_render_the_same_film() {
    let scene = || BasicScene {
        aggregate: SceneAggregate::Invalid,
        lights: vec![Light::new_infinite(SampledSpectrum::new(fp(FP_ONE)))],
        max_depth: 1,
        spp: 2,
        seed: 3,
        width: 2,
        height: 3,
        uses_visible_surface: false,
    };
    let lili_options = LiliOptions::new(false, false, Vec::new(), true);
    let from_reduced = LiliContext::new(&lili_options).render(scene());
    let from_full = Context::new(&Options::default()).render(scene());
    assert_eq!(from_reduced, from_full);
}

#[test]
fn blocked_camera_still_feeds_the_film_zero_samples() {
    let film = Film::new(Bounds2i::new(2, 1), Filter { radius: fp(FP_ONE / 2) }, false);
    let camera = BlockedCamera {};
    let sampler = Sampler::new(3, 4);
    let intersector: AggregateIntersector<SceneAggregate> =
        AggregateIntersector::new(SceneAggregate::Invalid, Vec::new());
    let mut integrator = RandomWalkIntegrator::new(1, camera, film, sampler, intersector);
    let progress = integrator.render(&Options::default());
    assert_eq!(progress.done, 8);
    for cell in &integrator.film.pixels {
        assert_eq!(cell.sum, SampledSpectrum::zero());
        assert_eq!(cell.weight_sum, fp(4 * FP_ONE));
    }
}

#[test]
fn invalid_negative_radiance_is_zeroed_before_accumulation() {
    // A surface reporting negative emission is an invalid numeric result;
    // the pixel evaluator must clamp it rather than accumulate it.
    let film = Film::new(Bounds2i::new(1, 1), Filter { radius: fp(FP_ONE / 2) }, false);
    let camera = OrthographicCamera { shutter_time: fp(0) };
    let sampler = Sampler::new(2, 2);
    let aggregate = enclosure(SampledSpectrum::zero(), SampledSpectrum::new(fp(-2 * FP_ONE)));
    let intersector = AggregateIntersector::new(aggregate, Vec::new());
    let mut integrator = RandomWalkIntegrator::new(3, camera, film, sampler, intersector);
    integrator.render(&Options::default());
    assert_eq!(integrator.film.pixels[0].sum, SampledSpectrum::zero());
    assert_eq!(integrator.film.pixels[0].weight_sum, fp(2 * FP_ONE));
    // Both samples were clamped, and the film's diagnostics say so.
    assert_eq!(integrator.film.pixels[0].invalid_samples, 2);
    assert_eq!(integrator.film.invalid_sample_count(), 2);
}

#[test]
fn aggregate_intersector_preprocesses_and_caches_infinite_lights() {
    let lights = vec![
        Light::new_finite(),
        Light::new_infinite(SampledSpectrum::new(fp(FP_ONE))),
        Light::new_finite(),
        Light::new_infinite(SampledSpectrum::new(fp(2 * FP_ONE))),
    ];
    let intersector = AggregateIntersector::new(SceneAggregate::Invalid, lights);
    assert_eq!(intersector.lights.len(), 4);
    assert_eq!(intersector.infinite_lights.len(), 2);
    for light in &intersector.lights {
        match light {
            Light::Finite(f) => assert!(f.preprocessed),
            Light::Infinite(i) => assert!(i.preprocessed),
        }
    }
    for light in &intersector.infinite_lights {
        assert_eq!(light.light_type(), LightType::Infinite);
    }
}

#[test]
fn invalid_aggregate_never_intersects() {
    let intersector: AggregateIntersector<SceneAggregate> =
        AggregateIntersector::new(SceneAggregate::Invalid, Vec::new());
    let ray = primary_ray();
    assert!(intersector.intersect(&ray.ray, Fp::max_value()).is_none());
    assert!(!intersector.intersect_p(&ray.ray, Fp::max_value()));
}

#[test]
fn lights_emit_only_when_infinite() {
    let emission = SampledSpectrum::new(fp(5 * FP_ONE));
    let infinite = Light::new_infinite(emission);
    let finite = Light::new_finite();
    let ray = primary_ray().ray;
    let lambda = test_wavelengths();
    assert_eq!(infinite.le(&ray, &lambda), emission);
    assert_eq!(finite.le(&ray, &lambda), SampledSpectrum::zero());
    assert_eq!(infinite.light_type(), LightType::Infinite);
    assert_eq!(finite.light_type(), LightType::Finite);
}

#[test]
fn light_preprocess_records_bounds_and_keeps_emission() {
    let emission = SampledSpectrum::new(fp(FP_ONE));
    let mut light = Light::new_infinite(emission);
    let bounds = Bounds3f {
        min: Point3::new(fp(-FP_ONE), fp(-FP_ONE), fp(-FP_ONE)),
        max: Point3::new(fp(FP_ONE), fp(FP_ONE), fp(FP_ONE)),
    };
    light.preprocess(&bounds);
    match light {
        Light::Infinite(i) => {
            assert!(i.preprocessed);
            assert_eq!(i.scene_bounds, bounds);
            assert_eq!(i.emission, emission);
        }
        Light::Finite(_) => panic!("preprocessing must keep the light's kind"),
    }
}

#[test]
fn orthographic_camera_shoots_along_z_with_unit_weight() {
    let camera = OrthographicCamera { shutter_time: fp(0) };
    let sample = CameraSample {
        p_film: Point2::new(fp(3 * FP_ONE / 2), fp(FP_ONE / 4)),
        filter_weight: fp(FP_ONE),
    };
    let generated = camera.generate_ray_differential(sample, &test_wavelengths()).unwrap();
    assert_eq!(generated.ray.ray.o, Point3::new(fp(3 * FP_ONE / 2), fp(FP_ONE / 4), fp(0)));
    assert_eq!(generated.ray.ray.d, Vector3::new(fp(0), fp(0), fp(FP_ONE)));
    assert_eq!(generated.weight, SampledSpectrum::new(fp(FP_ONE)));
    assert!(generated.ray.differential.is_none());
}

#[test]
fn blocked_camera_never_generates_a_ray() {
    let camera = BlockedCamera {};
    let sample = CameraSample { p_film: Point2::new(fp(0), fp(0)), filter_weight: fp(FP_ONE) };
    assert!(camera.generate_ray_differential(sample, &test_wavelengths()).is_none());
}

#[test]
fn camera_sample_jitters_inside_the_pixel_with_unit_weight() {
    let mut sampler = started_sampler(12, 4);
    let sample = CameraSample::new(&mut sampler, Point2::new(5, 9), Filter { radius: fp(32768) });
    assert_eq!(sample.filter_weight, fp(FP_ONE));
    assert!(sample.p_film.x.bits >= 5 * FP_ONE && sample.p_film.x.bits < 6 * FP_ONE);
    assert!(sample.p_film.y.bits >= 9 * FP_ONE && sample.p_film.y.bits < 10 * FP_ONE);
}

#[test]
fn film_accumulates_weighted_samples_per_pixel() {
    let mut film = Film::new(Bounds2i::new(2, 2), Filter { radius: fp(32768) }, false);
    let l = SampledSpectrum::new(fp(2 * FP_ONE));
    film.add_sample(
        Point2::new(1, 0),
        l,
        test_wavelengths(),
        &VisibleSurface::default(),
        fp(FP_ONE / 2),
    );
    // Index (1, 0) lives at 1 * ny + 0 = 2.
    assert_eq!(film.pixels[2].sum, SampledSpectrum::new(fp(FP_ONE)));
    assert_eq!(film.pixels[2].weight_sum, fp(FP_ONE / 2));
    assert_eq!(film.pixels[0].sum, SampledSpectrum::zero());
}

#[test]
fn film_records_the_auxiliary_surface_only_when_asked() {
    let recording = VisibleSurface { set: true };
    let mut with_aux = Film::new(Bounds2i::new(1, 1), Filter { radius: fp(32768) }, true);
    with_aux.add_sample(
        Point2::new(0, 0),
        SampledSpectrum::zero(),
        test_wavelengths(),
        &recording,
        fp(FP_ONE),
    );
    assert!(with_aux.pixels[0].surface.set);

    let mut without_aux = Film::new(Bounds2i::new(1, 1), Filter { radius: fp(32768) }, false);
    without_aux.add_sample(
        Point2::new(0, 0),
        SampledSpectrum::zero(),
        test_wavelengths(),
        &recording,
        fp(FP_ONE),
    );
    assert!(!without_aux.pixels[0].surface.set);
}

#[test]
fn random_walk_leaves_the_auxiliary_surface_at_its_default() {
    // The random walk accepts the auxiliary output but never populates it,
    // so even a film that records auxiliary buffers keeps the default.
    let scene = BasicScene {
        aggregate: enclosure(SampledSpectrum::zero(), SampledSpectrum::new(fp(FP_ONE))),
        lights: Vec::new(),
        max_depth: 2,
        spp: 2,
        seed: 5,
        width: 2,
        height: 2,
        uses_visible_surface: true,
    };
    let film = Context::new(&Options::default()).render(scene);
    for cell in &film.pixels {
        assert!(!cell.surface.set);
    }
}

#[test]
fn film_wavelengths_are_stratified_over_the_visible_range() {
    let film = Film::new(Bounds2i::new(1, 1), Filter { radius: fp(32768) }, false);
    let lambda = film.sample_wavelengths(fp(0));
    assert_eq!(lambda.l0, fp(23592960));
    assert_eq!(lambda.l1, fp(31293440));
    assert_eq!(lambda.l2, fp(38993920));
    assert_eq!(lambda.l3, fp(46694400));
}

#[test]
fn bounds_report_extent_and_area() {
    let bounds = Bounds2i::new(7, 3);
    assert_eq!(bounds.x(), 7);
    assert_eq!(bounds.y(), 3);
    assert_eq!(bounds.area(), 21);
}

#[test]
fn progress_reporter_tallies_updates() {
    let mut progress = ProgressReporter::new(10, "Rendering", false);
    progress.update(3);
    progress.update(7);
    assert_eq!(progress.done, 10);
    assert_eq!(progress.total, 10);
}

#[test]
fn abs_dot_folds_the_sign() {
    let a = Vector3::new(fp(FP_ONE), fp(0), fp(0));
    let b = Vector3::new(fp(-FP_ONE), fp(0), fp(0));
    assert_eq!(abs_dot(&a, &b), fp(FP_ONE));
}

#[test]
fn uniform_sphere_samples_are_deterministic_unit_directions() {
    let u = Point2::new(fp(FP_ONE / 4), fp(FP_ONE / 2));
    let first = sample_uniform_sphere(u);
    let second = sample_uniform_sphere(u);
    assert_eq!(first, second);
    // The direction is normalized up to fixed-point truncation.
    let n2 = first.x.sat_mul(first.x).sat_add(first.y.sat_mul(first.y)).sat_add(
        first.z.sat_mul(first.z),
    );
    assert!((n2.bits - FP_ONE).abs() < 1024);
}

#[test]
fn spawned_rays_leave_from_the_hit_point() {
    let emission = SampledSpectrum::zero();
    let surface = ShapeIntersection {
        intr: SurfaceInteraction { p: Point3::new(fp(FP_ONE), fp(0), fp(0)), time: fp(7) },
        shading: Shading { n: Vector3::new(fp(0), fp(0), fp(FP_ONE)) },
        emission,
        bsdf: ConstantBsdf { reflectance: emission },
    };
    let wp = Vector3::new(fp(0), fp(FP_ONE), fp(0));
    let spawned = surface.spawn_ray(&wp);
    assert_eq!(spawned.ray.o, Point3::new(fp(FP_ONE), fp(0), fp(0)));
    assert_eq!(spawned.ray.d, wp);
    assert_eq!(spawned.ray.time, fp(7));
    assert!(spawned.differential.is_none());
}
