//! The integrator hierarchy: the scene-query surface, the per-sample pixel
//! evaluator, the wave scheduler and the random-walk radiance estimator.
use vstd::prelude::*;

use crate::bounds::Bounds3f;
use crate::camera::{spec_camera_sample, Camera, CameraSample};
use crate::film::{
    spec_pixel_add, spec_pixel_index, spec_sample_wavelengths, Film, Filter, VisibleSurface,
};
use crate::fp::{
    abs_int, spec_fp_abs, spec_fp_add, spec_fp_div, spec_fp_mul, spec_isqrt, isqrt_u64, Fp, FP_ONE,
};
use crate::lights::{spec_preprocess, Light, LightType};
use crate::math::points::{Point2f, Point2i};
use crate::math::vectors::{spec_vector3_neg, Vector3f};
use crate::primitives::{spec_spawn_ray, Aggregate, Bsdf, ShapeIntersection};
use crate::rays::{spec_scale_differentials, Ray, RayDifferential};
use crate::sampler::{spec_get_1d, spec_get_2d, Sampler};
use crate::scratch::ScratchBuffer;
use crate::spectrum::{
    spec_spectrum_add, spec_spectrum_div, spec_spectrum_mul, spec_spectrum_nonzero,
    spec_spectrum_scale, spec_zero_spectrum, SampledSpectrum, SampledWavelengths,
};

verus! {

/// Fixed-point value of the uniform-sphere sampling density `1 / (4 * pi)`.
pub const UNIFORM_SPHERE_PDF_BITS: i64 = 5215;

/// Largest supported samples-per-pixel count.
pub const MAX_SPP: i32 = 0x3fff_ffff;

/// The absolute value of the dot product of two directions.
pub open spec fn spec_abs_dot(a: Vector3f, b: Vector3f) -> Fp {
    spec_fp_abs(
        spec_fp_add(
            spec_fp_add(spec_fp_mul(a.x, b.x), spec_fp_mul(a.y, b.y)),
            spec_fp_mul(a.z, b.z),
        ),
    )
}

/// The absolute value of the dot product of two directions, with saturating
/// fixed-point arithmetic.
pub fn abs_dot(a: &Vector3f, b: &Vector3f) -> (r: Fp)
    ensures
        r == spec_abs_dot(*a, *b),
{
    a.x.sat_mul(b.x).sat_add(a.y.sat_mul(b.y)).sat_add(a.z.sat_mul(b.z)).sat_abs()
}

/// The unit direction `sample_uniform_sphere` maps a point of `[0,1)^2` to:
/// the square is folded onto the octahedron `|x|+|y|+|z| = 1` and the result
/// pushed onto the sphere by normalization.  Degenerate intermediate values
/// fall back to the `+z` pole.
pub open spec fn spec_sample_uniform_sphere(u: Point2f) -> Vector3f {
    let x = Fp { bits: (2 * u.x.bits - FP_ONE) as i64 };
    let y = Fp { bits: (2 * u.y.bits - FP_ONE) as i64 };
    let z = Fp { bits: (FP_ONE - abs_int(x.bits as int) - abs_int(y.bits as int)) as i64 };
    let n2 = spec_fp_add(spec_fp_add(spec_fp_mul(x, x), spec_fp_mul(y, y)), spec_fp_mul(z, z));
    if n2.bits <= 0 {
        Vector3f { x: Fp { bits: 0 }, y: Fp { bits: 0 }, z: Fp { bits: FP_ONE } }
    } else {
        let len = Fp { bits: spec_isqrt(n2.bits * FP_ONE) as i64 };
        if len.bits <= 0 {
            Vector3f { x: Fp { bits: 0 }, y: Fp { bits: 0 }, z: Fp { bits: FP_ONE } }
        } else {
            Vector3f {
                x: spec_fp_div(x, len),
                y: spec_fp_div(y, len),
                z: spec_fp_div(z, len),
            }
        }
    }
}

/// Map a 2D sample to a direction on the unit sphere.
pub fn sample_uniform_sphere(u: Point2f) -> (r: Vector3f)
    requires
        0 <= u.x.bits < FP_ONE,
        0 <= u.y.bits < FP_ONE,
    ensures
        r == spec_sample_uniform_sphere(u),
{
    let xb: i64 = 2 * u.x.bits - FP_ONE;
    let yb: i64 = 2 * u.y.bits - FP_ONE;
    let xa: i64 = if xb >= 0 {
        xb
    } else {
        -xb
    };
    let ya: i64 = if yb >= 0 {
        yb
    } else {
        -yb
    };
    let zb: i64 = FP_ONE - xa - ya;
    let x = Fp { bits: xb };
    let y = Fp { bits: yb };
    let z = Fp { bits: zb };
    proof {
        lemma_small_square_bounded(xb as int);
        lemma_small_square_bounded(yb as int);
        lemma_small_square_bounded(zb as int);
    }
    let n2 = x.sat_mul(x).sat_add(y.sat_mul(y)).sat_add(z.sat_mul(z));
    if n2.bits <= 0 {
        Vector3f { x: Fp { bits: 0 }, y: Fp { bits: 0 }, z: Fp { bits: FP_ONE } }
    } else {
        let wide: u64 = (n2.bits as u64) * (FP_ONE as u64);
        let lb = isqrt_u64(wide);
        let len = Fp { bits: lb as i64 };
        if len.bits <= 0 {
            Vector3f { x: Fp { bits: 0 }, y: Fp { bits: 0 }, z: Fp { bits: FP_ONE } }
        } else {
            Vector3f { x: x.sat_div(len), y: y.sat_div(len), z: z.sat_div(len) }
        }
    }
}

/// The fixed-point square of a scalar of magnitude at most one lies in
/// `[0, 1]`.
proof fn lemma_small_square_bounded(b: int)
    requires
        -0x1_0000 <= b <= 0x1_0000,
    ensures
        0 <= crate::fp::fpmul(b, b) <= 0x1_0000,
{
    assert(0 <= b * b <= 0x1_0000_0000) by (nonlinear_arith)
        requires
            -0x1_0000 <= b <= 0x1_0000,
    ;
    assert(crate::fp::fpmul(b, b) == (b * b) / 0x1_0000);
    vstd::arithmetic::div_mod::lemma_div_is_ordered(0, b * b, 0x1_0000);
    vstd::arithmetic::div_mod::lemma_div_is_ordered(b * b, 0x1_0000_0000, 0x1_0000);
}

/// Reports render progress to the driver: a plain tally of completed work
/// units against the expected total.
#[derive(Clone, Copy, PartialEq, Eq, Structural, Debug)]
pub struct ProgressReporter {
    /// Work units the whole render will complete.
    pub total: i64,
    /// Work units reported complete so far.
    pub done: i64,
    /// Whether the driver should keep quiet about progress.
    pub quiet: bool,
}

impl ProgressReporter {
    /// `message` is the driver's display label; the tally itself does not
    /// retain it.
    pub fn new(total: i64, message: &str, quiet: bool) -> (r: ProgressReporter)
        requires
            total >= 0,
        ensures
            r == (ProgressReporter { total, done: 0, quiet }),
    {
        ProgressReporter { total, done: 0, quiet }
    }

    /// Record `progress` more completed work units.
    pub fn update(&mut self, progress: i32)
        requires
            progress >= 0,
            old(self).done + progress <= old(self).total,
        ensures
            *final(self) == (ProgressReporter {
                done: (old(self).done + progress) as i64,
                ..*old(self)
            }),
    {
        self.done = self.done + (progress as i64);
    }
}

/// The infinite lights among a light list, in order.
pub open spec fn spec_infinite_of(ls: Seq<Light>) -> Seq<Light>
    decreases ls.len(),
{
    if ls.len() == 0 {
        Seq::empty()
    } else {
        let rest = spec_infinite_of(ls.drop_last());
        if ls.last() is Infinite {
            rest.push(ls.last())
        } else {
            rest
        }
    }
}

/// Sum of the emission of a light list along an escaping ray, accumulated
/// left to right from the zero spectrum.
pub open spec fn spec_sum_le(ls: Seq<Light>, ray: Ray, lambda: SampledWavelengths) -> SampledSpectrum
    decreases ls.len(),
{
    if ls.len() == 0 {
        spec_zero_spectrum()
    } else {
        spec_spectrum_add(
            spec_sum_le(ls.drop_last(), ray, lambda),
            ls.last().spec_le(ray, lambda),
        )
    }
}

/// The scene-query surface: an aggregate of primitives and the scene's
/// lights, preprocessed once at construction, with the infinite lights
/// cached for fast access on ray escape.
pub struct AggregateIntersector<A: Aggregate> {
    pub aggregate: A,
    pub lights: Vec<Light>,
    pub infinite_lights: Vec<Light>,
}

impl<A: Aggregate> AggregateIntersector<A> {
    /// The bounds lights are preprocessed against: the aggregate's bounds
    /// where it is valid, the empty bounds otherwise.
    pub open spec fn spec_scene_bounds(aggregate: A) -> Bounds3f {
        if aggregate.spec_valid() {
            aggregate.spec_bounds()
        } else {
            Bounds3f::spec_empty()
        }
    }

    /// Construction invariant: every light is preprocessed, and the cached
    /// infinite lights are exactly the infinite ones among `lights`.
    pub open spec fn wf(&self) -> bool {
        &&& forall|i: int|
            0 <= i < self.lights@.len() ==> (#[trigger] self.lights@[i]).spec_preprocessed()
        &&& self.infinite_lights@ == spec_infinite_of(self.lights@)
    }

    /// Build the query surface: preprocess every light against the scene
    /// bounds, then cache the infinite lights.
    pub fn new(aggregate: A, lights: Vec<Light>) -> (r: Self)
        ensures
            r.aggregate == aggregate,
            r.lights@.len() == lights@.len(),
            forall|i: int|
                0 <= i < lights@.len() ==> r.lights@[i] == spec_preprocess(
                    #[trigger] lights@[i],
                    Self::spec_scene_bounds(aggregate),
                ),
            r.wf(),
    {
        let scene_bounds = if aggregate.valid() {
            aggregate.bounds()
        } else {
            Bounds3f::default()
        };
        let mut lights = lights;
        let ghost lights0 = lights@;
        let n = lights.len();
        let mut k: usize = 0;
        while k < n
            invariant
                n == lights@.len(),
                lights0.len() == n,
                k <= n,
                forall|i: int|
                    0 <= i < k ==> #[trigger] lights@[i] == spec_preprocess(
                        lights0[i],
                        Self::spec_scene_bounds(aggregate),
                    ),
                forall|i: int| k <= i < n ==> #[trigger] lights@[i] == lights0[i],
                scene_bounds == Self::spec_scene_bounds(aggregate),
            decreases n - k,
        {
            let light = &mut lights[k];
            light.preprocess(&scene_bounds);
            k += 1;
        }
        let mut infinite_lights: Vec<Light> = Vec::new();
        let mut j: usize = 0;
        while j < n
            invariant
                n == lights@.len(),
                j <= n,
                infinite_lights@ == spec_infinite_of(lights@.take(j as int)),
            decreases n - j,
        {
            let candidate = lights[j];
            proof {
                assert(lights@.take(j as int + 1).drop_last() =~= lights@.take(j as int));
                assert(lights@.take(j as int + 1).last() == lights@[j as int]);
            }
            if candidate.light_type() == LightType::Infinite {
                infinite_lights.push(candidate);
            }
            j += 1;
        }
        proof {
            assert(lights@.take(n as int) =~= lights@);
        }
        AggregateIntersector { aggregate, lights, infinite_lights }
    }

    /// The nearest hit, gated on aggregate validity: an invalid aggregate is
    /// an empty scene where every ray misses.
    pub open spec fn spec_intersect_gated(&self, ray: Ray, t_max: Fp) -> Option<
        ShapeIntersection<A::B>,
    > {
        if self.aggregate.spec_valid() {
            self.aggregate.spec_intersect(ray, t_max)
        } else {
            None
        }
    }

    /// Nearest-hit query with the validity short-circuit.
    pub fn intersect(&self, ray: &Ray, t_max: Fp) -> (r: Option<ShapeIntersection<A::B>>)
        ensures
            r == self.spec_intersect_gated(*ray, t_max),
    {
        if self.aggregate.valid() {
            self.aggregate.intersect(ray, t_max)
        } else {
            None
        }
    }

    /// Occlusion query with the validity short-circuit.
    pub fn intersect_p(&self, ray: &Ray, t_max: Fp) -> (r: bool)
        ensures
            r == self.spec_intersect_gated(*ray, t_max).is_some(),
    {
        if self.aggregate.valid() {
            self.aggregate.intersect_p(ray, t_max)
        } else {
            false
        }
    }
}

/// The value of the random-walk estimate, the sampler state it leaves
/// behind, and the number of intersection tests it performs, all as one
/// mathematical function of the inputs.
///
/// The recursion mirrors the estimator: intersect; on a miss sum the
/// infinite lights; on a hit take the emitted term, and below the depth
/// cutoff add the BSDF-weighted, uniform-sphere-sampled recursive term
/// divided by the sampling density.
pub open spec fn spec_li_walk<A: Aggregate>(
    inter: AggregateIntersector<A>,
    ray: RayDifferential,
    lambda: SampledWavelengths,
    s: Sampler,
    depth: int,
    max_depth: int,
) -> (SampledSpectrum, Sampler, int)
    decreases max_depth + 1 - depth,
{
    match inter.spec_intersect_gated(ray.ray, Fp { bits: i64::MAX }) {
        None => (spec_sum_le(inter.infinite_lights@, ray.ray, lambda), s, 1),
        Some(isect) => {
            let le = isect.emission;
            if depth > max_depth {
                (le, s, 1)
            } else {
                let wo = spec_vector3_neg(ray.ray.d);
                let (u, s1) = spec_get_2d(s);
                let wp = spec_sample_uniform_sphere(u);
                let fcos = spec_spectrum_scale(
                    isect.bsdf.spec_f(wo, wp),
                    spec_abs_dot(wp, isect.shading.n),
                );
                if !spec_spectrum_nonzero(fcos) {
                    (le, s1, 1)
                } else {
                    let rec = spec_li_walk(
                        inter,
                        spec_spawn_ray(isect, wp),
                        lambda,
                        s1,
                        depth + 1,
                        max_depth,
                    );
                    (
                        spec_spectrum_add(
                            le,
                            spec_spectrum_div(
                                spec_spectrum_mul(fcos, rec.0),
                                Fp { bits: UNIFORM_SPHERE_PDF_BITS },
                            ),
                        ),
                        rec.1,
                        1 + rec.2,
                    )
                }
            }
        },
    }
}

/// The random-walk integrator: an unbiased recursive Monte Carlo estimator
/// of outgoing radiance, with uniform-sphere direction sampling.
pub struct RandomWalkIntegrator<A: Aggregate> {
    pub intersector: AggregateIntersector<A>,
    pub max_depth: i32,
}

impl<A: Aggregate> RandomWalkIntegrator<A> {
    /// Conditions under which the estimator runs: a preprocessed scene and
    /// a sane depth limit.
    pub open spec fn wf(&self) -> bool {
        self.intersector.wf() && 0 <= self.max_depth <= 0x10_0000
    }

    /// One step of the random walk at recursion level `depth`.
    pub fn li_random_walk<C: crate::camera::Camera>(
        &self,
        ray: RayDifferential,
        lambda: &SampledWavelengths,
        sampler: &mut Sampler,
        scratch_buffer: &mut ScratchBuffer,
        camera: &C,
        depth: i32,
    ) -> (r: SampledSpectrum)
        requires
            self.wf(),
            old(sampler).wf(),
            0 <= depth,
        ensures
            r == spec_li_walk(
                self.intersector,
                ray,
                *lambda,
                *old(sampler),
                depth as int,
                self.max_depth as int,
            ).0,
            *final(sampler) == spec_li_walk(
                self.intersector,
                ray,
                *lambda,
                *old(sampler),
                depth as int,
                self.max_depth as int,
            ).1,
            final(sampler).wf(),
            final(sampler).seed == old(sampler).seed,
            final(sampler).spp == old(sampler).spp,
        decreases self.max_depth + 1 - depth,
    {
        let si = self.intersector.intersect(&ray.ray, Fp::max_value());
        match si {
            None => {
                // Escaped the scene: only infinite lights contribute.
                let mut acc = SampledSpectrum::zero();
                let m = self.intersector.infinite_lights.len();
                let mut k: usize = 0;
                while k < m
                    invariant
                        m == self.intersector.infinite_lights@.len(),
                        k <= m,
                        acc == spec_sum_le(
                            self.intersector.infinite_lights@.take(k as int),
                            ray.ray,
                            *lambda,
                        ),
                    decreases m - k,
                {
                    let contribution = self.intersector.infinite_lights[k].le(&ray.ray, lambda);
                    proof {
                        assert(self.intersector.infinite_lights@.take(k as int + 1).drop_last()
                            =~= self.intersector.infinite_lights@.take(k as int));
                    }
                    acc = acc.plus(&contribution);
                    k += 1;
                }
                proof {
                    assert(self.intersector.infinite_lights@.take(m as int)
                        =~= self.intersector.infinite_lights@);
                }
                acc
            },
            Some(isect) => {
                // Emitted radiance toward the outgoing direction.
                let wo = ray.ray.d.neg();
                let le = isect.le(&wo, lambda);

                // Terminate at max recursion.
                if depth > self.max_depth {
                    return le;
                }

                // Evaluate the BSDF for the outgoing direction and a
                // direction sampled uniformly over the sphere.
                let bsdf = isect.bsdf(&ray.ray, lambda, camera, scratch_buffer, sampler);
                let u = sampler.get_2d();
                let wp = sample_uniform_sphere(u);
                let fcos = bsdf.f(&wo, &wp).scale(abs_dot(&wp, &isect.shading.n));
                if !fcos.nonzero() {
                    return le;
                }

                let next_ray = isect.spawn_ray(&wp);
                let rec = self.li_random_walk(
                    next_ray,
                    lambda,
                    sampler,
                    scratch_buffer,
                    camera,
                    depth + 1,
                );
                le.plus(&fcos.times(&rec).div_by(Fp { bits: UNIFORM_SPHERE_PDF_BITS }))
            },
        }
    }
}

/// Termination of the random walk: from recursion level `depth` the
/// estimator performs at least one and at most `max_depth + 2 - depth`
/// intersection tests.
pub proof fn lemma_estimator_tests_from_depth<A: Aggregate>(
    inter: AggregateIntersector<A>,
    ray: RayDifferential,
    lambda: SampledWavelengths,
    s: Sampler,
    depth: int,
    max_depth: int,
)
    requires
        0 <= depth <= max_depth + 1,
    ensures
        1 <= spec_li_walk(inter, ray, lambda, s, depth, max_depth).2 <= max_depth + 2 - depth,
    decreases max_depth + 1 - depth,
{
    let hit = inter.spec_intersect_gated(ray.ray, Fp { bits: i64::MAX });
    match hit {
        None => {},
        Some(isect) => {
            if depth <= max_depth {
                let (u, s1) = spec_get_2d(s);
                let wp = spec_sample_uniform_sphere(u);
                let fcos = spec_spectrum_scale(
                    spec_f_of(isect.bsdf, spec_vector3_neg(ray.ray.d), wp),
                    spec_abs_dot(wp, isect.shading.n),
                );
                if spec_spectrum_nonzero(fcos) {
                    lemma_estimator_tests_from_depth(
                        inter,
                        spec_spawn_ray(isect, wp),
                        lambda,
                        s1,
                        depth + 1,
                        max_depth,
                    );
                }
            }
        },
    }
}

/// A BSDF's spec-level value, spelled as a free function so proofs can
/// speak about it uniformly.
pub open spec fn spec_f_of<B: Bsdf>(b: B, wo: Vector3f, wi: Vector3f) -> SampledSpectrum {
    b.spec_f(wo, wi)
}

/// For every recursion level that lies on a spawned path (`depth >= 1`),
/// the walk performs at most `max_depth + 1` intersection tests.
pub proof fn lemma_estimator_test_bound<A: Aggregate>(
    inter: AggregateIntersector<A>,
    ray: RayDifferential,
    lambda: SampledWavelengths,
    s: Sampler,
    depth: int,
    max_depth: int,
)
    requires
        1 <= depth <= max_depth + 1,
    ensures
        spec_li_walk(inter, ray, lambda, s, depth, max_depth).2 <= max_depth + 1,
{
    lemma_estimator_tests_from_depth(inter, ray, lambda, s, depth, max_depth);
}

/// A scene with no lights and an invalid aggregate estimates the zero
/// spectrum for every ray, depth and sampler state.
pub proof fn lemma_empty_scene_estimates_zero<A: Aggregate>(
    inter: AggregateIntersector<A>,
    ray: RayDifferential,
    lambda: SampledWavelengths,
    s: Sampler,
    depth: int,
    max_depth: int,
)
    requires
        inter.wf(),
        !inter.aggregate.spec_valid(),
        inter.lights@.len() == 0,
    ensures
        spec_li_walk(inter, ray, lambda, s, depth, max_depth).0 == spec_zero_spectrum(),
{
    assert(inter.spec_intersect_gated(ray.ray, Fp { bits: i64::MAX }) is None);
    assert(spec_infinite_of(inter.lights@) =~= Seq::<Light>::empty());
    assert(inter.infinite_lights@.len() == 0);
}

/// A scene with exactly one infinite light of constant emission, over an
/// aggregate the ray misses, estimates exactly that emission.
pub proof fn lemma_single_infinite_light_estimate<A: Aggregate>(
    inter: AggregateIntersector<A>,
    ray: RayDifferential,
    lambda: SampledWavelengths,
    s: Sampler,
    depth: int,
    max_depth: int,
    il: crate::lights::InfiniteLight,
)
    requires
        inter.wf(),
        inter.spec_intersect_gated(ray.ray, Fp { bits: i64::MAX }) is None,
        inter.lights@ == seq![Light::Infinite(il)],
    ensures
        spec_li_walk(inter, ray, lambda, s, depth, max_depth).0 == il.emission,
{
    let single = inter.lights@;
    assert(single.len() == 1);
    assert(single.last() == Light::Infinite(il));
    assert(single.drop_last() =~= Seq::<Light>::empty());
    assert(spec_infinite_of(Seq::<Light>::empty()) == Seq::<Light>::empty());
    assert(spec_infinite_of(single) == Seq::<Light>::empty().push(Light::Infinite(il)));
    let cached = inter.infinite_lights@;
    assert(cached =~= seq![Light::Infinite(il)]);
    assert(cached.len() == 1);
    assert(cached.last() == Light::Infinite(il));
    assert(cached.drop_last() =~= Seq::<Light>::empty());
    assert(spec_sum_le(Seq::<Light>::empty(), ray.ray, lambda) == spec_zero_spectrum());
    assert(spec_sum_le(cached, ray.ray, lambda) == spec_spectrum_add(
        spec_zero_spectrum(),
        il.emission,
    ));
}

/// A BSDF whose `f` has no non-zero spectral component short-circuits the
/// walk at its vertex: the emitted term comes back, no ray is spawned, and
/// exactly one intersection test happens.
pub proof fn lemma_zero_bsdf_short_circuits<A: Aggregate>(
    inter: AggregateIntersector<A>,
    ray: RayDifferential,
    lambda: SampledWavelengths,
    s: Sampler,
    depth: int,
    max_depth: int,
    isect: ShapeIntersection<A::B>,
)
    requires
        inter.spec_intersect_gated(ray.ray, Fp { bits: i64::MAX }) == Some(isect),
        forall|wo: Vector3f, wi: Vector3f| #[trigger]
            spec_f_of(isect.bsdf, wo, wi) == spec_zero_spectrum(),
        0 <= depth <= max_depth,
    ensures
        spec_li_walk(inter, ray, lambda, s, depth, max_depth).0 == isect.emission,
        spec_li_walk(inter, ray, lambda, s, depth, max_depth).2 == 1,
{
    let wo = spec_vector3_neg(ray.ray.d);
    let (u, s1) = spec_get_2d(s);
    let wp = spec_sample_uniform_sphere(u);
    let cosine = spec_abs_dot(wp, isect.shading.n);
    assert(spec_f_of(isect.bsdf, wo, wp) == spec_zero_spectrum());
    let fcos = spec_spectrum_scale(spec_zero_spectrum(), cosine);
    assert(crate::fp::fpmul(0, cosine.bits as int) == 0) by {
        assert(0 * (cosine.bits as int) == 0);
    }
    assert(!spec_spectrum_nonzero(fcos));
}

/// The radiance-computation contract the pixel evaluator consumes.
pub trait RadianceComputer<C: Camera>: Sized {
    /// Conditions under which the computer may run (a preprocessed scene,
    /// a sane depth limit).
    spec fn li_req(&self) -> bool;

    /// The estimate and the sampler state it leaves behind, as a function
    /// of the inputs.
    spec fn spec_li(
        &self,
        ray: RayDifferential,
        lambda: SampledWavelengths,
        s: Sampler,
        camera: C,
    ) -> (SampledSpectrum, Sampler);

    /// The auxiliary-surface value the computer leaves behind, as a
    /// function of the inputs and the surface it was handed.
    spec fn spec_surface(
        &self,
        ray: RayDifferential,
        lambda: SampledWavelengths,
        s: Sampler,
        camera: C,
        surface: VisibleSurface,
        record: bool,
    ) -> VisibleSurface;

    /// Estimate the incident radiance along `ray`.  The auxiliary surface
    /// output may be populated only when `record_visible_surface` holds;
    /// with the flag off it comes back unchanged.
    fn li(
        &self,
        ray: RayDifferential,
        lambda: &SampledWavelengths,
        sampler: &mut Sampler,
        scratch_buffer: &mut ScratchBuffer,
        camera: &C,
        visible_surface: &mut VisibleSurface,
        record_visible_surface: bool,
    ) -> (r: SampledSpectrum)
        requires
            self.li_req(),
            old(sampler).wf(),
        ensures
            r == self.spec_li(ray, *lambda, *old(sampler), *camera).0,
            *final(sampler) == self.spec_li(ray, *lambda, *old(sampler), *camera).1,
            final(sampler).wf(),
            final(sampler).seed == old(sampler).seed,
            final(sampler).spp == old(sampler).spp,
            *final(visible_surface) == self.spec_surface(
                ray,
                *lambda,
                *old(sampler),
                *camera,
                *old(visible_surface),
                record_visible_surface,
            ),
            !record_visible_surface ==> *final(visible_surface) == *old(visible_surface),
    ;
}

impl<C: Camera, A: Aggregate> RadianceComputer<C> for RandomWalkIntegrator<A> {
    open spec fn li_req(&self) -> bool {
        self.wf()
    }

    open spec fn spec_li(
        &self,
        ray: RayDifferential,
        lambda: SampledWavelengths,
        s: Sampler,
        camera: C,
    ) -> (SampledSpectrum, Sampler) {
        let walk = spec_li_walk(self.intersector, ray, lambda, s, 0, self.max_depth as int);
        (walk.0, walk.1)
    }

    /// The random walk accepts the auxiliary output but never populates it;
    /// the surface comes back unchanged whatever the flag says.
    open spec fn spec_surface(
        &self,
        ray: RayDifferential,
        lambda: SampledWavelengths,
        s: Sampler,
        camera: C,
        surface: VisibleSurface,
        record: bool,
    ) -> VisibleSurface {
        surface
    }

    fn li(
        &self,
        ray: RayDifferential,
        lambda: &SampledWavelengths,
        sampler: &mut Sampler,
        scratch_buffer: &mut ScratchBuffer,
        camera: &C,
        visible_surface: &mut VisibleSurface,
        record_visible_surface: bool,
    ) -> (r: SampledSpectrum) {
        self.li_random_walk(ray, lambda, sampler, scratch_buffer, camera, 0)
    }
}

/// The ray-differential scale factor `max(1/8, 1/sqrt(spp))`, which dampens
/// differential footprint growth for low sample counts.
pub open spec fn spec_ray_diff_scale(spp: int) -> Fp {
    let root = spec_isqrt(spp * FP_ONE * FP_ONE);
    let inv = if root <= 0 {
        Fp { bits: FP_ONE }
    } else {
        spec_fp_div(Fp { bits: FP_ONE }, Fp { bits: root as i64 })
    };
    if inv.bits >= 8192 {
        inv
    } else {
        Fp { bits: 8192 }
    }
}

/// Compute `max(1/8, 1/sqrt(spp))` in fixed point.
pub fn ray_differential_scale(spp: i32) -> (r: Fp)
    requires
        1 <= spp <= MAX_SPP,
    ensures
        r == spec_ray_diff_scale(spp as int),
{
    let wide: u64 = (spp as u64) * 0x1_0000_0000u64;
    proof {
        assert(wide as int == spp * FP_ONE * FP_ONE);
    }
    let root = isqrt_u64(wide);
    let inv = if root == 0 {
        Fp { bits: FP_ONE }
    } else {
        Fp { bits: FP_ONE }.sat_div(Fp { bits: root as i64 })
    };
    if inv.bits >= 8192 {
        inv
    } else {
        Fp { bits: 8192 }
    }
}

/// The per-sample evaluation contract the wave scheduler drives.
pub trait PixelEvaluator<C: Camera>: Sized {
    /// Conditions under which the evaluator may run.
    spec fn eval_req(&self) -> bool;

    /// The weighted radiance, wavelength sample, filter weight and
    /// auxiliary surface one evaluation hands the film, as a function of
    /// the camera, the film configuration, the pixel and the sampler state.
    spec fn spec_contribution(
        &self,
        camera: C,
        filter: Filter,
        uses_vis: bool,
        pixel: Point2i,
        s: Sampler,
    ) -> (SampledSpectrum, SampledWavelengths, Fp, VisibleSurface);

    /// The sampler state one evaluation leaves behind, as a function of
    /// the same inputs.
    spec fn spec_sampler_after(
        &self,
        camera: C,
        filter: Filter,
        uses_vis: bool,
        pixel: Point2i,
        s: Sampler,
    ) -> Sampler;

    /// Whether this evaluation produced invalid radiance that had to be
    /// clamped before accumulation.
    spec fn spec_invalid(
        &self,
        camera: C,
        filter: Filter,
        uses_vis: bool,
        pixel: Point2i,
        s: Sampler,
    ) -> bool;

    /// Evaluate one `(pixel, sample index)` pair and accumulate the result
    /// into the film.
    fn evaluate_pixel_sample(
        &self,
        pixel: Point2i,
        sample_index: i32,
        sampler: &mut Sampler,
        scratch_buffer: &mut ScratchBuffer,
        camera: &C,
        film: &mut Film,
    )
        requires
            self.eval_req(),
            old(sampler).wf(),
            1 <= old(sampler).spp <= MAX_SPP,
            old(film).wf(),
            0 <= pixel.x < old(film).bounds.nx,
            0 <= pixel.y < old(film).bounds.ny,
        ensures
            final(sampler).seed == old(sampler).seed,
            final(sampler).spp == old(sampler).spp,
            *final(sampler) == self.spec_sampler_after(
                *camera,
                old(film).filter,
                old(film).uses_vis,
                pixel,
                *old(sampler),
            ),
            final(film).bounds == old(film).bounds,
            final(film).filter == old(film).filter,
            final(film).uses_vis == old(film).uses_vis,
            final(film).wf(),
            final(film).pixels@ == old(film).pixels@.update(
                spec_pixel_index(old(film).bounds, pixel.x as int, pixel.y as int),
                crate::film::spec_pixel_record(
                    spec_pixel_add(
                        old(film).pixels@[spec_pixel_index(
                            old(film).bounds,
                            pixel.x as int,
                            pixel.y as int,
                        )],
                        self.spec_contribution(
                            *camera,
                            old(film).filter,
                            old(film).uses_vis,
                            pixel,
                            *old(sampler),
                        ).0,
                        self.spec_contribution(
                            *camera,
                            old(film).filter,
                            old(film).uses_vis,
                            pixel,
                            *old(sampler),
                        ).2,
                        old(film).uses_vis,
                        self.spec_contribution(
                            *camera,
                            old(film).filter,
                            old(film).uses_vis,
                            pixel,
                            *old(sampler),
                        ).3,
                    ),
                    self.spec_invalid(
                        *camera,
                        old(film).filter,
                        old(film).uses_vis,
                        pixel,
                        *old(sampler),
                    ),
                ),
            ),
    ;
}

/// The ray integrator: evaluates one pixel sample by generating a camera
/// ray and estimating the radiance it carries.
pub struct RayIntegrator<R> {
    pub radiance_computer: R,
    /// Whether the computed ray-differential scale is applied to the camera
    /// ray before estimation.
    pub scale_differentials: bool,
}

/// What one pixel-sample evaluation contributes to the film: draw the
/// wavelength sample, build the camera sample, generate the primary ray,
/// estimate radiance along it, and weight the result by the camera ray's
/// own weight.  When no ray is generated the film still receives a
/// zero-radiance sample under the filter weight, beside the default
/// auxiliary surface.  The radiance computer is handed the film's
/// uses-visible-surface switch as its record flag, and the surface reaching
/// the film is the default value unless the computer populated it.
pub open spec fn spec_eval_sample<C: Camera, R: RadianceComputer<C>>(
    ev: RayIntegrator<R>,
    camera: C,
    filter: Filter,
    uses_vis: bool,
    pixel: Point2i,
    s: Sampler,
) -> (SampledSpectrum, SampledWavelengths, Fp, VisibleSurface) {
    let (lu, s1) = spec_get_1d(s);
    let lambda = spec_sample_wavelengths(lu);
    let cs_pair = spec_camera_sample(s1, pixel);
    match camera.spec_generate_ray(cs_pair.0, lambda) {
        None => (
            spec_zero_spectrum(),
            lambda,
            cs_pair.0.filter_weight,
            VisibleSurface { set: false },
        ),
        Some(crd) => {
            let ray = if ev.scale_differentials {
                spec_scale_differentials(crd.ray, spec_ray_diff_scale(s.spp as int))
            } else {
                crd.ray
            };
            let li_pair = ev.radiance_computer.spec_li(ray, lambda, cs_pair.1, camera);
            (
                crate::spectrum::spec_spectrum_clamp_nonnegative(
                    spec_spectrum_mul(crd.weight, li_pair.0),
                ),
                lambda,
                cs_pair.0.filter_weight,
                ev.radiance_computer.spec_surface(
                    ray,
                    lambda,
                    cs_pair.1,
                    camera,
                    VisibleSurface { set: false },
                    uses_vis,
                ),
            )
        },
    }
}

/// The sampler state one pixel-sample evaluation leaves behind: the
/// wavelength draw, the camera-sample jitter draw, and — only when a ray
/// was generated — whatever the radiance computer consumed.  When ray
/// generation fails, no draw beyond camera-sample construction happens.
pub open spec fn spec_eval_sampler_after<C: Camera, R: RadianceComputer<C>>(
    ev: RayIntegrator<R>,
    camera: C,
    pixel: Point2i,
    s: Sampler,
) -> Sampler {
    let (lu, s1) = spec_get_1d(s);
    let lambda = spec_sample_wavelengths(lu);
    let cs_pair = spec_camera_sample(s1, pixel);
    match camera.spec_generate_ray(cs_pair.0, lambda) {
        None => cs_pair.1,
        Some(crd) => {
            let ray = if ev.scale_differentials {
                spec_scale_differentials(crd.ray, spec_ray_diff_scale(s.spp as int))
            } else {
                crd.ray
            };
            ev.radiance_computer.spec_li(ray, lambda, cs_pair.1, camera).1
        },
    }
}

/// Whether one pixel-sample evaluation produced invalid radiance: the
/// weighted estimate differs from its non-negative clamp.
pub open spec fn spec_eval_invalid<C: Camera, R: RadianceComputer<C>>(
    ev: RayIntegrator<R>,
    camera: C,
    pixel: Point2i,
    s: Sampler,
) -> bool {
    let (lu, s1) = spec_get_1d(s);
    let lambda = spec_sample_wavelengths(lu);
    let cs_pair = spec_camera_sample(s1, pixel);
    match camera.spec_generate_ray(cs_pair.0, lambda) {
        None => false,
        Some(crd) => {
            let ray = if ev.scale_differentials {
                spec_scale_differentials(crd.ray, spec_ray_diff_scale(s.spp as int))
            } else {
                crd.ray
            };
            let li_pair = ev.radiance_computer.spec_li(ray, lambda, cs_pair.1, camera);
            let raw = spec_spectrum_mul(crd.weight, li_pair.0);
            raw != crate::spectrum::spec_spectrum_clamp_nonnegative(raw)
        },
    }
}

impl<C: Camera, R: RadianceComputer<C>> PixelEvaluator<C> for RayIntegrator<R> {
    open spec fn eval_req(&self) -> bool {
        self.radiance_computer.li_req()
    }

    open spec fn spec_contribution(
        &self,
        camera: C,
        filter: Filter,
        uses_vis: bool,
        pixel: Point2i,
        s: Sampler,
    ) -> (SampledSpectrum, SampledWavelengths, Fp, VisibleSurface) {
        spec_eval_sample(*self, camera, filter, uses_vis, pixel, s)
    }

    open spec fn spec_sampler_after(
        &self,
        camera: C,
        filter: Filter,
        uses_vis: bool,
        pixel: Point2i,
        s: Sampler,
    ) -> Sampler {
        spec_eval_sampler_after(*self, camera, pixel, s)
    }

    open spec fn spec_invalid(
        &self,
        camera: C,
        filter: Filter,
        uses_vis: bool,
        pixel: Point2i,
        s: Sampler,
    ) -> bool {
        spec_eval_invalid(*self, camera, pixel, s)
    }

    #[verifier::rlimit(100)]
    fn evaluate_pixel_sample(
        &self,
        pixel: Point2i,
        sample_index: i32,
        sampler: &mut Sampler,
        scratch_buffer: &mut ScratchBuffer,
        camera: &C,
        film: &mut Film,
    ) {
        let lu = sampler.get_1d();
        let lambda = film.sample_wavelengths(lu);

        let filter = film.filter();
        let camera_sample = CameraSample::new(sampler, pixel, filter);

        let camera_ray = camera.generate_ray_differential(camera_sample, &lambda);

        let mut l = SampledSpectrum::zero();
        let mut visible_surface = VisibleSurface::default();
        let mut invalid = false;

        match camera_ray {
            Some(mut ray) => {
                let ray_diff_scale = ray_differential_scale(sampler.samples_per_pixel());
                if self.scale_differentials {
                    ray.ray.scale_differentials(ray_diff_scale);
                }
                let initialize_visible_surface = film.uses_visible_surface();
                let estimate = self.radiance_computer.li(
                    ray.ray,
                    &lambda,
                    sampler,
                    scratch_buffer,
                    camera,
                    &mut visible_surface,
                    initialize_visible_surface,
                );
                // An invalid (negative) radiance component would silently
                // corrupt the image; zero it before accumulation, and
                // remember that it happened so it can be reported.
                let raw = ray.weight.times(&estimate);
                l = raw.clamped_nonnegative();
                invalid = !(raw == l);
            },
            None => {},
        }

        proof {
            let contribution = self.spec_contribution(
                *camera,
                old(film).filter,
                old(film).uses_vis,
                pixel,
                *old(sampler),
            );
            assert(l == contribution.0);
            assert(camera_sample.filter_weight == contribution.2);
            assert(visible_surface == contribution.3);
            assert(invalid == self.spec_invalid(
                *camera,
                old(film).filter,
                old(film).uses_vis,
                pixel,
                *old(sampler),
            ));
            assert(*sampler == self.spec_sampler_after(
                *camera,
                old(film).filter,
                old(film).uses_vis,
                pixel,
                *old(sampler),
            ));
        }
        film.add_sample(pixel, l, lambda, &visible_surface, camera_sample.filter_weight);
        if invalid {
            film.record_invalid_sample(pixel);
        }
        proof {
            let idx = spec_pixel_index(old(film).bounds, pixel.x as int, pixel.y as int);
            let contribution = self.spec_contribution(
                *camera,
                old(film).filter,
                old(film).uses_vis,
                pixel,
                *old(sampler),
            );
            let added = spec_pixel_add(
                old(film).pixels@[idx],
                contribution.0,
                contribution.2,
                old(film).uses_vis,
                contribution.3,
            );
            crate::film::lemma_pixel_index_in_range(
                old(film).bounds,
                pixel.x as int,
                pixel.y as int,
            );
            if invalid {
                assert(film.pixels@ =~= old(film).pixels@.update(
                    idx,
                    crate::film::spec_pixel_record(added, true),
                ));
            } else {
                assert(film.pixels@ =~= old(film).pixels@.update(
                    idx,
                    crate::film::spec_pixel_record(added, false),
                ));
            }
        }
    }
}

pub open spec fn spec_min_i(a: int, b: int) -> int {
    if a <= b {
        a
    } else {
        b
    }
}

/// The sizes of the waves the scheduler issues from the state
/// `(wave_start, wave_end, next_wave_size)`: geometrically growing batches,
/// capped at 64 and clipped to the remaining budget.
pub open spec fn spec_wave_sizes_from(start: int, end: int, next: int, spp: int) -> Seq<int>
    decreases spp - start,
    when 1 <= next && (start < spp ==> start < end <= spp)
{
    if start >= spp {
        Seq::empty()
    } else {
        seq![end - start] + spec_wave_sizes_from(
            end,
            spec_min_i(spp, end + next),
            spec_min_i(2 * next, 64),
            spp,
        )
    }
}

/// The full wave schedule for `spp` samples per pixel, from the scheduler's
/// initial state.
pub open spec fn spec_wave_sizes(spp: int) -> Seq<int> {
    spec_wave_sizes_from(0, spec_min_i(spp, 1), 1, spp)
}

pub open spec fn spec_sum(s: Seq<int>) -> int
    decreases s.len(),
{
    if s.len() == 0 {
        0
    } else {
        s[0] + spec_sum(s.subrange(1, s.len() as int))
    }
}

/// Every sample index is issued exactly once: from any scheduler state the
/// wave sizes sum to the remaining budget.
pub proof fn lemma_wave_sizes_cover(start: int, end: int, next: int, spp: int)
    requires
        0 <= start <= spp,
        start < spp ==> start < end <= spp,
        1 <= next,
    ensures
        spec_sum(spec_wave_sizes_from(start, end, next, spp)) == spp - start,
    decreases spp - start,
{
    if start < spp {
        let tail = spec_wave_sizes_from(
            end,
            spec_min_i(spp, end + next),
            spec_min_i(2 * next, 64),
            spp,
        );
        lemma_wave_sizes_cover(end, spec_min_i(spp, end + next), spec_min_i(2 * next, 64), spp);
        let whole = seq![end - start] + tail;
        assert(whole.subrange(1, whole.len() as int) =~= tail);
        assert(whole[0] == end - start);
    }
}

/// The whole schedule issues exactly `spp` samples per pixel.
pub proof fn lemma_wave_schedule_covers_budget(spp: int)
    requires
        0 <= spp,
    ensures
        spec_sum(spec_wave_sizes(spp)) == spp,
{
    lemma_wave_sizes_cover(0, spec_min_i(spp, 1), 1, spp);
}

/// The schedule opens with an early coarse preview and grows into capped
/// batches: ten samples split as four growing waves and a remainder, and two
/// hundred ramp up to the cap and finish with the leftover.
pub proof fn lemma_wave_sizes_examples()
    ensures
        spec_wave_sizes(10) == seq![1int, 1, 2, 4, 2],
        spec_wave_sizes(200) == seq![1int, 1, 2, 4, 8, 16, 32, 64, 64, 8],
{
    reveal_with_fuel(spec_wave_sizes_from, 12);
    assert(spec_wave_sizes(10) =~= seq![1int, 1, 2, 4, 2]);
    assert(spec_wave_sizes(200) =~= seq![1int, 1, 2, 4, 8, 16, 32, 64, 64, 8]);
}

/// The wave cursor after one wave: the window slides to the clipped end,
/// and the pending batch size doubles up to the cap of 64.
pub fn advance_wave(wave_end: i32, next_wave_size: i32, spp: i32) -> (r: (i32, i32))
    requires
        1 <= next_wave_size <= 64,
        0 <= wave_end <= spp,
        spp <= MAX_SPP,
    ensures
        r.0 == spec_min_i(spp as int, wave_end + next_wave_size),
        r.1 == spec_min_i(2 * next_wave_size, 64),
        wave_end <= r.0 <= spp,
        1 <= r.1 <= 64,
        wave_end < spp ==> wave_end < r.0,
{
    let grown: i32 = wave_end + next_wave_size;
    let new_end = if grown <= spp {
        grown
    } else {
        spp
    };
    let doubled: i32 = 2 * next_wave_size;
    let new_size = if doubled <= 64 {
        doubled
    } else {
        64
    };
    (new_end, new_size)
}

/// A pixel's accumulator after its first `n` sample indices were evaluated,
/// each from the sampler restarted at that `(pixel, index)` pair.
pub open spec fn spec_cell_after<C: Camera, E: PixelEvaluator<C>>(
    ev: E,
    camera: C,
    filter: Filter,
    uses_vis: bool,
    proto: Sampler,
    px: int,
    py: int,
    cell0: crate::film::FilmPixel,
    n: int,
) -> crate::film::FilmPixel
    decreases n,
{
    if n <= 0 {
        cell0
    } else {
        let prev = spec_cell_after(ev, camera, filter, uses_vis, proto, px, py, cell0, n - 1);
        let pixel = Point2i { x: px as i32, y: py as i32 };
        let s = crate::sampler::spec_start_pixel_sample(proto, pixel, (n - 1) as i32);
        let c = ev.spec_contribution(camera, filter, uses_vis, pixel, s);
        crate::film::spec_pixel_record(
            spec_pixel_add(prev, c.0, c.2, uses_vis, c.3),
            ev.spec_invalid(camera, filter, uses_vis, pixel, s),
        )
    }
}

/// Distinct pixels use distinct accumulator slots.
pub proof fn lemma_pixel_index_injective(bounds: crate::bounds::Bounds2i, a: int, b: int, c: int, d: int)
    requires
        0 <= a < bounds.nx,
        0 <= b < bounds.ny,
        0 <= c < bounds.nx,
        0 <= d < bounds.ny,
        a != c || b != d,
    ensures
        spec_pixel_index(bounds, a, b) != spec_pixel_index(bounds, c, d),
{
    if a < c {
        assert(a * bounds.ny + b < c * bounds.ny + d) by (nonlinear_arith)
            requires
                a < c,
                0 <= b < bounds.ny,
                0 <= d,
        ;
    } else if c < a {
        assert(c * bounds.ny + d < a * bounds.ny + b) by (nonlinear_arith)
            requires
                c < a,
                0 <= d < bounds.ny,
                0 <= b,
        ;
    }
}

/// The wave scheduler: drives the full pixel-by-sample iteration space in
/// geometrically growing waves, reseeding the sampler for every
/// `(pixel, sample index)` pair and reporting progress after each pixel's
/// wave slice.
pub struct ImageTileIntegrator<C: Camera, E: PixelEvaluator<C>> {
    pub camera: C,
    pub film: Film,
    pub sampler_prototype: Sampler,
    pub pixel_evaluator: E,
}

impl<C: Camera, E: PixelEvaluator<C>> ImageTileIntegrator<C, E> {
    pub fn new(camera: C, film: Film, sampler: Sampler, pixel_evaluator: E) -> (r: Self)
        ensures
            r.camera == camera,
            r.film == film,
            r.sampler_prototype == sampler,
            r.pixel_evaluator == pixel_evaluator,
    {
        ImageTileIntegrator { camera, film, sampler_prototype: sampler, pixel_evaluator }
    }

    /// Render the full pixel-by-sample space.  On return every pixel's
    /// accumulator holds the fold of all its sample contributions in index
    /// order, and the returned progress tally has reported exactly
    /// `spp * pixel_count` completed units.
    #[verifier::loop_isolation(false)]
    #[verifier::rlimit(100)]
    pub fn render(&mut self, options: &crate::Options) -> (progress: ProgressReporter)
        requires
            old(self).film.wf(),
            old(self).pixel_evaluator.eval_req(),
            1 <= old(self).sampler_prototype.spp <= MAX_SPP,
        ensures
            final(self).camera == old(self).camera,
            final(self).sampler_prototype == old(self).sampler_prototype,
            final(self).pixel_evaluator == old(self).pixel_evaluator,
            final(self).film.bounds == old(self).film.bounds,
            final(self).film.filter == old(self).film.filter,
            final(self).film.uses_vis == old(self).film.uses_vis,
            final(self).film.wf(),
            progress.total == old(self).sampler_prototype.spp as int * (old(self).film.bounds.nx
                as int * old(self).film.bounds.ny as int),
            progress.done == progress.total,
            progress.quiet == options.quiet,
            forall|a: int, b: int|
                0 <= a < old(self).film.bounds.nx && 0 <= b < old(self).film.bounds.ny
                    ==> final(self).film.pixels@[spec_pixel_index(old(self).film.bounds, a, b)]
                    == spec_cell_after(
                    old(self).pixel_evaluator,
                    old(self).camera,
                    old(self).film.filter,
                    old(self).film.uses_vis,
                    old(self).sampler_prototype,
                    a,
                    b,
                    old(self).film.pixels@[spec_pixel_index(old(self).film.bounds, a, b)],
                    old(self).sampler_prototype.spp as int,
                ),
    {
        let ghost pixels0 = self.film.pixels@;
        let ghost bounds0 = self.film.bounds;
        let ghost proto = self.sampler_prototype;

        let mut sampler = self.sampler_prototype;
        let mut scratch_buffer = ScratchBuffer::new();

        let pixel_bounds = self.film.pixel_bounds();
        let nx = pixel_bounds.x();
        let ny = pixel_bounds.y();
        let spp = self.sampler_prototype.samples_per_pixel();
        let ghost area = nx as int * ny as int;
        proof {
            assert(0 <= area <= 16384 * 16384) by (nonlinear_arith)
                requires
                    area == nx as int * ny as int,
                    0 <= nx as int && nx as int <= 16384,
                    0 <= ny as int && ny as int <= 16384,
            ;
            assert(0 <= spp * area <= MAX_SPP as int * (16384 * 16384)) by (nonlinear_arith)
                requires
                    1 <= spp <= MAX_SPP,
                    0 <= area <= 16384 * 16384,
            ;
        }
        let total = (spp as i64) * pixel_bounds.area();
        let mut progress = ProgressReporter::new(total, "Rendering", options.quiet);

        let mut wave_start: i32 = 0;
        let mut wave_end: i32 = 1;
        let mut next_wave_size: i32 = 1;

        while wave_start < spp
            invariant
                0 <= wave_start <= wave_end <= spp,
                wave_start < spp ==> wave_start < wave_end,
                1 <= next_wave_size <= 64,
                sampler.seed == proto.seed,
                sampler.spp == proto.spp,
                self.camera == old(self).camera,
                self.sampler_prototype == old(self).sampler_prototype,
                self.pixel_evaluator == old(self).pixel_evaluator,
                self.film.bounds == bounds0,
                self.film.filter == old(self).film.filter,
                self.film.uses_vis == old(self).film.uses_vis,
                self.film.wf(),
                progress.total == total,
                progress.quiet == options.quiet,
                progress.done == wave_start as int * area,
                forall|a: int, b: int|
                    0 <= a < nx && 0 <= b < ny ==> #[trigger] self.film.pixels@[spec_pixel_index(
                        bounds0,
                        a,
                        b,
                    )] == spec_cell_after(
                        old(self).pixel_evaluator,
                        old(self).camera,
                        old(self).film.filter,
                        old(self).film.uses_vis,
                        proto,
                        a,
                        b,
                        pixels0[spec_pixel_index(bounds0, a, b)],
                        wave_start as int,
                    ),
            decreases spp - wave_start,
        {
            let ghost ws = wave_start as int;
            let ghost we = wave_end as int;
            let ghost d = we - ws;
            let mut i: i32 = 0;
            proof {
                assert((i as int * ny as int) * d == 0) by (nonlinear_arith)
                    requires
                        i as int == 0,
                ;
            }
            while i < nx
                invariant
                    0 <= i <= nx,
                    sampler.seed == proto.seed,
                    sampler.spp == proto.spp,
                    self.camera == old(self).camera,
                    self.sampler_prototype == old(self).sampler_prototype,
                    self.pixel_evaluator == old(self).pixel_evaluator,
                    self.film.bounds == bounds0,
                    self.film.filter == old(self).film.filter,
                    self.film.uses_vis == old(self).film.uses_vis,
                    self.film.wf(),
                    progress.total == total,
                    progress.quiet == options.quiet,
                    progress.done == ws * area + (i as int * ny as int) * d,
                    forall|a: int, b: int|
                        0 <= a < i && 0 <= b < ny ==> #[trigger] self.film.pixels@[spec_pixel_index(
                            bounds0,
                            a,
                            b,
                        )] == spec_cell_after(
                            old(self).pixel_evaluator,
                            old(self).camera,
                            old(self).film.filter,
                            old(self).film.uses_vis,
                            proto,
                            a,
                            b,
                            pixels0[spec_pixel_index(bounds0, a, b)],
                            we,
                        ),
                    forall|a: int, b: int|
                        i <= a < nx && 0 <= b < ny ==> #[trigger] self.film.pixels@[spec_pixel_index(
                            bounds0,
                            a,
                            b,
                        )] == spec_cell_after(
                            old(self).pixel_evaluator,
                            old(self).camera,
                            old(self).film.filter,
                            old(self).film.uses_vis,
                            proto,
                            a,
                            b,
                            pixels0[spec_pixel_index(bounds0, a, b)],
                            ws,
                        ),
                decreases nx - i,
            {
                let mut j: i32 = 0;
                while j < ny
                    invariant
                        0 <= j <= ny,
                        sampler.seed == proto.seed,
                        sampler.spp == proto.spp,
                        self.camera == old(self).camera,
                        self.sampler_prototype == old(self).sampler_prototype,
                        self.pixel_evaluator == old(self).pixel_evaluator,
                        self.film.bounds == bounds0,
                        self.film.filter == old(self).film.filter,
                        self.film.uses_vis == old(self).film.uses_vis,
                        self.film.wf(),
                        progress.total == total,
                        progress.quiet == options.quiet,
                        progress.done == ws * area + (i as int * ny as int + j as int) * d,
                        forall|a: int, b: int|
                            0 <= a < i && 0 <= b < ny ==> #[trigger] self.film.pixels@[spec_pixel_index(
                                bounds0,
                                a,
                                b,
                            )] == spec_cell_after(
                                old(self).pixel_evaluator,
                                old(self).camera,
                                old(self).film.filter,
                                old(self).film.uses_vis,
                                proto,
                                a,
                                b,
                                pixels0[spec_pixel_index(bounds0, a, b)],
                                we,
                            ),
                        forall|b: int|
                            0 <= b < j ==> #[trigger] self.film.pixels@[spec_pixel_index(
                                bounds0,
                                i as int,
                                b,
                            )] == spec_cell_after(
                                old(self).pixel_evaluator,
                                old(self).camera,
                                old(self).film.filter,
                                old(self).film.uses_vis,
                                proto,
                                i as int,
                                b,
                                pixels0[spec_pixel_index(bounds0, i as int, b)],
                                we,
                            ),
                        forall|b: int|
                            j <= b < ny ==> #[trigger] self.film.pixels@[spec_pixel_index(
                                bounds0,
                                i as int,
                                b,
                            )] == spec_cell_after(
                                old(self).pixel_evaluator,
                                old(self).camera,
                                old(self).film.filter,
                                old(self).film.uses_vis,
                                proto,
                                i as int,
                                b,
                                pixels0[spec_pixel_index(bounds0, i as int, b)],
                                ws,
                            ),
                        forall|a: int, b: int|
                            i < a < nx && 0 <= b < ny ==> #[trigger] self.film.pixels@[spec_pixel_index(
                                bounds0,
                                a,
                                b,
                            )] == spec_cell_after(
                                old(self).pixel_evaluator,
                                old(self).camera,
                                old(self).film.filter,
                                old(self).film.uses_vis,
                                proto,
                                a,
                                b,
                                pixels0[spec_pixel_index(bounds0, a, b)],
                                ws,
                            ),
                    decreases ny - j,
                {
                    let pixel = crate::math::points::Point2i::new(i, j);
                    let mut sample_index: i32 = wave_start;
                    while sample_index < wave_end
                        invariant
                            wave_start <= sample_index <= wave_end,
                            0 <= i < nx,
                            0 <= j < ny,
                            pixel == (Point2i { x: i, y: j }),
                            sampler.seed == proto.seed,
                            sampler.spp == proto.spp,
                            self.camera == old(self).camera,
                            self.sampler_prototype == old(self).sampler_prototype,
                            self.pixel_evaluator == old(self).pixel_evaluator,
                            self.film.bounds == bounds0,
                            self.film.filter == old(self).film.filter,
                            self.film.uses_vis == old(self).film.uses_vis,
                            self.film.wf(),
                            self.film.pixels@[spec_pixel_index(bounds0, i as int, j as int)]
                                == spec_cell_after(
                                old(self).pixel_evaluator,
                                old(self).camera,
                                old(self).film.filter,
                                old(self).film.uses_vis,
                                proto,
                                i as int,
                                j as int,
                                pixels0[spec_pixel_index(bounds0, i as int, j as int)],
                                sample_index as int,
                            ),
                            forall|a: int, b: int|
                                0 <= a < i && 0 <= b < ny ==> #[trigger] self.film.pixels@[spec_pixel_index(
                                    bounds0,
                                    a,
                                    b,
                                )] == spec_cell_after(
                                    old(self).pixel_evaluator,
                                    old(self).camera,
                                    old(self).film.filter,
                                    old(self).film.uses_vis,
                                    proto,
                                    a,
                                    b,
                                    pixels0[spec_pixel_index(bounds0, a, b)],
                                    we,
                                ),
                            forall|b: int|
                                0 <= b < j ==> #[trigger] self.film.pixels@[spec_pixel_index(
                                    bounds0,
                                    i as int,
                                    b,
                                )] == spec_cell_after(
                                    old(self).pixel_evaluator,
                                    old(self).camera,
                                    old(self).film.filter,
                                    old(self).film.uses_vis,
                                    proto,
                                    i as int,
                                    b,
                                    pixels0[spec_pixel_index(bounds0, i as int, b)],
                                    we,
                                ),
                            forall|b: int|
                                j < b < ny ==> #[trigger] self.film.pixels@[spec_pixel_index(
                                    bounds0,
                                    i as int,
                                    b,
                                )] == spec_cell_after(
                                    old(self).pixel_evaluator,
                                    old(self).camera,
                                    old(self).film.filter,
                                    old(self).film.uses_vis,
                                    proto,
                                    i as int,
                                    b,
                                    pixels0[spec_pixel_index(bounds0, i as int, b)],
                                    ws,
                                ),
                            forall|a: int, b: int|
                                i < a < nx && 0 <= b < ny ==> #[trigger] self.film.pixels@[spec_pixel_index(
                                    bounds0,
                                    a,
                                    b,
                                )] == spec_cell_after(
                                    old(self).pixel_evaluator,
                                    old(self).camera,
                                    old(self).film.filter,
                                    old(self).film.uses_vis,
                                    proto,
                                    a,
                                    b,
                                    pixels0[spec_pixel_index(bounds0, a, b)],
                                    ws,
                                ),
                        decreases wave_end - sample_index,
                    {
                        sampler.start_pixel_sample(&pixel, sample_index);
                        proof {
                            assert(sampler == crate::sampler::spec_start_pixel_sample(
                                proto,
                                pixel,
                                sample_index,
                            ));
                        }
                        let ghost film_before = self.film.pixels@;
                        self.pixel_evaluator.evaluate_pixel_sample(
                            pixel,
                            sample_index,
                            &mut sampler,
                            &mut scratch_buffer,
                            &self.camera,
                            &mut self.film,
                        );
                        proof {
                            let here = spec_pixel_index(bounds0, i as int, j as int);
                            crate::film::lemma_pixel_index_in_range(bounds0, i as int, j as int);
                            assert(((i as int) as i32) == i);
                            assert(((j as int) as i32) == j);
                            assert(self.film.pixels@[here] == spec_cell_after(
                                old(self).pixel_evaluator,
                                old(self).camera,
                                old(self).film.filter,
                                old(self).film.uses_vis,
                                proto,
                                i as int,
                                j as int,
                                pixels0[here],
                                sample_index as int + 1,
                            ));
                            assert forall|a: int, b: int|
                                0 <= a < nx && 0 <= b < ny && (a != i as int || b != j as int)
                                    implies #[trigger] self.film.pixels@[spec_pixel_index(
                                    bounds0,
                                    a,
                                    b,
                                )] == film_before[spec_pixel_index(bounds0, a, b)] by {
                                crate::film::lemma_pixel_index_in_range(bounds0, a, b);
                                lemma_pixel_index_injective(
                                    bounds0,
                                    a,
                                    b,
                                    i as int,
                                    j as int,
                                );
                            }
                        }
                        sample_index += 1;
                    }
                    proof {
                        let cells = i as int * ny as int + j as int;
                        assert((cells + 1) * d == cells * d + d) by (nonlinear_arith);
                        assert(cells + 1 <= area) by (nonlinear_arith)
                            requires
                                cells == i as int * ny as int + j as int,
                                area == nx as int * ny as int,
                                0 <= i as int && (i as int) < nx as int,
                                0 <= j as int && (j as int) < ny as int,
                        ;
                        vstd::arithmetic::mul::lemma_mul_inequality(cells + 1, area, d);
                        assert(ws * area + area * d == (ws + d) * area) by (nonlinear_arith);
                        vstd::arithmetic::mul::lemma_mul_inequality(ws + d, spp as int, area);
                    }
                    progress.update(wave_end - wave_start);
                    j += 1;
                }
                proof {
                    assert(i as int * ny as int + ny as int == (i as int + 1) * ny as int)
                        by (nonlinear_arith);
                }
                i += 1;
            }
            proof {
                assert(ws * area + (nx as int * ny as int) * d == (ws + d) * area)
                    by (nonlinear_arith)
                    requires
                        area == nx as int * ny as int,
                ;
            }
            let advanced = advance_wave(wave_end, next_wave_size, spp);
            wave_start = wave_end;
            wave_end = advanced.0;
            next_wave_size = advanced.1;
        }
        progress
    }
}

/// Determinism of the render: its postcondition pins every pixel down as a
/// function of the evaluator, camera, film configuration, sampler seed and
/// schedule; any two films satisfying it over the same inputs are equal.
pub proof fn lemma_render_deterministic<C: Camera, E: PixelEvaluator<C>>(
    ev: E,
    camera: C,
    filter: Filter,
    uses_vis: bool,
    proto: Sampler,
    bounds: crate::bounds::Bounds2i,
    cells0: Seq<crate::film::FilmPixel>,
    spp: int,
    out1: Seq<crate::film::FilmPixel>,
    out2: Seq<crate::film::FilmPixel>,
)
    requires
        bounds.wf(),
        cells0.len() == bounds.nx * bounds.ny,
        out1.len() == cells0.len(),
        out2.len() == cells0.len(),
        forall|a: int, b: int|
            0 <= a < bounds.nx && 0 <= b < bounds.ny ==> #[trigger] out1[spec_pixel_index(
                bounds,
                a,
                b,
            )] == spec_cell_after(
                ev,
                camera,
                filter,
                uses_vis,
                proto,
                a,
                b,
                cells0[spec_pixel_index(bounds, a, b)],
                spp,
            ),
        forall|a: int, b: int|
            0 <= a < bounds.nx && 0 <= b < bounds.ny ==> #[trigger] out2[spec_pixel_index(
                bounds,
                a,
                b,
            )] == spec_cell_after(
                ev,
                camera,
                filter,
                uses_vis,
                proto,
                a,
                b,
                cells0[spec_pixel_index(bounds, a, b)],
                spp,
            ),
    ensures
        out1 == out2,
{
    assert forall|k: int| 0 <= k < out1.len() implies out1[k] == out2[k] by {
        let ny = bounds.ny as int;
        assert(ny > 0) by (nonlinear_arith)
            requires
                0 <= k && k < bounds.nx as int * ny,
                0 <= ny,
        ;
        let a: int = k / ny;
        let b: int = k % ny;
        vstd::arithmetic::div_mod::lemma_fundamental_div_mod(k, ny);
        vstd::arithmetic::div_mod::lemma_mod_bound(k, ny);
        assert(0 <= a) by (nonlinear_arith)
            requires
                k == ny * a + b,
                0 <= b && b < ny,
                0 <= k,
                0 < ny,
        ;
        assert(a < bounds.nx) by (nonlinear_arith)
            requires
                k == ny * a + b,
                0 <= b && b < ny,
                k < bounds.nx as int * ny,
                0 <= a,
        ;
        assert(spec_pixel_index(bounds, a, b) == k) by (nonlinear_arith)
            requires
                k == ny * a + b,
                spec_pixel_index(bounds, a, b) == a * ny + b,
        ;
        assert(out1[spec_pixel_index(bounds, a, b)] == out2[spec_pixel_index(bounds, a, b)]);
    }
    assert(out1 =~= out2);
}

impl<R> RayIntegrator<R> {
    /// Assemble the ray integrator under the wave scheduler.
    pub fn new<C: Camera>(camera: C, film: Film, sampler: Sampler, radiance_computer: R) -> (r:
        ImageTileIntegrator<C, RayIntegrator<R>>) where R: RadianceComputer<C>
        ensures
            r.camera == camera,
            r.film == film,
            r.sampler_prototype == sampler,
            r.pixel_evaluator == (RayIntegrator { radiance_computer, scale_differentials: false }),
    {
        let evaluator = RayIntegrator { radiance_computer, scale_differentials: false };
        ImageTileIntegrator::new(camera, film, sampler, evaluator)
    }
}

impl<A: Aggregate> RandomWalkIntegrator<A> {
    /// Assemble the full stack: the random-walk estimator under the ray
    /// integrator under the wave scheduler.
    pub fn new<C: Camera>(
        max_depth: i32,
        camera: C,
        film: Film,
        sampler: Sampler,
        intersector: AggregateIntersector<A>,
    ) -> (r: ImageTileIntegrator<C, RayIntegrator<RandomWalkIntegrator<A>>>)
        ensures
            r.camera == camera,
            r.film == film,
            r.sampler_prototype == sampler,
            r.pixel_evaluator == (RayIntegrator {
                radiance_computer: RandomWalkIntegrator { intersector, max_depth },
                scale_differentials: false,
            }),
    {
        let random_walk = RandomWalkIntegrator { intersector, max_depth };
        RayIntegrator::new(camera, film, sampler, random_walk)
    }
}

} // verus!
