//! The scene-query contracts: BSDFs, intersections and aggregates.
use vstd::prelude::*;

use crate::bounds::Bounds3f;
use crate::camera::Camera;
use crate::fp::Fp;
use crate::math::points::Point3f;
use crate::math::vectors::Vector3f;
use crate::rays::{Ray, RayDifferential};
use crate::sampler::Sampler;
use crate::scratch::ScratchBuffer;
use crate::spectrum::{SampledSpectrum, SampledWavelengths};

verus! {

/// The scattering contract at a hit point.  Implementations are open-ended
/// (user-supplied materials); each pins its `f` down with a spec function.
pub trait Bsdf: Sized {
    /// The spectral value `f(wo, wi)` of the scattering function.
    spec fn spec_f(&self, wo: Vector3f, wi: Vector3f) -> SampledSpectrum;

    /// Evaluate the scattering function for an outgoing/incoming direction
    /// pair.
    fn f(&self, wo: &Vector3f, wi: &Vector3f) -> (r: SampledSpectrum)
        ensures
            r == self.spec_f(*wo, *wi),
    ;
}

/// A BSDF reflecting the same spectrum for every direction pair.  With a
/// zero spectrum it doubles as the absorbing material that stops every path.
#[derive(Clone, Copy, PartialEq, Eq, Structural, Debug)]
pub struct ConstantBsdf {
    pub reflectance: SampledSpectrum,
}

impl Bsdf for ConstantBsdf {
    open spec fn spec_f(&self, wo: Vector3f, wi: Vector3f) -> SampledSpectrum {
        self.reflectance
    }

    fn f(&self, wo: &Vector3f, wi: &Vector3f) -> (r: SampledSpectrum) {
        self.reflectance
    }
}

/// The local geometry at a hit point.
#[derive(Clone, Copy, PartialEq, Eq, Structural, Debug)]
pub struct SurfaceInteraction {
    /// The hit point.
    pub p: Point3f,
    /// Time the hit was taken at.
    pub time: Fp,
}

/// The shading frame at a hit point.
#[derive(Clone, Copy, PartialEq, Eq, Structural, Debug)]
pub struct Shading {
    /// The shading normal.
    pub n: Vector3f,
}

/// The nearest hit of a ray against the aggregate, with everything the
/// estimator reads from it: the interaction, the shading frame, the emitted
/// radiance and the scattering function at the hit.
#[derive(Clone, Copy, PartialEq, Eq, Structural, Debug)]
pub struct ShapeIntersection<B> {
    pub intr: SurfaceInteraction,
    pub shading: Shading,
    /// Radiance the hit surface emits toward the outgoing direction.
    pub emission: SampledSpectrum,
    /// The scattering function at the hit.
    pub bsdf: B,
}

/// The ray spawned from a hit point along a sampled direction.
pub open spec fn spec_spawn_ray<B>(si: ShapeIntersection<B>, wp: Vector3f) -> RayDifferential {
    RayDifferential {
        ray: Ray { o: si.intr.p, d: wp, time: si.intr.time, medium: None },
        differential: None,
    }
}

impl<B: Bsdf> ShapeIntersection<B> {
    /// Radiance emitted at the hit toward the outgoing direction `wo`.
    pub fn le(&self, wo: &Vector3f, lambda: &SampledWavelengths) -> (r: SampledSpectrum)
        ensures
            r == self.emission,
    {
        self.emission
    }

    /// The scattering function at the hit, built from the incoming ray, the
    /// wavelength sample, the camera and the per-sample scratch storage.
    pub fn bsdf<C: Camera>(
        &self,
        ray: &Ray,
        lambda: &SampledWavelengths,
        camera: &C,
        scratch_buffer: &mut ScratchBuffer,
        sampler: &Sampler,
    ) -> (r: &B)
        ensures
            r == &self.bsdf,
    {
        &self.bsdf
    }

    /// Spawn a new ray from the hit point along `wp`.
    pub fn spawn_ray(&self, wp: &Vector3f) -> (r: RayDifferential)
        ensures
            r == spec_spawn_ray(*self, *wp),
    {
        RayDifferential {
            ray: Ray { o: self.intr.p, d: *wp, time: self.intr.time, medium: None },
            differential: None,
        }
    }
}

/// The intersection contract of the scene's combined geometry.  The
/// acceleration structure behind it is open-ended; the estimator relies only
/// on these queries.
pub trait Aggregate: Sized {
    /// The scattering function type carried by this geometry's hits.
    type B: Bsdf;

    /// Whether the aggregate holds any geometry at all.
    spec fn spec_valid(&self) -> bool;

    /// The aggregate's bounds.
    spec fn spec_bounds(&self) -> Bounds3f;

    /// The nearest hit of a ray at parametric distance below `t_max`.
    spec fn spec_intersect(&self, ray: Ray, t_max: Fp) -> Option<ShapeIntersection<Self::B>>;

    fn valid(&self) -> (r: bool)
        ensures
            r == self.spec_valid(),
    ;

    fn bounds(&self) -> (r: Bounds3f)
        ensures
            r == self.spec_bounds(),
    ;

    /// The nearest hit, or `None` when the ray misses.
    fn intersect(&self, ray: &Ray, t_max: Fp) -> (r: Option<ShapeIntersection<Self::B>>)
        ensures
            r == self.spec_intersect(*ray, t_max),
    ;

    /// Boolean occlusion query, consistent with `intersect`.
    fn intersect_p(&self, ray: &Ray, t_max: Fp) -> (r: bool)
        ensures
            r == self.spec_intersect(*ray, t_max).is_some(),
    ;
}

/// A closed surface sample every ray strikes: an idealized enclosing shell.
/// Degenerate geometry of this kind exercises the estimator's hit path
/// without an acceleration structure.
#[derive(Clone, Copy, PartialEq, Eq, Structural, Debug)]
pub struct EnclosureSurface {
    /// The surface sample returned for every ray.
    pub surface: ShapeIntersection<ConstantBsdf>,
    /// Bounds of the shell.
    pub bounds: Bounds3f,
}

/// The scene's geometry: either nothing (an empty scene where every ray
/// escapes) or an enclosing shell every ray strikes.
#[derive(Clone, Copy, PartialEq, Eq, Structural, Debug)]
pub enum SceneAggregate {
    /// No geometry: every query misses, only infinite lights contribute.
    Invalid,
    /// An enclosing shell.
    Enclosure(EnclosureSurface),
}

impl Aggregate for SceneAggregate {
    type B = ConstantBsdf;

    open spec fn spec_valid(&self) -> bool {
        !(self is Invalid)
    }

    open spec fn spec_bounds(&self) -> Bounds3f {
        match *self {
            SceneAggregate::Invalid => Bounds3f::spec_empty(),
            SceneAggregate::Enclosure(e) => e.bounds,
        }
    }

    open spec fn spec_intersect(&self, ray: Ray, t_max: Fp) -> Option<
        ShapeIntersection<ConstantBsdf>,
    > {
        match *self {
            SceneAggregate::Invalid => None,
            SceneAggregate::Enclosure(e) => Some(e.surface),
        }
    }

    fn valid(&self) -> (r: bool) {
        match self {
            SceneAggregate::Invalid => false,
            SceneAggregate::Enclosure(_) => true,
        }
    }

    fn bounds(&self) -> (r: Bounds3f) {
        match self {
            SceneAggregate::Invalid => Bounds3f::default(),
            SceneAggregate::Enclosure(e) => e.bounds,
        }
    }

    fn intersect(&self, ray: &Ray, t_max: Fp) -> (r: Option<ShapeIntersection<ConstantBsdf>>) {
        match self {
            SceneAggregate::Invalid => None,
            SceneAggregate::Enclosure(e) => Some(e.surface),
        }
    }

    fn intersect_p(&self, ray: &Ray, t_max: Fp) -> (r: bool) {
        match self {
            SceneAggregate::Invalid => false,
            SceneAggregate::Enclosure(_) => true,
        }
    }
}

} // verus!
