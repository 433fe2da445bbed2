//! The camera boundary: turning a film sample into a primary ray.
use vstd::prelude::*;

use crate::film::Filter;
use crate::fp::{Fp, FP_ONE};
use crate::math::points::{Point2f, Point2i, Point3f};
use crate::math::vectors::Vector3f;
use crate::rays::RayDifferential;
use crate::sampler::{spec_get_2d, Sampler};
use crate::spectrum::{spec_constant_spectrum, SampledSpectrum};

verus! {

/// A pixel position with its sub-pixel jitter and reconstruction weight.
#[derive(Clone, Copy, PartialEq, Eq, Structural, Debug)]
pub struct CameraSample {
    /// Where on the film plane the sample lies, in pixel units.
    pub p_film: Point2f,
    /// Weight the reconstruction filter gives this sample.
    pub filter_weight: Fp,
}

/// The camera sample built for a pixel from the sampler's next 2D draw:
/// the pixel corner jittered inside the pixel, with the box filter's
/// constant weight.
pub open spec fn spec_camera_sample(s: Sampler, pixel: Point2i) -> (CameraSample, Sampler) {
    let (jitter, s1) = spec_get_2d(s);
    (
        CameraSample {
            p_film: Point2f {
                x: Fp { bits: (pixel.x * FP_ONE + jitter.x.bits) as i64 },
                y: Fp { bits: (pixel.y * FP_ONE + jitter.y.bits) as i64 },
            },
            filter_weight: Fp { bits: FP_ONE },
        },
        s1,
    )
}

impl CameraSample {
    /// Build the camera sample for one pixel, drawing the jitter from the
    /// sampler.
    pub fn new(sampler: &mut Sampler, pixel: Point2i, filter: Filter) -> (r: CameraSample)
        requires
            old(sampler).wf(),
        ensures
            r == spec_camera_sample(*old(sampler), pixel).0,
            *final(sampler) == spec_camera_sample(*old(sampler), pixel).1,
            final(sampler).wf(),
    {
        let jitter = sampler.get_2d();
        CameraSample {
            p_film: Point2f {
                x: Fp { bits: (pixel.x as i64) * FP_ONE + jitter.x.bits },
                y: Fp { bits: (pixel.y as i64) * FP_ONE + jitter.y.bits },
            },
            filter_weight: Fp { bits: FP_ONE },
        }
    }
}

/// A primary ray with the weight its radiance estimate must be scaled by.
#[derive(Clone, Copy, PartialEq, Eq, Structural, Debug)]
pub struct CameraRayDifferential {
    pub ray: RayDifferential,
    pub weight: SampledSpectrum,
}

/// The camera contract the pixel evaluator consumes.  Ray generation is a
/// read-only operation, so camera snapshots can be shared across workers.
pub trait Camera: Sized {
    /// The ray (if any) the camera produces for a sample, and its weight.
    spec fn spec_generate_ray(
        &self,
        camera_sample: CameraSample,
        lambda: crate::spectrum::SampledWavelengths,
    ) -> Option<CameraRayDifferential>;

    /// Produce the primary ray for a camera sample.  `None` means the
    /// sample lies outside the lens domain; the film still receives a
    /// zero-radiance sample in that case.
    fn generate_ray_differential(
        &self,
        camera_sample: CameraSample,
        lambda: &crate::spectrum::SampledWavelengths,
    ) -> (r: Option<CameraRayDifferential>)
        ensures
            r == self.spec_generate_ray(camera_sample, *lambda),
    ;
}

/// An orthographic camera on the `z = 0` plane, looking along `+z`.
/// Every sample yields a ray of unit weight.
#[derive(Clone, Copy, PartialEq, Eq, Structural, Debug)]
pub struct OrthographicCamera {
    /// Ray departure time, forwarded to every generated ray.
    pub shutter_time: Fp,
}

/// The ray the orthographic camera generates: it starts at the film-plane
/// point and travels along `+z`.
pub open spec fn spec_ortho_ray(cam: OrthographicCamera, s: CameraSample) -> CameraRayDifferential {
    CameraRayDifferential {
        ray: RayDifferential {
            ray: crate::rays::Ray {
                o: Point3f { x: s.p_film.x, y: s.p_film.y, z: Fp { bits: 0 } },
                d: Vector3f { x: Fp { bits: 0 }, y: Fp { bits: 0 }, z: Fp { bits: FP_ONE } },
                time: cam.shutter_time,
                medium: None,
            },
            differential: None,
        },
        weight: spec_constant_spectrum(Fp { bits: FP_ONE }),
    }
}

impl Camera for OrthographicCamera {
    open spec fn spec_generate_ray(
        &self,
        camera_sample: CameraSample,
        lambda: crate::spectrum::SampledWavelengths,
    ) -> Option<CameraRayDifferential> {
        Some(spec_ortho_ray(*self, camera_sample))
    }

    fn generate_ray_differential(
        &self,
        camera_sample: CameraSample,
        lambda: &crate::spectrum::SampledWavelengths,
    ) -> (r: Option<CameraRayDifferential>) {
        Some(
            CameraRayDifferential {
                ray: RayDifferential {
                    ray: crate::rays::Ray {
                        o: Point3f {
                            x: camera_sample.p_film.x,
                            y: camera_sample.p_film.y,
                            z: Fp { bits: 0 },
                        },
                        d: Vector3f {
                            x: Fp { bits: 0 },
                            y: Fp { bits: 0 },
                            z: Fp { bits: FP_ONE },
                        },
                        time: self.shutter_time,
                        medium: None,
                    },
                    differential: None,
                },
                weight: SampledSpectrum::new(Fp { bits: FP_ONE }),
            },
        )
    }
}

/// A camera whose lens admits no sample: every requested ray is refused.
/// Renders with it exercise the zero-radiance fallback path.
#[derive(Clone, Copy, PartialEq, Eq, Structural, Debug)]
pub struct BlockedCamera {}

impl Camera for BlockedCamera {
    open spec fn spec_generate_ray(
        &self,
        camera_sample: CameraSample,
        lambda: crate::spectrum::SampledWavelengths,
    ) -> Option<CameraRayDifferential> {
        None
    }

    fn generate_ray_differential(
        &self,
        camera_sample: CameraSample,
        lambda: &crate::spectrum::SampledWavelengths,
    ) -> (r: Option<CameraRayDifferential>) {
        None
    }
}

} // verus!
