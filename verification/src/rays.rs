//! Rays and ray differentials.
use vstd::prelude::*;

use crate::fp::{spec_fp_add, spec_fp_mul, spec_fp_sub, Fp};
use crate::math::points::Point3f;
use crate::math::vectors::Vector3f;
use crate::media::Medium;

verus! {

/// A ray: origin, direction, time and the medium it starts in.
#[derive(Clone, Copy, PartialEq, Eq, Structural, Debug)]
pub struct Ray {
    pub o: Point3f,
    pub d: Vector3f,
    pub time: Fp,
    pub medium: Option<Medium>,
}

/// The point `o + d * t`, with saturating fixed-point arithmetic.
pub open spec fn spec_ray_at(r: Ray, t: Fp) -> Point3f {
    Point3f {
        x: spec_fp_add(r.o.x, spec_fp_mul(r.d.x, t)),
        y: spec_fp_add(r.o.y, spec_fp_mul(r.d.y, t)),
        z: spec_fp_add(r.o.z, spec_fp_mul(r.d.z, t)),
    }
}

impl Ray {
    pub fn new(o: Point3f, d: Vector3f, medium: Option<Medium>) -> (r: Ray)
        ensures
            r == (Ray { o, d, time: Fp { bits: 0 }, medium }),
    {
        Ray { o, d, time: Fp { bits: 0 }, medium }
    }

    pub fn new_with_time(o: Point3f, d: Vector3f, time: Fp, medium: Option<Medium>) -> (r: Ray)
        ensures
            r == (Ray { o, d, time, medium }),
    {
        Ray { o, d, time, medium }
    }

    /// The point reached after travelling `t` along the ray.
    pub fn at(&self, t: Fp) -> (r: Point3f)
        ensures
            r == spec_ray_at(*self, t),
    {
        Point3f {
            x: self.o.x.sat_add(self.d.x.sat_mul(t)),
            y: self.o.y.sat_add(self.d.y.sat_mul(t)),
            z: self.o.z.sat_add(self.d.z.sat_mul(t)),
        }
    }
}

impl From<Ray> for RayDifferential {
    /// A bare ray as a differential ray without auxiliary offsets.
    fn from(ray: Ray) -> (r: RayDifferential) {
        RayDifferential { ray, differential: None }
    }
}

impl vstd::std_specs::convert::FromSpecImpl<Ray> for RayDifferential {
    open spec fn obeys_from_spec() -> bool {
        true
    }

    open spec fn from_spec(ray: Ray) -> RayDifferential {
        RayDifferential { ray, differential: None }
    }
}

/// Auxiliary offset rays used to estimate a texture filtering footprint.
#[derive(Clone, Copy, PartialEq, Eq, Structural, Debug)]
pub struct Differential {
    pub rx_origin: Point3f,
    pub ry_origin: Point3f,
    pub rx_direction: Vector3f,
    pub ry_direction: Vector3f,
}

/// A ray together with optional auxiliary differential rays.
#[derive(Clone, Copy, PartialEq, Eq, Structural, Debug)]
pub struct RayDifferential {
    pub ray: Ray,
    pub differential: Option<Differential>,
}

/// `b + (a - b) * s`: an offset narrowed toward its base point.
pub open spec fn spec_narrow(a: Fp, b: Fp, s: Fp) -> Fp {
    spec_fp_add(b, spec_fp_mul(spec_fp_sub(a, b), s))
}

/// The differential with each auxiliary offset narrowed by the factor `s`.
pub open spec fn spec_scale_differentials(rd: RayDifferential, s: Fp) -> RayDifferential {
    match rd.differential {
        None => rd,
        Some(d) => RayDifferential {
            ray: rd.ray,
            differential: Some(
                Differential {
                    rx_origin: Point3f {
                        x: spec_narrow(d.rx_origin.x, rd.ray.o.x, s),
                        y: spec_narrow(d.rx_origin.y, rd.ray.o.y, s),
                        z: spec_narrow(d.rx_origin.z, rd.ray.o.z, s),
                    },
                    ry_origin: Point3f {
                        x: spec_narrow(d.ry_origin.x, rd.ray.o.x, s),
                        y: spec_narrow(d.ry_origin.y, rd.ray.o.y, s),
                        z: spec_narrow(d.ry_origin.z, rd.ray.o.z, s),
                    },
                    rx_direction: Vector3f {
                        x: spec_narrow(d.rx_direction.x, rd.ray.d.x, s),
                        y: spec_narrow(d.rx_direction.y, rd.ray.d.y, s),
                        z: spec_narrow(d.rx_direction.z, rd.ray.d.z, s),
                    },
                    ry_direction: Vector3f {
                        x: spec_narrow(d.ry_direction.x, rd.ray.d.x, s),
                        y: spec_narrow(d.ry_direction.y, rd.ray.d.y, s),
                        z: spec_narrow(d.ry_direction.z, rd.ray.d.z, s),
                    },
                },
            ),
        },
    }
}

/// `b + (a - b) * s` in executable form.
fn narrow(a: Fp, b: Fp, s: Fp) -> (r: Fp)
    ensures
        r == spec_narrow(a, b, s),
{
    b.sat_add(a.sat_sub(b).sat_mul(s))
}

impl RayDifferential {
    pub fn new(o: Point3f, d: Vector3f, medium: Option<Medium>) -> (r: RayDifferential)
        ensures
            r == (RayDifferential { ray: Ray { o, d, time: Fp { bits: 0 }, medium }, differential: None }),
    {
        RayDifferential { ray: Ray::new(o, d, medium), differential: None }
    }

    pub fn new_with_time(o: Point3f, d: Vector3f, time: Fp, medium: Option<Medium>) -> (r:
        RayDifferential)
        ensures
            r == (RayDifferential { ray: Ray { o, d, time, medium }, differential: None }),
    {
        RayDifferential { ray: Ray::new_with_time(o, d, time, medium), differential: None }
    }

    /// The point reached after travelling `t` along the main ray.
    pub fn at(&self, t: Fp) -> (r: Point3f)
        ensures
            r == spec_ray_at(self.ray, t),
    {
        self.ray.at(t)
    }

    /// Narrow the auxiliary offsets toward the main ray by the factor `s`.
    pub fn scale_differentials(&mut self, s: Fp)
        ensures
            *final(self) == spec_scale_differentials(*old(self), s),
    {
        match &self.differential {
            None => {},
            Some(d) => {
                let nd = Differential {
                    rx_origin: Point3f {
                        x: narrow(d.rx_origin.x, self.ray.o.x, s),
                        y: narrow(d.rx_origin.y, self.ray.o.y, s),
                        z: narrow(d.rx_origin.z, self.ray.o.z, s),
                    },
                    ry_origin: Point3f {
                        x: narrow(d.ry_origin.x, self.ray.o.x, s),
                        y: narrow(d.ry_origin.y, self.ray.o.y, s),
                        z: narrow(d.ry_origin.z, self.ray.o.z, s),
                    },
                    rx_direction: Vector3f {
                        x: narrow(d.rx_direction.x, self.ray.d.x, s),
                        y: narrow(d.rx_direction.y, self.ray.d.y, s),
                        z: narrow(d.rx_direction.z, self.ray.d.z, s),
                    },
                    ry_direction: Vector3f {
                        x: narrow(d.ry_direction.x, self.ray.d.x, s),
                        y: narrow(d.ry_direction.y, self.ray.d.y, s),
                        z: narrow(d.ry_direction.z, self.ray.d.z, s),
                    },
                };
                self.differential = Some(nd);
            },
        }
    }
}

} // verus!
