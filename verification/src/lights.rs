//! Lights: a closed set of two structurally different kinds.
//!
//! A *finite* light has spatial extent and must be preprocessed against the
//! scene bounds before any intersection loop begins.  An *infinite* light is
//! environment-like: its emission along a ray is well defined whether or not
//! preprocessing ran, and it contributes exactly when a ray escapes the
//! scene.
use vstd::prelude::*;

use crate::bounds::Bounds3f;
use crate::rays::Ray;
use crate::spectrum::{spec_zero_spectrum, SampledSpectrum, SampledWavelengths};

verus! {

/// The two structural kinds of light.
#[derive(Clone, Copy, PartialEq, Eq, Structural, Debug)]
pub enum LightType {
    Finite,
    Infinite,
}

/// A spatially bounded light.
#[derive(Clone, Copy, PartialEq, Eq, Structural, Debug)]
pub struct FiniteLight {
    /// Scene bounds recorded by preprocessing.
    pub scene_bounds: Bounds3f,
    /// Whether preprocessing against the scene bounds has run.
    pub preprocessed: bool,
}

/// An environment light contributing along every escaping ray.
#[derive(Clone, Copy, PartialEq, Eq, Structural, Debug)]
pub struct InfiniteLight {
    /// Constant emitted radiance along any direction.
    pub emission: SampledSpectrum,
    /// Scene bounds recorded by preprocessing.
    pub scene_bounds: Bounds3f,
    /// Whether preprocessing against the scene bounds has run.
    pub preprocessed: bool,
}

#[derive(Clone, Copy, PartialEq, Eq, Structural, Debug)]
pub enum Light {
    Finite(FiniteLight),
    Infinite(InfiniteLight),
}

/// A light after preprocessing against the given scene bounds.  Emission is
/// untouched: an infinite light's `Le` never depends on the bounds.
pub open spec fn spec_preprocess(l: Light, bounds: Bounds3f) -> Light {
    match l {
        Light::Finite(_) => Light::Finite(
            FiniteLight { scene_bounds: bounds, preprocessed: true },
        ),
        Light::Infinite(i) => Light::Infinite(
            InfiniteLight { emission: i.emission, scene_bounds: bounds, preprocessed: true },
        ),
    }
}

impl Light {
    /// A fresh infinite light of the given constant emission.
    pub fn new_infinite(emission: SampledSpectrum) -> (r: Light)
        ensures
            r == Light::Infinite(
                InfiniteLight { emission, scene_bounds: Bounds3f::spec_empty(), preprocessed: false },
            ),
    {
        Light::Infinite(
            InfiniteLight {
                emission,
                scene_bounds: Bounds3f::default(),
                preprocessed: false,
            },
        )
    }

    /// A fresh finite light.
    pub fn new_finite() -> (r: Light)
        ensures
            r == Light::Finite(
                FiniteLight { scene_bounds: Bounds3f::spec_empty(), preprocessed: false },
            ),
    {
        Light::Finite(FiniteLight { scene_bounds: Bounds3f::default(), preprocessed: false })
    }

    pub open spec fn spec_light_type(self) -> LightType {
        match self {
            Light::Finite(_) => LightType::Finite,
            Light::Infinite(_) => LightType::Infinite,
        }
    }

    pub open spec fn spec_preprocessed(self) -> bool {
        match self {
            Light::Finite(f) => f.preprocessed,
            Light::Infinite(i) => i.preprocessed,
        }
    }

    /// Emitted radiance along a ray that escapes the scene.  Only infinite
    /// lights contribute there; the value never depends on scene bounds.
    pub open spec fn spec_le(self, ray: Ray, lambda: SampledWavelengths) -> SampledSpectrum {
        match self {
            Light::Finite(_) => spec_zero_spectrum(),
            Light::Infinite(i) => i.emission,
        }
    }

    /// Record the scene bounds.  Must run for every light before the first
    /// intersection loop.
    pub fn preprocess(&mut self, bounds: &Bounds3f)
        ensures
            *final(self) == spec_preprocess(*old(self), *bounds),
            final(self).spec_preprocessed(),
    {
        match self {
            Light::Finite(f) => {
                f.scene_bounds = *bounds;
                f.preprocessed = true;
            },
            Light::Infinite(i) => {
                i.scene_bounds = *bounds;
                i.preprocessed = true;
            },
        }
    }

    pub fn light_type(&self) -> (r: LightType)
        ensures
            r == self.spec_light_type(),
    {
        match self {
            Light::Finite(_) => LightType::Finite,
            Light::Infinite(_) => LightType::Infinite,
        }
    }

    /// Emitted radiance toward the ray's origin for a ray that missed all
    /// geometry.
    pub fn le(&self, ray: &Ray, lambda: &SampledWavelengths) -> (r: SampledSpectrum)
        ensures
            r == self.spec_le(*ray, *lambda),
    {
        match self {
            Light::Finite(_) => SampledSpectrum::zero(),
            Light::Infinite(i) => i.emission,
        }
    }
}

} // verus!
