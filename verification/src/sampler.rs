//! Reproducible sample streams.
//!
//! The sampler hands out fixed-point values in `[0, 1)`.  Every value is a
//! pure function of `(seed, pixel, sample index, dimension)`, so restarting a
//! pixel sample replays the stream exactly: renders are deterministic for a
//! fixed seed.
use vstd::prelude::*;

use crate::fp::{Fp, FP_ONE};
use crate::math::points::{Point2f, Point2i};

verus! {

/// Reduce a mathematical integer modulo `2^64`.
pub open spec fn w64(x: int) -> u64 {
    (x % 0x1_0000_0000_0000_0000) as u64
}

/// The bit-mixing rounds applied to a raw stream position.
pub open spec fn spec_mix(x: u64) -> u64 {
    let a = x ^ (x >> 30);
    let b = w64(a * 0xbf58_476d_1ce4_e5b9);
    let c = b ^ (b >> 27);
    let d = w64(c * 0x94d0_49bb_1331_11eb);
    d ^ (d >> 31)
}

/// The raw stream position of a sampler state: a weighted sum of the seed,
/// the pixel, the sample index and the dimension counter.
pub open spec fn spec_stream_position(s: Sampler) -> int {
    s.seed + s.pixel.x * 0x9e37_79b9 + s.pixel.y * 0x85eb_ca6b + s.sample_index * 0xc2b2_ae35
        + s.dimension * 0x27d4_eb2f
}

/// The mixed bits the sampler's next draw is taken from.
pub open spec fn spec_draw_bits(s: Sampler) -> u64 {
    spec_mix(w64(spec_stream_position(s)))
}

/// The low bits of a draw as a fixed-point value in `[0, 1)`.
pub open spec fn spec_unit_fp(h: u64) -> Fp {
    Fp { bits: (h & 0xffff) as i64 }
}

/// The sampler state after one draw: the dimension counter moves on.
pub open spec fn spec_next_dimension(s: Sampler) -> Sampler {
    Sampler {
        dimension: if s.dimension == u32::MAX {
            0
        } else {
            (s.dimension + 1) as u32
        },
        ..s
    }
}

/// The sampler state reset for one `(pixel, sample index)` pair.
pub open spec fn spec_start_pixel_sample(s: Sampler, pixel: Point2i, sample_index: i32) -> Sampler {
    Sampler { pixel, sample_index, dimension: 0, started: true, ..s }
}

/// A freshly built sampler, not yet positioned at any pixel.
pub open spec fn spec_new_sampler(seed: u64, spp: i32) -> Sampler {
    Sampler {
        seed,
        spp,
        pixel: Point2i { x: 0, y: 0 },
        sample_index: 0,
        dimension: 0,
        started: false,
    }
}

/// Value and final state of a 1D draw.
pub open spec fn spec_get_1d(s: Sampler) -> (Fp, Sampler) {
    (spec_unit_fp(spec_draw_bits(s)), spec_next_dimension(s))
}

/// Value and final state of a 2D draw.
pub open spec fn spec_get_2d(s: Sampler) -> (Point2f, Sampler) {
    let (u, s1) = spec_get_1d(s);
    let (v, s2) = spec_get_1d(s1);
    (Point2f { x: u, y: v }, s2)
}

/// A restartable, per-pixel deterministic sample stream.
///
/// One sampler instance must not be shared across pixels by concurrent
/// workers: each worker owns its own copy of a shared prototype and
/// repositions it with `start_pixel_sample` before every sample.
#[derive(Clone, Copy, PartialEq, Eq, Structural, Debug)]
pub struct Sampler {
    /// Seed shared by the whole render.
    pub seed: u64,
    /// Configured number of samples per pixel.
    pub spp: i32,
    /// Pixel the stream is positioned at.
    pub pixel: Point2i,
    /// Sample index the stream is positioned at.
    pub sample_index: i32,
    /// How many values were drawn since the last restart.
    pub dimension: u32,
    /// Whether `start_pixel_sample` ran since construction.
    pub started: bool,
}

impl Sampler {
    /// A sampler is in a usable position when it was started on a
    /// non-negative pixel and sample index.
    pub open spec fn wf(self) -> bool {
        self.started && self.pixel.x >= 0 && self.pixel.y >= 0 && self.sample_index >= 0
    }

    pub fn new(seed: u64, spp: i32) -> (r: Sampler)
        requires
            spp >= 1,
        ensures
            r == spec_new_sampler(seed, spp),
    {
        Sampler {
            seed,
            spp,
            pixel: Point2i { x: 0, y: 0 },
            sample_index: 0,
            dimension: 0,
            started: false,
        }
    }

    /// The configured number of samples per pixel.
    pub fn samples_per_pixel(&self) -> (r: i32)
        ensures
            r == self.spp,
    {
        self.spp
    }

    /// Reset the stream deterministically for one `(pixel, sample index)`
    /// pair.  Must run before any draw for that pair.
    pub fn start_pixel_sample(&mut self, pixel: &Point2i, sample_index: i32)
        requires
            pixel.x >= 0,
            pixel.y >= 0,
            sample_index >= 0,
        ensures
            *final(self) == spec_start_pixel_sample(*old(self), *pixel, sample_index),
            final(self).wf(),
    {
        self.pixel = *pixel;
        self.sample_index = sample_index;
        self.dimension = 0;
        self.started = true;
    }

    /// Draw the next scalar in `[0, 1)`.
    pub fn get_1d(&mut self) -> (r: Fp)
        requires
            old(self).wf(),
        ensures
            r == spec_get_1d(*old(self)).0,
            *final(self) == spec_get_1d(*old(self)).1,
            final(self).wf(),
            0 <= r.bits < FP_ONE,
    {
        let h = draw_bits(self);
        self.dimension = next_dimension(self.dimension);
        let low: u64 = h & 0xffff;
        proof {
            assert(h & 0xffff < 0x10000) by (bit_vector);
        }
        Fp { bits: low as i64 }
    }

    /// Draw the next pair, both components in `[0, 1)`.
    pub fn get_2d(&mut self) -> (r: Point2f)
        requires
            old(self).wf(),
        ensures
            r == spec_get_2d(*old(self)).0,
            *final(self) == spec_get_2d(*old(self)).1,
            final(self).wf(),
            0 <= r.x.bits < FP_ONE,
            0 <= r.y.bits < FP_ONE,
    {
        let u = self.get_1d();
        let v = self.get_1d();
        Point2f { x: u, y: v }
    }
}

/// Multiplication modulo `2^64`.
proof fn lemma_mul_32_bounded(v: int, c: int)
    requires
        0 <= v < 0x1_0000_0000,
        0 <= c < 0x1_0000_0000,
    ensures
        0 <= v * c < 0x1_0000_0000_0000_0000int,
{
    assert(0 <= v * c < 0x1_0000_0000_0000_0000int) by (nonlinear_arith)
        requires
            0 <= v < 0x1_0000_0000,
            0 <= c < 0x1_0000_0000,
    ;
}

fn wrap_mul(a: u64, b: u64) -> (r: u64)
    ensures
        r == w64(a * b),
{
    proof {
        assert((a as int) * (b as int) <= 0xffff_ffff_ffff_ffffint * 0xffff_ffff_ffff_ffffint)
            by (nonlinear_arith)
            requires
                a as int <= 0xffff_ffff_ffff_ffffint,
                b as int <= 0xffff_ffff_ffff_ffffint,
        ;
    }
    let wide: u128 = (a as u128) * (b as u128);
    low_64(wide)
}

/// The low 64 bits of a wide intermediate.
fn low_64(wide: u128) -> (r: u64)
    ensures
        r == w64(wide as int),
{
    let m: u128 = wide % 0x1_0000_0000_0000_0000u128;
    m as u64
}

fn next_dimension(d: u32) -> (r: u32)
    ensures
        r == if d == u32::MAX {
            0u32
        } else {
            (d + 1) as u32
        },
{
    if d == u32::MAX {
        0
    } else {
        d + 1
    }
}

fn mix(x: u64) -> (r: u64)
    ensures
        r == spec_mix(x),
{
    let a = x ^ (x >> 30u64);
    let b = wrap_mul(a, 0xbf58_476d_1ce4_e5b9);
    let c = b ^ (b >> 27u64);
    let d = wrap_mul(c, 0x94d0_49bb_1331_11eb);
    d ^ (d >> 31u64)
}

fn draw_bits(s: &Sampler) -> (r: u64)
    requires
        s.wf(),
    ensures
        r == spec_draw_bits(*s),
{
    proof {
        lemma_mul_32_bounded(s.pixel.x as int, 0x9e37_79b9);
        lemma_mul_32_bounded(s.pixel.y as int, 0x85eb_ca6b);
        lemma_mul_32_bounded(s.sample_index as int, 0xc2b2_ae35);
        lemma_mul_32_bounded(s.dimension as int, 0x27d4_eb2f);
    }
    let acc: u128 = (s.seed as u128) + (s.pixel.x as u128) * 0x9e37_79b9u128 + (s.pixel.y as u128)
        * 0x85eb_ca6bu128 + (s.sample_index as u128) * 0xc2b2_ae35u128 + (s.dimension as u128)
        * 0x27d4_eb2fu128;
    mix(low_64(acc))
}

} // verus!
