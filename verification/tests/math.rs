use lili::fp::{Fp, FP_ONE};
use lili::math::dot::Dot;
use lili::math::face_forward::FaceForward;
use lili::math::float::FloatExt;
use lili::math::length::Length;
use lili::math::normalize::Normalize;
use lili::math::normals::Normal3;
use lili::math::num_traits::{Abs, Ceil, Floor, IsNan, Max, Min, MulAdd};
use lili::math::points::{Point2, Point3};
use lili::math::tuples::{Tuple, Tuple2, Tuple3};
use lili::math::vectors::{CoordSystem, Cross, GramSchmidt, Vector2, Vector3};
use lili::math::{difference_of_products, sqr};
use lili::rays::{Differential, Ray, RayDifferential};
use lili::spectrum::SampledSpectrum;

fn fp(bits: i64) -> Fp {
    Fp { bits }
}

#[test]
fn fixed_point_arithmetic_is_exact_in_range() {
    assert_eq!(fp(FP_ONE).sat_add(fp(FP_ONE / 2)), fp(3 * FP_ONE / 2));
    assert_eq!(fp(FP_ONE).sat_sub(fp(3 * FP_ONE)), fp(-2 * FP_ONE));
    assert_eq!(fp(3 * FP_ONE / 2).sat_mul(fp(FP_ONE * 2)), fp(3 * FP_ONE));
    assert_eq!(fp(3 * FP_ONE).sat_div(fp(2 * FP_ONE)), fp(3 * FP_ONE / 2));
    assert_eq!(fp(-3 * FP_ONE).sat_div(fp(2 * FP_ONE)), fp(-3 * FP_ONE / 2));
}

#[test]
fn fixed_point_arithmetic_saturates_at_the_range() {
    assert_eq!(Fp::max_value().sat_add(fp(1)), Fp::max_value());
    assert_eq!(fp(i64::MIN).sat_sub(fp(1)), fp(i64::MIN));
    assert_eq!(Fp::max_value().sat_mul(Fp::max_value()), Fp::max_value());
}

#[test]
fn fixed_point_square_root_is_exact_on_squares() {
    assert_eq!(fp(4 * FP_ONE).fp_sqrt(), fp(2 * FP_ONE));
    assert_eq!(fp(0).fp_sqrt(), fp(0));
    assert_eq!(fp(-5 * FP_ONE).safe_sqrt(), fp(0));
}

#[test]
fn square_works_on_both_component_types() {
    assert_eq!(sqr(5i32), 25);
    assert_eq!(sqr(fp(3 * FP_ONE / 2)), fp(9 * FP_ONE / 4));
    assert_eq!(sqr(65536i32), i32::MAX);
}

#[test]
fn difference_of_products_is_exact_for_integers() {
    assert_eq!(difference_of_products(2i32, 3, 4, 1), 2);
    assert_eq!(
        difference_of_products(fp(2 * FP_ONE), fp(3 * FP_ONE), fp(4 * FP_ONE), fp(FP_ONE)),
        fp(2 * FP_ONE)
    );
}

#[test]
fn numeric_traits_round_and_clamp() {
    assert!(!fp(7).is_nan());
    assert!(!5i32.is_nan());
    assert_eq!(fp(3 * FP_ONE / 2).floor(), fp(FP_ONE));
    assert_eq!(fp(3 * FP_ONE / 2).ceil(), fp(2 * FP_ONE));
    assert_eq!(fp(-3 * FP_ONE / 2).floor(), fp(-2 * FP_ONE));
    assert_eq!(fp(-3 * FP_ONE / 2).ceil(), fp(-FP_ONE));
    assert_eq!(fp(2 * FP_ONE).ceil(), fp(2 * FP_ONE));
    assert_eq!(7i32.ceil(), 7);
    assert_eq!(7i32.floor(), 7);
    assert_eq!(fp(-5).abs(), fp(5));
    assert_eq!(Abs::abs(i32::MIN), i32::MAX);
    assert_eq!(Max::max(3i32, 9), 9);
    assert_eq!(Min::min(fp(3), fp(9)), fp(3));
    assert_eq!(2i32.mul_add(3, 4), 10);
    assert_eq!(fp(2 * FP_ONE).mul_add(fp(3 * FP_ONE), fp(4 * FP_ONE)), fp(10 * FP_ONE));
}

#[test]
fn tuples_reduce_componentwise() {
    let v = Vector3::new(3i32, 1, 2);
    assert_eq!(v.min_component_value(), 1);
    assert_eq!(v.max_component_value(), 3);
    assert_eq!(v.min_component_index(), 1);
    assert_eq!(v.max_component_index(), 0);
    assert_eq!(v.hprod(), 6);
    assert!(!v.has_nan());
    let w = Vector3::new(-3i32, 1, -2);
    assert_eq!(w.abs(), Vector3::new(3, 1, 2));
    assert_eq!(v.min(w), Vector3::new(-3, 1, -2));
    assert_eq!(v.max(w), Vector3::new(3, 1, 2));
}

#[test]
fn tuples_interpolate_and_fuse_componentwise() {
    let a = Vector2::new(0i32, 10);
    let b = Vector2::new(4i32, 30);
    assert_eq!(a.lerp(2, b), Vector2::new(8, 50));
    assert_eq!(
        Vector3::new(1i32, 2, 3).fma(Vector3::new(2, 2, 2), Vector3::new(10, 10, 10)),
        Vector3::new(12, 14, 16)
    );
    let half = Fp { bits: FP_ONE / 2 };
    let p = Point2::new(fp(0), fp(0));
    let q = Point2::new(fp(FP_ONE), fp(2 * FP_ONE));
    assert_eq!(p.lerp(half, q), Point2::new(fp(FP_ONE / 2), fp(FP_ONE)));
}

#[test]
fn tuples_permute_by_index() {
    let v = Vector3::new(10i32, 20, 30);
    assert_eq!(Tuple3::permute(&v, [2, 0, 1]), Vector3::new(30, 10, 20));
    let p = Point2::new(1i32, 2);
    assert_eq!(Tuple2::permute(&p, [1, 0]), Point2::new(2, 1));
}

#[test]
fn fixed_point_tuples_round_componentwise() {
    let v = Vector2::new(fp(3 * FP_ONE / 2), fp(-FP_ONE / 2));
    assert_eq!(v.floor(), Vector2::new(fp(FP_ONE), fp(-FP_ONE)));
    assert_eq!(v.ceil(), Vector2::new(fp(2 * FP_ONE), fp(0)));
}

#[test]
fn dot_products_match_hand_computation() {
    let a = Vector3::new(1i32, 2, 3);
    let b = Vector3::new(4i32, 5, 6);
    assert_eq!(a.dot(b), 32);
    let c = Vector3::new(-4i32, 0, 0);
    let d = Vector3::new(1i32, 0, 0);
    assert_eq!(c.dot(d), -4);
    assert_eq!(c.abs_dot(d), 4);
    let n = Normal3::new(fp(0), fp(0), fp(FP_ONE));
    let u = Vector3::new(fp(0), fp(0), fp(-FP_ONE));
    assert_eq!(u.dot(n), fp(-FP_ONE));
    assert_eq!(n.abs_dot(u), fp(FP_ONE));
}

#[test]
fn cross_products_follow_the_right_hand_rule() {
    let x = Vector3::new(1i32, 0, 0);
    let y = Vector3::new(0i32, 1, 0);
    assert_eq!(x.cross(&y), Vector3::new(0, 0, 1));
    let xf = Vector3::new(fp(FP_ONE), fp(0), fp(0));
    let yf = Vector3::new(fp(0), fp(FP_ONE), fp(0));
    assert_eq!(xf.cross(&yf), Vector3::new(fp(0), fp(0), fp(FP_ONE)));
}

#[test]
fn lengths_match_the_classic_triangle() {
    let v = Vector2::new(fp(3 * FP_ONE), fp(4 * FP_ONE));
    assert_eq!(v.length_squared(), fp(25 * FP_ONE));
    assert_eq!(v.length(), fp(5 * FP_ONE));
    let w = Vector3::new(3i32, 4, 0);
    assert_eq!(w.length_squared(), 25);
    assert_eq!(w.length(), fp(5 * FP_ONE));
}

#[test]
fn normalize_rescales_to_unit_length() {
    let v = Vector2::new(fp(3 * FP_ONE), fp(4 * FP_ONE));
    let n = v.normalize();
    assert_eq!(n.x, fp(39321));
    assert_eq!(n.y, fp(52428));
    let zero = Vector3::new(fp(0), fp(0), fp(0));
    assert_eq!(zero.normalize(), Vector3::new(fp(0), fp(0), fp(0)));
}

#[test]
fn gram_schmidt_removes_the_parallel_component() {
    let v = Vector2::new(fp(FP_ONE), fp(0));
    let other = Vector2::new(fp(0), fp(FP_ONE));
    assert_eq!(v.gram_schmidt(&other), v);
}

#[test]
fn coord_system_completes_the_z_axis_frame() {
    let z = Vector3::new(fp(0), fp(0), fp(FP_ONE));
    let (u, v) = z.coord_system();
    assert_eq!(u, Vector3::new(fp(FP_ONE), fp(0), fp(0)));
    assert_eq!(v, Vector3::new(fp(0), fp(FP_ONE), fp(0)));
}

#[test]
fn face_forward_flips_against_the_reference() {
    let v = Vector3::new(fp(FP_ONE), fp(0), fp(0));
    let against = Vector3::new(fp(-FP_ONE), fp(0), fp(0));
    let with = Vector3::new(fp(FP_ONE), fp(0), fp(0));
    assert_eq!(v.face_forward(against), Vector3::new(fp(-FP_ONE), fp(0), fp(0)));
    assert_eq!(v.face_forward(with), v);
    let n = Normal3::new(fp(0), fp(0), fp(FP_ONE));
    assert_eq!(
        n.face_forward(Vector3::new(fp(0), fp(0), fp(-FP_ONE))),
        Normal3::new(fp(0), fp(0), fp(-FP_ONE))
    );
}

#[test]
fn float_extensions_interpolate_and_step() {
    assert_eq!(fp(FP_ONE / 2).lerp(fp(0), fp(FP_ONE)), fp(FP_ONE / 2));
    assert_eq!(fp(FP_ONE / 2).smooth_step(fp(0), fp(FP_ONE)), fp(FP_ONE / 2));
    assert_eq!(fp(-FP_ONE).smooth_step(fp(0), fp(FP_ONE)), fp(0));
    assert_eq!(fp(2 * FP_ONE).smooth_step(fp(0), fp(FP_ONE)), fp(FP_ONE));
    assert_eq!(fp(5).next_float_up(), fp(6));
    assert_eq!(fp(5).next_float_down(), fp(4));
    assert_eq!(Fp::max_value().next_float_up(), Fp::max_value());
}

#[test]
fn angle_conversions_use_the_fixed_point_constants() {
    assert_eq!(Fp::from_whole(180).deg_to_rad(), fp(205920));
    assert_eq!(fp(205887).rad_to_deg(), fp(11796455));
}

#[test]
fn spectra_operate_componentwise() {
    let a = SampledSpectrum::new(fp(2 * FP_ONE));
    let b = SampledSpectrum::new(fp(3 * FP_ONE));
    assert_eq!(a.plus(&b), SampledSpectrum::new(fp(5 * FP_ONE)));
    assert_eq!(a.times(&b), SampledSpectrum::new(fp(6 * FP_ONE)));
    assert_eq!(a.scale(fp(FP_ONE / 2)), SampledSpectrum::new(fp(FP_ONE)));
    assert_eq!(b.div_by(fp(2 * FP_ONE)), SampledSpectrum::new(fp(3 * FP_ONE / 2)));
    assert!(a.nonzero());
    assert!(!SampledSpectrum::zero().nonzero());
}

#[test]
fn rays_advance_along_their_direction() {
    let ray = Ray::new_with_time(
        Point3::new(fp(FP_ONE), fp(0), fp(0)),
        Vector3::new(fp(0), fp(2 * FP_ONE), fp(0)),
        fp(3),
        None,
    );
    assert_eq!(ray.at(fp(FP_ONE / 2)), Point3::new(fp(FP_ONE), fp(FP_ONE), fp(0)));
    assert_eq!(ray.time, fp(3));
}

#[test]
fn ray_differentials_narrow_toward_the_main_ray() {
    let origin = Point3::new(fp(0), fp(0), fp(0));
    let direction = Vector3::new(fp(0), fp(0), fp(FP_ONE));
    let mut rd = RayDifferential::new(origin, direction, None);
    rd.differential = Some(Differential {
        rx_origin: Point3::new(fp(2 * FP_ONE), fp(0), fp(0)),
        ry_origin: Point3::new(fp(0), fp(2 * FP_ONE), fp(0)),
        rx_direction: direction,
        ry_direction: direction,
    });
    rd.scale_differentials(fp(FP_ONE / 2));
    let d = rd.differential.unwrap();
    assert_eq!(d.rx_origin, Point3::new(fp(FP_ONE), fp(0), fp(0)));
    assert_eq!(d.ry_origin, Point3::new(fp(0), fp(FP_ONE), fp(0)));
    assert_eq!(d.rx_direction, direction);
}

#[test]
fn ray_differentials_without_offsets_stay_bare() {
    let mut rd = RayDifferential::new(
        Point3::new(fp(0), fp(0), fp(0)),
        Vector3::new(fp(0), fp(0), fp(FP_ONE)),
        None,
    );
    rd.scale_differentials(fp(FP_ONE / 2));
    assert!(rd.differential.is_none());
}
