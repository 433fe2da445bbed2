use lili::fp::{Fp, FP_ONE};
use lili::math::points::Point2;
use lili::math::sampling::{
    balance_heuristic, bilinear_pdf, invert_bilinear_sample, invert_linear_sample, linear_pdf,
    power_heuristic, sample_bilinear, sample_linear, DiscreteSample,
};
use lili::sampler::Sampler;

fn fp(bits: i64) -> Fp {
    Fp { bits }
}

#[test]
fn sampler_replays_identically_after_a_restart() {
    let mut sampler = Sampler::new(42, 8);
    sampler.start_pixel_sample(&Point2::new(3, 4), 2);
    let a1 = sampler.get_1d();
    let b1 = sampler.get_2d();
    sampler.start_pixel_sample(&Point2::new(3, 4), 2);
    let a2 = sampler.get_1d();
    let b2 = sampler.get_2d();
    assert_eq!(a1, a2);
    assert_eq!(b1, b2);
}

#[test]
fn sampler_draws_lie_in_the_unit_interval() {
    let mut sampler = Sampler::new(7, 4);
    sampler.start_pixel_sample(&Point2::new(0, 0), 0);
    for _ in 0..16 {
        let v = sampler.get_1d();
        assert!(0 <= v.bits && v.bits < FP_ONE);
    }
}

#[test]
fn sampler_distinguishes_pixels_and_sample_indices() {
    let mut sampler = Sampler::new(9, 4);
    sampler.start_pixel_sample(&Point2::new(0, 0), 0);
    let at_origin = sampler.get_1d();
    sampler.start_pixel_sample(&Point2::new(1, 0), 0);
    let at_neighbour = sampler.get_1d();
    sampler.start_pixel_sample(&Point2::new(0, 0), 1);
    let at_next_index = sampler.get_1d();
    assert!(at_origin != at_neighbour || at_origin != at_next_index);
    assert_eq!(sampler.samples_per_pixel(), 4);
}

#[test]
fn discrete_sample_picks_by_running_weight() {
    let weights = [fp(FP_ONE), fp(FP_ONE)];
    let picked = DiscreteSample::sample_from_weights(&weights, fp(3 * FP_ONE / 4));
    assert_eq!(picked.sample, 1);
    assert_eq!(picked.pmf, fp(FP_ONE / 2));
    // The scaled value 1.5 sits halfway into the chosen weight, so the
    // remapped value is one half.
    assert_eq!(picked.u_remapped, fp(FP_ONE / 2));
}

#[test]
fn discrete_sample_remaps_the_value_into_the_unit_interval() {
    let single = [fp(FP_ONE)];
    let picked = DiscreteSample::sample_from_weights(&single, fp(FP_ONE / 2));
    assert_eq!(picked.sample, 0);
    assert_eq!(picked.u_remapped, fp(FP_ONE / 2));
    let weights = [fp(2 * FP_ONE), fp(FP_ONE), fp(FP_ONE)];
    for step in 0..16 {
        let u = fp(step * (FP_ONE / 16));
        let picked = DiscreteSample::sample_from_weights(&weights, u);
        assert!(picked.sample >= 0);
        assert!(0 <= picked.u_remapped.bits && picked.u_remapped.bits < FP_ONE);
    }
}

#[test]
fn discrete_sample_of_empty_weights_reports_no_sample() {
    let weights: [Fp; 0] = [];
    let picked = DiscreteSample::sample_from_weights(&weights, fp(0));
    assert_eq!(picked.sample, -1);
    assert_eq!(picked.pmf, fp(0));
}

#[test]
fn discrete_sample_of_all_zero_weights_reports_no_sample() {
    let weights = [fp(0), fp(0), fp(0)];
    let picked = DiscreteSample::sample_from_weights(&weights, fp(FP_ONE / 2));
    assert_eq!(picked.sample, -1);
}

#[test]
fn discrete_sample_first_bucket_for_small_values() {
    let weights = [fp(3 * FP_ONE), fp(FP_ONE)];
    let picked = DiscreteSample::sample_from_weights(&weights, fp(0));
    assert_eq!(picked.sample, 0);
    assert_eq!(picked.pmf, fp(3 * FP_ONE / 4));
    assert_eq!(picked.u_remapped, fp(0));
}

#[test]
fn balance_heuristic_of_equal_distributions_is_half() {
    assert_eq!(balance_heuristic(1, fp(FP_ONE), 1, fp(FP_ONE)), fp(FP_ONE / 2));
}

#[test]
fn balance_heuristic_of_zero_densities_is_zero() {
    assert_eq!(balance_heuristic(4, fp(0), 2, fp(0)), fp(0));
}

#[test]
fn power_heuristic_of_equal_distributions_is_half() {
    assert_eq!(power_heuristic(1, fp(FP_ONE), 1, fp(FP_ONE)), fp(FP_ONE / 2));
}

#[test]
fn linear_pdf_is_uniform_for_equal_weights() {
    assert_eq!(linear_pdf(fp(FP_ONE / 2), fp(FP_ONE), fp(FP_ONE)), fp(FP_ONE));
}

#[test]
fn linear_pdf_vanishes_outside_the_unit_interval() {
    assert_eq!(linear_pdf(fp(-1), fp(FP_ONE), fp(FP_ONE)), fp(0));
    assert_eq!(linear_pdf(fp(FP_ONE + 1), fp(FP_ONE), fp(FP_ONE)), fp(0));
}

#[test]
fn sample_linear_is_identity_for_equal_weights() {
    assert_eq!(sample_linear(fp(FP_ONE / 2), fp(FP_ONE), fp(FP_ONE)), fp(FP_ONE / 2));
    assert_eq!(sample_linear(fp(0), fp(0), fp(FP_ONE)), fp(0));
}

#[test]
fn invert_linear_sample_undoes_the_uniform_case() {
    assert_eq!(invert_linear_sample(fp(FP_ONE / 2), fp(FP_ONE), fp(FP_ONE)), fp(FP_ONE / 2));
}

#[test]
fn bilinear_pdf_is_one_for_uniform_weights() {
    let w = [fp(FP_ONE), fp(FP_ONE), fp(FP_ONE), fp(FP_ONE)];
    let p = Point2 { x: fp(FP_ONE / 2), y: fp(FP_ONE / 2) };
    assert_eq!(bilinear_pdf(p, &w), fp(FP_ONE));
}

#[test]
fn bilinear_pdf_of_zero_weights_is_one() {
    let w = [fp(0), fp(0), fp(0), fp(0)];
    let p = Point2 { x: fp(FP_ONE / 2), y: fp(FP_ONE / 2) };
    assert_eq!(bilinear_pdf(p, &w), fp(FP_ONE));
}

#[test]
fn bilinear_pdf_vanishes_outside_the_unit_square() {
    let w = [fp(FP_ONE), fp(FP_ONE), fp(FP_ONE), fp(FP_ONE)];
    let p = Point2 { x: fp(-1), y: fp(FP_ONE / 2) };
    assert_eq!(bilinear_pdf(p, &w), fp(0));
}

#[test]
fn sample_bilinear_is_identity_for_uniform_weights() {
    let w = [fp(FP_ONE), fp(FP_ONE), fp(FP_ONE), fp(FP_ONE)];
    let u = Point2 { x: fp(FP_ONE / 4), y: fp(FP_ONE / 2) };
    let p = sample_bilinear(u, &w);
    assert_eq!(p.x, fp(FP_ONE / 4));
    assert_eq!(p.y, fp(FP_ONE / 2));
}

#[test]
fn invert_bilinear_sample_undoes_the_uniform_case() {
    let w = [fp(FP_ONE), fp(FP_ONE), fp(FP_ONE), fp(FP_ONE)];
    let p = Point2 { x: fp(FP_ONE / 4), y: fp(FP_ONE / 2) };
    let u = invert_bilinear_sample(p, &w);
    assert_eq!(u.x, fp(FP_ONE / 4));
    assert_eq!(u.y, fp(FP_ONE / 2));
}
