use pathtracer::fixed::{Fx, SCALE};
use pathtracer::rng::Rng;
use pathtracer::utility::{cos_hemisphere_pdf_w, cos_hemisphere_sample, cos_turn, sin_turn,
    uniform_cone_pdf_w, uniform_cone_sample, uniform_hemisphere_pdf_w, uniform_hemisphere_sample,
    uniform_sphere_pdf_w, uniform_sphere_sample, luminance, FRAC_1_2PI_RAW, FRAC_1_4PI_RAW,
    FRAC_1_PI_RAW};
use pathtracer::math::Vec3;

fn to_f(x: Fx) -> f64 {
    x.raw as f64 / SCALE as f64
}

/// The z-component of every cosine-hemisphere sample stays in `[0, 1]`.
#[test]
fn cos_hemisphere_z_in_unit_range() {
    let mut rng = Rng::new(7);
    for _ in 0..5000 {
        let u = rng.next_unit();
        let v = rng.next_unit();
        let dir = cos_hemisphere_sample((u, v));
        assert!(dir.z.raw >= 0);
        assert!(dir.z.raw <= SCALE);
    }
}

/// Monte-Carlo normalization: the cosine-hemisphere density integrates
/// to one over the hemisphere. Drawing uniform hemisphere directions
/// (density `1 / (2 pi)`) and averaging the ratio of the two densities
/// estimates that integral.
#[test]
fn cos_hemisphere_pdf_normalizes() {
    let mut rng = Rng::new(99);
    let mut sum = 0.0f64;
    let n = 40000;
    for _ in 0..n {
        let u = rng.next_unit();
        let v = rng.next_unit();
        let dir = uniform_hemisphere_sample((u, v));
        let pdf_cos = to_f(cos_hemisphere_pdf_w(dir.z));
        let pdf_uni = to_f(uniform_hemisphere_pdf_w());
        sum += pdf_cos / pdf_uni;
    }
    let mean = sum / n as f64;
    assert!((mean - 1.0).abs() < 0.05, "normalization estimate {}", mean);
}

/// The uniform sphere and hemisphere densities are the exact constants.
#[test]
fn constant_pdfs_exact() {
    assert_eq!(uniform_sphere_pdf_w().raw, FRAC_1_4PI_RAW);
    assert_eq!(uniform_hemisphere_pdf_w().raw, FRAC_1_2PI_RAW);
}

/// The cone density at a zero half-angle cosine is `1 / (2 pi)` exactly.
#[test]
fn cone_pdf_full_hemisphere_exact() {
    let pdf = uniform_cone_pdf_w(Fx::zero());
    assert_eq!(pdf.raw, FRAC_1_2PI_RAW);
}

/// Cone samples keep their cosine at or above the cone bound.
#[test]
fn cone_samples_stay_in_cone() {
    let mut rng = Rng::new(3);
    let ctm = Fx::from_raw(SCALE / 2);
    for _ in 0..2000 {
        let u = rng.next_unit();
        let v = rng.next_unit();
        let dir = uniform_cone_sample(ctm, (u, v));
        // allow the fixed-point rounding of one product step
        assert!(dir.z.raw >= ctm.raw - 2, "cos {} below bound", dir.z.raw);
    }
}

/// The turn-based sine and cosine agree with the real functions to a
/// small tolerance, and stay inside `[-1, 1]`.
#[test]
fn trig_approximation_close() {
    for i in 0..256 {
        let u = Fx::from_raw(i * 256);
        let s = to_f(sin_turn(u));
        let c = to_f(cos_turn(u));
        let angle = to_f(u) * 2.0 * std::f64::consts::PI;
        assert!((s - angle.sin()).abs() < 0.01, "sin at {}: {} vs {}", i, s, angle.sin());
        assert!((c - angle.cos()).abs() < 0.01, "cos at {}: {} vs {}", i, c, angle.cos());
        assert!(s.abs() <= 1.0 && c.abs() <= 1.0);
    }
}

/// Uniform sphere samples have close-to-unit length.
#[test]
fn uniform_sphere_samples_near_unit() {
    let mut rng = Rng::new(21);
    for _ in 0..2000 {
        let u = rng.next_unit();
        let v = rng.next_unit();
        let dir = uniform_sphere_sample((u, v));
        let len = to_f(dir.norm());
        assert!((len - 1.0).abs() < 0.02, "length {}", len);
    }
}

/// The luminance weights add up on white, exactly.
#[test]
fn luminance_white_exact() {
    let white = Vec3 { x: Fx::one(), y: Fx::one(), z: Fx::one() };
    assert_eq!(luminance(&white).raw, 13938 + 46876 + 4730);
    assert_eq!(FRAC_1_PI_RAW, 20861);
}

use pathtracer::utility::{pdf_area_to_solid_angle, pdf_solid_angle_to_area,
    uniform_triangle_sample};

/// The two density conversions are inverse of each other on exact
/// values: one fixed-point unit of area density two units away under a
/// half cosine, there and back.
#[test]
fn pdf_measure_conversions_exact() {
    let pdf_a = Fx::one();
    let dist = Fx::from_int(2);
    let cos_theta = Fx::from_raw(SCALE / 2);
    let w = pdf_area_to_solid_angle(pdf_a, dist, cos_theta);
    assert_eq!(w.raw, 8 * SCALE);
    let back = pdf_solid_angle_to_area(w, dist, cos_theta);
    assert_eq!(back.raw, SCALE);
}

/// Triangle samples are valid barycentric pairs: both coordinates are
/// non-negative and their sum never exceeds one.
#[test]
fn triangle_samples_inside() {
    let mut rng = Rng::new(11);
    for _ in 0..2000 {
        let (a, b) = uniform_triangle_sample((rng.next_unit(), rng.next_unit()));
        assert!(a.raw >= 0 && b.raw >= 0);
        assert!(a.raw + b.raw <= SCALE, "outside the triangle: {} + {}", a.raw, b.raw);
    }
}
