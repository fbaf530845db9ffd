use pathtracer::brdf::{Brdf, Material};
use pathtracer::fixed::{Fx, SCALE};
use pathtracer::math::Vec3;
use pathtracer::rng::Rng;
use pathtracer::utility::FRAC_1_PI_RAW;

fn to_f(x: Fx) -> f64 {
    x.raw as f64 / SCALE as f64
}

fn grey(level_raw: i64) -> Vec3 {
    let l = Fx::from_raw(level_raw);
    Vec3 { x: l, y: l, z: l }
}

fn diffuse_grey() -> Material {
    Material { diffuse: grey(SCALE / 2), specular: grey(0), phong_exp: 1 }
}

/// A reflectance binds when the outgoing direction faces the surface.
#[test]
fn brdf_new_facing_succeeds() {
    let out_dir = Vec3 { x: Fx::zero(), y: Fx::zero(), z: Fx::one().neg() };
    let normal = Vec3 { x: Fx::zero(), y: Fx::zero(), z: Fx::one() };
    assert!(Brdf::new(&out_dir, &normal, &diffuse_grey()).is_some());
}

/// Binding fails on a back-facing direction and on a black material.
#[test]
fn brdf_new_failures() {
    let out_dir = Vec3 { x: Fx::zero(), y: Fx::zero(), z: Fx::one() };
    let normal = Vec3 { x: Fx::zero(), y: Fx::zero(), z: Fx::one() };
    assert!(Brdf::new(&out_dir, &normal, &diffuse_grey()).is_none());

    let out_down = Vec3 { x: Fx::zero(), y: Fx::zero(), z: Fx::one().neg() };
    let black = Material { diffuse: grey(0), specular: grey(0), phong_exp: 1 };
    assert!(Brdf::new(&out_down, &normal, &black).is_none());
}

/// The continuation probability of a half-grey diffuse material is its
/// total albedo: the luminance of the diffuse colour.
#[test]
fn continuation_prob_is_total_albedo() {
    let out_dir = Vec3 { x: Fx::zero(), y: Fx::zero(), z: Fx::one().neg() };
    let normal = Vec3 { x: Fx::zero(), y: Fx::zero(), z: Fx::one() };
    let brdf = Brdf::new(&out_dir, &normal, &diffuse_grey()).unwrap();
    let cont = to_f(brdf.continuation_prob());
    assert!((cont - 0.5).abs() < 0.001, "continuation {}", cont);
}

/// For a diffuse-only material the density toward the normal is
/// `cos(0) / pi = 1 / pi` (the diffuse lobe carries all probability).
#[test]
fn eval_pdf_toward_normal_diffuse() {
    let out_dir = Vec3 { x: Fx::zero(), y: Fx::zero(), z: Fx::one().neg() };
    let normal = Vec3 { x: Fx::zero(), y: Fx::zero(), z: Fx::one() };
    let brdf = Brdf::new(&out_dir, &normal, &diffuse_grey()).unwrap();
    let up = Vec3 { x: Fx::zero(), y: Fx::zero(), z: Fx::one() };
    let e = brdf.eval(&up).expect("upward direction evaluates");
    let expected = FRAC_1_PI_RAW as f64 / SCALE as f64;
    assert!((to_f(e.pdf) - expected).abs() < 0.002, "pdf {}", to_f(e.pdf));
    // radiance = diffuse / pi, per channel
    let expected_rad = 0.5 * expected;
    assert!((to_f(e.radiance.x) - expected_rad).abs() < 0.002);
}

/// Sampling and evaluating agree: the density a sample reports matches
/// the density `eval` computes for the sampled direction, up to the
/// rounding of the local-to-world round trip.
#[test]
fn sample_eval_pdf_consistent() {
    let out_dir = Vec3 { x: Fx::zero(), y: Fx::zero(), z: Fx::one().neg() };
    let normal = Vec3 { x: Fx::zero(), y: Fx::zero(), z: Fx::one() };
    let material = Material { diffuse: grey(SCALE / 2), specular: grey(SCALE / 4), phong_exp: 4 };
    let brdf = Brdf::new(&out_dir, &normal, &material).unwrap();
    let mut rng = Rng::new(1234);
    let mut checked = 0;
    for _ in 0..500 {
        let rnd = (rng.next_unit(), rng.next_unit(), rng.next_unit());
        if let Some(sample) = brdf.sample(rnd) {
            if let Some(e) = brdf.eval(&sample.wi) {
                let ps = to_f(sample.pdf);
                let pe = to_f(e.pdf);
                assert!((ps - pe).abs() < 0.03, "sample pdf {} vs eval pdf {}", ps, pe);
                checked += 1;
            }
        }
    }
    assert!(checked > 100, "only {} samples compared", checked);
}

/// Sampled continuation directions leave the surface: their cosine with
/// the normal is positive.
#[test]
fn sampled_directions_leave_surface() {
    let out_dir = Vec3 { x: Fx::zero(), y: Fx::zero(), z: Fx::one().neg() };
    let normal = Vec3 { x: Fx::zero(), y: Fx::zero(), z: Fx::one() };
    let brdf = Brdf::new(&out_dir, &normal, &diffuse_grey()).unwrap();
    let mut rng = Rng::new(42);
    for _ in 0..1000 {
        let rnd = (rng.next_unit(), rng.next_unit(), rng.next_unit());
        if let Some(sample) = brdf.sample(rnd) {
            assert!(sample.wi.z.raw > 0, "direction below surface");
        }
    }
}
