use pathtracer::fixed::{Fx, RAW_LIMIT, SCALE};
use pathtracer::framebuffer::RgbFrameBuffer;
use pathtracer::geometry::{Frame, Geometry, Ray, Sphere};
use pathtracer::light::{BackgroundLight, Light, LuminousObject, PointLight};
use pathtracer::math::{clamp, mix, ortho, smin_poly, Vec3, VectorExtra};
use pathtracer::rng::Rng;
use pathtracer::scene::{DefaultScene, SurfaceProperties};
use pathtracer::brdf::Material;

fn v(x: i64, y: i64, z: i64) -> Vec3 {
    Vec3 { x: Fx::from_int(x), y: Fx::from_int(y), z: Fx::from_int(z) }
}

fn grey(level_raw: i64) -> Vec3 {
    let l = Fx::from_raw(level_raw);
    Vec3 { x: l, y: l, z: l }
}

/// Scalar arithmetic: exact products, truncated quotients, exact and
/// rounded square roots, and saturation at the representable bound.
#[test]
fn fixed_point_arithmetic_exact() {
    let two = Fx::from_int(2);
    let three = Fx::from_int(3);
    assert_eq!(two.mul(three).raw, 6 * SCALE);
    assert_eq!(Fx::from_int(7).div(two).raw, 7 * SCALE / 2);
    assert_eq!(Fx::from_int(9).sqrt().raw, 3 * SCALE);
    assert_eq!(Fx::from_int(2).sqrt().raw, 92681); // floor(sqrt(2) * 2^16)
    assert_eq!(Fx::from_int(-5).sqrt().raw, 0);
    assert_eq!(Fx::one().div(Fx::zero()).raw, 0);
    let big = Fx::from_raw(RAW_LIMIT);
    assert_eq!(big.add(big).raw, RAW_LIMIT);
    assert_eq!(big.neg().sub(big).raw, -RAW_LIMIT);
    // truncation toward zero on a negative quotient
    assert_eq!(Fx::from_int(-1).div(three).raw, -(SCALE / 3 + 1) + 1);
}

/// Powers and roots: `0.5^2 = 0.25` exactly, and the square root of
/// `0.25` found by the root search is `0.5` exactly.
#[test]
fn fixed_point_pow_and_root() {
    let half = Fx::from_raw(SCALE / 2);
    assert_eq!(half.powi(2).raw, SCALE / 4);
    assert_eq!(half.powi(0).raw, SCALE);
    assert_eq!(Fx::from_raw(SCALE / 4).rooti(2).raw, SCALE / 2);
    assert_eq!(Fx::one().rooti(5).raw, SCALE);
    // the root of zero is the greatest value whose truncated power is
    // still zero: its power vanishes, the next value's does not
    let r = Fx::zero().rooti(3);
    assert_eq!(r.powi(3).raw, 0);
    assert!(Fx::from_raw(r.raw + 1).powi(3).raw > 0);
}

/// `mix`, `clamp` and the polynomial smooth minimum at exact points.
#[test]
fn scalar_helpers_exact() {
    let a = Fx::from_int(2);
    let b = Fx::from_int(4);
    assert_eq!(mix(a, b, Fx::zero()).raw, 2 * SCALE);
    assert_eq!(mix(a, b, Fx::one()).raw, 4 * SCALE);
    assert_eq!(mix(a, b, Fx::from_raw(SCALE / 2)).raw, 3 * SCALE);
    assert_eq!(clamp(Fx::from_int(5), Fx::zero(), Fx::one()).raw, SCALE);
    assert_eq!(clamp(Fx::from_int(-5), Fx::zero(), Fx::one()).raw, 0);
    // far apart, the smooth minimum equals the plain minimum
    let k = Fx::from_raw(SCALE / 4);
    assert_eq!(smin_poly(Fx::from_int(1), Fx::from_int(5), k).raw, SCALE);
}

/// Vector algebra on whole units is exact.
#[test]
fn vector_algebra_exact() {
    let a = v(1, 2, 3);
    let b = v(4, -5, 6);
    assert_eq!(a.dot(b).raw, (4 - 10 + 18) * SCALE);
    let c = a.cross(b);
    assert_eq!(c.x.raw, (2 * 6 - 3 * -5) * SCALE);
    assert_eq!(c.y.raw, (3 * 4 - 1 * 6) * SCALE);
    assert_eq!(c.z.raw, (1 * -5 - 2 * 4) * SCALE);
    assert_eq!(v(3, 4, 0).norm().raw, 5 * SCALE);
    let n = v(3, 4, 0).normalize();
    assert_eq!(n.x.raw, 3 * SCALE / 5);
    assert_eq!(n.y.raw, 4 * SCALE / 5);
}

/// Reflection across the local surface plane negates the tangent
/// components and keeps the normal one.
#[test]
fn reflect_local_exact() {
    let d = v(1, 2, 3);
    let r = d.reflect_local();
    assert_eq!(r.x.raw, -SCALE);
    assert_eq!(r.y.raw, -2 * SCALE);
    assert_eq!(r.z.raw, 3 * SCALE);
}

/// Reflecting the down direction about the up normal gives up.
#[test]
fn reflect_global_about_normal() {
    let down = v(0, 0, -1);
    let up = v(0, 0, 1);
    let r = down.reflect_global(up);
    assert_eq!(r.z.raw, SCALE);
    assert_eq!(r.x.raw, 0);
}

/// The orthogonal pick is orthogonal, exactly, on whole units.
#[test]
fn ortho_is_orthogonal() {
    let a = v(3, 1, 2);
    assert_eq!(a.dot(ortho(&a)).raw, 0);
    let b = v(1, 5, 4);
    assert_eq!(b.dot(ortho(&b)).raw, 0);
}

/// A frame from the up normal keeps local and world space aligned.
#[test]
fn frame_from_up_roundtrip() {
    let up = v(0, 0, 1);
    let f = Frame::from_z(&up);
    assert_eq!(f.normal().z.raw, SCALE);
    let d = v(1, 2, 3);
    let w = f.to_world(&f.to_local(&d));
    assert_eq!(w.z.raw, 3 * SCALE);
}

/// The framebuffer accumulates into the addressed pixel and leaves the
/// others alone.
#[test]
fn framebuffer_accumulates() {
    let mut frame = RgbFrameBuffer::new((3, 2));
    assert_eq!(frame.as_slice().len(), 6);
    frame.add_color((2, 1), v(1, 2, 3));
    frame.add_color((2, 1), v(1, 0, 0));
    assert_eq!(frame.idx((2, 1)), 5);
    assert_eq!(frame.as_slice()[5].x.raw, 2 * SCALE);
    assert_eq!(frame.as_slice()[5].y.raw, 2 * SCALE);
    assert_eq!(frame.as_slice()[0].x.raw, 0);
    frame.set_color((0, 0), v(9, 9, 9));
    assert_eq!(frame.as_slice()[0].x.raw, 9 * SCALE);
}

/// The random stream is deterministic, stays in the unit interval, and
/// picks below the bound.
#[test]
fn rng_deterministic_and_bounded() {
    let mut a = Rng::new(5);
    let mut b = Rng::new(5);
    for _ in 0..100 {
        let ua = a.next_unit();
        let ub = b.next_unit();
        assert_eq!(ua.raw, ub.raw);
        assert!(ua.raw >= 0 && ua.raw < SCALE);
    }
    let mut c = Rng::new(0);
    for _ in 0..100 {
        let p = c.next_below(7);
        assert!(p < 7);
    }
}

/// The point light: deterministic illumination with inverse-square
/// falloff, and no radiance when hit (it cannot be hit).
#[test]
fn point_light_contract() {
    let light = Light::Point(PointLight { intensity: grey(SCALE), position: v(0, 0, 10) });
    let illum = light
        .illuminate(&v(0, 0, 0), (Fx::zero(), Fx::zero()))
        .expect("point light always answers");
    assert_eq!(illum.l_dist.raw, 10 * SCALE);
    assert_eq!(illum.l_dir.z.raw, SCALE);
    assert_eq!(illum.pdf.raw, SCALE);
    // intensity / 100
    assert_eq!(illum.radiance.x.raw, SCALE / 100);
    assert!(light.is_delta());
    let ray = Ray { orig: v(0, 0, 0), dir: v(0, 0, 1) };
    assert!(light.radiate(&ray).is_none());
}

/// The background light: constant radiance and the uniform-sphere
/// density, in both query directions.
#[test]
fn background_light_contract() {
    let light = Light::Background(BackgroundLight { intensity: grey(SCALE / 4) });
    let ray = Ray { orig: v(0, 0, 0), dir: v(0, 0, 1) };
    let rad = light.radiate(&ray).expect("background always radiates");
    assert_eq!(rad.radiance.x.raw, SCALE / 4);
    assert_eq!(rad.pdf.raw, pathtracer::utility::FRAC_1_4PI_RAW);
    let mut rng = Rng::new(8);
    let illum = light
        .illuminate(&v(0, 0, 0), (rng.next_unit(), rng.next_unit()))
        .expect("background always illuminates");
    assert_eq!(illum.pdf.raw, pathtracer::utility::FRAC_1_4PI_RAW);
    assert!(illum.l_dist.raw == RAW_LIMIT);
    assert!(!light.is_delta());
}

/// A luminous sphere illuminates a point that sees it, with a positive
/// cone density and a distance short of its center.
#[test]
fn luminous_sphere_contract() {
    let sphere = Sphere { center: v(0, 0, 10), radius: Fx::from_int(2) };
    let light = Light::Luminous(LuminousObject { object: sphere, intensity: grey(SCALE) });
    let mut rng = Rng::new(77);
    let mut hits = 0;
    for _ in 0..200 {
        if let Some(illum) = light.illuminate(&v(0, 0, 0), (rng.next_unit(), rng.next_unit())) {
            assert!(illum.pdf.raw > 0);
            assert!(illum.l_dist.raw > 7 * SCALE && illum.l_dist.raw < 11 * SCALE);
            assert!(illum.l_dir.z.raw > 0);
            hits += 1;
        }
    }
    assert!(hits > 50, "the light was almost never seen: {}", hits);
}

/// Scene building hands out the identifiers its surfaces carry.
#[test]
fn scene_ids_consistent() {
    let mut scene = DefaultScene::new(BackgroundLight { intensity: grey(SCALE / 4) });
    let m0 = Material { diffuse: grey(SCALE / 2), specular: grey(0), phong_exp: 1 };
    let m1 = Material { diffuse: grey(SCALE / 4), specular: grey(0), phong_exp: 2 };
    scene.add_object(Geometry::Sphere(Sphere { center: v(0, 0, 0), radius: Fx::from_int(1) }), m0);
    scene.add_object(Geometry::Sphere(Sphere { center: v(5, 0, 0), radius: Fx::from_int(1) }), m1);
    scene.add_luminous_object(Sphere { center: v(0, 9, 0), radius: Fx::from_int(1) }, grey(SCALE));
    assert_eq!(scene.get_lights_nb(), 2);
    assert_eq!(scene.get_material(0).phong_exp, 1);
    assert_eq!(scene.get_material(1).phong_exp, 2);
    assert!(matches!(scene.get_background_light(), Light::Background(_)));
    assert!(matches!(scene.get_light(1), Light::Luminous(_)));
    let ray = Ray { orig: v(0, 0, -5), dir: v(0, 0, 1) };
    let isect = scene.nearest_intersection(&ray).expect("sphere ahead");
    assert!(matches!(isect.surface, SurfaceProperties::Material(0)));
}
