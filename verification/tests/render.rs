use pathtracer::brdf::Material;
use pathtracer::fixed::{Fx, SCALE};
use pathtracer::framebuffer::RgbFrameBuffer;
use pathtracer::geometry::{Geometry, Ray, Sphere, Triangle};
use pathtracer::light::BackgroundLight;
use pathtracer::math::Vec3;
use pathtracer::pathtracer::{balance_heuristic, max_heuristic, mis2, power_heuristic, CpuPtMis,
    EyeLight};
use pathtracer::rng::Rng;
use pathtracer::scene::DefaultScene;

fn v(x: i64, y: i64, z: i64) -> Vec3 {
    Vec3 { x: Fx::from_int(x), y: Fx::from_int(y), z: Fx::from_int(z) }
}

fn grey(level_raw: i64) -> Vec3 {
    let l = Fx::from_raw(level_raw);
    Vec3 { x: l, y: l, z: l }
}

fn diffuse(color: Vec3) -> Material {
    Material { diffuse: color, specular: grey(0), phong_exp: 1 }
}

const CB: [[i64; 3]; 8] = [
    [-1, 1, -1],
    [1, 1, -1],
    [1, 1, 1],
    [-1, 1, 1],
    [-1, -1, -1],
    [1, -1, -1],
    [1, -1, 1],
    [-1, -1, 1],
];

fn corner(i: usize, scale: i64) -> Vec3 {
    v(CB[i][0] * scale, CB[i][1] * scale, CB[i][2] * scale)
}

fn add_wall(scene: &mut DefaultScene, a: usize, b: usize, c: usize, scale: i64, m: Material) {
    scene.add_object(
        Geometry::Triangle(Triangle::new(corner(a, scale), corner(b, scale), corner(c, scale))),
        m,
    );
}

/// A Cornell-box-like scene: white floor, ceiling and back wall, a red
/// and a green side wall (each wall a pair of triangles), one diffuse
/// sphere, and a background light of known intensity.
fn cornell_scene() -> DefaultScene {
    let mut scene = DefaultScene::new(BackgroundLight { intensity: grey(SCALE / 4) });
    let s: i64 = 25;
    let white = diffuse(grey(63897));
    let red = diffuse(Vec3 { x: Fx::from_raw(52690), y: Fx::from_raw(10023), z: Fx::from_raw(11310) });
    let green = diffuse(Vec3 { x: Fx::from_raw(10280), y: Fx::from_raw(52690), z: Fx::from_raw(11310) });
    add_wall(&mut scene, 5, 4, 7, s, white);
    add_wall(&mut scene, 7, 6, 5, s, white);
    add_wall(&mut scene, 2, 3, 0, s, white);
    add_wall(&mut scene, 0, 1, 2, s, white);
    add_wall(&mut scene, 2, 6, 7, s, white);
    add_wall(&mut scene, 7, 3, 2, s, white);
    add_wall(&mut scene, 3, 7, 4, s, red);
    add_wall(&mut scene, 4, 0, 3, s, red);
    add_wall(&mut scene, 1, 5, 6, s, green);
    add_wall(&mut scene, 6, 2, 1, s, green);
    scene.add_object(
        Geometry::Sphere(Sphere { center: v(0, -18, 0), radius: Fx::from_int(7) }),
        diffuse(grey(SCALE / 2)),
    );
    scene
}

fn primary_ray(px: usize, py: usize, res: usize) -> Ray {
    // a simple pinhole at the open front of the box, looking along +z
    let fx = Fx::from_raw((px as i64 * 2 * SCALE / res as i64) - SCALE);
    let fy = Fx::from_raw((py as i64 * 2 * SCALE / res as i64) - SCALE);
    let dir = Vec3 { x: fx.mul(Fx::from_raw(SCALE / 2)), y: fy.mul(Fx::from_raw(SCALE / 2)), z: Fx::one() };
    Ray { orig: v(0, 0, -70), dir: dir.normalize() }
}

fn render_once(seed: u64, res: usize) -> RgbFrameBuffer {
    let scene = cornell_scene();
    let tracer = CpuPtMis::new(scene);
    let mut frame = RgbFrameBuffer::new((res, res));
    for py in 0..res {
        for px in 0..res {
            let mut rng = Rng::new(seed ^ ((py * res + px) as u64).wrapping_mul(0x9e3779b9));
            let ray = primary_ray(px, py, res);
            let color = tracer.trace_path(&ray, &mut rng);
            frame.add_color((px, py), color);
        }
    }
    frame
}

/// The whole pipeline is reproducible: rendering the Cornell-like scene
/// twice with the same seed gives identical framebuffers, bit for bit,
/// and gathers light.
#[test]
fn cornell_render_deterministic() {
    let a = render_once(12345, 4);
    let b = render_once(12345, 4);
    let pa = a.as_slice();
    let pb = b.as_slice();
    assert_eq!(pa.len(), 16);
    let mut any_positive = false;
    for i in 0..pa.len() {
        assert_eq!(pa[i].x.raw, pb[i].x.raw);
        assert_eq!(pa[i].y.raw, pb[i].y.raw);
        assert_eq!(pa[i].z.raw, pb[i].z.raw);
        assert!(pa[i].x.raw >= 0 && pa[i].y.raw >= 0 && pa[i].z.raw >= 0);
        if pa[i].x.raw > 0 || pa[i].y.raw > 0 || pa[i].z.raw > 0 {
            any_positive = true;
        }
    }
    assert!(any_positive, "the render gathered no light at all");
}

/// A different seed draws different paths somewhere in the frame.
#[test]
fn cornell_render_seed_matters() {
    let a = render_once(12345, 4);
    let b = render_once(54321, 4);
    let pa = a.as_slice();
    let pb = b.as_slice();
    let mut any_different = false;
    for i in 0..pa.len() {
        if pa[i].x.raw != pb[i].x.raw {
            any_different = true;
        }
    }
    assert!(any_different, "independent seeds gave identical frames");
}

/// The eye-light view is deterministic and shows the scene: the centre
/// of the frame sees a surface, and a ray past the box sees the miss
/// colour.
#[test]
fn eyelight_view() {
    let scene = cornell_scene();
    let eye = EyeLight::new(scene);
    let centre = eye.trace_path(&Ray { orig: v(0, 0, -70), dir: v(0, 0, 1) });
    assert!(centre.x.raw > 0, "centre ray saw nothing");
    let away = eye.trace_path(&Ray { orig: v(0, 0, -70), dir: v(0, 0, -1) });
    assert_eq!(away.x.raw, SCALE / 2);
    assert_eq!(away.y.raw, SCALE / 2);
    assert_eq!(away.z.raw, SCALE / 2);
}

/// Averages of many independent full-path estimates from disjoint seed
/// ranges agree: the Russian-roulette estimator converges to one value,
/// not to a value that depends on which survivals were drawn.
#[test]
fn russian_roulette_estimates_agree() {
    let scene = cornell_scene();
    let tracer = CpuPtMis::new(scene);
    let ray = primary_ray(1, 2, 4);
    let n = 4000u64;
    let mut sums = [0.0f64; 2];
    for half in 0..2u64 {
        let mut sum = 0.0f64;
        for i in 0..n {
            let mut rng = Rng::new(1 + half * n + i);
            let c = tracer.trace_path(&ray, &mut rng);
            sum += c.x.raw as f64 / SCALE as f64;
        }
        sums[half as usize] = sum / n as f64;
    }
    let diff = (sums[0] - sums[1]).abs();
    let scale = sums[0].abs().max(0.02);
    assert!(diff / scale < 0.25, "halves disagree: {} vs {}", sums[0], sums[1]);
    assert!(sums[0] > 0.0, "no radiance gathered");
}

/// The power heuristic on equal densities is exactly one half, and all
/// weight goes to a strategy whose rival has zero density.
#[test]
fn power_heuristic_exact_values() {
    let a = Fx::from_raw(SCALE / 2);
    assert_eq!(power_heuristic(a, a).raw, SCALE / 2);
    assert_eq!(power_heuristic(a, Fx::zero()).raw, SCALE);
    assert_eq!(power_heuristic(Fx::zero(), a).raw, 0);
    assert_eq!(power_heuristic(Fx::zero(), Fx::zero()).raw, 0);
    assert_eq!(mis2(a, a).raw, SCALE / 2);
}

/// The balance heuristic on equal densities is exactly one half.
#[test]
fn balance_heuristic_exact_values() {
    let a = Fx::from_raw(SCALE / 2);
    assert_eq!(balance_heuristic(a, a).raw, SCALE / 2);
    assert_eq!(balance_heuristic(a, Fx::zero()).raw, SCALE);
}

/// The maximum heuristic is a step function.
#[test]
fn max_heuristic_exact_values() {
    let a = Fx::from_raw(SCALE / 2);
    let b = Fx::from_raw(SCALE / 4);
    assert_eq!(max_heuristic(a, b).raw, SCALE);
    assert_eq!(max_heuristic(b, a).raw, 0);
    assert_eq!(max_heuristic(a, a).raw, SCALE);
}

use pathtracer::light::{Light, PointLight};

/// A scene lit only by point lights gathers light through next-event
/// estimation alone: point lights take the delta path of the weighting.
#[test]
fn point_light_scene_gathers_light() {
    let mut scene = DefaultScene::new(BackgroundLight { intensity: grey(0) });
    scene.add_light(Light::Point(PointLight {
        position: v(0, 10, -10),
        intensity: grey(400 * SCALE),
    }));
    // a floor to catch the light
    scene.add_object(
        Geometry::Triangle(Triangle::new(v(-30, -5, -30), v(-30, -5, 30), v(30, -5, 30))),
        diffuse(grey(SCALE / 2)),
    );
    scene.add_object(
        Geometry::Triangle(Triangle::new(v(30, -5, 30), v(30, -5, -30), v(-30, -5, -30))),
        diffuse(grey(SCALE / 2)),
    );
    let tracer = CpuPtMis::new(scene);
    let down = Vec3 { x: Fx::zero(), y: Fx::from_raw(-46341), z: Fx::from_raw(46341) };
    let ray = Ray { orig: v(0, 5, -10), dir: down };
    let mut total: i64 = 0;
    for seed in 0..200u64 {
        let mut rng = Rng::new(seed + 1);
        let c = tracer.trace_path(&ray, &mut rng);
        assert!(c.x.raw >= 0);
        total += c.x.raw;
    }
    assert!(total > 0, "the point light never reached the floor");
}
