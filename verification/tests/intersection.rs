use pathtracer::fixed::{Fx, SCALE};
use pathtracer::geometry::{Ray, Sphere, Triangle};
use pathtracer::math::Vec3;

fn v(x: i64, y: i64, z: i64) -> Vec3 {
    Vec3 { x: Fx::from_int(x), y: Fx::from_int(y), z: Fx::from_int(z) }
}

/// A ray aimed at the center of a sphere from outside hits at exactly
/// the distance to the center less the radius.
#[test]
fn sphere_head_on_hit_distance_exact() {
    let sphere = Sphere { center: v(0, 0, 0), radius: Fx::from_int(2) };
    let ray = Ray { orig: v(0, 0, -5), dir: v(0, 0, 1) };
    let isect = sphere.intersect(&ray).expect("head-on ray must hit");
    assert_eq!(isect.dist.raw, 3 * SCALE);
    assert_eq!(isect.normal.z.raw, -SCALE);
    assert_eq!(isect.normal.x.raw, 0);
    assert_eq!(isect.normal.y.raw, 0);
}

/// The same configuration off the origin, with a larger sphere.
#[test]
fn sphere_head_on_hit_distance_exact_translated() {
    let sphere = Sphere { center: v(10, -4, 7), radius: Fx::from_int(3) };
    let ray = Ray { orig: v(10, -4, -2), dir: v(0, 0, 1) };
    let isect = sphere.intersect(&ray).expect("head-on ray must hit");
    assert_eq!(isect.dist.raw, 6 * SCALE);
}

/// A ray aimed away from the sphere reports no hit.
#[test]
fn sphere_ray_aimed_away_misses() {
    let sphere = Sphere { center: v(0, 0, 0), radius: Fx::from_int(2) };
    let ray = Ray { orig: v(0, 0, -5), dir: v(0, 0, -1) };
    assert!(sphere.intersect(&ray).is_none());
}

/// A ray starting inside the sphere reports no hit.
#[test]
fn sphere_ray_from_inside_misses() {
    let sphere = Sphere { center: v(0, 0, 0), radius: Fx::from_int(2) };
    let ray = Ray { orig: v(0, 0, 0), dir: v(0, 0, 1) };
    assert!(sphere.intersect(&ray).is_none());
}

/// A ray through the triangle's interior, against its normal and from
/// the far side, reports a hit at the plane distance.
#[test]
fn triangle_interior_hit() {
    let tri = Triangle::new(v(2, -2, -3), v(-2, -2, -3), v(-2, 2, -3));
    // interior point near the centroid, approached along +z
    let third = Fx::from_raw(SCALE / 2);
    let ray = Ray {
        orig: Vec3 { x: third.neg(), y: third.neg(), z: Fx::from_int(-5) },
        dir: v(0, 0, 1),
    };
    let isect = tri.intersect(&ray).expect("interior ray must hit");
    assert_eq!(isect.dist.raw, 2 * SCALE);
    assert_eq!(isect.normal.z.raw, -SCALE);
}

/// A ray far outside the triangle's plane region reports no hit.
#[test]
fn triangle_miss_outside() {
    let tri = Triangle::new(v(2, -2, -3), v(-2, -2, -3), v(-2, 2, -3));
    let ray = Ray { orig: v(50, 50, -5), dir: v(0, 0, 1) };
    assert!(tri.intersect(&ray).is_none());
}

/// A ray parallel to the triangle's plane reports no hit.
#[test]
fn triangle_parallel_miss() {
    let tri = Triangle::new(v(2, -2, -3), v(-2, -2, -3), v(-2, 2, -3));
    let ray = Ray { orig: v(0, 0, -5), dir: v(1, 0, 0) };
    assert!(tri.intersect(&ray).is_none());
}
