use pathtracer::fixed::Fx;
use pathtracer::geometry::{Geometry, GeometryList, Ray, Sphere, Surface, Triangle, EPS_RAY_DF,
    EPS_RAY_GEO};
use pathtracer::math::Vec3;
use pathtracer::scene::SurfaceProperties;

fn v(x: i64, y: i64, z: i64) -> Vec3 {
    Vec3 { x: Fx::from_int(x), y: Fx::from_int(y), z: Fx::from_int(z) }
}

fn sphere_r2_at_origin() -> Sphere {
    Sphere { center: v(0, 0, 0), radius: Fx::from_int(2) }
}

fn eps_df() -> Fx {
    Fx::from_raw(EPS_RAY_DF)
}

fn eps_geo() -> Fx {
    Fx::from_raw(EPS_RAY_GEO)
}

#[test]
fn occlusion_sphere() {
    let mut geos = GeometryList::new();
    let sphere = sphere_r2_at_origin();
    geos.add_geometry(Surface {
        geometry: Geometry::Sphere(sphere),
        properties: SurfaceProperties::Material(0),
    });
    let ray = Ray { orig: v(0, 0, -5), dir: v(0, 0, 1) };
    assert!(geos.was_occluded(&ray, Fx::from_int(4)));
    assert!(!geos.was_occluded(&ray, Fx::from_int(3).sub(eps_df())));
    assert!(geos.was_occluded(&ray, Fx::from_int(3).add(eps_df())));
}

#[test]
fn occlusion_sphere_on_surface() {
    let mut geos = GeometryList::new();
    let sphere = sphere_r2_at_origin();
    geos.add_geometry(Surface {
        geometry: Geometry::Sphere(sphere),
        properties: SurfaceProperties::Material(0),
    });
    let ray = Ray { orig: v(0, 0, -6), dir: v(0, 0, 1) };
    assert!(!geos.was_occluded(&ray, eps_df()));
}

#[test]
fn occlusion_sphere_near_surface() {
    let mut geos = GeometryList::new();
    let sphere = sphere_r2_at_origin();
    geos.add_geometry(Surface {
        geometry: Geometry::Sphere(sphere),
        properties: SurfaceProperties::Material(0),
    });
    let ray = Ray { orig: v(0, 0, -2), dir: v(0, 0, 1) };
    let pulled_back = ray.advance(eps_geo().scale_int(2).neg());
    assert!(!geos.was_occluded(&pulled_back, eps_geo()));
}

#[test]
fn occlusion_tri_sphere() {
    let mut geos = GeometryList::new();
    let ident_mat = SurfaceProperties::Material(0);
    let sphere = sphere_r2_at_origin();
    geos.add_geometry(Surface { geometry: Geometry::Sphere(sphere), properties: ident_mat });

    let tri = Triangle::new(v(1, -1, -3), v(-1, -1, -3), v(-1, 1, -3));
    geos.add_geometry(Surface { geometry: Geometry::Triangle(tri), properties: ident_mat });

    // 2.1 in fixed-point raw steps.
    let z21 = Fx::from_raw(2 * 65536 + 6554);
    let ray = Ray {
        orig: Vec3 { x: Fx::from_int(0), y: Fx::from_int(0), z: z21 },
        dir: v(0, 0, 1),
    };
    assert!(!geos.was_occluded(&ray, Fx::from_raw(655)));

    let half = Fx::from_raw(32768);
    let ray_from_tri = Ray {
        orig: Vec3 { x: Fx::from_int(0), y: Fx::from_int(0), z: Fx::from_int(-3).sub(half) },
        dir: v(0, 0, 1),
    };
    assert!(geos.was_occluded(&ray_from_tri, Fx::from_int(2)));
}

#[test]
fn occlusion_tri() {
    let mut geos = GeometryList::new();
    let ident_mat = SurfaceProperties::Material(0);

    let tri = Triangle::new(v(1, -1, -3), v(-1, -1, -3), v(-1, 1, -3));
    geos.add_geometry(Surface { geometry: Geometry::Triangle(tri), properties: ident_mat });

    let z21 = Fx::from_raw(2 * 65536 + 6554);
    let ray = Ray {
        orig: Vec3 { x: Fx::from_int(0), y: Fx::from_int(0), z: z21 },
        dir: v(0, 0, 1),
    };
    let was_occluded = if let Some(isect) = geos.nearest_intersection(&ray) {
        isect.dist.lt(Fx::from_int(1))
    } else {
        false
    };
    assert!(!was_occluded);

    let half = Fx::from_raw(32768);
    let ray_from_tri = Ray {
        orig: Vec3 { x: Fx::from_int(0), y: Fx::from_int(0), z: Fx::from_int(-3).sub(half) },
        dir: v(0, 0, 1),
    };
    assert!(geos.was_occluded(&ray_from_tri, Fx::from_int(2)));
}
