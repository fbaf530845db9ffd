//! Rays, orthonormal frames, and ray-primitive intersection for spheres
//! and triangles. Every query has an exact contract over the ghost
//! models of the primitives.

use vstd::prelude::*;

verus! {

use crate::fixed::{Fx, RAW_LIMIT, SCALE, fx_mul_spec, fx_div_spec, fx_sqrt_spec, fx_wf, sat, tdiv};
use crate::math::{Vec3, V3i, v3_wf, v3_add, v3_sub, v3_scale, v3_dot, v3_cross, v3_norm,
    v3_normalize, v3_sqnorm, ortho, ortho_spec, sadd};
use vstd::math::abs;
use crate::scene::SurfaceProperties;
use crate::distance_fields::{DFieldIsosurface, df_dist_spec, df_grad_spec, df_wf, min_spec};

/// Convergence threshold for distance-field marching.
pub const EPS_DIST_FIELD: i64 = 8;

/// Forward bias applied to rays before discrete-geometry queries.
pub const EPS_RAY_GEO: i64 = 8;

/// Forward bias applied to rays before distance-field queries.
pub const EPS_RAY_DF: i64 = 512;

/// Step used for the central finite differences of a gradient.
pub const DELTA_GRAD: i64 = 8;

/// Hard cap on sphere-marching steps.
pub const MAX_DFIELD_STEPS: usize = 1024;

/// A hit on a bare primitive: the surface normal there and the distance
/// along the ray.
#[derive(Clone, Copy, Debug, PartialEq, Eq, Structural)]
pub struct Intersection {
    pub normal: Vec3,
    pub dist: Fx,
}

/// A hit on a scene surface: the primitive hit plus what it is made of.
#[derive(Clone, Copy, Debug, PartialEq, Eq, Structural)]
pub struct SurfaceIntersection {
    pub normal: Vec3,
    pub dist: Fx,
    pub surface: SurfaceProperties,
}

/// The ghost model of a hit.
pub ghost struct IsectModel {
    pub normal: V3i,
    pub dist: int,
}

impl View for Intersection {
    type V = IsectModel;

    open spec fn view(&self) -> IsectModel {
        IsectModel { normal: self.normal@, dist: self.dist@ }
    }
}

/// The model of an optional hit.
pub open spec fn isect_view(o: Option<Intersection>) -> Option<IsectModel> {
    match o {
        Some(i) => Some(i@),
        None => None,
    }
}

#[derive(Clone, Copy, Debug, PartialEq, Eq, Structural)]
pub struct Ray {
    pub orig: Vec3,
    pub dir: Vec3,
}

/// The ghost model of a ray.
pub ghost struct RayModel {
    pub orig: V3i,
    pub dir: V3i,
}

impl View for Ray {
    type V = RayModel;

    open spec fn view(&self) -> RayModel {
        RayModel { orig: self.orig@, dir: self.dir@ }
    }
}

pub open spec fn ray_wf(r: RayModel) -> bool {
    v3_wf(r.orig) && v3_wf(r.dir)
}

pub open spec fn ray_advance_spec(r: RayModel, delta: int) -> RayModel {
    RayModel { orig: v3_add(r.orig, v3_scale(r.dir, delta)), dir: r.dir }
}

impl Ray {
    pub open spec fn wf(self) -> bool {
        ray_wf(self@)
    }

    /// The same ray with its origin moved `delta` along its direction.
    pub fn advance(&self, delta: Fx) -> (r: Ray)
        requires
            self.wf(),
            delta.wf(),
        ensures
            r@ == ray_advance_spec(self@, delta@),
            r.wf(),
    {
        Ray { dir: self.dir, orig: self.orig.add(self.dir.scale(delta)) }
    }
}

/// An orthonormal basis for a shading point: `oz` is the surface normal,
/// `ox` and `oy` span the surface plane.
#[derive(Clone, Copy, Debug, PartialEq, Eq, Structural)]
pub struct Frame {
    pub ox: Vec3,
    pub oy: Vec3,
    pub oz: Vec3,
}

/// The ghost model of a frame.
pub ghost struct FrameModel {
    pub ox: V3i,
    pub oy: V3i,
    pub oz: V3i,
}

impl View for Frame {
    type V = FrameModel;

    open spec fn view(&self) -> FrameModel {
        FrameModel { ox: self.ox@, oy: self.oy@, oz: self.oz@ }
    }
}

pub open spec fn frame_wf(f: FrameModel) -> bool {
    v3_wf(f.ox) && v3_wf(f.oy) && v3_wf(f.oz)
}

/// The frame grown from a single normal: normalize it, take a
/// deterministic orthogonal vector, and complete with cross products.
pub open spec fn frame_from_z_spec(oz: V3i) -> FrameModel {
    let ozn = v3_normalize(oz);
    let tox = ortho_spec(ozn);
    let oy = v3_normalize(v3_cross(ozn, tox));
    let ox = v3_cross(oy, ozn);
    FrameModel { ox: ox, oy: oy, oz: ozn }
}

/// A world vector written in frame coordinates.
pub open spec fn to_local_spec(f: FrameModel, v: V3i) -> V3i {
    V3i { x: v3_dot(v, f.ox), y: v3_dot(v, f.oy), z: v3_dot(v, f.oz) }
}

/// A local vector carried back to world coordinates.
pub open spec fn to_world_spec(f: FrameModel, v: V3i) -> V3i {
    v3_add(v3_add(v3_scale(f.ox, v.x), v3_scale(f.oy, v.y)), v3_scale(f.oz, v.z))
}

impl Frame {
    pub open spec fn wf(self) -> bool {
        frame_wf(self@)
    }

    pub fn new(ox: Vec3, oy: Vec3, oz: Vec3) -> (r: Frame)
        ensures
            r@ == (FrameModel { ox: ox@, oy: oy@, oz: oz@ }),
    {
        Frame { ox, oy, oz }
    }

    pub fn new_identity() -> (r: Frame)
        ensures
            r@.ox == (V3i { x: SCALE as int, y: 0, z: 0 }),
            r@.oy == (V3i { x: 0, y: SCALE as int, z: 0 }),
            r@.oz == (V3i { x: 0, y: 0, z: SCALE as int }),
            r.wf(),
    {
        Frame {
            ox: Vec3 { x: Fx::one(), y: Fx::zero(), z: Fx::zero() },
            oy: Vec3 { x: Fx::zero(), y: Fx::one(), z: Fx::zero() },
            oz: Vec3 { x: Fx::zero(), y: Fx::zero(), z: Fx::one() },
        }
    }

    pub fn from_z(oz: &Vec3) -> (r: Frame)
        requires
            oz.wf(),
        ensures
            r@ == frame_from_z_spec(oz@),
            r.wf(),
    {
        let ozn = oz.normalize();
        let temp_ox = ortho(&ozn);
        let oy = ozn.cross(temp_ox).normalize();
        let ox = oy.cross(ozn);
        Frame { ox, oy, oz: ozn }
    }

    pub fn normal(&self) -> (r: Vec3)
        ensures
            r@ == self@.oz,
    {
        self.oz
    }

    pub fn tangent(&self) -> (r: Vec3)
        ensures
            r@ == self@.oy,
    {
        self.oy
    }

    pub fn binormal(&self) -> (r: Vec3)
        ensures
            r@ == self@.ox,
    {
        self.ox
    }

    pub fn to_world(&self, v: &Vec3) -> (r: Vec3)
        requires
            self.wf(),
            v.wf(),
        ensures
            r@ == to_world_spec(self@, v@),
            r.wf(),
    {
        self.ox.scale(v.x).add(self.oy.scale(v.y)).add(self.oz.scale(v.z))
    }

    pub fn to_local(&self, v: &Vec3) -> (r: Vec3)
        requires
            self.wf(),
            v.wf(),
        ensures
            r@ == to_local_spec(self@, v@),
            r.wf(),
    {
        Vec3 { x: v.dot(self.ox), y: v.dot(self.oy), z: v.dot(self.oz) }
    }
}

#[derive(Clone, Copy, Debug, PartialEq, Eq, Structural)]
pub struct Sphere {
    pub center: Vec3,
    pub radius: Fx,
}

/// The ghost model of a sphere.
pub ghost struct SphereModel {
    pub center: V3i,
    pub radius: int,
}

impl View for Sphere {
    type V = SphereModel;

    open spec fn view(&self) -> SphereModel {
        SphereModel { center: self.center@, radius: self.radius@ }
    }
}

pub open spec fn sphere_wf(s: SphereModel) -> bool {
    v3_wf(s.center) && crate::fixed::fx_wf(s.radius)
}

/// The sphere intersection, step for step: reject rays leaving the
/// sphere or starting inside it, reject rays whose closest approach
/// stays outside, then walk back from the closest approach by the
/// half-chord to the entry point.
pub open spec fn sphere_isect_spec(s: SphereModel, ray: RayModel) -> Option<IsectModel> {
    let p = v3_sub(ray.orig, s.center);
    let r2 = fx_mul_spec(s.radius, s.radius);
    let p_d = v3_dot(p, ray.dir);
    if p_d > 0 || v3_dot(p, p) < r2 {
        None
    } else {
        let a = v3_sub(p, v3_scale(ray.dir, p_d));
        let a2 = v3_dot(a, a);
        if a2 > r2 {
            None
        } else {
            let h = fx_sqrt_spec(sat(r2 - a2));
            let i = v3_sub(a, v3_scale(ray.dir, h));
            let point = v3_add(s.center, i);
            Some(
                IsectModel {
                    normal: v3_normalize(i),
                    dist: v3_norm(v3_sub(point, ray.orig)),
                },
            )
        }
    }
}

impl Sphere {
    pub open spec fn wf(self) -> bool {
        sphere_wf(self@)
    }

    /// The squared radius.
    pub fn r2(&self) -> (r: Fx)
        requires
            self.wf(),
        ensures
            r@ == fx_mul_spec(self@.radius, self@.radius),
            r.wf(),
    {
        self.radius.mul(self.radius)
    }

    pub fn intersect(&self, ray: &Ray) -> (r: Option<Intersection>)
        requires
            self.wf(),
            ray.wf(),
        ensures
            isect_view(r) == sphere_isect_spec(self@, ray@),
            r is Some ==> r.unwrap().normal.wf() && r.unwrap().dist.wf(),
    {
        let p = ray.orig.sub(self.center);
        let r2 = self.r2();
        let p_d = p.dot(ray.dir);
        if p_d.lt(Fx::zero()) == false && !p_d.is_zero() || p.dot(p).lt(r2) {
            return None;
        }
        let a = p.sub(ray.dir.scale(p_d));
        let a2 = a.dot(a);
        if r2.lt(a2) {
            return None;
        }
        let h = r2.sub(a2).sqrt();
        let i = a.sub(ray.dir.scale(h));
        let point = self.center.add(i);
        Some(Intersection { normal: i.normalize(), dist: point.sub(ray.orig).norm() })
    }
}

/// A torus around the `z` axis through `center`, with the ring radius
/// and the tube thickness.
#[derive(Clone, Copy, Debug, PartialEq, Eq, Structural)]
pub struct Torus {
    pub radius: Fx,
    pub thickness: Fx,
    pub center: Vec3,
}

/// The ghost model of a torus.
pub ghost struct TorusModel {
    pub radius: int,
    pub thickness: int,
    pub center: V3i,
}

impl View for Torus {
    type V = TorusModel;

    open spec fn view(&self) -> TorusModel {
        TorusModel { radius: self.radius@, thickness: self.thickness@, center: self.center@ }
    }
}

impl Torus {
    pub open spec fn wf(self) -> bool {
        crate::fixed::fx_wf(self@.radius) && crate::fixed::fx_wf(self@.thickness) && v3_wf(
            self@.center,
        )
    }
}

/// A box at `pos` with half-extents `dim` and rounding radius `r`.
#[derive(Clone, Copy, Debug, PartialEq, Eq, Structural)]
pub struct RoundBox {
    pub dim: Vec3,
    pub pos: Vec3,
    pub r: Fx,
}

/// The ghost model of a rounded box.
pub ghost struct RoundBoxModel {
    pub dim: V3i,
    pub pos: V3i,
    pub r: int,
}

impl View for RoundBox {
    type V = RoundBoxModel;

    open spec fn view(&self) -> RoundBoxModel {
        RoundBoxModel { dim: self.dim@, pos: self.pos@, r: self.r@ }
    }
}

impl RoundBox {
    pub open spec fn wf(self) -> bool {
        v3_wf(self@.dim) && v3_wf(self@.pos) && crate::fixed::fx_wf(self@.r)
    }
}

#[derive(Clone, Copy, Debug)]
pub struct Triangle {
    pub vert: [Vec3; 3],
    pub normal: Vec3,
}

/// The ghost model of a triangle.
pub ghost struct TriangleModel {
    pub v0: V3i,
    pub v1: V3i,
    pub v2: V3i,
    pub normal: V3i,
}

impl View for Triangle {
    type V = TriangleModel;

    open spec fn view(&self) -> TriangleModel {
        TriangleModel {
            v0: self.vert[0]@,
            v1: self.vert[1]@,
            v2: self.vert[2]@,
            normal: self.normal@,
        }
    }
}

pub open spec fn triangle_wf(t: TriangleModel) -> bool {
    v3_wf(t.v0) && v3_wf(t.v1) && v3_wf(t.v2) && v3_wf(t.normal)
}

/// The triangle's own normal from its winding order.
pub open spec fn triangle_normal_spec(p0: V3i, p1: V3i, p2: V3i) -> V3i {
    v3_normalize(v3_cross(v3_sub(p1, p0), v3_sub(p2, p0)))
}

/// The edge-function test: a hit exists exactly when the three scalar
/// triple products share a sign (boundary inclusive) and the plane
/// distance is positive.
pub open spec fn triangle_isect_spec(t: TriangleModel, ray: RayModel) -> Option<IsectModel> {
    let ao = v3_sub(t.v0, ray.orig);
    let bo = v3_sub(t.v1, ray.orig);
    let co = v3_sub(t.v2, ray.orig);
    let v0d = v3_dot(v3_cross(co, bo), ray.dir);
    let v1d = v3_dot(v3_cross(bo, ao), ray.dir);
    let v2d = v3_dot(v3_cross(ao, co), ray.dir);
    if (v0d <= 0 && v1d <= 0 && v2d <= 0) || (v0d >= 0 && v1d >= 0 && v2d >= 0) {
        let dist = fx_div_spec(v3_dot(t.normal, ao), v3_dot(t.normal, ray.dir));
        if dist <= 0 {
            None
        } else {
            Some(IsectModel { normal: t.normal, dist: dist })
        }
    } else {
        None
    }
}

impl Triangle {
    pub open spec fn wf(self) -> bool {
        triangle_wf(self@)
    }

    pub fn new(p0: Vec3, p1: Vec3, p2: Vec3) -> (r: Triangle)
        requires
            p0.wf(),
            p1.wf(),
            p2.wf(),
        ensures
            r@.v0 == p0@,
            r@.v1 == p1@,
            r@.v2 == p2@,
            r@.normal == triangle_normal_spec(p0@, p1@, p2@),
            r.wf(),
    {
        Triangle { vert: [p0, p1, p2], normal: p1.sub(p0).cross(p2.sub(p0)).normalize() }
    }

    pub fn intersect(&self, ray: &Ray) -> (r: Option<Intersection>)
        requires
            self.wf(),
            ray.wf(),
        ensures
            isect_view(r) == triangle_isect_spec(self@, ray@),
            r is Some ==> r.unwrap().normal.wf() && r.unwrap().dist.wf(),
    {
        let ao = self.vert[0].sub(ray.orig);
        let bo = self.vert[1].sub(ray.orig);
        let co = self.vert[2].sub(ray.orig);
        let v0d = co.cross(bo).dot(ray.dir);
        let v1d = bo.cross(ao).dot(ray.dir);
        let v2d = ao.cross(co).dot(ray.dir);
        let zero = Fx::zero();
        let all_nonpos = v0d.le(zero) && v1d.le(zero) && v2d.le(zero);
        let all_nonneg = zero.le(v0d) && zero.le(v1d) && zero.le(v2d);
        if all_nonpos || all_nonneg {
            let dist = self.normal.dot(ao).div(self.normal.dot(ray.dir));
            if dist.le(zero) {
                None
            } else {
                Some(Intersection { normal: self.normal, dist })
            }
        } else {
            None
        }
    }
}


/// The ghost model of a hit on a scene surface.
pub ghost struct SurfIsectModel {
    pub normal: V3i,
    pub dist: int,
    pub surface: SurfaceProperties,
}

impl View for SurfaceIntersection {
    type V = SurfIsectModel;

    open spec fn view(&self) -> SurfIsectModel {
        SurfIsectModel { normal: self.normal@, dist: self.dist@, surface: self.surface }
    }
}

/// The model of an optional surface hit.
pub open spec fn surf_isect_view(o: Option<SurfaceIntersection>) -> Option<SurfIsectModel> {
    match o {
        Some(i) => Some(i@),
        None => None,
    }
}

/// A discrete primitive: the closed set of shapes a scene can hold.
#[derive(Clone, Copy, Debug)]
pub enum Geometry {
    Sphere(Sphere),
    Triangle(Triangle),
}

pub open spec fn geometry_wf(g: Geometry) -> bool {
    match g {
        Geometry::Sphere(s) => s.wf(),
        Geometry::Triangle(t) => t.wf(),
    }
}

/// The hit of a ray on a primitive.
pub open spec fn geo_isect_spec(g: Geometry, ray: RayModel) -> Option<IsectModel> {
    match g {
        Geometry::Sphere(s) => sphere_isect_spec(s@, ray),
        Geometry::Triangle(t) => triangle_isect_spec(t@, ray),
    }
}

impl Geometry {
    pub fn intersect(&self, ray: &Ray) -> (r: Option<Intersection>)
        requires
            geometry_wf(*self),
            ray.wf(),
        ensures
            isect_view(r) == geo_isect_spec(*self, ray@),
            r is Some ==> r.unwrap().normal.wf() && r.unwrap().dist.wf(),
    {
        match self {
            Geometry::Sphere(s) => s.intersect(ray),
            Geometry::Triangle(t) => t.intersect(ray),
        }
    }
}

/// A primitive together with what its surface is made of.
#[derive(Clone, Copy, Debug)]
pub struct Surface {
    pub geometry: Geometry,
    pub properties: SurfaceProperties,
}

pub open spec fn surface_wf(s: Surface) -> bool {
    geometry_wf(s.geometry)
}

/// The hit of a ray on a surface: the primitive hit, tagged.
pub open spec fn surf_isect_spec(s: Surface, ray: RayModel) -> Option<SurfIsectModel> {
    match geo_isect_spec(s.geometry, ray) {
        Some(i) => Some(SurfIsectModel { normal: i.normal, dist: i.dist, surface: s.properties }),
        None => None,
    }
}

impl Surface {
    pub fn intersect(&self, ray: &Ray) -> (r: Option<SurfaceIntersection>)
        requires
            surface_wf(*self),
            ray.wf(),
        ensures
            surf_isect_view(r) == surf_isect_spec(*self, ray@),
            r is Some ==> r.unwrap().normal.wf() && r.unwrap().dist.wf(),
    {
        match self.geometry.intersect(ray) {
            Some(isect) => Some(
                SurfaceIntersection {
                    normal: isect.normal,
                    dist: isect.dist,
                    surface: self.properties,
                },
            ),
            None => None,
        }
    }
}

/// Of a held hit and a candidate, the one that stands: the candidate
/// only when strictly nearer, so the earlier of two equal hits stays.
pub open spec fn nearer(curr: Option<SurfIsectModel>, cand: Option<SurfIsectModel>) -> Option<
    SurfIsectModel,
> {
    match curr {
        None => cand,
        Some(c) => match cand {
            None => curr,
            Some(i) => if i.dist < c.dist {
                cand
            } else {
                curr
            },
        },
    }
}

/// The nearest hit among the first `n` surfaces, scanned left to right.
pub open spec fn nearest_prefix(geos: Seq<Surface>, ray: RayModel, n: int) -> Option<
    SurfIsectModel,
>
    decreases n,
{
    if n <= 0 {
        None
    } else {
        nearer(nearest_prefix(geos, ray, n - 1), surf_isect_spec(geos[n - 1], ray))
    }
}

/// Some surface among the first `n` blocks the ray within `limit`.
pub open spec fn occluded_by_geo(geos: Seq<Surface>, ray: RayModel, limit: int) -> bool {
    exists|i: int|
        0 <= i < geos.len() && match surf_isect_spec(#[trigger] geos[i], ray) {
            Some(s) => s.dist < limit,
            None => false,
        }
}

/// The point a parameter `t` along a ray.
pub open spec fn point_at(ray: RayModel, t: int) -> V3i {
    v3_add(ray.orig, v3_scale(ray.dir, t))
}

/// One scan over the fields at a point: the first field already within
/// the convergence threshold (with its distance), or the running
/// minimum distance over all of them.
pub ghost struct ScanRes {
    pub hit: Option<(int, int)>,
    pub dmin: int,
}

pub open spec fn scan_from(fields: Seq<DFieldIsosurface>, pnt: V3i, i: int, dmin: int) -> ScanRes
    decreases fields.len() - i,
{
    if i < 0 || i >= fields.len() {
        ScanRes { hit: None, dmin }
    } else {
        let d0 = df_dist_spec(fields[i].dfield, pnt);
        if d0 < EPS_DIST_FIELD as int {
            ScanRes { hit: Some((i, d0)), dmin }
        } else {
            scan_from(fields, pnt, i + 1, min_spec(dmin, d0))
        }
    }
}

/// Sphere marching with a step budget: advance by the minimum field
/// distance until one field converges or the travel limit is passed.
pub open spec fn march_from(
    fields: Seq<DFieldIsosurface>,
    ray: RayModel,
    max_dist: int,
    t: int,
    fuel: nat,
) -> Option<SurfIsectModel>
    decreases fuel,
{
    if fuel == 0 {
        None
    } else {
        let s = scan_from(fields, point_at(ray, t), 0, max_dist);
        match s.hit {
            Some((i, d0)) => {
                let t2 = sadd(t, d0);
                let g = df_grad_spec(fields[i].dfield, point_at(ray, t2), DELTA_GRAD as int);
                Some(
                    SurfIsectModel {
                        normal: v3_normalize(g),
                        dist: t2,
                        surface: fields[i].properties,
                    },
                )
            },
            None => {
                let t2 = sadd(t, s.dmin);
                if t2 > max_dist {
                    None
                } else {
                    march_from(fields, ray, max_dist, t2, (fuel - 1) as nat)
                }
            },
        }
    }
}

/// The full march from the ray origin, or nothing when no field exists.
pub open spec fn march_spec(fields: Seq<DFieldIsosurface>, ray: RayModel, max_dist: int) -> Option<
    SurfIsectModel,
> {
    if fields.len() == 0 {
        None
    } else {
        march_from(fields, ray, max_dist, 0, MAX_DFIELD_STEPS as nat)
    }
}

/// The scene's geometry: discrete surfaces scanned linearly, and
/// implicit fields marched, with the nearer answer winning.
pub struct GeometryList {
    pub geometries: Vec<Surface>,
    pub dfields: Vec<DFieldIsosurface>,
}

pub open spec fn list_wf(l: &GeometryList) -> bool {
    (forall|i: int| 0 <= i < l.geometries@.len() ==> surface_wf(#[trigger] l.geometries@[i]))
        && (forall|i: int| 0 <= i < l.dfields@.len() ==> df_wf(#[trigger] l.dfields@[i].dfield))
}

/// The nearest intersection the aggregate reports: the discrete scan
/// with a forward-biased ray, then the fields marched up to that hit
/// (or a fixed horizon), the nearer of the two standing.
pub open spec fn nearest_isect_spec(l: &GeometryList, ray: RayModel) -> Option<SurfIsectModel> {
    let ray_geo = ray_advance_spec(ray, EPS_RAY_GEO as int);
    let isect = nearest_prefix(l.geometries@, ray_geo, l.geometries@.len() as int);
    let ray_df = ray_advance_spec(ray, EPS_RAY_DF as int);
    let horizon = match isect {
        Some(s) => s.dist,
        None => 10000 * SCALE as int,
    };
    match march_spec(l.dfields@, ray_df, horizon) {
        Some(d) => Some(d),
        None => isect,
    }
}

/// Whether anything blocks the ray strictly within `dist`, each query
/// family biased forward and its limit shrunk accordingly.
pub open spec fn was_occluded_spec(l: &GeometryList, ray: RayModel, dist: int) -> bool {
    let ray_geo = ray_advance_spec(ray, EPS_RAY_GEO as int);
    let dist_geo = sat(dist - 2 * EPS_RAY_GEO as int);
    if occluded_by_geo(l.geometries@, ray_geo, dist_geo) {
        true
    } else {
        let ray_df = ray_advance_spec(ray, EPS_RAY_DF as int);
        let dist_df = sat(dist - 2 * EPS_RAY_DF as int);
        march_spec(l.dfields@, ray_df, dist_df) is Some
    }
}

impl GeometryList {
    pub fn new() -> (r: GeometryList)
        ensures
            r.geometries@.len() == 0,
            r.dfields@.len() == 0,
            list_wf(&r),
    {
        GeometryList { geometries: Vec::new(), dfields: Vec::new() }
    }

    pub fn add_geometry(&mut self, object: Surface)
        requires
            list_wf(old(self)),
            surface_wf(object),
        ensures
            list_wf(final(self)),
            final(self).geometries@ == old(self).geometries@.push(object),
            final(self).dfields@ == old(self).dfields@,
    {
        self.geometries.push(object);
    }

    pub fn add_isosurface(&mut self, object: DFieldIsosurface)
        requires
            list_wf(old(self)),
            df_wf(object.dfield),
        ensures
            list_wf(final(self)),
            final(self).dfields@ == old(self).dfields@.push(object),
            final(self).geometries@ == old(self).geometries@,
    {
        self.dfields.push(object);
    }

    /// The nearest discrete hit, by linear scan.
    fn nearest_geo_isect(&self, ray: &Ray) -> (r: Option<SurfaceIntersection>)
        requires
            list_wf(self),
            ray.wf(),
        ensures
            surf_isect_view(r) == nearest_prefix(
                self.geometries@,
                ray@,
                self.geometries@.len() as int,
            ),
            r is Some ==> r.unwrap().normal.wf() && r.unwrap().dist.wf(),
    {
        let mut curr: Option<SurfaceIntersection> = None;
        let n = self.geometries.len();
        let mut i: usize = 0;
        while i < n
            invariant
                list_wf(self),
                ray.wf(),
                i <= n,
                n == self.geometries@.len(),
                surf_isect_view(curr) == nearest_prefix(self.geometries@, ray@, i as int),
                curr is Some ==> curr.unwrap().normal.wf() && curr.unwrap().dist.wf(),
            decreases n - i,
        {
            let cand = self.geometries[i].intersect(ray);
            curr = match (curr, cand) {
                (None, c) => c,
                (Some(c), None) => Some(c),
                (Some(c), Some(k)) => if k.dist.lt(c.dist) {
                    Some(k)
                } else {
                    Some(c)
                },
            };
            i = i + 1;
        }
        curr
    }

    /// March the implicit fields from the (biased) ray origin.
    fn nearest_isosurface_isect(&self, ray: &Ray, max_dist: Fx) -> (r: Option<SurfaceIntersection>)
        requires
            list_wf(self),
            ray.wf(),
            max_dist.wf(),
        ensures
            surf_isect_view(r) == march_spec(self.dfields@, ray@, max_dist@),
            r is Some ==> r.unwrap().normal.wf() && r.unwrap().dist.wf(),
    {
        if self.dfields.len() == 0 {
            return None;
        }
        let mut t = Fx::zero();
        let mut step: usize = 0;
        while step < MAX_DFIELD_STEPS
            invariant
                list_wf(self),
                ray.wf(),
                max_dist.wf(),
                t.wf(),
                step <= MAX_DFIELD_STEPS,
                self.dfields@.len() > 0,
                march_spec(self.dfields@, ray@, max_dist@) == march_from(
                    self.dfields@,
                    ray@,
                    max_dist@,
                    t@,
                    (MAX_DFIELD_STEPS - step) as nat,
                ),
            decreases MAX_DFIELD_STEPS - step,
        {
            let new_point = ray.orig.add(ray.dir.scale(t));
            let mut d = max_dist;
            let m = self.dfields.len();
            let mut j: usize = 0;
            while j < m
                invariant
                    list_wf(self),
                    ray.wf(),
                    t.wf(),
                    d.wf(),
                    max_dist.wf(),
                    j <= m,
                    m == self.dfields@.len(),
                    self.dfields@.len() > 0,
                    step < MAX_DFIELD_STEPS,
                    new_point@ == point_at(ray@, t@),
                    new_point.wf(),
                    scan_from(self.dfields@, new_point@, 0, max_dist@) == scan_from(
                        self.dfields@,
                        new_point@,
                        j as int,
                        d@,
                    ),
                    march_spec(self.dfields@, ray@, max_dist@) == march_from(
                        self.dfields@,
                        ray@,
                        max_dist@,
                        t@,
                        (MAX_DFIELD_STEPS - step) as nat,
                    ),
                decreases m - j,
            {
                let dist = self.dfields[j].dfield.dist(&new_point);
                if dist.lt(Fx::from_raw(EPS_DIST_FIELD)) {
                    let t2 = t.add(dist);
                    let hit_point = ray.orig.add(ray.dir.scale(t2));
                    let grad = self.dfields[j].dfield.grad(&hit_point, Fx::from_raw(DELTA_GRAD));
                    return Some(
                        SurfaceIntersection {
                            normal: grad.normalize(),
                            dist: t2,
                            surface: self.dfields[j].properties,
                        },
                    );
                }
                d = d.min(dist);
                j = j + 1;
            }
            let t2 = t.add(d);
            if max_dist.lt(t2) {
                return None;
            }
            t = t2;
            step = step + 1;
        }
        None
    }

    /// The nearest hit over both query families.
    pub fn nearest_intersection(&self, ray: &Ray) -> (r: Option<SurfaceIntersection>)
        requires
            list_wf(self),
            ray.wf(),
        ensures
            surf_isect_view(r) == nearest_isect_spec(self, ray@),
            r is Some ==> r.unwrap().normal.wf() && r.unwrap().dist.wf(),
    {
        let ray_geo = ray.advance(Fx::from_raw(EPS_RAY_GEO));
        let isect = self.nearest_geo_isect(&ray_geo);
        let ray_df = ray.advance(Fx::from_raw(EPS_RAY_DF));
        let horizon = match &isect {
            Some(s) => s.dist,
            None => Fx::from_int(10000),
        };
        match self.nearest_isosurface_isect(&ray_df, horizon) {
            Some(d) => Some(d),
            None => isect,
        }
    }

    /// Whether anything blocks the ray strictly within `dist`.
    pub fn was_occluded(&self, ray: &Ray, dist: Fx) -> (r: bool)
        requires
            list_wf(self),
            ray.wf(),
            dist.wf(),
        ensures
            r == was_occluded_spec(self, ray@, dist@),
    {
        let ray_geo = ray.advance(Fx::from_raw(EPS_RAY_GEO));
        let dist_geo = dist.sub(Fx::from_raw(2 * EPS_RAY_GEO));
        let n = self.geometries.len();
        let mut i: usize = 0;
        while i < n
            invariant
                list_wf(self),
                ray.wf(),
                ray_geo.wf(),
                dist_geo.wf(),
                ray_geo@ == ray_advance_spec(ray@, EPS_RAY_GEO as int),
                dist_geo@ == sat(dist@ - 2 * EPS_RAY_GEO as int),
                i <= n,
                n == self.geometries@.len(),
                forall|k: int|
                    0 <= k < i ==> match surf_isect_spec(#[trigger] self.geometries@[k], ray_geo@) {
                        Some(s) => s.dist >= dist_geo@,
                        None => true,
                    },
            decreases n - i,
        {
            if let Some(isec) = self.geometries[i].intersect(&ray_geo) {
                if isec.dist.lt(dist_geo) {
                    return true;
                }
            }
            i = i + 1;
        }
        let ray_df = ray.advance(Fx::from_raw(EPS_RAY_DF));
        let dist_df = dist.sub(Fx::from_raw(2 * EPS_RAY_DF));
        self.nearest_isosurface_isect(&ray_df, dist_df).is_some()
    }
}


/// Any hit the linear scan reports carries the tag of one of the
/// scanned surfaces.
pub proof fn lemma_nearest_prefix_props(geos: Seq<Surface>, ray: RayModel, n: int)
    requires
        n <= geos.len(),
    ensures
        match nearest_prefix(geos, ray, n) {
            Some(s) => exists|i: int|
                0 <= i < geos.len() && s.surface == (#[trigger] geos[i]).properties,
            None => true,
        },
    decreases n,
{
    if n > 0 {
        lemma_nearest_prefix_props(geos, ray, n - 1);
        let prev = nearest_prefix(geos, ray, n - 1);
        let cand = surf_isect_spec(geos[n - 1], ray);
        assert(nearest_prefix(geos, ray, n) == nearer(prev, cand));
        match nearer(prev, cand) {
            Some(s) => {
                if nearer(prev, cand) == cand {
                    assert(0 <= n - 1 < geos.len() && s.surface == geos[n - 1].properties);
                } else {
                    assert(nearer(prev, cand) == prev);
                }
            },
            None => {},
        }
    }
}

/// Any converged field the scan reports lies inside the list.
pub proof fn lemma_scan_props(fields: Seq<DFieldIsosurface>, pnt: V3i, i: int, dmin: int)
    ensures
        match scan_from(fields, pnt, i, dmin).hit {
            Some(h) => 0 <= h.0 < fields.len(),
            None => true,
        },
    decreases fields.len() - i,
{
    if 0 <= i < fields.len() {
        let d0 = df_dist_spec(fields[i].dfield, pnt);
        if d0 < EPS_DIST_FIELD as int {
        } else {
            lemma_scan_props(fields, pnt, i + 1, min_spec(dmin, d0));
        }
    }
}

/// Any hit the march reports carries the tag of one of the fields.
pub proof fn lemma_march_props(
    fields: Seq<DFieldIsosurface>,
    ray: RayModel,
    max_dist: int,
    t: int,
    fuel: nat,
)
    ensures
        match march_from(fields, ray, max_dist, t, fuel) {
            Some(s) => exists|i: int|
                0 <= i < fields.len() && s.surface == (#[trigger] fields[i]).properties,
            None => true,
        },
    decreases fuel,
{
    if fuel > 0 {
        let sc = scan_from(fields, point_at(ray, t), 0, max_dist);
        lemma_scan_props(fields, point_at(ray, t), 0, max_dist);
        match sc.hit {
            Some(h) => {
                match march_from(fields, ray, max_dist, t, fuel) {
                    Some(s) => {
                        assert(0 <= h.0 < fields.len() && s.surface == fields[h.0].properties);
                    },
                    None => {},
                }
            },
            None => {
                let t2 = sadd(t, sc.dmin);
                if t2 <= max_dist {
                    lemma_march_props(fields, ray, max_dist, t2, (fuel - 1) as nat);
                }
            },
        }
    }
}

/// Any hit the aggregate reports carries the tag of a stored surface
/// or of a stored field.
pub proof fn lemma_nearest_isect_props(l: &GeometryList, ray: RayModel)
    ensures
        match nearest_isect_spec(l, ray) {
            Some(s) => (exists|i: int|
                0 <= i < l.geometries@.len() && s.surface == (#[trigger] l.geometries@[i]).properties)
                || (exists|i: int|
                0 <= i < l.dfields@.len() && s.surface == (#[trigger] l.dfields@[i]).properties),
            None => true,
        },
{
    let ray_geo = ray_advance_spec(ray, EPS_RAY_GEO as int);
    let ray_df = ray_advance_spec(ray, EPS_RAY_DF as int);
    lemma_nearest_prefix_props(l.geometries@, ray_geo, l.geometries@.len() as int);
    let isect = nearest_prefix(l.geometries@, ray_geo, l.geometries@.len() as int);
    let horizon = match isect {
        Some(s) => s.dist,
        None => 10000 * SCALE as int,
    };
    if l.dfields@.len() > 0 {
        lemma_march_props(l.dfields@, ray_df, horizon, 0, MAX_DFIELD_STEPS as nat);
    }
}


/// Multiplying by one raw unit and dividing by it again is the
/// identity, whichever side of zero the value lies on.
pub proof fn lemma_tdiv_unit(x: int)
    ensures
        tdiv(x * SCALE as int, SCALE as int) == x,
{
    if x >= 0 {
        vstd::arithmetic::div_mod::lemma_div_multiples_vanish(x, SCALE as int);
        assert(x * SCALE as int == SCALE as int * x) by (nonlinear_arith);
    } else {
        vstd::arithmetic::div_mod::lemma_div_multiples_vanish(-x, SCALE as int);
        assert(-(x * SCALE as int) == SCALE as int * (-x)) by (nonlinear_arith);
    }
}

/// The product of a scalar with one raw unit is that scalar.
pub proof fn lemma_mul_unit(x: int)
    requires
        fx_wf(x),
    ensures
        fx_mul_spec(x, SCALE as int) == x,
        fx_mul_spec(SCALE as int, x) == x,
{
    lemma_tdiv_unit(x);
    assert(x * SCALE as int == SCALE as int * x) by (nonlinear_arith);
}

/// The square root of a whole square is exact: a value `k` whole units
/// across, squared and rooted, comes back as `k` whole units.
pub proof fn lemma_sqrt_whole(k: int)
    requires
        0 < k <= 0x8000,
    ensures
        fx_sqrt_spec(fx_mul_spec(k * SCALE as int, k * SCALE as int)) == k * SCALE as int,
{
    let ks = k * SCALE as int;
    assert(ks * ks == (k * k * SCALE as int) * SCALE as int) by (nonlinear_arith)
        requires
            ks == k * (SCALE as int),
    ;
    lemma_tdiv_unit(k * k * SCALE as int);
    assert(k * k * SCALE as int >= 0) by (nonlinear_arith)
        requires
            k > 0,
    ;
    assert(k * k * SCALE as int <= RAW_LIMIT as int) by (nonlinear_arith)
        requires
            0 < k <= 0x8000,
            SCALE == 65536i64,
            RAW_LIMIT == 0x4000_0000_0000i64,
    ;
    let a = fx_mul_spec(ks, ks);
    assert(a == k * k * SCALE as int);
    assert(a > 0) by (nonlinear_arith)
        requires
            a == k * k * (65536int),
            k > 0,
    ;
    assert(a * SCALE as int == ks * ks) by (nonlinear_arith)
        requires
            a == k * k * (65536int),
            ks == k * (65536int),
            SCALE == 65536i64,
    ;
    assert(ks * ks < (ks + 1) * (ks + 1)) by (nonlinear_arith)
        requires
            ks > 0,
    ;
    crate::fixed::lemma_isqrt_unique((a * SCALE as int) as nat, ks as nat);
}


/// A ray fired straight at a sphere's center from outside, along the
/// `z` axis, hits at exactly the distance to the center less the
/// radius, with the normal facing straight back: the head-on law, for
/// whole-unit radii and distances.
pub proof fn lemma_sphere_head_on(c: V3i, r0: int, d0: int)
    requires
        v3_wf(c),
        -0x2000_0000_0000 <= c.x <= 0x2000_0000_0000,
        -0x2000_0000_0000 <= c.y <= 0x2000_0000_0000,
        -0x2000_0000_0000 <= c.z <= 0x2000_0000_0000,
        0 < r0 < d0,
        d0 <= 0x8000,
    ensures
        sphere_isect_spec(
            SphereModel { center: c, radius: r0 * SCALE as int },
            RayModel {
                orig: V3i { x: c.x, y: c.y, z: c.z - d0 * SCALE as int },
                dir: V3i { x: 0, y: 0, z: SCALE as int },
            },
        ) == Some(
            IsectModel {
                normal: V3i { x: 0, y: 0, z: -(SCALE as int) },
                dist: (d0 - r0) * SCALE as int,
            },
        ),
{
    let sc = SCALE as int;
    let s = SphereModel { center: c, radius: r0 * sc };
    let orig = V3i { x: c.x, y: c.y, z: c.z - d0 * sc };
    let dir = V3i { x: 0, y: 0, z: sc };
    let ray = RayModel { orig: orig, dir: dir };

    assert(d0 * sc <= 0x8000_0000) by (nonlinear_arith)
        requires
            0 < d0 <= 0x8000,
            sc == 65536int,
    ;
    assert(r0 * sc < d0 * sc) by (nonlinear_arith)
        requires
            0 < r0 < d0,
            sc == 65536int,
    ;
    assert(r0 * sc >= sc) by (nonlinear_arith)
        requires
            r0 >= 1,
            sc == 65536int,
    ;

    let p = v3_sub(orig, c);
    assert(p == (V3i { x: 0, y: 0, z: -(d0 * sc) }));

    // whole products and quotients are exact
    lemma_mul_unit(-(d0 * sc));
    lemma_mul_unit(0);
    assert(fx_mul_spec(0, 0) == 0) by {
        assert(tdiv(0, sc) == 0);
    }
    let p_d = v3_dot(p, dir);
    assert(p_d == -(d0 * sc));

    // the squared terms
    lemma_tdiv_unit(d0 * d0 * sc);
    assert((-(d0 * sc)) * (-(d0 * sc)) == (d0 * d0 * sc) * sc) by (nonlinear_arith);
    assert(0 <= d0 * d0 * sc <= 0x4000_0000_0000) by (nonlinear_arith)
        requires
            0 < d0 <= 0x8000,
            sc == 65536int,
    ;
    assert(v3_dot(p, p) == d0 * d0 * sc);

    lemma_tdiv_unit(r0 * r0 * sc);
    assert((r0 * sc) * (r0 * sc) == (r0 * r0 * sc) * sc) by (nonlinear_arith);
    assert(0 < r0 * r0 * sc < 0x4000_0000_0000) by (nonlinear_arith)
        requires
            0 < r0 < 0x8000,
            sc == 65536int,
    ;
    let r2 = fx_mul_spec(s.radius, s.radius);
    assert(r2 == r0 * r0 * sc);
    assert(r0 * r0 * sc < d0 * d0 * sc) by (nonlinear_arith)
        requires
            0 < r0 < d0,
            sc == 65536int,
    ;
    assert(!(p_d > 0 || v3_dot(p, p) < r2));

    // the closest approach coincides with the center here
    let a = v3_sub(p, v3_scale(dir, p_d));
    lemma_mul_unit(p_d);
    assert(a == (V3i { x: 0, y: 0, z: 0 }));
    assert(v3_dot(a, a) == 0);

    // the half-chord is the radius itself
    let h = fx_sqrt_spec(sat(r2 - 0));
    lemma_sqrt_whole(r0);
    assert(h == r0 * sc);

    let i = v3_sub(a, v3_scale(dir, h));
    lemma_mul_unit(h);
    assert(i == (V3i { x: 0, y: 0, z: -(r0 * sc) }));

    let point = v3_add(s.center, i);
    assert(point == (V3i { x: c.x, y: c.y, z: c.z - r0 * sc }));

    // the normal: the entry offset, normalized, is the unit -z
    lemma_tdiv_unit(r0 * r0 * sc);
    assert((-(r0 * sc)) * (-(r0 * sc)) == (r0 * r0 * sc) * sc) by (nonlinear_arith);
    assert(v3_sqnorm(i) == r0 * r0 * sc);
    lemma_sqrt_whole(r0);
    assert(fx_mul_spec(r0 * sc, r0 * sc) == r0 * r0 * sc);
    assert(v3_norm(i) == r0 * sc);
    vstd::arithmetic::div_mod::lemma_div_multiples_vanish(sc, r0 * sc);
    assert((r0 * sc) * sc == abs((-(r0 * sc)) * sc) as int) by (nonlinear_arith)
        requires
            r0 * sc > 0,
            sc > 0,
    ;
    assert(fx_div_spec(-(r0 * sc), r0 * sc) == -sc);
    assert(fx_div_spec(0, r0 * sc) == 0) by {
        assert(abs(0 * sc) as int / abs(r0 * sc) as int == 0) by (nonlinear_arith)
            requires
                r0 * sc > 0,
        ;
    }
    assert(v3_normalize(i) == (V3i { x: 0, y: 0, z: -sc }));

    // the hit distance: the gap between entry point and origin
    let gap = v3_sub(point, orig);
    assert(gap == (V3i { x: 0, y: 0, z: (d0 - r0) * sc })) by {
        assert((c.z - r0 * sc) - (c.z - d0 * sc) == (d0 - r0) * sc) by (nonlinear_arith);
    }
    let g = (d0 - r0) * sc;
    lemma_tdiv_unit((d0 - r0) * (d0 - r0) * sc);
    assert(g * g == ((d0 - r0) * (d0 - r0) * sc) * sc) by (nonlinear_arith)
        requires
            g == (d0 - r0) * sc,
    ;
    assert(0 < (d0 - r0) * (d0 - r0) * sc < 0x4000_0000_0000) by (nonlinear_arith)
        requires
            0 < d0 - r0 < 0x8000,
            sc == 65536int,
    ;
    assert(v3_sqnorm(gap) == (d0 - r0) * (d0 - r0) * sc);
    lemma_sqrt_whole(d0 - r0);
    assert(fx_mul_spec(g, g) == (d0 - r0) * (d0 - r0) * sc) by {
        assert(g * g == ((d0 - r0) * (d0 - r0) * sc) * sc) by (nonlinear_arith)
            requires
                g == (d0 - r0) * sc,
        ;
    }
    assert(v3_norm(gap) == g);
}


/// A ray already moving away from a sphere's center, from a point on or
/// outside its surface, reports no hit: the other half of the head-on
/// law, for every sphere and every such ray.
pub proof fn lemma_sphere_ray_away(s: SphereModel, ray: RayModel)
    requires
        v3_dot(v3_sub(ray.orig, s.center), ray.dir) > 0,
    ensures
        sphere_isect_spec(s, ray) is None,
{
}

} // verus!
