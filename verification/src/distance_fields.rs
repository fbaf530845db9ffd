//! Signed distance fields: primitive shapes and their compositions.
//! A union takes the minimum of its children's distances, a subtraction
//! the maximum against the negated cut, and a blend the polynomial
//! smooth minimum; the laws stating this exactly are proved below.

use vstd::prelude::*;

verus! {

use crate::fixed::{Fx, fx_mul_spec, fx_sqrt_spec, sat};
use crate::math::{Vec3, V3i, v3_add, v3_sub, v3_div, v3_norm, smin_poly, smin_poly_spec, sadd};
use crate::geometry::{Sphere, Torus, RoundBox};
use crate::scene::SurfaceProperties;

/// Two fields carved into one by keeping `a` outside `b`.
pub struct DFieldsSubstr {
    pub a: Box<DField>,
    pub b: Box<DField>,
    pub pos: Vec3,
}

/// Two fields joined into one.
pub struct DFieldsUnion {
    pub a: Box<DField>,
    pub b: Box<DField>,
    pub pos: Vec3,
}

/// Two fields joined smoothly, with softness `k`.
pub struct DFieldsBlend {
    pub a: Box<DField>,
    pub b: Box<DField>,
    pub k: Fx,
    pub pos: Vec3,
}

/// A signed distance field: a primitive shape, or a composition.
pub enum DField {
    Sphere(Sphere),
    Torus(Torus),
    RoundBox(RoundBox),
    Union(DFieldsUnion),
    Substr(DFieldsSubstr),
    Blend(DFieldsBlend),
}

/// A distance field together with what its surface is made of.
pub struct DFieldIsosurface {
    pub dfield: DField,
    pub properties: SurfaceProperties,
}

/// The norm of a two-component vector.
pub open spec fn norm2_spec(x: int, y: int) -> int {
    fx_sqrt_spec(sadd(fx_mul_spec(x, x), fx_mul_spec(y, y)))
}

/// Distance from `p` to the surface of a sphere.
pub open spec fn sphere_dist_spec(s: crate::geometry::SphereModel, p: V3i) -> int {
    sat(v3_norm(v3_sub(p, s.center)) - s.radius)
}

/// Distance from `p` to the surface of a torus around the `z` axis.
pub open spec fn torus_dist_spec(t: crate::geometry::TorusModel, p: V3i) -> int {
    let q = v3_sub(p, t.center);
    sat(norm2_spec(sat(norm2_spec(q.x, q.y) - t.radius), q.z) - t.thickness)
}

/// Distance from `p` to a box with rounded edges.
pub open spec fn round_box_dist_spec(b: crate::geometry::RoundBoxModel, p: V3i) -> int {
    let q = v3_sub(p, b.pos);
    let dx = if abs_sub(q.x, b.dim.x) >= 0 { abs_sub(q.x, b.dim.x) } else { 0 };
    let dy = if abs_sub(q.y, b.dim.y) >= 0 { abs_sub(q.y, b.dim.y) } else { 0 };
    let dz = if abs_sub(q.z, b.dim.z) >= 0 { abs_sub(q.z, b.dim.z) } else { 0 };
    sat(v3_norm(V3i { x: dx, y: dy, z: dz }) - b.r)
}

/// The magnitude of a component less the box half-extent.
pub open spec fn abs_sub(x: int, d: int) -> int {
    sat((vstd::math::abs(x) as int) - d)
}

/// The signed distance of a field at a point.
pub open spec fn df_dist_spec(d: DField, p: V3i) -> int
    decreases d,
{
    match d {
        DField::Sphere(s) => sphere_dist_spec(s@, p),
        DField::Torus(t) => torus_dist_spec(t@, p),
        DField::RoundBox(b) => round_box_dist_spec(b@, p),
        DField::Union(u) => {
            let q = v3_sub(p, u.pos@);
            min_spec(df_dist_spec(*u.a, q), df_dist_spec(*u.b, q))
        },
        DField::Substr(s) => {
            let q = v3_sub(p, s.pos@);
            max_spec(df_dist_spec(*s.a, q), -df_dist_spec(*s.b, q))
        },
        DField::Blend(b) => {
            let q = v3_sub(p, b.pos@);
            smin_poly_spec(df_dist_spec(*b.a, q), df_dist_spec(*b.b, q), b.k@)
        },
    }
}

pub open spec fn min_spec(a: int, b: int) -> int {
    if a <= b {
        a
    } else {
        b
    }
}

pub open spec fn max_spec(a: int, b: int) -> int {
    if a >= b {
        a
    } else {
        b
    }
}

/// Every scalar inside a field stays in the representable range.
pub open spec fn df_wf(d: DField) -> bool
    decreases d,
{
    match d {
        DField::Sphere(s) => s.wf(),
        DField::Torus(t) => t.wf(),
        DField::RoundBox(b) => b.wf(),
        DField::Union(u) => u.pos.wf() && df_wf(*u.a) && df_wf(*u.b),
        DField::Substr(s) => s.pos.wf() && df_wf(*s.a) && df_wf(*s.b),
        DField::Blend(b) => b.pos.wf() && b.k.wf() && df_wf(*b.a) && df_wf(*b.b),
    }
}

/// Joining two fields takes the pointwise minimum of their distances,
/// at the point shifted by the composite's own position.
pub proof fn lemma_union_dist(u: DFieldsUnion, p: V3i)
    ensures
        df_dist_spec(DField::Union(u), p) == min_spec(
            df_dist_spec(*u.a, v3_sub(p, u.pos@)),
            df_dist_spec(*u.b, v3_sub(p, u.pos@)),
        ),
{
}

/// Carving one field out of another takes the pointwise maximum of the
/// first distance against the negated second.
pub proof fn lemma_substr_dist(s: DFieldsSubstr, p: V3i)
    ensures
        df_dist_spec(DField::Substr(s), p) == max_spec(
            df_dist_spec(*s.a, v3_sub(p, s.pos@)),
            -df_dist_spec(*s.b, v3_sub(p, s.pos@)),
        ),
{
}

/// Blending two fields takes the polynomial smooth minimum of their
/// distances, with the blend's own softness.
pub proof fn lemma_blend_dist(b: DFieldsBlend, p: V3i)
    ensures
        df_dist_spec(DField::Blend(b), p) == smin_poly_spec(
            df_dist_spec(*b.a, v3_sub(p, b.pos@)),
            df_dist_spec(*b.b, v3_sub(p, b.pos@)),
            b.k@,
        ),
{
}

impl DField {
    /// The signed distance from `point` to this field's surface.
    pub fn dist(&self, point: &Vec3) -> (r: Fx)
        requires
            df_wf(*self),
            point.wf(),
        ensures
            r@ == df_dist_spec(*self, point@),
            r.wf(),
        decreases *self,
    {
        match self {
            DField::Sphere(s) => point.sub(s.center).norm().sub(s.radius),
            DField::Torus(t) => {
                let q = point.sub(t.center);
                let ring = norm2(q.x, q.y).sub(t.radius);
                norm2(ring, q.z).sub(t.thickness)
            },
            DField::RoundBox(b) => {
                let q = point.sub(b.pos);
                let zero = Fx::zero();
                let v = Vec3 {
                    x: q.x.abs().sub(b.dim.x).max(zero),
                    y: q.y.abs().sub(b.dim.y).max(zero),
                    z: q.z.abs().sub(b.dim.z).max(zero),
                };
                v.norm().sub(b.r)
            },
            DField::Union(u) => {
                let q = point.sub(u.pos);
                u.a.dist(&q).min(u.b.dist(&q))
            },
            DField::Substr(s) => {
                let q = point.sub(s.pos);
                s.a.dist(&q).max(s.b.dist(&q).neg())
            },
            DField::Blend(b) => {
                let q = point.sub(b.pos);
                smin_poly(b.a.dist(&q), b.b.dist(&q), b.k)
            },
        }
    }

    /// The gradient by central finite differences with step `delta`.
    pub fn grad(&self, p: &Vec3, delta: Fx) -> (r: Vec3)
        requires
            df_wf(*self),
            p.wf(),
            delta.wf(),
        ensures
            r@ == df_grad_spec(*self, p@, delta@),
            r.wf(),
    {
        let zero = Fx::zero();
        let dx = Vec3 { x: delta, y: zero, z: zero };
        let dy = Vec3 { x: zero, y: delta, z: zero };
        let dz = Vec3 { x: zero, y: zero, z: delta };
        let dfdx = self.dist(&p.add(dx)).sub(self.dist(&p.sub(dx)));
        let dfdy = self.dist(&p.add(dy)).sub(self.dist(&p.sub(dy)));
        let dfdz = self.dist(&p.add(dz)).sub(self.dist(&p.sub(dz)));
        Vec3 { x: dfdx, y: dfdy, z: dfdz }.div(delta.scale_int(2))
    }
}

/// The central-difference gradient of a field.
pub open spec fn df_grad_spec(d: DField, p: V3i, delta: int) -> V3i {
    let dx = V3i { x: delta, y: 0, z: 0 };
    let dy = V3i { x: 0, y: delta, z: 0 };
    let dz = V3i { x: 0, y: 0, z: delta };
    let g = V3i {
        x: sat(df_dist_spec(d, v3_add(p, dx)) - df_dist_spec(d, v3_sub(p, dx))),
        y: sat(df_dist_spec(d, v3_add(p, dy)) - df_dist_spec(d, v3_sub(p, dy))),
        z: sat(df_dist_spec(d, v3_add(p, dz)) - df_dist_spec(d, v3_sub(p, dz))),
    };
    v3_div(g, sat(2 * delta))
}

/// The norm of the two-component vector `(x, y)`.
fn norm2(x: Fx, y: Fx) -> (r: Fx)
    requires
        x.wf(),
        y.wf(),
    ensures
        r@ == norm2_spec(x@, y@),
        r.wf(),
{
    x.mul(x).add(y.mul(y)).sqrt()
}

} // verus!
