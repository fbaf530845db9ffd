//! Three-component vectors over fixed-point scalars, and the scalar
//! helpers (`mix`, `clamp`, smooth minimum) the distance fields use.
//!
//! Every executable operation has an exact contract over the ghost
//! model `V3i`, a triple of raw integer values.

use vstd::prelude::*;

verus! {

use crate::fixed::{Fx, fx_wf, fx_mul_spec, fx_div_spec, fx_sqrt_spec, sat};
use vstd::math::abs;

/// The ghost model of a vector: its three raw scalar values.
pub ghost struct V3i {
    pub x: int,
    pub y: int,
    pub z: int,
}

/// Saturating raw sum, the model of `Fx::add`.
pub open spec fn sadd(a: int, b: int) -> int {
    sat(a + b)
}

pub open spec fn v3_wf(v: V3i) -> bool {
    fx_wf(v.x) && fx_wf(v.y) && fx_wf(v.z)
}

pub open spec fn v3_add(a: V3i, b: V3i) -> V3i {
    V3i { x: sadd(a.x, b.x), y: sadd(a.y, b.y), z: sadd(a.z, b.z) }
}

pub open spec fn v3_sub(a: V3i, b: V3i) -> V3i {
    V3i { x: sat(a.x - b.x), y: sat(a.y - b.y), z: sat(a.z - b.z) }
}

pub open spec fn v3_neg(a: V3i) -> V3i {
    V3i { x: -a.x, y: -a.y, z: -a.z }
}

/// Component-wise product, used for colour filtering.
pub open spec fn v3_mul(a: V3i, b: V3i) -> V3i {
    V3i {
        x: fx_mul_spec(a.x, b.x),
        y: fx_mul_spec(a.y, b.y),
        z: fx_mul_spec(a.z, b.z),
    }
}

/// Product with a scalar.
pub open spec fn v3_scale(a: V3i, k: int) -> V3i {
    V3i { x: fx_mul_spec(a.x, k), y: fx_mul_spec(a.y, k), z: fx_mul_spec(a.z, k) }
}

/// Quotient by a scalar; division by zero is guarded and yields zero.
pub open spec fn v3_div(a: V3i, k: int) -> V3i {
    V3i { x: fx_div_spec(a.x, k), y: fx_div_spec(a.y, k), z: fx_div_spec(a.z, k) }
}

/// Inner product: the saturated sum of the three component products.
pub open spec fn v3_dot(a: V3i, b: V3i) -> int {
    sadd(sadd(fx_mul_spec(a.x, b.x), fx_mul_spec(a.y, b.y)), fx_mul_spec(a.z, b.z))
}

pub open spec fn v3_cross(a: V3i, b: V3i) -> V3i {
    V3i {
        x: sat(fx_mul_spec(a.y, b.z) - fx_mul_spec(a.z, b.y)),
        y: sat(fx_mul_spec(a.z, b.x) - fx_mul_spec(a.x, b.z)),
        z: sat(fx_mul_spec(a.x, b.y) - fx_mul_spec(a.y, b.x)),
    }
}

pub open spec fn v3_sqnorm(a: V3i) -> int {
    v3_dot(a, a)
}

pub open spec fn v3_norm(a: V3i) -> int {
    fx_sqrt_spec(v3_sqnorm(a))
}

/// The unit vector along `a`: each component divided by the norm;
/// a zero (or degenerate) norm leaves the zero vector.
pub open spec fn v3_normalize(a: V3i) -> V3i {
    v3_div(a, v3_norm(a))
}

/// A vector of fixed-point scalars.
#[derive(Clone, Copy, Debug, PartialEq, Eq, Structural)]
pub struct Vec3 {
    pub x: Fx,
    pub y: Fx,
    pub z: Fx,
}

impl View for Vec3 {
    type V = V3i;

    open spec fn view(&self) -> V3i {
        V3i { x: self.x@, y: self.y@, z: self.z@ }
    }
}

/// Extra vector operations the shading code relies on: mirroring a local
/// direction across the surface plane, and mirroring a world direction
/// about a normal.
pub trait VectorExtra: Sized {
    spec fn ve_wf(self) -> bool;

    spec fn reflect_local_spec(self) -> Self;

    spec fn reflect_global_spec(self, normal: Self) -> Self;

    /// Mirror across the plane `z = 0` of the local shading frame.
    fn reflect_local(self) -> (r: Self)
        requires
            self.ve_wf(),
        ensures
            r == self.reflect_local_spec(),
            r.ve_wf(),
    ;

    /// Mirror about `normal` and renormalize.
    fn reflect_global(self, normal: Self) -> (r: Self)
        requires
            self.ve_wf(),
            normal.ve_wf(),
        ensures
            r == self.reflect_global_spec(normal),
            r.ve_wf(),
    ;
}

pub open spec fn reflect_global_model(v: V3i, n: V3i) -> V3i {
    let scale = fx_mul_spec(2 * crate::fixed::SCALE, abs(v3_dot(v, n)) as int);
    v3_normalize(v3_add(v, v3_scale(n, scale)))
}

impl VectorExtra for Vec3 {
    open spec fn ve_wf(self) -> bool {
        self.wf()
    }

    open spec fn reflect_local_spec(self) -> Vec3 {
        Vec3::from_model(V3i { x: -self.x@, y: -self.y@, z: self.z@ })
    }

    open spec fn reflect_global_spec(self, normal: Vec3) -> Vec3 {
        Vec3::from_model(reflect_global_model(self@, normal@))
    }

    fn reflect_local(self) -> (r: Vec3) {
        Vec3 { x: self.x.neg(), y: self.y.neg(), z: self.z }
    }

    fn reflect_global(self, normal: Vec3) -> (r: Vec3) {
        let two = Fx::from_raw(2 * crate::fixed::SCALE);
        let scale = two.mul(self.dot(normal).abs());
        self.add(normal.scale(scale)).normalize()
    }
}

impl Vec3 {
    pub open spec fn wf(self) -> bool {
        v3_wf(self@)
    }

    /// Recover the unique well-formed vector with a given model.
    pub open spec fn from_model(m: V3i) -> Vec3
        recommends
            v3_wf(m),
    {
        Vec3 { x: Fx { raw: m.x as i64 }, y: Fx { raw: m.y as i64 }, z: Fx { raw: m.z as i64 } }
    }

    pub fn new(x: Fx, y: Fx, z: Fx) -> (r: Vec3)
        ensures
            r@ == (V3i { x: x@, y: y@, z: z@ }),
    {
        Vec3 { x, y, z }
    }

    pub fn zero() -> (r: Vec3)
        ensures
            r@ == (V3i { x: 0, y: 0, z: 0 }),
            r.wf(),
    {
        Vec3 { x: Fx::zero(), y: Fx::zero(), z: Fx::zero() }
    }

    pub fn one() -> (r: Vec3)
        ensures
            r@ == (V3i {
                x: crate::fixed::SCALE as int,
                y: crate::fixed::SCALE as int,
                z: crate::fixed::SCALE as int,
            }),
            r.wf(),
    {
        Vec3 { x: Fx::one(), y: Fx::one(), z: Fx::one() }
    }

    pub fn add(self, o: Vec3) -> (r: Vec3)
        requires
            self.wf(),
            o.wf(),
        ensures
            r@ == v3_add(self@, o@),
            r.wf(),
    {
        Vec3 { x: self.x.add(o.x), y: self.y.add(o.y), z: self.z.add(o.z) }
    }

    pub fn sub(self, o: Vec3) -> (r: Vec3)
        requires
            self.wf(),
            o.wf(),
        ensures
            r@ == v3_sub(self@, o@),
            r.wf(),
    {
        Vec3 { x: self.x.sub(o.x), y: self.y.sub(o.y), z: self.z.sub(o.z) }
    }

    pub fn neg(self) -> (r: Vec3)
        requires
            self.wf(),
        ensures
            r@ == v3_neg(self@),
            r.wf(),
    {
        Vec3 { x: self.x.neg(), y: self.y.neg(), z: self.z.neg() }
    }

    pub fn mul(self, o: Vec3) -> (r: Vec3)
        requires
            self.wf(),
            o.wf(),
        ensures
            r@ == v3_mul(self@, o@),
            r.wf(),
    {
        Vec3 { x: self.x.mul(o.x), y: self.y.mul(o.y), z: self.z.mul(o.z) }
    }

    pub fn scale(self, k: Fx) -> (r: Vec3)
        requires
            self.wf(),
            k.wf(),
        ensures
            r@ == v3_scale(self@, k@),
            r.wf(),
    {
        Vec3 { x: self.x.mul(k), y: self.y.mul(k), z: self.z.mul(k) }
    }

    pub fn div(self, k: Fx) -> (r: Vec3)
        requires
            self.wf(),
            k.wf(),
        ensures
            r@ == v3_div(self@, k@),
            r.wf(),
    {
        Vec3 { x: self.x.div(k), y: self.y.div(k), z: self.z.div(k) }
    }

    pub fn dot(self, o: Vec3) -> (r: Fx)
        requires
            self.wf(),
            o.wf(),
        ensures
            r@ == v3_dot(self@, o@),
            r.wf(),
    {
        self.x.mul(o.x).add(self.y.mul(o.y)).add(self.z.mul(o.z))
    }

    pub fn cross(self, o: Vec3) -> (r: Vec3)
        requires
            self.wf(),
            o.wf(),
        ensures
            r@ == v3_cross(self@, o@),
            r.wf(),
    {
        Vec3 {
            x: self.y.mul(o.z).sub(self.z.mul(o.y)),
            y: self.z.mul(o.x).sub(self.x.mul(o.z)),
            z: self.x.mul(o.y).sub(self.y.mul(o.x)),
        }
    }

    pub fn sqnorm(self) -> (r: Fx)
        requires
            self.wf(),
        ensures
            r@ == v3_sqnorm(self@),
            r.wf(),
    {
        self.dot(self)
    }

    pub fn norm(self) -> (r: Fx)
        requires
            self.wf(),
        ensures
            r@ == v3_norm(self@),
            r.wf(),
    {
        self.sqnorm().sqrt()
    }

    pub fn normalize(self) -> (r: Vec3)
        requires
            self.wf(),
        ensures
            r@ == v3_normalize(self@),
            r.wf(),
    {
        let n = self.norm();
        self.div(n)
    }
}

/// Linear interpolation from `a` (at `m == 0`) to `b` (at `m == 1`).
pub open spec fn mix_spec(a: int, b: int, m: int) -> int {
    sadd(fx_mul_spec(b, m), fx_mul_spec(a, sat(crate::fixed::SCALE as int - m)))
}

pub fn mix(a: Fx, b: Fx, m: Fx) -> (r: Fx)
    requires
        a.wf(),
        b.wf(),
        m.wf(),
    ensures
        r@ == mix_spec(a@, b@, m@),
        r.wf(),
{
    b.mul(m).add(a.mul(Fx::one().sub(m)))
}

pub open spec fn clamp_spec(x: int, min: int, max: int) -> int {
    let lo = if x >= min { x } else { min };
    if lo <= max {
        lo
    } else {
        max
    }
}

pub fn clamp(x: Fx, min: Fx, max: Fx) -> (r: Fx)
    ensures
        r@ == clamp_spec(x@, min@, max@),
{
    x.max(min).min(max)
}

/// Polynomial smooth minimum with softness `k`, used to blend distance
/// fields; with `k == 0` the interpolation weight settles at one half.
pub open spec fn smin_poly_spec(a: int, b: int, k: int) -> int {
    let half = crate::fixed::SCALE as int / 2;
    let h = clamp_spec(
        sadd(half, fx_mul_spec(half, fx_div_spec(sat(b - a), k))),
        0,
        crate::fixed::SCALE as int,
    );
    sat(mix_spec(b, a, h) - fx_mul_spec(k, fx_mul_spec(h, sat(crate::fixed::SCALE as int - h))))
}

pub fn smin_poly(a: Fx, b: Fx, k: Fx) -> (r: Fx)
    requires
        a.wf(),
        b.wf(),
        k.wf(),
    ensures
        r@ == smin_poly_spec(a@, b@, k@),
        r.wf(),
{
    let half = Fx::from_raw(crate::fixed::SCALE / 2);
    let h = clamp(half.add(half.mul(b.sub(a).div(k))), Fx::zero(), Fx::one());
    mix(b, a, h).sub(k.mul(h.mul(Fx::one().sub(h))))
}

/// A deterministic vector orthogonal to `v`, picking the larger of the
/// `x`/`z` magnitudes to stay away from degeneracy.
pub open spec fn ortho_spec(v: V3i) -> V3i {
    if abs(v.x) > abs(v.z) {
        V3i { x: -v.y, y: v.x, z: 0 }
    } else {
        V3i { x: 0, y: -v.z, z: v.y }
    }
}

pub fn ortho(v: &Vec3) -> (r: Vec3)
    requires
        v.wf(),
    ensures
        r@ == ortho_spec(v@),
        r.wf(),
{
    if v.x.abs().lt(v.z.abs()) || v.x.abs() == v.z.abs() {
        Vec3 { x: Fx::zero(), y: v.z.neg(), z: v.y }
    } else {
        Vec3 { x: v.y.neg(), y: v.x, z: Fx::zero() }
    }
}


/// The deterministic orthogonal pick is exactly orthogonal: the inner
/// product of a vector with `ortho` of it is zero, with no rounding
/// residue, because the two cross terms are negatives of each other
/// and the third term vanishes.
pub proof fn lemma_ortho_orthogonal(v: V3i)
    ensures
        v3_dot(v, ortho_spec(v)) == 0,
{
    let o = ortho_spec(v);
    if abs(v.x) > abs(v.z) {
        assert(v.x * -v.y == -(v.y * v.x)) by (nonlinear_arith);
        lemma_tdiv_neg(v.y * v.x, crate::fixed::SCALE as int);
        assert(fx_mul_spec(v.x, o.x) == -fx_mul_spec(v.y, o.y));
        assert(fx_mul_spec(v.z, 0) == 0) by {
            assert(v.z * 0 == 0) by (nonlinear_arith);
        }
    } else {
        assert(v.y * -v.z == -(v.z * v.y)) by (nonlinear_arith);
        lemma_tdiv_neg(v.z * v.y, crate::fixed::SCALE as int);
        assert(fx_mul_spec(v.y, o.y) == -fx_mul_spec(v.z, o.z));
        assert(fx_mul_spec(v.x, 0) == 0) by {
            assert(v.x * 0 == 0) by (nonlinear_arith);
        }
    }
}

/// Truncated division carries a negated numerator out as a negated
/// quotient.
pub proof fn lemma_tdiv_neg(n: int, d: int)
    requires
        d > 0,
    ensures
        crate::fixed::tdiv(-n, d) == -crate::fixed::tdiv(n, d),
{
    if n == 0 {
        vstd::arithmetic::div_mod::lemma_div_of0(d);
    }
}

} // verus!
