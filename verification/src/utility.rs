//! Sampling primitives: pure maps from uniform random values in `[0, 1)`
//! to directions in local shading space (`z` is the pole), with the
//! solid-angle densities that belong to them, and the luminance weights.
//!
//! Angles are measured in turns, so a uniform value is itself an angle;
//! the sine of a half turn follows a rational approximation whose exact
//! fixed-point value is pinned by `sin_half_spec`.

use vstd::prelude::*;

verus! {

use crate::fixed::{Fx, SCALE, fx_mul_spec, fx_div_spec, fx_sqrt_spec, fx_pow_spec, fx_root_spec,
    sat, lemma_isqrt_le};
use crate::math::{Vec3, V3i};

/// `1 / pi`, in raw steps.
pub const FRAC_1_PI_RAW: i64 = 20861;

/// `1 / (2 pi)`, in raw steps.
pub const FRAC_1_2PI_RAW: i64 = 10430;

/// `1 / (4 pi)`, in raw steps.
pub const FRAC_1_4PI_RAW: i64 = 5215;

/// Half a turn.
pub const HALF_RAW: i64 = 32768;

/// A quarter turn.
pub const QUARTER_RAW: i64 = 16384;

/// The sine of `u` half turns for `u` in `[0, 1/2]`:
/// `32 t / (5 - 8 t)` with `t = u (1 - 2 u)`, clamped into `[0, 1]`.
pub open spec fn sin_half_spec(u: int) -> int {
    let t = fx_mul_spec(u, sat(SCALE as int - 2 * u));
    let raw = fx_div_spec(sat(32 * t), sat(5 * SCALE as int - 8 * t));
    if raw > SCALE as int {
        SCALE as int
    } else {
        raw
    }
}

/// The sine of `u` turns for `u` in `[0, 1)`.
pub open spec fn sin_turn_spec(u: int) -> int {
    if u <= HALF_RAW as int {
        sin_half_spec(u)
    } else {
        -sin_half_spec(u - HALF_RAW as int)
    }
}

/// The cosine of `u` turns: the sine a quarter turn later.
pub open spec fn cos_turn_spec(u: int) -> int {
    let w = u + QUARTER_RAW as int;
    if w < SCALE as int {
        sin_turn_spec(w)
    } else {
        sin_turn_spec(w - SCALE as int)
    }
}

/// The sine of `u` half turns, exact against `sin_half_spec`.
pub fn sin_half(u: Fx) -> (r: Fx)
    requires
        0 <= u@ <= HALF_RAW as int,
    ensures
        r@ == sin_half_spec(u@),
        0 <= r@ <= SCALE as int,
        r.wf(),
{
    proof {
        assert(0 <= u@ * sat(SCALE as int - 2 * u@) <= 536870912) by (nonlinear_arith)
            requires
                0 <= u@ <= 32768,
                sat(SCALE as int - 2 * u@) == SCALE as int - 2 * u@,
                SCALE == 65536i64,
        ;
    }
    let t = u.mul(Fx::one().sub(u.scale_int(2)));
    let raw = t.scale_int(32).div(Fx::from_raw(5 * SCALE).sub(t.scale_int(8)));
    if raw.le(Fx::one()) {
        raw
    } else {
        Fx::one()
    }
}

/// The sine of `u` turns.
pub fn sin_turn(u: Fx) -> (r: Fx)
    requires
        0 <= u@ < SCALE as int,
    ensures
        r@ == sin_turn_spec(u@),
        -(SCALE as int) <= r@ <= SCALE as int,
        r.wf(),
{
    let half = Fx::from_raw(HALF_RAW);
    if u.le(half) {
        sin_half(u)
    } else {
        sin_half(u.sub(half)).neg()
    }
}

/// The cosine of `u` turns.
pub fn cos_turn(u: Fx) -> (r: Fx)
    requires
        0 <= u@ < SCALE as int,
    ensures
        r@ == cos_turn_spec(u@),
        -(SCALE as int) <= r@ <= SCALE as int,
        r.wf(),
{
    let w = u.add(Fx::from_raw(QUARTER_RAW));
    if w.lt(Fx::one()) {
        sin_turn(w)
    } else {
        sin_turn(w.sub(Fx::one()))
    }
}

/// The luminance of a colour, with the standard weights for red, green
/// and blue.
pub open spec fn luminance_spec(rgb: V3i) -> int {
    sat(sat(fx_mul_spec(13938, rgb.x) + fx_mul_spec(46876, rgb.y)) + fx_mul_spec(4730, rgb.z))
}

pub fn luminance(a_rgb: &Vec3) -> (r: Fx)
    requires
        a_rgb.wf(),
    ensures
        r@ == luminance_spec(a_rgb@),
        r.wf(),
{
    Fx::from_raw(13938).mul(a_rgb.x).add(Fx::from_raw(46876).mul(a_rgb.y)).add(
        Fx::from_raw(4730).mul(a_rgb.z),
    )
}

/// A square root stays within `[0, 1]` when its argument does.
pub proof fn lemma_sqrt_unit(a: int)
    requires
        a <= SCALE as int,
    ensures
        0 <= fx_sqrt_spec(a) <= SCALE as int,
{
    if a > 0 {
        let n = (a * SCALE as int) as nat;
        assert(n < (SCALE as nat + 1) * (SCALE as nat + 1)) by (nonlinear_arith)
            requires
                n <= (SCALE as int) * (SCALE as int),
                SCALE == 65536i64,
        ;
        lemma_isqrt_le(n, SCALE as nat);
    }
}

/// The cosine-weighted hemisphere direction for a pair of uniforms:
/// azimuth from the first, `z = sqrt(v)` from the second, so the density
/// is the cosine with the pole over pi.
pub open spec fn cos_hemisphere_spec(u: int, v: int) -> V3i {
    let ct = fx_sqrt_spec(v);
    let st = fx_sqrt_spec(sat(SCALE as int - v));
    V3i {
        x: fx_mul_spec(st, cos_turn_spec(u)),
        y: fx_mul_spec(st, sin_turn_spec(u)),
        z: ct,
    }
}

/// Every cosine-weighted hemisphere direction stays on the upper
/// hemisphere: its cosine with the pole lies in `[0, 1]`.
pub proof fn lemma_cos_hemisphere_z_unit(u: int, v: int)
    requires
        0 <= v < SCALE as int,
    ensures
        0 <= cos_hemisphere_spec(u, v).z <= SCALE as int,
{
    lemma_sqrt_unit(v);
}

pub fn cos_hemisphere_sample(rnd: (Fx, Fx)) -> (r: Vec3)
    requires
        0 <= rnd.0@ < SCALE as int,
        0 <= rnd.1@ < SCALE as int,
    ensures
        r@ == cos_hemisphere_spec(rnd.0@, rnd.1@),
        0 <= r@.z <= SCALE as int,
        r.wf(),
{
    let cos_theta = rnd.1.sqrt();
    let sin_theta = Fx::one().sub(rnd.1).sqrt();
    proof {
        lemma_sqrt_unit(rnd.1@);
        lemma_sqrt_unit(sat(SCALE as int - rnd.1@));
    }
    Vec3 {
        x: sin_theta.mul(cos_turn(rnd.0)),
        y: sin_theta.mul(sin_turn(rnd.0)),
        z: cos_theta,
    }
}

/// The cosine-weighted hemisphere density for a direction with cosine
/// `cos_theta` to the pole: `cos_theta / pi`, and zero below the horizon.
pub open spec fn cos_hemisphere_pdf_spec(cos_theta: int) -> int {
    let c = if cos_theta >= 0 {
        cos_theta
    } else {
        0
    };
    fx_mul_spec(c, FRAC_1_PI_RAW as int)
}

pub fn cos_hemisphere_pdf_w(cos_theta: Fx) -> (r: Fx)
    requires
        cos_theta.wf(),
    ensures
        r@ == cos_hemisphere_pdf_spec(cos_theta@),
        r.wf(),
{
    cos_theta.max(Fx::zero()).mul(Fx::from_raw(FRAC_1_PI_RAW))
}

/// The uniform hemisphere direction: `z` is the second uniform itself.
pub open spec fn uniform_hemisphere_spec(u: int, v: int) -> V3i {
    let st = fx_sqrt_spec(sat(SCALE as int - fx_mul_spec(v, v)));
    V3i {
        x: fx_mul_spec(st, cos_turn_spec(u)),
        y: fx_mul_spec(st, sin_turn_spec(u)),
        z: v,
    }
}

pub fn uniform_hemisphere_sample(rnd: (Fx, Fx)) -> (r: Vec3)
    requires
        0 <= rnd.0@ < SCALE as int,
        0 <= rnd.1@ < SCALE as int,
    ensures
        r@ == uniform_hemisphere_spec(rnd.0@, rnd.1@),
        0 <= r@.z <= SCALE as int,
        r.wf(),
{
    let sin_theta = Fx::one().sub(rnd.1.mul(rnd.1)).sqrt();
    proof {
        lemma_sqrt_unit(sat(SCALE as int - fx_mul_spec(rnd.1@, rnd.1@)));
    }
    Vec3 {
        x: sin_theta.mul(cos_turn(rnd.0)),
        y: sin_theta.mul(sin_turn(rnd.0)),
        z: rnd.1,
    }
}

/// Density of the uniform hemisphere: `1 / (2 pi)` everywhere on it.
pub fn uniform_hemisphere_pdf_w() -> (r: Fx)
    ensures
        r@ == FRAC_1_2PI_RAW as int,
        r.wf(),
{
    Fx::from_raw(FRAC_1_2PI_RAW)
}

/// The uniform sphere direction: `z = 1 - 2 v` spans both hemispheres.
pub open spec fn uniform_sphere_spec(u: int, v: int) -> V3i {
    let z = sat(SCALE as int - 2 * v);
    let st = fx_sqrt_spec(sat(SCALE as int - fx_mul_spec(z, z)));
    V3i {
        x: fx_mul_spec(st, cos_turn_spec(u)),
        y: fx_mul_spec(st, sin_turn_spec(u)),
        z: z,
    }
}

pub fn uniform_sphere_sample(rnd: (Fx, Fx)) -> (r: Vec3)
    requires
        0 <= rnd.0@ < SCALE as int,
        0 <= rnd.1@ < SCALE as int,
    ensures
        r@ == uniform_sphere_spec(rnd.0@, rnd.1@),
        r.wf(),
{
    let z = Fx::one().sub(rnd.1.scale_int(2));
    let sin_theta = Fx::one().sub(z.mul(z)).sqrt();
    proof {
        crate::fixed::lemma_square_nonneg(z@);
        lemma_sqrt_unit(sat(SCALE as int - fx_mul_spec(z@, z@)));
    }
    Vec3 { x: sin_theta.mul(cos_turn(rnd.0)), y: sin_theta.mul(sin_turn(rnd.0)), z }
}

/// Density of the uniform sphere: `1 / (4 pi)` everywhere.
pub fn uniform_sphere_pdf_w() -> (r: Fx)
    ensures
        r@ == FRAC_1_4PI_RAW as int,
        r.wf(),
{
    Fx::from_raw(FRAC_1_4PI_RAW)
}

/// The uniform direction in a cone about the pole with
/// `cos(theta) >= cos_theta_max`: the cosine interpolates linearly.
pub open spec fn uniform_cone_spec(cos_theta_max: int, u: int, v: int) -> V3i {
    let ct = sat(SCALE as int - fx_mul_spec(u, sat(SCALE as int - cos_theta_max)));
    let st = fx_sqrt_spec(sat(SCALE as int - fx_mul_spec(ct, ct)));
    V3i {
        x: fx_mul_spec(st, cos_turn_spec(v)),
        y: fx_mul_spec(st, sin_turn_spec(v)),
        z: ct,
    }
}

pub fn uniform_cone_sample(cos_theta_max: Fx, rnd: (Fx, Fx)) -> (r: Vec3)
    requires
        cos_theta_max.wf(),
        0 <= rnd.0@ < SCALE as int,
        0 <= rnd.1@ < SCALE as int,
    ensures
        r@ == uniform_cone_spec(cos_theta_max@, rnd.0@, rnd.1@),
        r.wf(),
{
    let cos_theta = Fx::one().sub(rnd.0.mul(Fx::one().sub(cos_theta_max)));
    let sin_theta = Fx::one().sub(cos_theta.mul(cos_theta)).sqrt();
    proof {
        crate::fixed::lemma_square_nonneg(cos_theta@);
        lemma_sqrt_unit(sat(SCALE as int - fx_mul_spec(cos_theta@, cos_theta@)));
    }
    Vec3 {
        x: sin_theta.mul(cos_turn(rnd.1)),
        y: sin_theta.mul(sin_turn(rnd.1)),
        z: cos_theta,
    }
}

/// Density of the uniform cone: `1 / (2 pi (1 - cos_theta_max))`,
/// the reciprocal of the solid angle it subtends.
pub open spec fn uniform_cone_pdf_spec(cos_theta_max: int) -> int {
    fx_div_spec(FRAC_1_2PI_RAW as int, sat(SCALE as int - cos_theta_max))
}

pub fn uniform_cone_pdf_w(cos_theta_max: Fx) -> (r: Fx)
    requires
        cos_theta_max.wf(),
    ensures
        r@ == uniform_cone_pdf_spec(cos_theta_max@),
        r.wf(),
{
    Fx::from_raw(FRAC_1_2PI_RAW).div(Fx::one().sub(cos_theta_max))
}

/// The power-cosine (Phong lobe) direction: the cosine is the
/// `(n + 1)`-th root of the second uniform.
pub open spec fn pow_cos_hemisphere_spec(n: nat, u: int, v: int) -> V3i {
    let ct = fx_root_spec(v, n + 1) as int;
    let st = fx_sqrt_spec(sat(SCALE as int - fx_mul_spec(ct, ct)));
    V3i {
        x: fx_mul_spec(st, cos_turn_spec(u)),
        y: fx_mul_spec(st, sin_turn_spec(u)),
        z: ct,
    }
}

pub fn pow_cos_hemisphere_sample(n: u32, rnd: (Fx, Fx)) -> (r: Vec3)
    requires
        n < 0xffff_ffff,
        0 <= rnd.0@ < SCALE as int,
        0 <= rnd.1@ < SCALE as int,
    ensures
        r@ == pow_cos_hemisphere_spec(n as nat, rnd.0@, rnd.1@),
        0 <= r@.z <= SCALE as int,
        r.wf(),
{
    let cos_theta = rnd.1.rooti(n + 1);
    let sin_theta = Fx::one().sub(cos_theta.mul(cos_theta)).sqrt();
    proof {
        lemma_sqrt_unit(sat(SCALE as int - fx_mul_spec(cos_theta@, cos_theta@)));
    }
    Vec3 {
        x: sin_theta.mul(cos_turn(rnd.0)),
        y: sin_theta.mul(sin_turn(rnd.0)),
        z: cos_theta,
    }
}

/// The power-cosine density at cosine `cos_theta`:
/// `cos_theta^n (n + 1) / (2 pi)`, and zero below the horizon.
pub open spec fn pow_cos_hemisphere_pdf_spec(n: nat, cos_theta: int) -> int {
    let c = if cos_theta >= 0 {
        cos_theta
    } else {
        0
    };
    fx_mul_spec(fx_pow_spec(c, n), sat((n + 1) * FRAC_1_2PI_RAW as int))
}

pub fn pow_cos_hemisphere_pdf_w(n: u32, cos_theta: Fx) -> (r: Fx)
    requires
        n <= 0xffff,
        cos_theta.wf(),
    ensures
        r@ == pow_cos_hemisphere_pdf_spec(n as nat, cos_theta@),
        r.wf(),
{
    let c = cos_theta.max(Fx::zero());
    c.powi(n).mul(Fx::from_raw(FRAC_1_2PI_RAW).scale_int(n as i64 + 1))
}


/// An area density expressed as a solid-angle density, as seen from a
/// receiver `dist` away under the surface cosine `cos_theta`:
/// `pdf_a * dist^2 / |cos_theta|`.
pub open spec fn pdf_area_to_solid_angle_spec(pdf_a: int, dist: int, cos_theta: int) -> int {
    fx_div_spec(
        fx_mul_spec(pdf_a, fx_mul_spec(dist, dist)),
        vstd::math::abs(cos_theta) as int,
    )
}

pub fn pdf_area_to_solid_angle(pdf_a: Fx, dist: Fx, cos_theta: Fx) -> (r: Fx)
    requires
        pdf_a.wf(),
        dist.wf(),
        cos_theta.wf(),
    ensures
        r@ == pdf_area_to_solid_angle_spec(pdf_a@, dist@, cos_theta@),
        r.wf(),
{
    pdf_a.mul(dist.mul(dist)).div(cos_theta.abs())
}

/// The inverse conversion: a solid-angle density expressed per unit
/// area, `pdf_w * |cos_theta| / dist^2`.
pub open spec fn pdf_solid_angle_to_area_spec(pdf_w: int, dist: int, cos_theta: int) -> int {
    fx_div_spec(
        fx_mul_spec(pdf_w, vstd::math::abs(cos_theta) as int),
        fx_mul_spec(dist, dist),
    )
}

pub fn pdf_solid_angle_to_area(pdf_w: Fx, dist: Fx, cos_theta: Fx) -> (r: Fx)
    requires
        pdf_w.wf(),
        dist.wf(),
        cos_theta.wf(),
    ensures
        r@ == pdf_solid_angle_to_area_spec(pdf_w@, dist@, cos_theta@),
        r.wf(),
{
    pdf_w.mul(cos_theta.abs()).div(dist.mul(dist))
}

/// The uniform barycentric pair over a triangle: the two coordinates
/// sum to at most one, so they name a point inside it.
pub open spec fn uniform_triangle_spec(u: int, v: int) -> (int, int) {
    let su = fx_sqrt_spec(u);
    (sat(SCALE as int - su), fx_mul_spec(v, su))
}

pub fn uniform_triangle_sample(rnd: (Fx, Fx)) -> (r: (Fx, Fx))
    requires
        0 <= rnd.0@ < SCALE as int,
        0 <= rnd.1@ < SCALE as int,
    ensures
        (r.0@, r.1@) == uniform_triangle_spec(rnd.0@, rnd.1@),
        0 <= r.0@ <= SCALE as int,
        r.0.wf(),
        r.1.wf(),
{
    let su = rnd.0.sqrt();
    proof {
        lemma_sqrt_unit(rnd.0@);
    }
    (Fx::one().sub(su), rnd.1.mul(su))
}

} // verus!
