//! Light sources: the background, point lights, and luminous objects.
//! Each answers `illuminate` (sample a direction toward the light, for
//! next-event estimation) and `radiate` (the radiance and density when a
//! path ray reaches the light), with matching density conventions.

use vstd::prelude::*;

verus! {

use crate::fixed::{Fx, SCALE, RAW_LIMIT, fx_mul_spec, fx_div_spec, fx_sqrt_spec, sat};
use crate::math::{Vec3, V3i, v3_sub, v3_scale, v3_dot, v3_normalize, v3_div, v3_neg};
use crate::geometry::{Frame, Ray, RayModel, Sphere, frame_from_z_spec, to_world_spec,
    sphere_isect_spec};
use crate::utility::{uniform_sphere_sample, uniform_sphere_spec, uniform_cone_sample,
    uniform_cone_spec, uniform_cone_pdf_w, uniform_cone_pdf_spec, FRAC_1_4PI_RAW};

/// `2 pi`, in raw steps.
pub const PI2_RAW: i64 = 411775;

/// The sentinel distance reported for the background: beyond any scene.
pub const BACKGROUND_DIST_RAW: i64 = RAW_LIMIT;

#[derive(Clone, Copy, Debug, PartialEq, Eq, Structural)]
pub struct BackgroundLight {
    pub intensity: Vec3,
}

#[derive(Clone, Copy, Debug, PartialEq, Eq, Structural)]
pub struct PointLight {
    pub intensity: Vec3,
    pub position: Vec3,
}

/// A shape that glows: the one luminous shape here is the sphere.
#[derive(Clone, Copy, Debug, PartialEq, Eq, Structural)]
pub struct LuminousObject {
    pub object: Sphere,
    pub intensity: Vec3,
}

/// One sample toward a light: its radiance, the direction and distance
/// from the shaded point, and the solid-angle density of the sample.
#[derive(Clone, Copy, Debug, PartialEq, Eq, Structural)]
pub struct Illumination {
    pub radiance: Vec3,
    pub l_dir: Vec3,
    pub l_dist: Fx,
    pub pdf: Fx,
}

/// What a light sends along a ray that reached it, with the density the
/// light's own sampling would have given that direction.
#[derive(Clone, Copy, Debug, PartialEq, Eq, Structural)]
pub struct Radiation {
    pub radiance: Vec3,
    pub pdf: Fx,
}

/// The ghost model of an illumination sample.
pub ghost struct IllumModel {
    pub radiance: V3i,
    pub l_dir: V3i,
    pub l_dist: int,
    pub pdf: int,
}

impl View for Illumination {
    type V = IllumModel;

    open spec fn view(&self) -> IllumModel {
        IllumModel {
            radiance: self.radiance@,
            l_dir: self.l_dir@,
            l_dist: self.l_dist@,
            pdf: self.pdf@,
        }
    }
}

/// The ghost model of a radiation answer.
pub ghost struct RadModel {
    pub radiance: V3i,
    pub pdf: int,
}

impl View for Radiation {
    type V = RadModel;

    open spec fn view(&self) -> RadModel {
        RadModel { radiance: self.radiance@, pdf: self.pdf@ }
    }
}

pub open spec fn illum_view(o: Option<Illumination>) -> Option<IllumModel> {
    match o {
        Some(i) => Some(i@),
        None => None,
    }
}

pub open spec fn rad_view(o: Option<Radiation>) -> Option<RadModel> {
    match o {
        Some(i) => Some(i@),
        None => None,
    }
}

/// A light source: the closed set of variants a scene can hold.
#[derive(Clone, Copy, Debug, PartialEq, Eq, Structural)]
pub enum Light {
    Background(BackgroundLight),
    Point(PointLight),
    Luminous(LuminousObject),
}

pub open spec fn light_wf(l: Light) -> bool {
    match l {
        Light::Background(b) => b.intensity.wf(),
        Light::Point(p) => p.intensity.wf() && p.position.wf(),
        Light::Luminous(o) => o.object.wf() && o.intensity.wf(),
    }
}

/// The cosine of the cone half-angle under which a sphere is seen from
/// `from`: `sqrt(1 - min(r^2 / |w|^2, 1))` with `w` the vector to its
/// center.
pub open spec fn sphere_cos_theta_max_spec(s: crate::geometry::SphereModel, from: V3i) -> int {
    let w = v3_sub(s.center, from);
    let w2 = v3_dot(w, w);
    let frac = fx_div_spec(fx_mul_spec(s.radius, s.radius), w2);
    let frac1 = if frac <= SCALE as int {
        frac
    } else {
        SCALE as int
    };
    fx_sqrt_spec(sat(SCALE as int - frac1))
}

/// The sphere's direction sample: a uniform cone direction about the
/// axis toward the center, carried to world space and normalized;
/// with it the subtended solid angle and the cone density.
pub open spec fn sphere_select_dir_spec(
    s: crate::geometry::SphereModel,
    from: V3i,
    u: int,
    v: int,
) -> (V3i, int, int) {
    let w = v3_sub(s.center, from);
    let ctm = sphere_cos_theta_max_spec(s, from);
    let omega = fx_mul_spec(PI2_RAW as int, sat(SCALE as int - ctm));
    let basis = frame_from_z_spec(w);
    let ld = v3_normalize(to_world_spec(basis, uniform_cone_spec(ctm, u, v)));
    (ld, omega, uniform_cone_pdf_spec(ctm))
}

/// The cone density the sphere's own sampling gives any ray from `orig`,
/// floored at zero.
pub open spec fn sphere_dir_pdf_spec(s: crate::geometry::SphereModel, orig: V3i) -> int {
    let p = uniform_cone_pdf_spec(sphere_cos_theta_max_spec(s, orig));
    if p >= 0 {
        p
    } else {
        0
    }
}

impl Sphere {
    /// Sample a direction toward this sphere seen from `hit_pnt`:
    /// the direction, the subtended solid angle, and the density.
    pub fn select_dir(&self, hit_pnt: &Vec3, rnd: (Fx, Fx)) -> (r: (Vec3, Fx, Fx))
        requires
            self.wf(),
            hit_pnt.wf(),
            0 <= rnd.0@ < SCALE as int,
            0 <= rnd.1@ < SCALE as int,
        ensures
            (r.0@, r.1@, r.2@) == sphere_select_dir_spec(self@, hit_pnt@, rnd.0@, rnd.1@),
            r.0.wf(),
            r.1.wf(),
            r.2.wf(),
    {
        let w = self.center.sub(*hit_pnt);
        let cos_theta_max = self.cos_theta_max(hit_pnt);
        let frac = Fx::one().sub(cos_theta_max);
        let omega = Fx::from_raw(PI2_RAW).mul(frac);
        let w_basis = Frame::from_z(&w);
        let ld_local = uniform_cone_sample(cos_theta_max, rnd);
        let ld = w_basis.to_world(&ld_local).normalize();
        let pdf = uniform_cone_pdf_w(cos_theta_max);
        (ld, omega, pdf)
    }

    /// The cone density for a ray toward this sphere.
    pub fn dir_pdf(&self, ray: &Ray) -> (r: Fx)
        requires
            self.wf(),
            ray.wf(),
        ensures
            r@ == sphere_dir_pdf_spec(self@, ray@.orig),
            r.wf(),
    {
        let pdf = uniform_cone_pdf_w(self.cos_theta_max(&ray.orig));
        pdf.max(Fx::zero())
    }

    /// The cosine of the visible cone's half-angle from `from`.
    fn cos_theta_max(&self, from: &Vec3) -> (r: Fx)
        requires
            self.wf(),
            from.wf(),
        ensures
            r@ == sphere_cos_theta_max_spec(self@, from@),
            r.wf(),
    {
        let w = self.center.sub(*from);
        let w2 = w.dot(w);
        let frac = self.r2().div(w2).min(Fx::one());
        Fx::one().sub(frac).sqrt()
    }
}

/// What a light answers when a path ray reaches it.
pub open spec fn light_radiate_spec(l: Light, ray: RayModel) -> Option<RadModel> {
    match l {
        Light::Background(b) => Some(RadModel { radiance: b.intensity@, pdf: FRAC_1_4PI_RAW as int }),
        Light::Point(_) => None,
        Light::Luminous(o) => Some(
            RadModel { radiance: o.intensity@, pdf: sphere_dir_pdf_spec(o.object@, ray.orig) },
        ),
    }
}

/// What a light answers when asked for one sample toward itself.
pub open spec fn light_illuminate_spec(l: Light, hit_pnt: V3i, u: int, v: int) -> Option<
    IllumModel,
> {
    match l {
        Light::Background(b) => Some(
            IllumModel {
                radiance: b.intensity@,
                l_dir: v3_neg(uniform_sphere_spec(u, v)),
                l_dist: BACKGROUND_DIST_RAW as int,
                pdf: FRAC_1_4PI_RAW as int,
            },
        ),
        Light::Point(p) => {
            let vec_to_light = v3_sub(p.position@, hit_pnt);
            let dist_sq = v3_dot(vec_to_light, vec_to_light);
            let l_dist = fx_sqrt_spec(dist_sq);
            Some(
                IllumModel {
                    radiance: v3_div(p.intensity@, dist_sq),
                    l_dir: v3_div(vec_to_light, l_dist),
                    l_dist: l_dist,
                    pdf: SCALE as int,
                },
            )
        },
        Light::Luminous(o) => {
            let s = sphere_select_dir_spec(o.object@, hit_pnt, u, v);
            match sphere_isect_spec(o.object@, RayModel { orig: hit_pnt, dir: s.0 }) {
                Some(isect) => Some(
                    IllumModel {
                        radiance: v3_scale(o.intensity@, s.1),
                        l_dir: s.0,
                        l_dist: isect.dist,
                        pdf: s.2,
                    },
                ),
                None => None,
            }
        },
    }
}

impl Light {
    /// The radiance and density for a path ray that reached this light;
    /// a point light cannot be reached by a ray.
    pub fn radiate(&self, out_ray: &Ray) -> (r: Option<Radiation>)
        requires
            light_wf(*self),
            out_ray.wf(),
        ensures
            rad_view(r) == light_radiate_spec(*self, out_ray@),
            r is Some ==> r.unwrap().radiance.wf() && r.unwrap().pdf.wf(),
    {
        match self {
            Light::Background(b) => Some(
                Radiation { radiance: b.intensity, pdf: Fx::from_raw(FRAC_1_4PI_RAW) },
            ),
            Light::Point(_) => None,
            Light::Luminous(o) => Some(
                Radiation { radiance: o.intensity, pdf: o.object.dir_pdf(out_ray) },
            ),
        }
    }

    /// One sample toward this light from `hit_pnt`.
    pub fn illuminate(&self, hit_pnt: &Vec3, rnd: (Fx, Fx)) -> (r: Option<Illumination>)
        requires
            light_wf(*self),
            hit_pnt.wf(),
            0 <= rnd.0@ < SCALE as int,
            0 <= rnd.1@ < SCALE as int,
        ensures
            illum_view(r) == light_illuminate_spec(*self, hit_pnt@, rnd.0@, rnd.1@),
            r is Some ==> r.unwrap().radiance.wf() && r.unwrap().l_dir.wf()
                && r.unwrap().l_dist.wf() && r.unwrap().pdf.wf(),
    {
        match self {
            Light::Background(b) => {
                let dir = uniform_sphere_sample(rnd);
                Some(
                    Illumination {
                        radiance: b.intensity,
                        l_dir: dir.neg(),
                        l_dist: Fx::from_raw(BACKGROUND_DIST_RAW),
                        pdf: Fx::from_raw(FRAC_1_4PI_RAW),
                    },
                )
            },
            Light::Point(p) => {
                let vec_to_light = p.position.sub(*hit_pnt);
                let dist_sq = vec_to_light.dot(vec_to_light);
                let l_dist = dist_sq.sqrt();
                Some(
                    Illumination {
                        radiance: p.intensity.div(dist_sq),
                        l_dir: vec_to_light.div(l_dist),
                        l_dist,
                        pdf: Fx::one(),
                    },
                )
            },
            Light::Luminous(o) => {
                let (ld, omega, pdf) = o.object.select_dir(hit_pnt, rnd);
                match o.object.intersect(&Ray { orig: *hit_pnt, dir: ld }) {
                    Some(isect) => Some(
                        Illumination {
                            radiance: o.intensity.scale(omega),
                            l_dir: ld,
                            l_dist: isect.dist,
                            pdf,
                        },
                    ),
                    None => None,
                }
            },
        }
    }

    /// Whether this light samples a zero-measure set of directions, so
    /// that path sampling can never reach it and its weight stands at one.
    pub fn is_delta(&self) -> (r: bool)
        ensures
            r == (self is Point),
    {
        match self {
            Light::Point(_) => true,
            _ => false,
        }
    }
}


/// The cone cosine of a sphere seen from anywhere lies in `[0, 1]`:
/// the radius fraction under the root is never negative.
pub proof fn lemma_cos_theta_max_unit(s: crate::geometry::SphereModel, from: V3i)
    ensures
        0 <= sphere_cos_theta_max_spec(s, from) <= SCALE as int,
{
    let w = v3_sub(s.center, from);
    crate::fixed::lemma_square_nonneg(s.radius);
    crate::fixed::lemma_square_nonneg(w.x);
    crate::fixed::lemma_square_nonneg(w.y);
    crate::fixed::lemma_square_nonneg(w.z);
    let w2 = v3_dot(w, w);
    assert(w2 >= 0);
    let r2 = crate::fixed::fx_mul_spec(s.radius, s.radius);
    assert(fx_div_spec(r2, w2) >= 0);
    crate::utility::lemma_sqrt_unit(
        sat(
            SCALE as int - (if fx_div_spec(r2, w2) <= SCALE as int {
                fx_div_spec(r2, w2)
            } else {
                SCALE as int
            }),
        ),
    );
}

/// The cone density of a sphere is never negative, from anywhere.
pub proof fn lemma_cone_pdf_nonneg(s: crate::geometry::SphereModel, from: V3i)
    ensures
        uniform_cone_pdf_spec(sphere_cos_theta_max_spec(s, from)) >= 0,
{
    lemma_cos_theta_max_unit(s, from);
}

/// A light's two density conventions agree: whenever both queries
/// answer at the same point, the density `radiate` reports for a ray
/// from that point is exactly the density `illuminate` reports for its
/// sample there. Weights built from the two strategies therefore
/// compare like with like.
pub proof fn lemma_light_pdf_consistent(l: Light, p: V3i, dir: V3i, u: int, v: int)
    ensures
        match (
            light_radiate_spec(l, RayModel { orig: p, dir: dir }),
            light_illuminate_spec(l, p, u, v),
        ) {
            (Some(rad), Some(ill)) => rad.pdf == ill.pdf,
            _ => true,
        },
{
    match l {
        Light::Background(_) => {},
        Light::Point(_) => {},
        Light::Luminous(o) => {
            lemma_cone_pdf_nonneg(o.object@, p);
        },
    }
}

} // verus!
