//! The reflectance model: a diffuse (Lambert) lobe and a glossy
//! (Phong-type) lobe, mixed by the material's albedos. Sampling and
//! evaluation share one analytic core, so the density a sample reports
//! is, provably, the density evaluation computes for that direction.

use vstd::prelude::*;

verus! {

use crate::fixed::{Fx, SCALE, fx_mul_spec, fx_div_spec, fx_pow_spec, sat};
use crate::math::{Vec3, V3i, v3_wf, v3_add, v3_neg, v3_scale, v3_dot, v3_normalize,
    VectorExtra, sadd};
use crate::geometry::{Frame, FrameModel, frame_from_z_spec, frame_wf, to_local_spec,
    to_world_spec};
use crate::utility::{luminance, luminance_spec, cos_hemisphere_sample, cos_hemisphere_spec,
    cos_hemisphere_pdf_spec, pow_cos_hemisphere_sample, pow_cos_hemisphere_spec,
    pow_cos_hemisphere_pdf_spec, FRAC_1_PI_RAW, FRAC_1_2PI_RAW};

/// Cosines below this count as grazing and carry no light.
pub const EPS_COSINE_RAW: i64 = 1;

/// Largest accepted Phong exponent.
pub const MAX_PHONG_EXP: u32 = 0xfffe;

#[derive(Clone, Copy, Debug, PartialEq, Eq, Structural)]
pub struct Material {
    pub diffuse: Vec3,
    pub specular: Vec3,
    pub phong_exp: u32,
}

impl Material {
    pub open spec fn wf(self) -> bool {
        self.diffuse.wf() && self.specular.wf() && self.phong_exp <= MAX_PHONG_EXP
    }

    /// The all-absorbing material.
    pub fn new_identity() -> (r: Material)
        ensures
            r.diffuse@ == (V3i { x: 0, y: 0, z: 0 }),
            r.specular@ == (V3i { x: 0, y: 0, z: 0 }),
            r.phong_exp == 0,
            r.wf(),
    {
        Material { diffuse: Vec3::zero(), specular: Vec3::zero(), phong_exp: 0 }
    }
}

/// The diffuse lobe's weight: the luminance of the diffuse reflectance.
pub open spec fn albedo_diffuse_spec(m: Material) -> int {
    luminance_spec(m.diffuse@)
}

/// The glossy lobe's weight: the luminance of the specular reflectance.
pub open spec fn albedo_specular_spec(m: Material) -> int {
    luminance_spec(m.specular@)
}

pub open spec fn total_albedo_spec(m: Material) -> int {
    sadd(albedo_specular_spec(m), albedo_diffuse_spec(m))
}

/// The lobe-selection and survival probabilities of a material.
pub ghost struct ProbModel {
    pub diffuse: int,
    pub phong: int,
    pub continuation: int,
}

/// The probabilities: each lobe in proportion to its albedo, and the
/// total albedo, clamped into `[0, 1]`, as the survival probability;
/// a black material yields all zeroes.
pub open spec fn probs_spec(m: Material) -> ProbModel {
    let total = total_albedo_spec(m);
    if total <= 0 {
        ProbModel { diffuse: 0, phong: 0, continuation: 0 }
    } else {
        ProbModel {
            diffuse: fx_div_spec(albedo_diffuse_spec(m), total),
            phong: fx_div_spec(albedo_specular_spec(m), total),
            continuation: if total <= SCALE as int {
                total
            } else {
                SCALE as int
            },
        }
    }
}

#[derive(Clone, Copy, Debug, PartialEq, Eq, Structural)]
struct Probabilities {
    diffuse: Fx,
    phong: Fx,
    continuation: Fx,
}

impl Probabilities {
    fn new(mat: &Material) -> (r: Probabilities)
        requires
            mat.wf(),
        ensures
            r.diffuse@ == probs_spec(*mat).diffuse,
            r.phong@ == probs_spec(*mat).phong,
            r.continuation@ == probs_spec(*mat).continuation,
            r.diffuse.wf(),
            r.phong.wf(),
            r.continuation.wf(),
    {
        let albedo_diffuse = luminance(&mat.diffuse);
        let albedo_specular = luminance(&mat.specular);
        let total_albedo = albedo_specular.add(albedo_diffuse);
        if total_albedo.le(Fx::zero()) {
            Probabilities { diffuse: Fx::zero(), phong: Fx::zero(), continuation: Fx::zero() }
        } else {
            Probabilities {
                diffuse: albedo_diffuse.div(total_albedo),
                phong: albedo_specular.div(total_albedo),
                continuation: total_albedo.min(Fx::one()),
            }
        }
    }
}

/// A reflectance bound to one shading point: the frame of the hit
/// normal, the outgoing direction in that frame, and the probabilities.
#[derive(Clone, Copy, Debug, PartialEq, Eq, Structural)]
pub struct Brdf {
    material: Material,
    own_basis: Frame,
    wo_local: Vec3,
    probs: Probabilities,
}

/// One sampled continuation: the world direction, the mixed reflectance
/// along it, and the mixed density that drew it.
#[derive(Clone, Copy, Debug, PartialEq, Eq, Structural)]
pub struct BrdfSample {
    pub wi: Vec3,
    pub radiance: Vec3,
    pub pdf: Fx,
}

/// The mixed reflectance and density toward a given direction.
#[derive(Clone, Copy, Debug, PartialEq, Eq, Structural)]
pub struct BrdfEval {
    pub radiance: Vec3,
    pub pdf: Fx,
}

/// The ghost model of a bound reflectance.
pub ghost struct BrdfModel {
    pub material: Material,
    pub basis: FrameModel,
    pub wo_local: V3i,
    pub probs: ProbModel,
}

impl View for Brdf {
    type V = BrdfModel;

    closed spec fn view(&self) -> BrdfModel {
        BrdfModel {
            material: self.material,
            basis: self.own_basis@,
            wo_local: self.wo_local@,
            probs: ProbModel {
                diffuse: self.probs.diffuse@,
                phong: self.probs.phong@,
                continuation: self.probs.continuation@,
            },
        }
    }
}

/// The local outgoing direction a construction would compute.
pub open spec fn wo_local_spec(out_dir_world: V3i, hit_normal: V3i) -> V3i {
    to_local_spec(frame_from_z_spec(hit_normal), v3_neg(out_dir_world))
}

/// Construction succeeds exactly when the outgoing direction clears the
/// grazing threshold and the material carries any light at all.
pub open spec fn brdf_new_ok(out_dir_world: V3i, hit_normal: V3i, m: Material) -> bool {
    wo_local_spec(out_dir_world, hit_normal).z >= EPS_COSINE_RAW as int && probs_spec(
        m,
    ).continuation > 0
}

/// The mirror image of the local outgoing direction: in the frame of
/// the normal, reflection only negates the two tangent components.
pub open spec fn refl_local_spec(b: BrdfModel) -> V3i {
    V3i { x: -b.wo_local.x, y: -b.wo_local.y, z: b.wo_local.z }
}

/// The Lambert lobe density toward a local direction.
pub open spec fn lambert_pdf_spec(wi_local: V3i) -> int {
    cos_hemisphere_pdf_spec(wi_local.z)
}

/// The Phong lobe density: the power-cosine density about the mirror
/// direction.
pub open spec fn phong_pdf_spec(b: BrdfModel, wi_local: V3i) -> int {
    pow_cos_hemisphere_pdf_spec(
        b.material.phong_exp as nat,
        v3_dot(wi_local, refl_local_spec(b)),
    )
}

/// The mixed density toward a local direction: each lobe's density
/// weighted by its selection probability.
pub open spec fn eval_pdf_spec(b: BrdfModel, wi_local: V3i) -> int {
    sadd(
        fx_mul_spec(lambert_pdf_spec(wi_local), b.probs.diffuse),
        fx_mul_spec(phong_pdf_spec(b, wi_local), b.probs.phong),
    )
}

/// The mixed reflectance toward a local direction: the diffuse
/// reflectance over pi, and the specular reflectance carrying the
/// power-cosine about the mirror direction with the `(n + 2) / (2 pi)`
/// normalization, each weighted by its lobe's probability.
pub open spec fn eval_radiance_spec(b: BrdfModel, wi_local: V3i) -> V3i {
    let lambert = v3_scale(b.material.diffuse@, FRAC_1_PI_RAW as int);
    let cos_a = v3_dot(wi_local, refl_local_spec(b));
    let c = if cos_a >= 0 {
        cos_a
    } else {
        0
    };
    let n = b.material.phong_exp as nat;
    let phong = v3_scale(
        b.material.specular@,
        fx_mul_spec(fx_pow_spec(c, n), sat((n + 2) * FRAC_1_2PI_RAW as int)),
    );
    v3_add(v3_scale(lambert, b.probs.diffuse), v3_scale(phong, b.probs.phong))
}

/// The local direction a sample draws: the cosine hemisphere for the
/// diffuse lobe, or a power-cosine direction about the mirror direction
/// carried through the mirror direction's own frame for the glossy lobe.
pub open spec fn sample_dir_spec(b: BrdfModel, rnd: (int, int, int)) -> V3i {
    if rnd.0 <= b.probs.diffuse {
        cos_hemisphere_spec(rnd.1, rnd.2)
    } else {
        let refl = refl_local_spec(b);
        let reflect_basis = frame_from_z_spec(refl);
        to_world_spec(
            reflect_basis,
            pow_cos_hemisphere_spec(b.material.phong_exp as nat, rnd.1, rnd.2),
        )
    }
}

/// The ghost model of one sample, keeping the local direction so that
/// consistency with evaluation can be stated where both live.
pub ghost struct SampleModel {
    pub wi_local: V3i,
    pub wi: V3i,
    pub radiance: V3i,
    pub pdf: int,
}

/// The full sample: the drawn direction is rejected at grazing angles,
/// otherwise it carries the mixed reflectance and the mixed density.
pub open spec fn brdf_sample_spec(b: BrdfModel, rnd: (int, int, int)) -> Option<SampleModel> {
    let wi_local = sample_dir_spec(b, rnd);
    if wi_local.z < EPS_COSINE_RAW as int {
        None
    } else {
        Some(
            SampleModel {
                wi_local: wi_local,
                wi: to_world_spec(b.basis, wi_local),
                radiance: eval_radiance_spec(b, wi_local),
                pdf: eval_pdf_spec(b, wi_local),
            },
        )
    }
}

/// The full evaluation toward a world direction: written in the local
/// frame and normalized, rejected at grazing angles, otherwise the
/// mixed reflectance and density.
pub open spec fn brdf_eval_spec(b: BrdfModel, wi: V3i) -> Option<(V3i, int)> {
    let wi_local = v3_normalize(to_local_spec(b.basis, wi));
    if wi_local.z < EPS_COSINE_RAW as int {
        None
    } else {
        Some((eval_radiance_spec(b, wi_local), eval_pdf_spec(b, wi_local)))
    }
}

/// Sampling and evaluation agree: whenever a sample comes back, the
/// density it reports is exactly the mixed density `eval_pdf_spec`
/// assigns to the sampled local direction, and its reflectance is the
/// mixed reflectance there. Multiple-importance weights built from the
/// two are therefore consistent.
pub proof fn lemma_sample_eval_consistent(b: BrdfModel, rnd: (int, int, int))
    ensures
        match brdf_sample_spec(b, rnd) {
            Some(s) => s.pdf == eval_pdf_spec(b, s.wi_local) && s.radiance == eval_radiance_spec(
                b,
                s.wi_local,
            ),
            None => true,
        },
{
}

impl Brdf {
    pub open spec fn wf(self) -> bool {
        self@.material.wf() && frame_wf(self@.basis) && v3_wf(self@.wo_local)
            && crate::fixed::fx_wf(self@.probs.diffuse) && crate::fixed::fx_wf(self@.probs.phong)
            && crate::fixed::fx_wf(self@.probs.continuation)
    }

    /// Bind the reflectance to a shading point; nothing is returned at
    /// a grazing angle or for a material that carries no light.
    pub fn new(out_dir_world: &Vec3, hit_normal: &Vec3, material: &Material) -> (r: Option<Brdf>)
        requires
            out_dir_world.wf(),
            hit_normal.wf(),
            material.wf(),
        ensures
            r is Some <==> brdf_new_ok(out_dir_world@, hit_normal@, *material),
            r is Some ==> {
                let b = r.unwrap();
                b@.material == *material && b@.basis == frame_from_z_spec(hit_normal@)
                    && b@.wo_local == wo_local_spec(out_dir_world@, hit_normal@) && b@.probs
                    == probs_spec(*material) && b.wf()
            },
    {
        let own_basis = Frame::from_z(hit_normal);
        let wo_local = own_basis.to_local(&out_dir_world.neg());
        let probs = Probabilities::new(material);
        if wo_local.z.lt(Fx::from_raw(EPS_COSINE_RAW)) || probs.continuation.le(Fx::zero()) {
            None
        } else {
            Some(Brdf { material: *material, own_basis, wo_local, probs })
        }
    }

    /// The Russian-roulette survival probability at this point.
    pub fn continuation_prob(&self) -> (r: Fx)
        requires
            self.wf(),
        ensures
            r@ == self@.probs.continuation,
            r.wf(),
    {
        self.probs.continuation
    }

    /// The shading normal this reflectance was bound to.
    pub fn normal(&self) -> (r: Vec3)
        requires
            self.wf(),
        ensures
            r@ == self@.basis.oz,
            r.wf(),
    {
        self.own_basis.normal()
    }

    /// Draw one continuation direction: the first uniform selects the
    /// lobe, the other two shape the direction; the reported density
    /// and reflectance mix both lobes.
    pub fn sample(&self, rnd: (Fx, Fx, Fx)) -> (r: Option<BrdfSample>)
        requires
            self.wf(),
            0 <= rnd.0@ < SCALE as int,
            0 <= rnd.1@ < SCALE as int,
            0 <= rnd.2@ < SCALE as int,
        ensures
            match brdf_sample_spec(self@, (rnd.0@, rnd.1@, rnd.2@)) {
                Some(s) => r is Some && r.unwrap().wi@ == s.wi && r.unwrap().radiance@ == s.radiance
                    && r.unwrap().pdf@ == s.pdf && r.unwrap().wi.wf() && r.unwrap().radiance.wf()
                    && r.unwrap().pdf.wf(),
                None => r is None,
            },
    {
        let sample_rnds = (rnd.1, rnd.2);
        let wi_local = if rnd.0.le(self.probs.diffuse) {
            cos_hemisphere_sample(sample_rnds)
        } else {
            let wi_local_reflect = pow_cos_hemisphere_sample(self.material.phong_exp, sample_rnds);
            let refl_local = self.wo_local.reflect_local();
            let reflect_basis = Frame::from_z(&refl_local);
            reflect_basis.to_world(&wi_local_reflect)
        };
        if wi_local.z.lt(Fx::from_raw(EPS_COSINE_RAW)) {
            None
        } else {
            let (radiance, pdf) = self.eval_local(&wi_local);
            let wi = self.own_basis.to_world(&wi_local);
            Some(BrdfSample { wi, radiance, pdf })
        }
    }

    /// The mixed reflectance and density toward a world direction, for
    /// next-event estimation; nothing at grazing angles.
    pub fn eval(&self, wi: &Vec3) -> (r: Option<BrdfEval>)
        requires
            self.wf(),
            wi.wf(),
        ensures
            match brdf_eval_spec(self@, wi@) {
                Some(e) => r is Some && r.unwrap().radiance@ == e.0 && r.unwrap().pdf@ == e.1
                    && r.unwrap().radiance.wf() && r.unwrap().pdf.wf(),
                None => r is None,
            },
    {
        let wi_local = self.own_basis.to_local(wi).normalize();
        if wi_local.z.lt(Fx::from_raw(EPS_COSINE_RAW)) {
            None
        } else {
            let (radiance, pdf) = self.eval_local(&wi_local);
            Some(BrdfEval { radiance, pdf })
        }
    }

    /// The shared analytic core: both lobes evaluated at a local
    /// direction and mixed by their probabilities.
    fn eval_local(&self, wi_local: &Vec3) -> (r: (Vec3, Fx))
        requires
            self.wf(),
            wi_local.wf(),
        ensures
            r.0@ == eval_radiance_spec(self@, wi_local@),
            r.1@ == eval_pdf_spec(self@, wi_local@),
            r.0.wf(),
            r.1.wf(),
    {
        let refl_local = self.wo_local.reflect_local();
        let cos_theta = wi_local.z.max(Fx::zero());
        let lambert_pdf = cos_theta.mul(Fx::from_raw(FRAC_1_PI_RAW));
        let cos_a = wi_local.dot(refl_local).max(Fx::zero());
        let n = self.material.phong_exp;
        let phong_pdf = cos_a.powi(n).mul(Fx::from_raw(FRAC_1_2PI_RAW).scale_int(n as i64 + 1));
        let lambert_rad = self.material.diffuse.scale(Fx::from_raw(FRAC_1_PI_RAW));
        let phong_rad = self.material.specular.scale(
            cos_a.powi(n).mul(Fx::from_raw(FRAC_1_2PI_RAW).scale_int(n as i64 + 2)),
        );
        let radiance = lambert_rad.scale(self.probs.diffuse).add(
            phong_rad.scale(self.probs.phong),
        );
        let pdf = lambert_pdf.mul(self.probs.diffuse).add(phong_pdf.mul(self.probs.phong));
        (radiance, pdf)
    }
}

} // verus!
