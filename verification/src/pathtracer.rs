//! The path-tracing integrator with next-event estimation and
//! multiple-importance-sampling weights. A traced path is an exact
//! function of the scene, the primary ray and the random-stream seed,
//! so a rendering with a fixed seed is reproducible, bit for bit.

use vstd::prelude::*;

verus! {

use crate::brdf::{Brdf, BrdfModel, brdf_eval_spec, brdf_new_ok, brdf_sample_spec, probs_spec,
    wo_local_spec};
use crate::fixed::{Fx, SCALE, fx_div_spec, fx_mul_spec, sat};
use crate::geometry::{EPS_RAY_GEO, Ray, RayModel, frame_from_z_spec, lemma_nearest_isect_props,
    nearest_isect_spec, point_at, was_occluded_spec};
use crate::light::{Light, light_illuminate_spec, light_radiate_spec};
use crate::math::{Vec3, V3i, v3_add, v3_div, v3_dot, v3_mul, v3_scale, sadd};
use crate::rng::{Rng, next_state_spec, unit_of};
use crate::scene::{DefaultScene, SurfaceProperties, scene_wf};

/// Paths end unconditionally after this many bounces.
pub const MAX_PATH_LENGTH: u32 = 100;

/// The balance heuristic: a density's share of the total.
pub open spec fn balance_heuristic_spec(current: int, other: int) -> int {
    fx_div_spec(current, sadd(current, other))
}

pub fn balance_heuristic(current_pdf_w: Fx, other_pdf_w: Fx) -> (r: Fx)
    requires
        current_pdf_w.wf(),
        other_pdf_w.wf(),
    ensures
        r@ == balance_heuristic_spec(current_pdf_w@, other_pdf_w@),
        r.wf(),
{
    current_pdf_w.div(current_pdf_w.add(other_pdf_w))
}

/// The power heuristic with exponent two: squared densities in the
/// balance heuristic; a zero total is guarded to zero.
pub open spec fn power_heuristic_spec(current: int, other: int) -> int {
    let c2 = fx_mul_spec(current, current);
    let o2 = fx_mul_spec(other, other);
    fx_div_spec(c2, sadd(c2, o2))
}

pub fn power_heuristic(current_pdf_w: Fx, other_pdf_w: Fx) -> (r: Fx)
    requires
        current_pdf_w.wf(),
        other_pdf_w.wf(),
    ensures
        r@ == power_heuristic_spec(current_pdf_w@, other_pdf_w@),
        r.wf(),
{
    let current_pdf_2 = current_pdf_w.mul(current_pdf_w);
    let other_pdf_2 = other_pdf_w.mul(other_pdf_w);
    current_pdf_2.div(current_pdf_2.add(other_pdf_2))
}

/// The maximum heuristic: all weight on the larger density.
pub open spec fn max_heuristic_spec(current: int, other: int) -> int {
    if current >= other {
        SCALE as int
    } else {
        0
    }
}

pub fn max_heuristic(current_pdf_w: Fx, other_pdf_w: Fx) -> (r: Fx)
    ensures
        r@ == max_heuristic_spec(current_pdf_w@, other_pdf_w@),
        r.wf(),
{
    if other_pdf_w.le(current_pdf_w) {
        Fx::one()
    } else {
        Fx::zero()
    }
}

/// The weighting the integrator uses: the power heuristic.
pub open spec fn mis2_spec(current: int, other: int) -> int {
    power_heuristic_spec(current, other)
}

pub fn mis2(current_pdf_w: Fx, other_pdf_w: Fx) -> (r: Fx)
    requires
        current_pdf_w.wf(),
        other_pdf_w.wf(),
    ensures
        r@ == mis2_spec(current_pdf_w@, other_pdf_w@),
        r.wf(),
{
    power_heuristic(current_pdf_w, other_pdf_w)
}

pub open spec fn zero3() -> V3i {
    V3i { x: 0, y: 0, z: 0 }
}

pub open spec fn one3() -> V3i {
    V3i { x: SCALE as int, y: SCALE as int, z: SCALE as int }
}

/// Next-event estimation at one shading point: pick one light uniformly
/// (three stream draws: the pick and two shape values), sample it,
/// evaluate the reflectance toward it, weight the pair of strategies by
/// the power heuristic (a delta light keeps full weight), test
/// occlusion, and divide by the pick probability and the light density.
pub open spec fn one_light_spec(scene: &DefaultScene, p: V3i, b: BrdfModel, s0: u64) -> (V3i, u64) {
    let n = scene.lights@.len() as int;
    let s1 = next_state_spec(s0);
    let pick = s1 as int % n;
    let s2 = next_state_spec(s1);
    let u = unit_of(s2);
    let s3 = next_state_spec(s2);
    let v = unit_of(s3);
    let light = scene.lights@[pick];
    let pick_prob = fx_div_spec(SCALE as int, sat(n * SCALE as int));
    let gathered = match light_illuminate_spec(light, p, u, v) {
        Some(illum) => match brdf_eval_spec(b, illum.l_dir) {
            Some(e) => {
                if was_occluded_spec(
                    &scene.geo_mgr,
                    RayModel { orig: p, dir: illum.l_dir },
                    illum.l_dist,
                ) {
                    zero3()
                } else {
                    let weight = if light is Point {
                        SCALE as int
                    } else {
                        mis2_spec(
                            fx_mul_spec(illum.pdf, pick_prob),
                            fx_mul_spec(e.1, b.probs.continuation),
                        )
                    };
                    let cos_theta = v3_dot(b.basis.oz, illum.l_dir);
                    v3_div(
                        v3_scale(v3_mul(illum.radiance, e.0), fx_mul_spec(cos_theta, weight)),
                        fx_mul_spec(pick_prob, illum.pdf),
                    )
                }
            },
            None => zero3(),
        },
        None => zero3(),
    };
    (gathered, s3)
}

/// What a light hit or a miss adds: the light's radiance under the
/// weight of the two strategies, full on a primary ray.
pub open spec fn emission_spec(
    light: Light,
    ray: RayModel,
    throughput: V3i,
    last_pdf: int,
    first: bool,
) -> V3i {
    match light_radiate_spec(light, ray) {
        Some(rad) => {
            let w = if first {
                SCALE as int
            } else {
                mis2_spec(last_pdf, rad.pdf)
            };
            v3_scale(v3_mul(throughput, rad.radiance), w)
        },
        None => zero3(),
    }
}

/// One full path, step for step: intersect;
/// on a miss or a light hit take the weighted emission and stop; on a
/// material hit run next-event estimation, play Russian roulette
/// against the survival probability, sample a continuation direction,
/// fold its factor and cosine over the density into the throughput, and
/// recurse with the continuation ray. The result carries the final
/// random-stream state, so the whole path is a function of the seed.
pub open spec fn trace_rec(
    scene: &DefaultScene,
    ray: RayModel,
    throughput: V3i,
    last_pdf: int,
    first: bool,
    s0: u64,
    fuel: nat,
) -> (V3i, u64)
    decreases fuel, 1int,
{
    if fuel == 0 {
        (zero3(), s0)
    } else {
        match nearest_isect_spec(&scene.geo_mgr, ray) {
            None => (emission_spec(scene.lights@[0], ray, throughput, last_pdf, first), s0),
            Some(isect) => {
                let hit_point = point_at(ray, isect.dist);
                match isect.surface {
                    SurfaceProperties::Light(light_id) => (
                        emission_spec(
                            scene.lights@[light_id as int],
                            ray,
                            throughput,
                            last_pdf,
                            first,
                        ),
                        s0,
                    ),
                    SurfaceProperties::Material(mat_id) => {
                        let m = scene.materials@[mat_id as int];
                        if !brdf_new_ok(ray.dir, isect.normal, m) {
                            (zero3(), s0)
                        } else {
                            let b = BrdfModel {
                                material: m,
                                basis: frame_from_z_spec(isect.normal),
                                wo_local: wo_local_spec(ray.dir, isect.normal),
                                probs: probs_spec(m),
                            };
                            let direct = one_light_spec(scene, hit_point, b, s0);
                            let color0 = v3_mul(throughput, direct.0);
                            let cont = b.probs.continuation;
                            if cont < SCALE as int {
                                let s2 = next_state_spec(direct.1);
                                if unit_of(s2) >= cont {
                                    (color0, s2)
                                } else {
                                    trace_bounce(
                                        scene,
                                        hit_point,
                                        b,
                                        color0,
                                        v3_div(throughput, cont),
                                        s2,
                                        fuel,
                                    )
                                }
                            } else {
                                trace_bounce(scene, hit_point, b, color0, throughput, direct.1, fuel)
                            }
                        }
                    },
                }
            },
        }
    }
}

/// The continuation after a survived roulette: three stream draws shape
/// the next direction; a failed or zero-density sample ends the path
/// with the colour gathered so far, and otherwise the scattered ray
/// starts a little off the surface along the new direction.
pub open spec fn trace_bounce(
    scene: &DefaultScene,
    hit_point: V3i,
    b: BrdfModel,
    color0: V3i,
    throughput: V3i,
    s0: u64,
    fuel: nat,
) -> (V3i, u64)
    decreases fuel, 0int,
{
    if fuel == 0 {
        (color0, s0)
    } else {
        let s1 = next_state_spec(s0);
        let s2 = next_state_spec(s1);
        let s3 = next_state_spec(s2);
        match brdf_sample_spec(b, (unit_of(s1), unit_of(s2), unit_of(s3))) {
            None => (color0, s3),
            Some(smp) => {
                if smp.pdf <= 0 {
                    (color0, s3)
                } else {
                    let cos_theta = v3_dot(b.basis.oz, smp.wi);
                    let thr = v3_div(
                        v3_scale(v3_mul(throughput, smp.radiance), cos_theta),
                        smp.pdf,
                    );
                    let nray = RayModel {
                        orig: v3_add(hit_point, v3_scale(smp.wi, EPS_RAY_GEO as int)),
                        dir: smp.wi,
                    };
                    let rest = trace_rec(scene, nray, thr, smp.pdf, false, s3, (fuel - 1) as nat);
                    (v3_add(color0, rest.0), rest.1)
                }
            },
        }
    }
}

/// The colour of one full path from a primary ray, with a unit
/// throughput and full weight on the first emission.
pub open spec fn trace_path_spec(scene: &DefaultScene, ray: RayModel, s0: u64) -> (V3i, u64) {
    trace_rec(scene, ray, one3(), SCALE as int, true, s0, (MAX_PATH_LENGTH + 1) as nat)
}

/// The integrator: next-event estimation at every vertex and
/// power-heuristic weighting between light sampling and path sampling.
pub struct CpuPtMis {
    pub scene: DefaultScene,
}

impl CpuPtMis {
    pub fn new(scene: DefaultScene) -> (r: CpuPtMis)
        ensures
            r.scene == scene,
    {
        CpuPtMis { scene }
    }

    /// The radiance one path gathers for a primary ray. The result and
    /// the stream state after it are an exact function of the scene,
    /// the ray and the stream state before it: a fixed seed reproduces
    /// a rendering bit for bit.
    pub fn trace_path(&self, ray: &Ray, rng: &mut Rng) -> (r: Vec3)
        requires
            scene_wf(&self.scene),
            ray.wf(),
        ensures
            (r@, final(rng).state) == trace_path_spec(&self.scene, ray@, old(rng).state),
            r.wf(),
    {
        self.trace_step(ray, Vec3::one(), Fx::one(), true, rng, MAX_PATH_LENGTH + 1)
    }

    /// One state-machine step of the path, mirroring `trace_rec`.
    fn trace_step(
        &self,
        ray: &Ray,
        throughput: Vec3,
        last_pdf: Fx,
        first: bool,
        rng: &mut Rng,
        fuel: u32,
    ) -> (r: Vec3)
        requires
            scene_wf(&self.scene),
            ray.wf(),
            throughput.wf(),
            last_pdf.wf(),
        ensures
            (r@, final(rng).state) == trace_rec(
                &self.scene,
                ray@,
                throughput@,
                last_pdf@,
                first,
                old(rng).state,
                fuel as nat,
            ),
            r.wf(),
        decreases fuel,
    {
        if fuel == 0 {
            return Vec3::zero();
        }
        let isect = match self.scene.nearest_intersection(ray) {
            None => {
                let light = self.scene.get_background_light();
                return self.emission(light, ray, throughput, last_pdf, first);
            },
            Some(isect) => isect,
        };
        proof {
            lemma_nearest_isect_props(&self.scene.geo_mgr, ray@);
        }
        let hit_point = ray.orig.add(ray.dir.scale(isect.dist));
        let mat_id = match isect.surface {
            SurfaceProperties::Light(light_id) => {
                let light = self.scene.get_light(light_id);
                return self.emission(light, ray, throughput, last_pdf, first);
            },
            SurfaceProperties::Material(mat_id) => mat_id,
        };
        let material = self.scene.get_material(mat_id);
        let brdf = match Brdf::new(&ray.dir, &isect.normal, material) {
            None => {
                return Vec3::zero();
            },
            Some(brdf) => brdf,
        };
        let direct = self.uniform_sample_one_light(&hit_point, &brdf, rng);
        let color0 = throughput.mul(direct);
        let cont = brdf.continuation_prob();
        let throughput = if cont.lt(Fx::one()) {
            let u = rng.next_unit();
            if cont.le(u) {
                return color0;
            }
            throughput.div(cont)
        } else {
            throughput
        };
        let rnd = (rng.next_unit(), rng.next_unit(), rng.next_unit());
        let sample = match brdf.sample(rnd) {
            None => {
                return color0;
            },
            Some(sample) => sample,
        };
        if sample.pdf.le(Fx::zero()) {
            return color0;
        }
        let cos_theta = brdf.normal().dot(sample.wi);
        let thr = throughput.mul(sample.radiance).scale(cos_theta).div(sample.pdf);
        let next_ray = Ray {
            orig: hit_point.add(sample.wi.scale(Fx::from_raw(EPS_RAY_GEO))),
            dir: sample.wi,
        };
        let rest = self.trace_step(&next_ray, thr, sample.pdf, false, rng, fuel - 1);
        color0.add(rest)
    }

    /// The weighted emission a path takes from a light it reached.
    fn emission(&self, light: &Light, ray: &Ray, throughput: Vec3, last_pdf: Fx, first: bool) -> (r:
        Vec3)
        requires
            crate::light::light_wf(*light),
            ray.wf(),
            throughput.wf(),
            last_pdf.wf(),
        ensures
            r@ == emission_spec(*light, ray@, throughput@, last_pdf@, first),
            r.wf(),
    {
        match light.radiate(ray) {
            Some(rad) => {
                let w = if first {
                    Fx::one()
                } else {
                    mis2(last_pdf, rad.pdf)
                };
                throughput.mul(rad.radiance).scale(w)
            },
            None => Vec3::zero(),
        }
    }

    /// Next-event estimation, mirroring `one_light_spec`.
    fn uniform_sample_one_light(&self, p: &Vec3, brdf: &Brdf, rng: &mut Rng) -> (r: Vec3)
        requires
            scene_wf(&self.scene),
            p.wf(),
            brdf.wf(),
        ensures
            (r@, final(rng).state) == one_light_spec(&self.scene, p@, brdf@, old(rng).state),
            r.wf(),
    {
        let lights_nb = self.scene.get_lights_nb();
        let light_nb = rng.next_below(lights_nb as u32);
        let rands = (rng.next_unit(), rng.next_unit());
        let rand_light = self.scene.get_light(light_nb as i32);
        let pick_prob = Fx::one().div(Fx::from_int(lights_nb as i64));
        let illum = match rand_light.illuminate(p, rands) {
            None => {
                return Vec3::zero();
            },
            Some(illum) => illum,
        };
        let brdf_eval = match brdf.eval(&illum.l_dir) {
            None => {
                return Vec3::zero();
            },
            Some(e) => e,
        };
        let shadow_ray = Ray { orig: *p, dir: illum.l_dir };
        if self.scene.was_occluded(&shadow_ray, illum.l_dist) {
            return Vec3::zero();
        }
        let weight = if rand_light.is_delta() {
            Fx::one()
        } else {
            mis2(illum.pdf.mul(pick_prob), brdf_eval.pdf.mul(brdf.continuation_prob()))
        };
        let cos_theta = brdf.normal().dot(illum.l_dir);
        illum.radiance.mul(brdf_eval.radiance).scale(cos_theta.mul(weight)).div(
            pick_prob.mul(illum.pdf),
        )
    }
}


/// What the eye-light view shows for a primary ray: grey on a miss,
/// black on a light or an occluded point, and otherwise the material's
/// diffuse colour under the facing cosine.
pub open spec fn eyelight_spec(scene: &DefaultScene, ray: RayModel) -> V3i {
    match nearest_isect_spec(&scene.geo_mgr, ray) {
        None => V3i { x: SCALE as int / 2, y: SCALE as int / 2, z: SCALE as int / 2 },
        Some(isect) => {
            let l_dot_n = v3_dot(isect.normal, crate::math::v3_neg(ray.dir));
            match isect.surface {
                SurfaceProperties::Material(mat_id) => {
                    let hit_point = point_at(ray, isect.dist);
                    let back = RayModel { orig: hit_point, dir: crate::math::v3_neg(ray.dir) };
                    if was_occluded_spec(&scene.geo_mgr, back, isect.dist) {
                        zero3()
                    } else {
                        v3_scale(
                            scene.materials@[mat_id as int].diffuse@,
                            vstd::math::abs(l_dot_n) as int,
                        )
                    }
                },
                SurfaceProperties::Light(_) => zero3(),
            }
        },
    }
}

/// A depthless debugging view: each hit lit as if the light sat at the
/// eye itself. Deterministic, with no random stream at all.
pub struct EyeLight {
    pub scene: DefaultScene,
}

impl EyeLight {
    pub fn new(scene: DefaultScene) -> (r: EyeLight)
        ensures
            r.scene == scene,
    {
        EyeLight { scene }
    }

    pub fn trace_path(&self, ray: &Ray) -> (r: Vec3)
        requires
            scene_wf(&self.scene),
            ray.wf(),
        ensures
            r@ == eyelight_spec(&self.scene, ray@),
            r.wf(),
    {
        let isect = match self.scene.nearest_intersection(ray) {
            None => {
                let half = Fx::from_raw(SCALE / 2);
                return Vec3 { x: half, y: half, z: half };
            },
            Some(isect) => isect,
        };
        proof {
            lemma_nearest_isect_props(&self.scene.geo_mgr, ray@);
        }
        let l_dot_n = isect.normal.dot(ray.dir.neg());
        match isect.surface {
            SurfaceProperties::Material(mat_id) => {
                let hit_point = ray.orig.add(ray.dir.scale(isect.dist));
                let back = Ray { orig: hit_point, dir: ray.dir.neg() };
                if self.scene.was_occluded(&back, isect.dist) {
                    Vec3::zero()
                } else {
                    self.scene.get_material(mat_id).diffuse.scale(l_dot_n.abs())
                }
            },
            SurfaceProperties::Light(_) => Vec3::zero(),
        }
    }
}

} // verus!
