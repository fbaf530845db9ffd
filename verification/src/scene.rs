//! The scene: a geometry aggregate, the materials, and the lights,
//! looked up by integer identifiers during rendering. Building keeps
//! every identifier stored on a surface valid, so lookups during
//! rendering never go out of range.

use vstd::prelude::*;

verus! {

use crate::brdf::Material;
use crate::distance_fields::{DField, DFieldIsosurface, df_wf};
use crate::fixed::Fx;
use crate::geometry::{Geometry, GeometryList, Ray, Sphere, Surface, SurfaceIntersection,
    geometry_wf, list_wf, nearest_isect_spec, surf_isect_view, was_occluded_spec};
use crate::light::{BackgroundLight, Light, light_wf};
use crate::math::Vec3;

pub type MaterialID = i32;

pub type LightID = i32;

/// What a surface is made of: either a material to shade, or a light
/// whose emission ends the path.
#[derive(Clone, Copy, Debug, PartialEq, Eq, Structural)]
pub enum SurfaceProperties {
    Material(MaterialID),
    Light(LightID),
}

/// A tag points inside the scene's material and light lists.
pub open spec fn props_valid(p: SurfaceProperties, n_materials: int, n_lights: int) -> bool {
    match p {
        SurfaceProperties::Material(m) => 0 <= m < n_materials,
        SurfaceProperties::Light(l) => 0 <= l < n_lights,
    }
}

/// The scene a render reads: geometry, materials, lights. The light at
/// index zero is the background.
pub struct DefaultScene {
    pub geo_mgr: GeometryList,
    pub materials: Vec<Material>,
    pub lights: Vec<Light>,
}

/// A scene fit to render from: everything well-formed, at least the
/// background light present, every stored tag in range, and both lists
/// short enough for their identifiers.
pub open spec fn scene_wf(s: &DefaultScene) -> bool {
    &&& list_wf(&s.geo_mgr)
    &&& 1 <= s.lights@.len() < 0x4000_0000
    &&& s.materials@.len() < 0x4000_0000
    &&& (forall|i: int| 0 <= i < s.materials@.len() ==> (#[trigger] s.materials@[i]).wf())
    &&& (forall|i: int| 0 <= i < s.lights@.len() ==> light_wf(#[trigger] s.lights@[i]))
    &&& (forall|i: int|
        0 <= i < s.geo_mgr.geometries@.len() ==> props_valid(
            (#[trigger] s.geo_mgr.geometries@[i]).properties,
            s.materials@.len() as int,
            s.lights@.len() as int,
        ))
    &&& (forall|i: int|
        0 <= i < s.geo_mgr.dfields@.len() ==> props_valid(
            (#[trigger] s.geo_mgr.dfields@[i]).properties,
            s.materials@.len() as int,
            s.lights@.len() as int,
        ))
}

impl DefaultScene {
    /// A scene holding only its background light.
    pub fn new(backlight: BackgroundLight) -> (r: DefaultScene)
        requires
            backlight.intensity.wf(),
        ensures
            scene_wf(&r),
            r.lights@.len() == 1,
            r.lights@[0] == Light::Background(backlight),
            r.materials@.len() == 0,
            r.geo_mgr.geometries@.len() == 0,
            r.geo_mgr.dfields@.len() == 0,
    {
        let mut lights: Vec<Light> = Vec::new();
        lights.push(Light::Background(backlight));
        DefaultScene { geo_mgr: GeometryList::new(), materials: Vec::new(), lights }
    }

    /// The nearest hit in the scene.
    pub fn nearest_intersection(&self, ray: &Ray) -> (r: Option<SurfaceIntersection>)
        requires
            scene_wf(self),
            ray.wf(),
        ensures
            surf_isect_view(r) == nearest_isect_spec(&self.geo_mgr, ray@),
            r is Some ==> r.unwrap().normal.wf() && r.unwrap().dist.wf(),
    {
        self.geo_mgr.nearest_intersection(ray)
    }

    /// Whether anything blocks the ray strictly within `dist`.
    pub fn was_occluded(&self, ray: &Ray, dist: Fx) -> (r: bool)
        requires
            scene_wf(self),
            ray.wf(),
            dist.wf(),
        ensures
            r == was_occluded_spec(&self.geo_mgr, ray@, dist@),
    {
        self.geo_mgr.was_occluded(ray, dist)
    }

    /// Add a shaded object: the material is stored and the surface
    /// tagged with its index.
    pub fn add_object(&mut self, geo: Geometry, material: Material)
        requires
            scene_wf(old(self)),
            geometry_wf(geo),
            material.wf(),
            old(self).materials@.len() < 0x3fff_ffff,
        ensures
            scene_wf(final(self)),
            final(self).materials@ == old(self).materials@.push(material),
            final(self).lights@ == old(self).lights@,
            final(self).geo_mgr.dfields@ == old(self).geo_mgr.dfields@,
            final(self).geo_mgr.geometries@ == old(self).geo_mgr.geometries@.push(
                Surface {
                    geometry: geo,
                    properties: SurfaceProperties::Material(
                        old(self).materials@.len() as MaterialID,
                    ),
                },
            ),
    {
        let material_id = self.materials.len() as i32;
        self.materials.push(material);
        self.geo_mgr.add_geometry(
            Surface { geometry: geo, properties: SurfaceProperties::Material(material_id) },
        );
    }

    /// Add a shaded implicit surface.
    pub fn add_isosurface(&mut self, dfield: DField, material: Material)
        requires
            scene_wf(old(self)),
            df_wf(dfield),
            material.wf(),
            old(self).materials@.len() < 0x3fff_ffff,
        ensures
            scene_wf(final(self)),
            final(self).materials@ == old(self).materials@.push(material),
            final(self).lights@ == old(self).lights@,
            final(self).geo_mgr.geometries@ == old(self).geo_mgr.geometries@,
            final(self).geo_mgr.dfields@ == old(self).geo_mgr.dfields@.push(
                DFieldIsosurface {
                    dfield: dfield,
                    properties: SurfaceProperties::Material(
                        old(self).materials@.len() as MaterialID,
                    ),
                },
            ),
    {
        let material_id = self.materials.len() as i32;
        self.materials.push(material);
        self.geo_mgr.add_isosurface(
            DFieldIsosurface { dfield, properties: SurfaceProperties::Material(material_id) },
        );
    }

    /// Add a light that no geometry carries.
    pub fn add_light(&mut self, light: Light)
        requires
            scene_wf(old(self)),
            light_wf(light),
            old(self).lights@.len() < 0x3fff_ffff,
        ensures
            scene_wf(final(self)),
            final(self).lights@ == old(self).lights@.push(light),
            final(self).materials@ == old(self).materials@,
            final(self).geo_mgr.geometries@ == old(self).geo_mgr.geometries@,
            final(self).geo_mgr.dfields@ == old(self).geo_mgr.dfields@,
    {
        self.lights.push(light);
    }

    /// Add a glowing sphere: stored as a light, and as a surface tagged
    /// with that light's index.
    pub fn add_luminous_object(&mut self, geo: Sphere, intensity: Vec3)
        requires
            scene_wf(old(self)),
            geo.wf(),
            intensity.wf(),
            old(self).lights@.len() < 0x3fff_ffff,
        ensures
            scene_wf(final(self)),
            final(self).lights@ == old(self).lights@.push(
                Light::Luminous(crate::light::LuminousObject { object: geo, intensity }),
            ),
            final(self).materials@ == old(self).materials@,
            final(self).geo_mgr.dfields@ == old(self).geo_mgr.dfields@,
            final(self).geo_mgr.geometries@ == old(self).geo_mgr.geometries@.push(
                Surface {
                    geometry: Geometry::Sphere(geo),
                    properties: SurfaceProperties::Light(old(self).lights@.len() as LightID),
                },
            ),
    {
        let light_id = self.lights.len() as i32;
        self.lights.push(
            Light::Luminous(crate::light::LuminousObject { object: geo, intensity }),
        );
        self.geo_mgr.add_geometry(
            Surface {
                geometry: Geometry::Sphere(geo),
                properties: SurfaceProperties::Light(light_id),
            },
        );
    }

    pub fn get_material(&self, m_id: MaterialID) -> (r: &Material)
        requires
            scene_wf(self),
            0 <= m_id < self.materials@.len(),
        ensures
            *r == self.materials@[m_id as int],
            r.wf(),
    {
        &self.materials[m_id as usize]
    }

    pub fn get_light(&self, l_id: LightID) -> (r: &Light)
        requires
            scene_wf(self),
            0 <= l_id < self.lights@.len(),
        ensures
            *r == self.lights@[l_id as int],
            light_wf(*r),
    {
        &self.lights[l_id as usize]
    }

    pub fn get_lights_nb(&self) -> (r: usize)
        ensures
            r == self.lights@.len(),
    {
        self.lights.len()
    }

    /// The background light, by convention the light at index zero.
    pub fn get_background_light(&self) -> (r: &Light)
        requires
            scene_wf(self),
        ensures
            *r == self.lights@[0],
            light_wf(*r),
    {
        &self.lights[0]
    }
}

} // verus!
