//! A progressive path tracer: BRDF sampling and evaluation, ray/geometry
//! intersection (spheres, triangles, signed distance fields), light sampling,
//! and a multiple-importance-sampling integrator, all over an exact
//! fixed-point scalar type so that every arithmetic step has a precise
//! contract.

pub mod fixed;
pub mod math;
pub mod rng;
pub mod utility;
pub mod scene;
pub mod geometry;
pub mod distance_fields;
pub mod light;
pub mod brdf;
pub mod framebuffer;
pub mod pathtracer;

pub use fixed::Fx;
pub use math::Vec3;
