//! An offline Monte Carlo path tracer core: ray-sphere intersection,
//! a three-variant material scattering model, a thin-lens camera, and a
//! depth-limited recursive radiance integrator.
//!
//! All geometry and colour arithmetic is carried out in fixed-point
//! arithmetic over `i64` (see [`fixed`]), so that every numeric step has
//! an exact mathematical description.

pub mod camera;
pub mod fixed;
pub mod hit;
pub mod material;
pub mod ray;
pub mod rng;
pub mod scene;
pub mod sphere;
pub mod trace;
pub mod vec3;
pub mod world;
