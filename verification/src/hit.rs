//! The transient result of a successful ray-geometry intersection.

use vstd::prelude::*;
use crate::fixed::fp_in_range;
use crate::material::{mat_wf, Material};
use crate::vec3::{Point3, Vec3};

verus! {

/// Where and how a ray met a surface: the ray parameter `t`, the
/// world-space point, the normal oriented against the incoming ray,
/// whether the outward normal already faced the ray (`front_face`),
/// and the material governing scattering there.
#[derive(Clone, Copy, Debug)]
pub struct HitRecord {
    pub t: i64,
    pub p: Point3,
    pub normal: Vec3,
    pub front_face: bool,
    pub material: Material,
}

impl HitRecord {
    /// All constituents well-formed.
    pub open spec fn wf(&self) -> bool {
        &&& fp_in_range(self.t as int)
        &&& self.p.wf()
        &&& self.normal.wf()
        &&& mat_wf(self.material)
    }
}

} // verus!
