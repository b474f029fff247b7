//! Rays: an origin point plus a direction vector, evaluated by
//! parameter as `origin + t * direction`.

use vstd::prelude::*;
use crate::fixed::fp_in_range;
use crate::vec3::{v3_wf, v_add, v_scale, Point3, Vec3, V3};

verus! {

/// Mathematical view of a ray.
pub ghost struct RayV {
    pub orig: V3,
    pub dir: V3,
}

/// A half-line through `orig` along `dir`; the direction need not be
/// unit length.
#[derive(Clone, Copy, PartialEq, Eq, Structural, Debug)]
pub struct Ray {
    pub orig: Point3,
    pub dir: Vec3,
}

impl View for Ray {
    type V = RayV;

    open spec fn view(&self) -> RayV {
        RayV { orig: self.orig@, dir: self.dir@ }
    }
}

/// The point at parameter `t` along the ray.
pub open spec fn ray_at(r: RayV, t: int) -> V3 {
    v_add(r.orig, v_scale(r.dir, t))
}

/// Both constituents well-formed.
pub open spec fn ray_wf(r: RayV) -> bool {
    v3_wf(r.orig) && v3_wf(r.dir)
}

impl Ray {
    /// A ray from an origin and a direction.
    pub fn new(origin: Point3, direction: Vec3) -> (r: Ray)
        requires
            origin.wf(),
            direction.wf(),
        ensures
            r@ == (RayV { orig: origin@, dir: direction@ }),
            ray_wf(r@),
    {
        Ray { orig: origin, dir: direction }
    }

    /// Well-formedness: origin and direction in range.
    pub open spec fn wf(&self) -> bool {
        ray_wf(self@)
    }

    /// The ray's origin.
    pub fn origin(&self) -> (p: Point3)
        ensures
            p@ == self@.orig,
    {
        self.orig
    }

    /// The ray's direction.
    pub fn direction(&self) -> (d: Vec3)
        ensures
            d@ == self@.dir,
    {
        self.dir
    }

    /// The point `origin + t * direction`.
    pub fn at(&self, t: i64) -> (p: Point3)
        requires
            self.wf(),
            fp_in_range(t as int),
        ensures
            p@ == ray_at(self@, t as int),
            p.wf(),
    {
        self.orig.add(&self.dir.scale(t))
    }
}

} // verus!
