//! Ray-sphere intersection by the half-b quadratic formula.
//!
//! The outcome of an intersection test is pinned down exactly by the
//! spec function [`sph_hit_t`]; the executable test is proved to
//! return precisely that root, together with the front-face-oriented
//! normal.

use vstd::prelude::*;
use crate::fixed::{
    add_fp, div_fp, fp_add, fp_div, fp_in_range, fp_mul, fp_sqrt, fp_sub, iabs, is_sqrt, mul_fp,
    neg_fp, sqrt_fp, sub_fp, FP_ONE,
};
use crate::hit::HitRecord;
use crate::material::{mat_wf, Material};
use crate::ray::{ray_at, Ray, RayV};
use crate::vec3::{v_div_s, v_dot, v_len, v_len_sq, v_neg, v_sub, v_unit, Point3, V3};

verus! {

/// A sphere: a center, a radius (negative radius models a hollow
/// sphere whose outward normal points inward), and its material.
#[derive(Clone, Copy, Debug)]
pub struct Sphere {
    pub center: Point3,
    pub radius: i64,
    pub material: Material,
}

/// Offset from the sphere's center to the ray's origin.
pub open spec fn sph_oc(s: Sphere, r: RayV) -> V3 {
    v_sub(r.orig, s.center@)
}

/// Quadratic coefficient `a = |D|^2`.
pub open spec fn sph_a(r: RayV) -> int {
    v_len_sq(r.dir)
}

/// Half the linear coefficient, `half_b = (O - C) . D`.
pub open spec fn sph_half_b(s: Sphere, r: RayV) -> int {
    v_dot(sph_oc(s, r), r.dir)
}

/// Constant coefficient `c = |O - C|^2 - r^2`.
pub open spec fn sph_c(s: Sphere, r: RayV) -> int {
    fp_sub(v_len_sq(sph_oc(s, r)), fp_mul(s.radius as int, s.radius as int))
}

/// Discriminant `half_b^2 - a c`; negative means no intersection.
pub open spec fn sph_disc(s: Sphere, r: RayV) -> int {
    fp_sub(fp_mul(sph_half_b(s, r), sph_half_b(s, r)), fp_mul(sph_a(r), sph_c(s, r)))
}

/// Square root of the discriminant.
pub open spec fn sph_sqrtd(s: Sphere, r: RayV) -> int {
    fp_sqrt(sph_disc(s, r))
}

/// The smaller quadratic root `(-half_b - sqrt(disc)) / a`.
pub open spec fn sph_root1(s: Sphere, r: RayV) -> int {
    fp_div(fp_sub(-sph_half_b(s, r), sph_sqrtd(s, r)), sph_a(r))
}

/// The larger quadratic root `(-half_b + sqrt(disc)) / a`.
pub open spec fn sph_root2(s: Sphere, r: RayV) -> int {
    fp_div(fp_add(-sph_half_b(s, r), sph_sqrtd(s, r)), sph_a(r))
}

/// The intersection parameter the test reports: the nearer root when
/// it lies in `[t_min, t_max]`, otherwise the farther root when it
/// does, otherwise nothing.
pub open spec fn sph_hit_t(s: Sphere, r: RayV, t_min: int, t_max: int) -> Option<int> {
    if sph_disc(s, r) < 0 {
        None
    } else {
        let r1 = sph_root1(s, r);
        if t_min <= r1 && r1 <= t_max {
            Some(r1)
        } else {
            let r2 = sph_root2(s, r);
            if t_min <= r2 && r2 <= t_max {
                Some(r2)
            } else {
                None
            }
        }
    }
}

/// Outward normal at the point hit at parameter `t`:
/// `(P(t) - C) / radius` (inward-facing for a negative radius).
pub open spec fn sph_outward_normal(s: Sphere, r: RayV, t: int) -> V3 {
    v_div_s(v_sub(ray_at(r, t), s.center@), s.radius as int)
}

/// Whether the outward normal faces the incoming ray.
pub open spec fn sph_front_face(s: Sphere, r: RayV, t: int) -> bool {
    v_dot(r.dir, sph_outward_normal(s, r, t)) < 0
}

/// The stored normal: the outward normal, flipped when the ray hits
/// from inside, so it always stands against the incoming ray.
pub open spec fn sph_normal(s: Sphere, r: RayV, t: int) -> V3 {
    if sph_front_face(s, r, t) {
        sph_outward_normal(s, r, t)
    } else {
        v_neg(sph_outward_normal(s, r, t))
    }
}

/// What a hit record reported for this sphere must hold.
pub open spec fn sph_rec_ok(s: Sphere, r: RayV, t_min: int, t_max: int, rec: HitRecord) -> bool {
    &&& sph_hit_t(s, r, t_min, t_max) == Some(rec.t as int)
    &&& rec.p@ == ray_at(r, rec.t as int)
    &&& rec.front_face == sph_front_face(s, r, rec.t as int)
    &&& rec.normal@ == sph_normal(s, r, rec.t as int)
    &&& rec.material == s.material
}

impl Sphere {
    /// A sphere from its center, radius and material.
    pub fn new(cen: Point3, r: i64, m: Material) -> (s: Sphere)
        requires
            cen.wf(),
            fp_in_range(r as int),
            mat_wf(m),
        ensures
            s.center == cen,
            s.radius == r,
            s.material == m,
            s.wf(),
    {
        Sphere { center: cen, radius: r, material: m }
    }

    /// All constituents well-formed.
    pub open spec fn wf(&self) -> bool {
        &&& self.center.wf()
        &&& fp_in_range(self.radius as int)
        &&& mat_wf(self.material)
    }

    /// The nearest intersection of `r` with this sphere whose
    /// parameter lies in `[t_min, t_max]`, or `None`; the record's
    /// normal is oriented against the incoming ray and `front_face`
    /// keeps the original winding.
    pub fn hit(&self, r: &Ray, t_min: i64, t_max: i64) -> (res: Option<HitRecord>)
        requires
            self.wf(),
            r.wf(),
            fp_in_range(t_min as int),
            fp_in_range(t_max as int),
        ensures
            match res {
                Some(rec) => sph_rec_ok(*self, r@, t_min as int, t_max as int, rec) && rec.wf(),
                None => sph_hit_t(*self, r@, t_min as int, t_max as int) is None,
            },
    {
        let oc = r.origin().sub(&self.center);
        let a = r.direction().length_squared();
        let half_b = oc.dot(&r.direction());
        let c = sub_fp(oc.length_squared(), mul_fp(self.radius, self.radius));

        let disc = sub_fp(mul_fp(half_b, half_b), mul_fp(a, c));
        if disc < 0 {
            return None;
        }

        // Find the nearest root that lies in the acceptable range.
        let sqrtd = sqrt_fp(disc);
        let mut root = div_fp(sub_fp(neg_fp(half_b), sqrtd), a);
        if root < t_min || t_max < root {
            root = div_fp(add_fp(neg_fp(half_b), sqrtd), a);
            if root < t_min || t_max < root {
                return None;
            }
        }

        let p = r.at(root);
        let outward_normal = p.sub(&self.center).div_scalar(self.radius);
        let front_face = r.direction().dot(&outward_normal) < 0;
        let normal = if front_face {
            outward_normal
        } else {
            outward_normal.neg()
        };
        Some(HitRecord { t: root, p, normal, front_face, material: self.material })
    }
}

/// The quadratic coefficient `a` is a squared length, hence nonnegative.
pub proof fn lemma_sph_a_nonneg(r: RayV)
    ensures
        0 <= sph_a(r),
{
    crate::vec3::lemma_v_len_sq_nonneg(r.dir);
}

/// The nearer root never exceeds the farther root.
pub proof fn lemma_roots_ordered(s: Sphere, r: RayV)
    requires
        0 <= sph_disc(s, r),
    ensures
        sph_root1(s, r) <= sph_root2(s, r),
{
    crate::fixed::lemma_fp_sqrt_bracket(sph_disc(s, r));
    lemma_sph_a_nonneg(r);
    crate::fixed::lemma_fp_div_ordered(
        fp_sub(-sph_half_b(s, r), sph_sqrtd(s, r)),
        fp_add(-sph_half_b(s, r), sph_sqrtd(s, r)),
        sph_a(r),
    );
}

/// Shrinking the upper bound of the parameter interval filters the
/// reported hit by that bound and changes nothing else. This is what
/// lets a scene scan keep only the closest hit so far.
pub proof fn lemma_hit_shrink(s: Sphere, r: RayV, t_min: int, t_cap: int, t_max: int)
    requires
        t_cap <= t_max,
    ensures
        sph_hit_t(s, r, t_min, t_cap) == (match sph_hit_t(s, r, t_min, t_max) {
            Some(t) => if t <= t_cap {
                Some(t)
            } else {
                None::<int>
            },
            None => None::<int>,
        }),
{
    if 0 <= sph_disc(s, r) {
        lemma_roots_ordered(s, r);
    }
}

/// A unit-speed ray aimed straight at a sphere's center from distance
/// `d > r` meets it at exactly `t = d - r` (the nearer root), facing
/// front, with the stored normal exactly opposite the unit direction.
/// Stated on an axis-aligned instance whose coordinates are multiples
/// of a thousandth of a unit, so that every square and quotient in the
/// quadratic is exact in the fixed-point scale.
pub proof fn lemma_head_on_hit(s: Sphere, ray: RayV, d: int, r: int, t_min: int, t_max: int)
    requires
        s.center@ == (V3 { x: 0, y: 0, z: -d }),
        s.radius as int == r,
        ray.orig == (V3 { x: 0, y: 0, z: 0 }),
        ray.dir == (V3 { x: 0, y: 0, z: -(FP_ONE as int) }),
        0 < r < d <= 1_000_000_000_000,
        d % 1000 == 0,
        r % 1000 == 0,
        t_min <= d - r <= t_max,
    ensures
        sph_hit_t(s, ray, t_min, t_max) == Some(d - r),
        sph_front_face(s, ray, d - r),
        sph_normal(s, ray, d - r) == v_neg(v_unit(ray.dir)),
{
    let one = FP_ONE as int;
    assert(iabs(0) == 0);
    assert(iabs(0) * iabs(0) == 0);
    assert(fp_mul(0, 0) == 0);

    // The squares of d and r are exact multiples of the scale.
    let dk = d / 1000;
    let rk = r / 1000;
    assert(d == 1000 * dk && r == 1000 * rk);
    assert(d * d == 1_000_000 * (dk * dk) && r * r == 1_000_000 * (rk * rk)
        && 0 < rk * rk <= dk * dk <= 1_000_000_000_000_000_000) by (nonlinear_arith)
        requires
            d == 1000 * dk,
            r == 1000 * rk,
            0 < r < d <= 1_000_000_000_000,
    ;
    vstd::arithmetic::div_mod::lemma_div_multiples_vanish(dk * dk, 1_000_000);
    vstd::arithmetic::div_mod::lemma_div_multiples_vanish(rk * rk, 1_000_000);
    assert(fp_mul(d, d) == dk * dk);
    assert(fp_mul(r as int, r as int) == rk * rk);

    // Products with the unit scalar and with the scale cancel exactly.
    vstd::arithmetic::div_mod::lemma_div_multiples_vanish(d, one);
    assert(iabs(d) * iabs(-one) == one * d) by (nonlinear_arith)
        requires
            0 < d,
            one == FP_ONE as int,
    ;
    assert(fp_mul(d, -one) == -d);
    assert(iabs(-one) * iabs(-one) == one * one) by (nonlinear_arith);
    vstd::arithmetic::div_mod::lemma_div_multiples_vanish(one, one);
    assert(fp_mul(-one, -one) == one);

    // Coefficients of the quadratic.
    assert(sph_oc(s, ray) == (V3 { x: 0, y: 0, z: d }));
    assert(sph_a(ray) == one);
    assert(sph_half_b(s, ray) == -d);
    assert(sph_c(s, ray) == dk * dk - rk * rk);

    // Discriminant r^2 (descaled) and its exact square root r.
    vstd::arithmetic::div_mod::lemma_div_multiples_vanish(dk * dk - rk * rk, one);
    assert(iabs(one) * iabs(dk * dk - rk * rk) == one * (dk * dk - rk * rk))
        by (nonlinear_arith)
        requires
            0 < dk * dk - rk * rk || dk * dk - rk * rk == 0,
            one == FP_ONE as int,
    ;
    assert(fp_mul(one, dk * dk - rk * rk) == dk * dk - rk * rk);
    assert(sph_disc(s, ray) == rk * rk);
    assert((rk * rk) * one == r * r) by (nonlinear_arith)
        requires
            r == 1000 * rk,
            r * r == 1_000_000 * (rk * rk),
            one == FP_ONE as int,
    ;
    assert(is_sqrt(r * r, r)) by (nonlinear_arith)
        requires
            0 < r,
    ;
    crate::fixed::lemma_sqrt_unique(r * r, r);
    assert(sph_sqrtd(s, ray) == r);

    // The nearer root is (d - r) / 1 == d - r, inside the interval.
    vstd::arithmetic::div_mod::lemma_div_multiples_vanish(d - r, one);
    assert(iabs(d - r) * iabs(one) == one * (d - r)) by (nonlinear_arith)
        requires
            0 < d - r,
            one == FP_ONE as int,
    ;
    assert(fp_div(d - r, one) == d - r);
    assert(sph_root1(s, ray) == d - r);
    assert(sph_hit_t(s, ray, t_min, t_max) == Some(d - r));

    // The hit point, the outward normal, and its orientation.
    assert(iabs(-one) * iabs(d - r) == one * (d - r)) by (nonlinear_arith)
        requires
            0 < d - r,
            one == FP_ONE as int,
    ;
    assert(fp_mul(-one, d - r) == -(d - r));
    assert(ray_at(ray, d - r) == (V3 { x: 0, y: 0, z: -(d - r) }));
    assert(v_sub(ray_at(ray, d - r), s.center@) == (V3 { x: 0, y: 0, z: r }));
    vstd::arithmetic::div_mod::lemma_div_multiples_vanish(one, r);
    assert(iabs(r) * one == r * one) by (nonlinear_arith)
        requires
            0 < r,
    ;
    assert(fp_div(r, r) == one);
    assert(sph_outward_normal(s, ray, d - r) == (V3 { x: 0, y: 0, z: one }));
    assert(iabs(-one) * iabs(one) == one * one) by (nonlinear_arith);
    assert(fp_mul(-one, one) == -one);
    assert(sph_front_face(s, ray, d - r));

    // The unit ray direction is the direction itself, so the stored
    // normal is exactly its opposite.
    assert(is_sqrt(one * one, one));
    crate::fixed::lemma_sqrt_unique(one * one, one);
    assert(v_len(ray.dir) == one);
    assert(fp_div(0, one) == 0);
    assert(fp_div(-one, one) == -one);
    assert(v_unit(ray.dir) == ray.dir);
}

/// A ray that passes the sphere perpendicular to the center offset
/// (`half_b == 0`) from strictly outside (positive `c`, with the
/// product `a c` large enough not to round to zero) has a negative
/// discriminant and therefore misses, whatever the interval.
pub proof fn lemma_perpendicular_far_miss(s: Sphere, r: RayV, t_min: int, t_max: int)
    requires
        sph_half_b(s, r) == 0,
        0 < fp_mul(sph_a(r), sph_c(s, r)),
    ensures
        sph_disc(s, r) < 0,
        sph_hit_t(s, r, t_min, t_max) is None,
{
    assert(iabs(0) == 0);
    assert(iabs(0) * iabs(0) == 0);
    assert(fp_mul(0, 0) == 0);
}

} // verus!
