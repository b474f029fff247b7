//! Three-component fixed-point vectors, used for points, directions
//! and colours.
//!
//! Every executable operation is specified exactly by a spec-level
//! counterpart over the mathematical view [`V3`].

use vstd::prelude::*;
use crate::fixed::{
    add_fp, div_fp, fp_add, fp_div, fp_in_range, fp_mul, fp_sqrt, fp_sub, iabs, mul_fp, neg_fp,
    sqrt_fp, sub_fp, FP_ONE,
};

verus! {

/// Mathematical view of a vector: three unbounded integers
/// (raw fixed-point values).
pub ghost struct V3 {
    pub x: int,
    pub y: int,
    pub z: int,
}

/// A point, direction or colour: three fixed-point components.
#[derive(Clone, Copy, PartialEq, Eq, Structural, Debug)]
pub struct Vec3 {
    pub x: i64,
    pub y: i64,
    pub z: i64,
}

/// A location in space.
pub type Point3 = Vec3;

/// A colour triple (r, g, b), each channel a fixed-point scalar.
pub type Color = Vec3;

impl View for Vec3 {
    type V = V3;

    open spec fn view(&self) -> V3 {
        V3 { x: self.x as int, y: self.y as int, z: self.z as int }
    }
}

/// All components within the representable scalar range.
pub open spec fn v3_wf(v: V3) -> bool {
    fp_in_range(v.x) && fp_in_range(v.y) && fp_in_range(v.z)
}

/// Componentwise sum.
pub open spec fn v_add(a: V3, b: V3) -> V3 {
    V3 { x: fp_add(a.x, b.x), y: fp_add(a.y, b.y), z: fp_add(a.z, b.z) }
}

/// Componentwise difference.
pub open spec fn v_sub(a: V3, b: V3) -> V3 {
    V3 { x: fp_sub(a.x, b.x), y: fp_sub(a.y, b.y), z: fp_sub(a.z, b.z) }
}

/// Componentwise negation.
pub open spec fn v_neg(a: V3) -> V3 {
    V3 { x: -a.x, y: -a.y, z: -a.z }
}

/// Scaling by a fixed-point scalar.
pub open spec fn v_scale(a: V3, k: int) -> V3 {
    V3 { x: fp_mul(a.x, k), y: fp_mul(a.y, k), z: fp_mul(a.z, k) }
}

/// Componentwise (Hadamard) product, used for colour attenuation.
pub open spec fn v_mul(a: V3, b: V3) -> V3 {
    V3 { x: fp_mul(a.x, b.x), y: fp_mul(a.y, b.y), z: fp_mul(a.z, b.z) }
}

/// Dot product.
pub open spec fn v_dot(a: V3, b: V3) -> int {
    fp_add(fp_add(fp_mul(a.x, b.x), fp_mul(a.y, b.y)), fp_mul(a.z, b.z))
}

/// Squared Euclidean length.
pub open spec fn v_len_sq(a: V3) -> int {
    v_dot(a, a)
}

/// Euclidean length (fixed-point square root of the squared length).
pub open spec fn v_len(a: V3) -> int {
    fp_sqrt(v_len_sq(a))
}

/// The zero vector.
pub open spec fn v_zero() -> V3 {
    V3 { x: 0, y: 0, z: 0 }
}

/// Direction of `a`: each component divided by the length; the zero
/// vector when the length rounds to zero (degenerate-input guard).
pub open spec fn v_unit(a: V3) -> V3 {
    let l = v_len(a);
    if l == 0 {
        v_zero()
    } else {
        V3 { x: fp_div(a.x, l), y: fp_div(a.y, l), z: fp_div(a.z, l) }
    }
}

/// Componentwise division by a fixed-point scalar.
pub open spec fn v_div_s(a: V3, k: int) -> V3 {
    V3 { x: fp_div(a.x, k), y: fp_div(a.y, k), z: fp_div(a.z, k) }
}

/// Cross product.
pub open spec fn v_cross(a: V3, b: V3) -> V3 {
    V3 {
        x: fp_sub(fp_mul(a.y, b.z), fp_mul(a.z, b.y)),
        y: fp_sub(fp_mul(a.z, b.x), fp_mul(a.x, b.z)),
        z: fp_sub(fp_mul(a.x, b.y), fp_mul(a.y, b.x)),
    }
}

/// Mirror reflection of `v` about the normal `n`: `v - 2 (v.n) n`.
pub open spec fn v_reflect(v: V3, n: V3) -> V3 {
    let d = v_dot(v, n);
    v_sub(v, v_scale(n, fp_add(d, d)))
}

/// Snell refraction of the unit direction `uv` at normal `n` with
/// relative index `ratio`: the perpendicular part is
/// `ratio * (uv + cos * n)` and the parallel part restores unit
/// length with `-sqrt(|1 - |perp|^2|) * n`.
pub open spec fn v_refract(uv: V3, n: V3, ratio: int, cos: int) -> V3 {
    let perp = v_scale(v_add(uv, v_scale(n, cos)), ratio);
    let par_len = fp_sqrt(iabs(fp_sub(FP_ONE as int, v_len_sq(perp))));
    v_add(perp, v_scale(n, -par_len))
}

/// Exactly zero in every component (the fixed-point reading of a
/// degenerate, near-zero direction).
pub open spec fn v_near_zero(a: V3) -> bool {
    a.x == 0 && a.y == 0 && a.z == 0
}

/// Scaling by the zero scalar yields the zero vector.
pub proof fn lemma_v_scale_zero(v: V3)
    ensures
        v_scale(v, 0) == v_zero(),
{
    assert(iabs(0) == 0);
    assert(iabs(v.x) * iabs(0) == 0);
    assert(iabs(v.y) * iabs(0) == 0);
    assert(iabs(v.z) * iabs(0) == 0);
}

/// A squared length is never negative.
pub proof fn lemma_v_len_sq_nonneg(v: V3)
    ensures
        0 <= v_len_sq(v) <= crate::fixed::FP_MAX as int,
{
    crate::fixed::lemma_fp_square_nonneg(v.x);
    crate::fixed::lemma_fp_square_nonneg(v.y);
    crate::fixed::lemma_fp_square_nonneg(v.z);
}

/// Adding the zero vector changes nothing on a well-formed vector.
pub proof fn lemma_v_add_zero(v: V3)
    requires
        v3_wf(v),
    ensures
        v_add(v, v_zero()) == v,
{
}

impl Vec3 {
    /// A vector from raw fixed-point components.
    pub fn new(x: i64, y: i64, z: i64) -> (r: Vec3)
        requires
            fp_in_range(x as int),
            fp_in_range(y as int),
            fp_in_range(z as int),
        ensures
            r@ == (V3 { x: x as int, y: y as int, z: z as int }),
            v3_wf(r@),
    {
        Vec3 { x, y, z }
    }

    /// Well-formedness: all components in range.
    pub open spec fn wf(&self) -> bool {
        v3_wf(self@)
    }

    /// Componentwise sum.
    pub fn add(&self, o: &Vec3) -> (r: Vec3)
        requires
            self.wf(),
            o.wf(),
        ensures
            r@ == v_add(self@, o@),
            r.wf(),
    {
        Vec3 { x: add_fp(self.x, o.x), y: add_fp(self.y, o.y), z: add_fp(self.z, o.z) }
    }

    /// Componentwise difference.
    pub fn sub(&self, o: &Vec3) -> (r: Vec3)
        requires
            self.wf(),
            o.wf(),
        ensures
            r@ == v_sub(self@, o@),
            r.wf(),
    {
        Vec3 { x: sub_fp(self.x, o.x), y: sub_fp(self.y, o.y), z: sub_fp(self.z, o.z) }
    }

    /// Componentwise negation.
    pub fn neg(&self) -> (r: Vec3)
        requires
            self.wf(),
        ensures
            r@ == v_neg(self@),
            r.wf(),
    {
        Vec3 { x: neg_fp(self.x), y: neg_fp(self.y), z: neg_fp(self.z) }
    }

    /// Scaling by a fixed-point scalar.
    pub fn scale(&self, k: i64) -> (r: Vec3)
        requires
            self.wf(),
            fp_in_range(k as int),
        ensures
            r@ == v_scale(self@, k as int),
            r.wf(),
    {
        Vec3 { x: mul_fp(self.x, k), y: mul_fp(self.y, k), z: mul_fp(self.z, k) }
    }

    /// Componentwise division by a fixed-point scalar.
    pub fn div_scalar(&self, k: i64) -> (r: Vec3)
        requires
            self.wf(),
            fp_in_range(k as int),
        ensures
            r@ == v_div_s(self@, k as int),
            r.wf(),
    {
        Vec3 { x: div_fp(self.x, k), y: div_fp(self.y, k), z: div_fp(self.z, k) }
    }

    /// Componentwise product (colour attenuation).
    pub fn mul(&self, o: &Vec3) -> (r: Vec3)
        requires
            self.wf(),
            o.wf(),
        ensures
            r@ == v_mul(self@, o@),
            r.wf(),
    {
        Vec3 { x: mul_fp(self.x, o.x), y: mul_fp(self.y, o.y), z: mul_fp(self.z, o.z) }
    }

    /// Dot product.
    pub fn dot(&self, o: &Vec3) -> (r: i64)
        requires
            self.wf(),
            o.wf(),
        ensures
            r as int == v_dot(self@, o@),
            fp_in_range(r as int),
    {
        add_fp(add_fp(mul_fp(self.x, o.x), mul_fp(self.y, o.y)), mul_fp(self.z, o.z))
    }

    /// Cross product.
    pub fn cross(&self, o: &Vec3) -> (r: Vec3)
        requires
            self.wf(),
            o.wf(),
        ensures
            r@ == v_cross(self@, o@),
            r.wf(),
    {
        Vec3 {
            x: sub_fp(mul_fp(self.y, o.z), mul_fp(self.z, o.y)),
            y: sub_fp(mul_fp(self.z, o.x), mul_fp(self.x, o.z)),
            z: sub_fp(mul_fp(self.x, o.y), mul_fp(self.y, o.x)),
        }
    }

    /// Squared length; never negative.
    pub fn length_squared(&self) -> (r: i64)
        requires
            self.wf(),
        ensures
            r as int == v_len_sq(self@),
            0 <= r,
            fp_in_range(r as int),
    {
        proof {
            crate::fixed::lemma_fp_square_nonneg(self@.x);
            crate::fixed::lemma_fp_square_nonneg(self@.y);
            crate::fixed::lemma_fp_square_nonneg(self@.z);
        }
        self.dot(self)
    }

    /// Euclidean length; never negative.
    pub fn length(&self) -> (r: i64)
        requires
            self.wf(),
        ensures
            r as int == v_len(self@),
            0 <= r,
            fp_in_range(r as int),
    {
        sqrt_fp(self.length_squared())
    }

    /// Direction of `self`; the zero vector for a degenerate
    /// (zero-length) input, which callers must treat as "no direction".
    pub fn normalized(&self) -> (r: Vec3)
        requires
            self.wf(),
        ensures
            r@ == v_unit(self@),
            r.wf(),
    {
        let l = self.length();
        if l == 0 {
            Vec3 { x: 0, y: 0, z: 0 }
        } else {
            Vec3 { x: div_fp(self.x, l), y: div_fp(self.y, l), z: div_fp(self.z, l) }
        }
    }

    /// Mirror reflection of `self` about the normal `n`.
    pub fn reflect(&self, n: &Vec3) -> (r: Vec3)
        requires
            self.wf(),
            n.wf(),
        ensures
            r@ == v_reflect(self@, n@),
            r.wf(),
    {
        let d = self.dot(n);
        self.sub(&n.scale(add_fp(d, d)))
    }

    /// Snell refraction of the unit direction `self` at normal `n`
    /// with relative refraction ratio `ratio` and incidence cosine `cos`.
    pub fn refract(&self, n: &Vec3, ratio: i64, cos: i64) -> (r: Vec3)
        requires
            self.wf(),
            n.wf(),
            fp_in_range(ratio as int),
            fp_in_range(cos as int),
        ensures
            r@ == v_refract(self@, n@, ratio as int, cos as int),
            r.wf(),
    {
        let perp = self.add(&n.scale(cos)).scale(ratio);
        let rest = sub_fp(FP_ONE, perp.length_squared());
        let rest_abs = if rest < 0 {
            neg_fp(rest)
        } else {
            rest
        };
        let par_len = sqrt_fp(rest_abs);
        perp.add(&n.scale(neg_fp(par_len)))
    }

    /// True when the vector is exactly zero (the degenerate-direction
    /// guard demanded by the scattering model).
    pub fn near_zero(&self) -> (r: bool)
        requires
            self.wf(),
        ensures
            r == v_near_zero(self@),
    {
        self.x == 0 && self.y == 0 && self.z == 0
    }
}

} // verus!
