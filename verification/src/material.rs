//! The closed set of surface materials and their scattering model.
//!
//! A material maps an incoming ray and a hit record to either an
//! absorbed ray (no scatter) or an attenuation colour plus an
//! outgoing ray.

use vstd::prelude::*;
use crate::fixed::{
    add_fp, div_fp, fp_add, fp_div, fp_in_range, fp_mul, fp_sqrt, fp_sub, iabs, mul_fp, sqrt_fp,
    sub_fp, FP_ONE,
};
use crate::hit::HitRecord;
use crate::ray::{Ray, RayV};
use crate::rng::{random_in_unit_sphere, random_unit_vector, rand_range};
use crate::vec3::{
    v3_wf, v_add, v_dot, v_len_sq, v_near_zero, v_neg, v_reflect, v_refract, v_scale, v_unit,
    Color, Vec3, V3,
};

verus! {

/// A surface material: diffuse, metallic with a fuzz radius, or
/// dielectric with a refraction index.
#[derive(Clone, Copy, PartialEq, Eq, Structural, Debug)]
pub enum Material {
    /// Diffuse surface with the given albedo.
    Lambertian { albedo: Color },
    /// Mirror-like surface with the given albedo and a fuzz radius in `[0, 1]`.
    Metal { albedo: Color, fuzz: i64 },
    /// Transparent surface with the given refraction index.
    Dielectric { ir: i64 },
}

/// Well-formed material parameters: colours in range, fuzz in `[0, 1]`,
/// a positive refraction index.
pub open spec fn mat_wf(m: Material) -> bool {
    match m {
        Material::Lambertian { albedo } => v3_wf(albedo@),
        Material::Metal { albedo, fuzz } => v3_wf(albedo@) && 0 <= fuzz <= FP_ONE,
        Material::Dielectric { ir } => 0 < ir && fp_in_range(ir as int),
    }
}

/// The relative refraction ratio a dielectric uses: the reciprocal of
/// the index when entering the medium, the index itself when leaving.
pub open spec fn dielectric_ratio(ir: int, front_face: bool) -> int {
    if front_face {
        fp_div(FP_ONE as int, ir)
    } else {
        ir
    }
}

/// Cosine of the angle of incidence: `-unit(dir) . normal`, clamped
/// into `[-1, 1]` against fixed-point rounding.
pub open spec fn dielectric_cos(unit_dir: V3, normal: V3) -> int {
    let d = v_dot(v_neg(unit_dir), normal);
    if d > FP_ONE as int {
        FP_ONE as int
    } else if d < -(FP_ONE as int) {
        -(FP_ONE as int)
    } else {
        d
    }
}

/// Sine of the angle of incidence, from the cosine.
pub open spec fn dielectric_sin(cos: int) -> int {
    fp_sqrt(fp_sub(FP_ONE as int, fp_mul(cos, cos)))
}

/// Total internal reflection: the scaled sine leaves the unit range,
/// so Snell's law has no solution and the surface must reflect.
pub open spec fn total_internal_reflection(ir: int, front_face: bool, unit_dir: V3, normal: V3) -> bool {
    fp_mul(dielectric_ratio(ir, front_face), dielectric_sin(dielectric_cos(unit_dir, normal)))
        > FP_ONE as int
}

/// What a successful scatter must satisfy, for every random outcome.
/// The attenuation is fixed by the material; the outgoing ray starts
/// at the hit point; variant-specific clauses pin the direction where
/// the model is deterministic.
pub open spec fn scatter_ok(m: Material, r_in: RayV, rec: HitRecord, att: Color, out: RayV) -> bool {
    &&& out.orig == rec.p@
    &&& v3_wf(out.dir)
    &&& match m {
        Material::Lambertian { albedo } => {
            // Diffuse: attenuation is always the albedo; the direction is
            // the normal plus a random unit direction, with the bare
            // normal as the fallback when the two cancel.
            &&& att == albedo
            &&& exists|g: V3|
                #![auto]
                v3_wf(g) && ((out.dir == v_add(rec.normal@, g) && !v_near_zero(out.dir)) || (
                v_near_zero(v_add(rec.normal@, g)) && out.dir == rec.normal@))
        },
        Material::Metal { albedo, fuzz } => {
            // Metal: attenuation is the albedo; the outgoing direction
            // leaves the surface, and with no fuzz it is exactly the
            // mirror reflection of the incoming unit direction.
            &&& att == albedo
            &&& v_dot(out.dir, rec.normal@) > 0
            &&& exists|g: V3|
                #![auto]
                v3_wf(g) && v_len_sq(g) < FP_ONE as int && out.dir == v_add(
                    v_reflect(v_unit(r_in.dir), rec.normal@),
                    v_scale(g, fuzz as int),
                )
            &&& (fuzz == 0 ==> out.dir == v_reflect(v_unit(r_in.dir), rec.normal@))
        },
        Material::Dielectric { ir } => {
            // Dielectric: no absorption, and the direction is either the
            // mirror reflection or the Snell refraction of the incoming
            // unit direction; total internal reflection forces the former.
            let unit_dir = v_unit(r_in.dir);
            let cos = dielectric_cos(unit_dir, rec.normal@);
            let ratio = dielectric_ratio(ir as int, rec.front_face);
            &&& att@ == (V3 { x: FP_ONE as int, y: FP_ONE as int, z: FP_ONE as int })
            &&& (out.dir == v_reflect(unit_dir, rec.normal@)
                || (!total_internal_reflection(ir as int, rec.front_face, unit_dir, rec.normal@)
                    && out.dir == v_refract(unit_dir, rec.normal@, ratio, cos)))
            &&& (total_internal_reflection(ir as int, rec.front_face, unit_dir, rec.normal@)
                ==> out.dir == v_reflect(unit_dir, rec.normal@))
        },
    }
}

impl Material {
    /// Well-formedness of the parameters.
    pub open spec fn wf(&self) -> bool {
        mat_wf(*self)
    }

    /// Scatter an incoming ray at a hit on this material.
    ///
    /// Returns the attenuation and the outgoing ray, or `None` when
    /// the ray is absorbed. A diffuse or dielectric surface always
    /// scatters; a metal absorbs exactly those rays whose (possibly
    /// fuzzed) mirror direction does not leave the surface, and with
    /// no fuzz that happens exactly when the mirror reflection itself
    /// points into the surface.
    pub fn scatter(&self, r_in: &Ray, rec: &HitRecord) -> (res: Option<(Color, Ray)>)
        requires
            self.wf(),
            r_in.wf(),
            rec.wf(),
        ensures
            match res {
                Some((att, out)) => scatter_ok(*self, r_in@, *rec, att, out@) && out.wf()
                    && att.wf(),
                None => {
                    &&& self matches Material::Metal { albedo, fuzz }
                    &&& exists|g: V3|
                        #![auto]
                        v3_wf(g) && v_len_sq(g) < FP_ONE as int && v_dot(
                            v_add(
                                v_reflect(v_unit(r_in@.dir), rec.normal@),
                                v_scale(g, fuzz as int),
                            ),
                            rec.normal@,
                        ) <= 0
                    &&& (fuzz == 0 ==> v_dot(
                        v_reflect(v_unit(r_in@.dir), rec.normal@),
                        rec.normal@,
                    ) <= 0)
                },
            },
            self matches Material::Lambertian { albedo } ==> res is Some,
            self matches Material::Dielectric { ir } ==> res is Some,
            self matches Material::Metal { albedo, fuzz } && fuzz == 0 ==> (res is Some
                <==> v_dot(v_reflect(v_unit(r_in@.dir), rec.normal@), rec.normal@) > 0),
    {
        match *self {
            Material::Lambertian { albedo } => {
                let g = random_unit_vector();
                let mut dir = rec.normal.add(&g);
                if dir.near_zero() {
                    dir = rec.normal;
                }
                proof {
                    assert(v3_wf(g@) && ((dir@ == v_add(rec.normal@, g@) && !v_near_zero(dir@))
                        || (v_near_zero(v_add(rec.normal@, g@)) && dir@ == rec.normal@)));
                }
                Some((albedo, Ray::new(rec.p, dir)))
            },
            Material::Metal { albedo, fuzz } => {
                let reflected = r_in.direction().normalized().reflect(&rec.normal);
                let rv = random_in_unit_sphere();
                let dir = reflected.add(&rv.scale(fuzz));
                proof {
                    if fuzz == 0 {
                        crate::vec3::lemma_v_scale_zero(rv@);
                        crate::vec3::lemma_v_add_zero(reflected@);
                        assert(dir@ == reflected@);
                    }
                }
                if dir.dot(&rec.normal) > 0 {
                    Some((albedo, Ray::new(rec.p, dir)))
                } else {
                    None
                }
            },
            Material::Dielectric { ir } => {
                let ratio = if rec.front_face {
                    div_fp(FP_ONE, ir)
                } else {
                    ir
                };
                let unit_dir = r_in.direction().normalized();
                let d = unit_dir.neg().dot(&rec.normal);
                let cos = if d > FP_ONE {
                    FP_ONE
                } else if d < -FP_ONE {
                    -FP_ONE
                } else {
                    d
                };
                proof {
                    lemma_cos_sq_in_unit(cos as int);
                }
                let sin = sqrt_fp(sub_fp(FP_ONE, mul_fp(cos, cos)));
                let cannot_refract = mul_fp(ratio, sin) > FP_ONE;
                let draw = rand_range(0, FP_ONE);
                let dir = if cannot_refract || reflectance(cos, ratio) > draw {
                    unit_dir.reflect(&rec.normal)
                } else {
                    unit_dir.refract(&rec.normal, ratio, cos)
                };
                Some((Vec3::new(FP_ONE, FP_ONE, FP_ONE), Ray::new(rec.p, dir)))
            },
        }
    }
}

/// The clamped incidence cosine squares to at most one.
pub proof fn lemma_cos_sq_in_unit(cos: int)
    requires
        iabs(cos) <= FP_ONE as int,
    ensures
        0 <= fp_mul(cos, cos) <= FP_ONE as int,
{
    crate::fixed::lemma_fp_square_nonneg(cos);
    assert(iabs(cos) * iabs(cos) <= (FP_ONE as int) * (FP_ONE as int)) by (nonlinear_arith)
        requires
            0 <= iabs(cos) <= FP_ONE as int,
    ;
    vstd::arithmetic::div_mod::lemma_div_is_ordered(
        iabs(cos) * iabs(cos),
        (FP_ONE as int) * (FP_ONE as int),
        FP_ONE as int,
    );
}

/// A dielectric with refraction index one can never totally
/// internally reflect: its relative ratio is one, and the sine never
/// exceeds one, so Snell's law always has a solution and the surface
/// always transmits the incoming direction (up to fixed-point
/// rounding) whenever the reflectance draw lets it.
pub proof fn lemma_unit_index_no_total_internal_reflection(
    front_face: bool,
    unit_dir: V3,
    normal: V3,
)
    ensures
        !total_internal_reflection(FP_ONE as int, front_face, unit_dir, normal),
{
    let cos = dielectric_cos(unit_dir, normal);
    assert(iabs(cos) <= FP_ONE as int);
    lemma_cos_sq_in_unit(cos);
    let arg = fp_sub(FP_ONE as int, fp_mul(cos, cos));
    assert(0 <= arg <= FP_ONE as int);
    let sin = dielectric_sin(cos);
    crate::fixed::lemma_fp_sqrt_bracket(arg);
    assert(crate::fixed::is_sqrt(arg * (FP_ONE as int), sin));
    assert(sin <= FP_ONE as int) by (nonlinear_arith)
        requires
            crate::fixed::is_sqrt(arg * (FP_ONE as int), sin),
            0 <= arg <= FP_ONE as int,
    ;
    let ratio = dielectric_ratio(FP_ONE as int, front_face);
    assert(ratio == FP_ONE as int);
    assert(iabs(FP_ONE as int) * iabs(sin) == (FP_ONE as int) * sin);
    vstd::arithmetic::div_mod::lemma_div_multiples_vanish(sin, FP_ONE as int);
    assert(fp_mul(ratio, sin) == sin);
}

/// Schlick's polynomial approximation of the Fresnel reflectance:
/// `r0 + (1 - r0) * (1 - cos)^5` with `r0 = ((1 - ratio) / (1 + ratio))^2`.
pub open spec fn spec_reflectance(cos: int, ratio: int) -> int {
    let r0 = fp_div(fp_sub(FP_ONE as int, ratio), fp_add(FP_ONE as int, ratio));
    let r0sq = fp_mul(r0, r0);
    let k = fp_sub(FP_ONE as int, cos);
    let k5 = fp_mul(fp_mul(fp_mul(fp_mul(k, k), k), k), k);
    fp_add(r0sq, fp_mul(fp_sub(FP_ONE as int, r0sq), k5))
}

/// Schlick's reflectance approximation (see [`spec_reflectance`]).
pub fn reflectance(cos: i64, ratio: i64) -> (r: i64)
    requires
        fp_in_range(cos as int),
        fp_in_range(ratio as int),
    ensures
        r as int == spec_reflectance(cos as int, ratio as int),
{
    let r0 = div_fp(sub_fp(FP_ONE, ratio), add_fp(FP_ONE, ratio));
    let r0sq = mul_fp(r0, r0);
    let k = sub_fp(FP_ONE, cos);
    let k5 = mul_fp(mul_fp(mul_fp(mul_fp(k, k), k), k), k);
    add_fp(r0sq, mul_fp(sub_fp(FP_ONE, r0sq), k5))
}

} // verus!
