//! The thin-lens camera: an orthonormal basis derived from the view
//! parameters, a focus-plane viewport, and per-sample lens-disk
//! perturbation for depth of field.

use vstd::prelude::*;
use crate::fixed::{add_fp, fp_add, fp_in_range, fp_mul, iabs, mul_fp, FP_HALF, FP_MAX, FP_ONE};
use crate::ray::Ray;
use crate::rng::random_in_unit_disk;
use crate::ray::RayV;
use crate::vec3::{
    lemma_v_add_zero, lemma_v_scale_zero, v3_wf, v_add, v_cross, v_len_sq, v_neg, v_scale, v_sub,
    v_unit, v_zero, Point3, Vec3, V3,
};

verus! {

/// Mathematical view of a camera.
pub ghost struct CamV {
    pub origin: V3,
    pub lower_left_corner: V3,
    pub horizontal: V3,
    pub vertical: V3,
    pub u: V3,
    pub v: V3,
    pub w: V3,
    pub lens_radius: int,
}

/// A camera fixed at construction: position, viewport frame on the
/// focus plane, orthonormal basis and lens radius.
#[derive(Clone, Copy, Debug)]
pub struct Camera {
    pub origin: Point3,
    pub lower_left_corner: Point3,
    pub horizontal: Vec3,
    pub vertical: Vec3,
    pub u: Vec3,
    pub v: Vec3,
    pub w: Vec3,
    pub lens_radius: i64,
}

impl View for Camera {
    type V = CamV;

    open spec fn view(&self) -> CamV {
        CamV {
            origin: self.origin@,
            lower_left_corner: self.lower_left_corner@,
            horizontal: self.horizontal@,
            vertical: self.vertical@,
            u: self.u@,
            v: self.v@,
            w: self.w@,
            lens_radius: self.lens_radius as int,
        }
    }
}

/// The camera every construction must yield: basis
/// `w = unit(lookfrom - lookat)`, `u = unit(vup x w)`, `v = w x u`;
/// viewport half-extents `tan(fov/2)` (given directly as a scalar)
/// and its aspect-scaled width, both pushed out to the focus plane;
/// lens radius half the aperture.
pub open spec fn cam_of(
    lookfrom: V3,
    lookat: V3,
    vup: V3,
    tan_half_fov: int,
    aspect_ratio: int,
    aperture: int,
    focus_dist: int,
) -> CamV {
    let viewport_height = fp_add(tan_half_fov, tan_half_fov);
    let viewport_width = fp_mul(aspect_ratio, viewport_height);
    let w = v_unit(v_sub(lookfrom, lookat));
    let u = v_unit(v_cross(vup, w));
    let v = v_cross(w, u);
    let horizontal = v_scale(u, fp_mul(focus_dist, viewport_width));
    let vertical = v_scale(v, fp_mul(focus_dist, viewport_height));
    let lower_left_corner = v_sub(
        v_sub(v_sub(lookfrom, v_scale(horizontal, FP_HALF as int)), v_scale(vertical, FP_HALF as int)),
        v_scale(w, focus_dist),
    );
    CamV {
        origin: lookfrom,
        lower_left_corner,
        horizontal,
        vertical,
        u,
        v,
        w,
        lens_radius: fp_mul(aperture, FP_HALF as int),
    }
}

/// The direction of the ray through image-plane coordinates `(s, t)`
/// from an unperturbed (zero-aperture) origin.
pub open spec fn cam_dir(c: CamV, s: int, t: int) -> V3 {
    v_sub(
        v_add(v_add(c.lower_left_corner, v_scale(c.horizontal, s)), v_scale(c.vertical, t)),
        c.origin,
    )
}

/// The ray through `(s, t)` for a given lens-disk sample: the origin
/// moves by the sample scaled to the lens radius and spanned by the
/// camera's `u`/`v` basis, and the direction is corrected back so the
/// ray still targets the same viewport point on the focus plane.
pub open spec fn cam_ray(c: CamV, s: int, t: int, sample: V3) -> RayV {
    let rd = v_scale(sample, c.lens_radius);
    let offset = v_add(v_scale(c.u, rd.x), v_scale(c.v, rd.y));
    RayV { orig: v_add(c.origin, offset), dir: v_sub(cam_dir(c, s, t), offset) }
}

impl Camera {
    /// Build a camera. `tan_half_fov` is the tangent of half the
    /// vertical field of view, as a fixed-point scalar (the caller
    /// converts from degrees); the other parameters are as in the
    /// classical thin-lens model.
    pub fn new(
        lookfrom: Point3,
        lookat: Point3,
        vup: Vec3,
        tan_half_fov: i64,
        aspect_ratio: i64,
        aperture: i64,
        focus_dist: i64,
    ) -> (c: Camera)
        requires
            lookfrom.wf(),
            lookat.wf(),
            vup.wf(),
            fp_in_range(tan_half_fov as int),
            fp_in_range(aspect_ratio as int),
            fp_in_range(aperture as int),
            fp_in_range(focus_dist as int),
        ensures
            c@ == cam_of(
                lookfrom@,
                lookat@,
                vup@,
                tan_half_fov as int,
                aspect_ratio as int,
                aperture as int,
                focus_dist as int,
            ),
            c.wf(),
            aperture == 0 ==> c.lens_radius == 0,
    {
        let viewport_height = add_fp(tan_half_fov, tan_half_fov);
        let viewport_width = mul_fp(aspect_ratio, viewport_height);
        let w = lookfrom.sub(&lookat).normalized();
        let u = vup.cross(&w).normalized();
        let v = w.cross(&u);
        let horizontal = u.scale(mul_fp(focus_dist, viewport_width));
        let vertical = v.scale(mul_fp(focus_dist, viewport_height));
        let lower_left_corner = lookfrom
            .sub(&horizontal.scale(FP_HALF))
            .sub(&vertical.scale(FP_HALF))
            .sub(&w.scale(focus_dist));
        proof {
            if aperture == 0 {
                assert(iabs(0) == 0);
                assert(iabs(0) * iabs(FP_HALF as int) == 0);
            }
        }
        Camera {
            origin: lookfrom,
            lower_left_corner,
            horizontal,
            vertical,
            u,
            v,
            w,
            lens_radius: mul_fp(aperture, FP_HALF),
        }
    }

    /// All constituents well-formed.
    pub open spec fn wf(&self) -> bool {
        &&& self.origin.wf()
        &&& self.lower_left_corner.wf()
        &&& self.horizontal.wf()
        &&& self.vertical.wf()
        &&& self.u.wf()
        &&& self.v.wf()
        &&& self.w.wf()
        &&& fp_in_range(self.lens_radius as int)
    }

    /// The primary ray through normalized image-plane coordinates
    /// `(s, t)`, its origin perturbed within the lens disk. With a
    /// zero lens radius the ray is exactly the deterministic one:
    /// from the camera origin along [`cam_dir`].
    pub fn get_ray(&self, s: i64, t: i64) -> (ray: Ray)
        requires
            self.wf(),
            0 <= s <= FP_ONE,
            0 <= t <= FP_ONE,
        ensures
            ray.wf(),
            exists|sample: V3|
                #![auto]
                v3_wf(sample) && v_len_sq(sample) < FP_ONE as int && sample.z == 0 && ray@
                    == cam_ray(self@, s as int, t as int, sample),
            self.lens_radius == 0 ==> ray@.orig == self@.origin && ray@.dir == cam_dir(
                self@,
                s as int,
                t as int,
            ),
    {
        let disk = random_in_unit_disk();
        let rd = disk.scale(self.lens_radius);
        let offset = self.u.scale(rd.x).add(&self.v.scale(rd.y));
        proof {
            if self.lens_radius == 0 {
                lemma_v_scale_zero(disk@);
                assert(rd@ == v_zero());
                lemma_v_scale_zero(self.u@);
                lemma_v_scale_zero(self.v@);
                assert(offset@ == v_zero());
                lemma_v_add_zero(self.origin@);
            }
        }
        let origin = self.origin.add(&offset);
        let dir = self
            .lower_left_corner
            .add(&self.horizontal.scale(s))
            .add(&self.vertical.scale(t))
            .sub(&self.origin)
            .sub(&offset);
        let ray = Ray::new(origin, dir);
        proof {
            assert(ray@ == cam_ray(self@, s as int, t as int, disk@));
        }
        ray
    }
}

/// Whether the cancellation in the centre ray stays clear of the
/// clipping bound, component by component: the origin plus the three
/// half-extent offsets must sum within range.
pub open spec fn cam_center_no_clip(
    lookfrom: V3,
    lookat: V3,
    vup: V3,
    tan_half_fov: int,
    aspect_ratio: int,
    aperture: int,
    focus_dist: int,
) -> bool {
    let c = cam_of(lookfrom, lookat, vup, tan_half_fov, aspect_ratio, aperture, focus_dist);
    let a = v_scale(c.horizontal, FP_HALF as int);
    let b = v_scale(c.vertical, FP_HALF as int);
    let g = v_scale(c.w, focus_dist);
    &&& iabs(lookfrom.x) + iabs(a.x) + iabs(b.x) + iabs(g.x) <= FP_MAX as int
    &&& iabs(lookfrom.y) + iabs(a.y) + iabs(b.y) + iabs(g.y) <= FP_MAX as int
    &&& iabs(lookfrom.z) + iabs(a.z) + iabs(b.z) + iabs(g.z) <= FP_MAX as int
}

/// The raw cancellation: subtracting three offsets from a point and
/// adding the first two back, all clear of the clipping bound, leaves
/// exactly the negated third offset.
pub proof fn lemma_center_cancellation(origin: V3, a: V3, b: V3, g: V3)
    requires
        iabs(origin.x) + iabs(a.x) + iabs(b.x) + iabs(g.x) <= FP_MAX as int,
        iabs(origin.y) + iabs(a.y) + iabs(b.y) + iabs(g.y) <= FP_MAX as int,
        iabs(origin.z) + iabs(a.z) + iabs(b.z) + iabs(g.z) <= FP_MAX as int,
    ensures
        v_sub(v_add(v_add(v_sub(v_sub(v_sub(origin, a), b), g), a), b), origin) == v_neg(g),
{
}

/// Through the image centre, a zero-aperture camera looks exactly
/// along `-focus_dist * w`, the scaled direction from `lookfrom`
/// toward `lookat` — the viewport offsets cancel exactly.
#[verifier::rlimit(60)]
pub proof fn lemma_center_ray_hits_target(
    lookfrom: V3,
    lookat: V3,
    vup: V3,
    tan_half_fov: int,
    aspect_ratio: int,
    aperture: int,
    focus_dist: int,
)
    requires
        cam_center_no_clip(lookfrom, lookat, vup, tan_half_fov, aspect_ratio, aperture, focus_dist),
    ensures
        ({
            let c = cam_of(lookfrom, lookat, vup, tan_half_fov, aspect_ratio, aperture, focus_dist);
            cam_dir(c, FP_HALF as int, FP_HALF as int) == v_neg(v_scale(c.w, focus_dist))
        }),
{
    let c = cam_of(lookfrom, lookat, vup, tan_half_fov, aspect_ratio, aperture, focus_dist);
    let a = v_scale(c.horizontal, FP_HALF as int);
    let b = v_scale(c.vertical, FP_HALF as int);
    let g = v_scale(c.w, focus_dist);
    assert(c.origin == lookfrom);
    assert(c.lower_left_corner == v_sub(v_sub(v_sub(lookfrom, a), b), g));
    lemma_center_cancellation(lookfrom, a, b, g);
    assert(cam_dir(c, FP_HALF as int, FP_HALF as int) == v_sub(
        v_add(v_add(v_sub(v_sub(v_sub(lookfrom, a), b), g), a), b),
        lookfrom,
    ));
}

} // verus!
