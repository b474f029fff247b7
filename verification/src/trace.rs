//! The radiance integrator: recursive colour accumulation with a
//! depth budget and a sky-gradient background.

use vstd::prelude::*;
use crate::fixed::{add_fp, fp_add, fp_mul, fp_sub, mul_fp, sub_fp, FP_HALF, FP_MAX, FP_ONE};
use crate::ray::{Ray, RayV};
use crate::vec3::{v_add, v_scale, v_unit, v_zero, Color, Vec3, V3};
use crate::world::{world_misses, World};

verus! {

/// Hits closer than this parameter are ignored (shadow-acne guard).
pub const T_MIN_HIT: i64 = 1_000;

/// Black: the colour of an exhausted or absorbed path.
pub open spec fn black() -> V3 {
    v_zero()
}

/// The sky gradient: blend white and sky blue by the unit direction's
/// vertical component remapped from `[-1, 1]` to `[0, 1]`.
pub open spec fn sky_color(r: RayV) -> V3 {
    let unit = v_unit(r.dir);
    let t = fp_mul(FP_HALF as int, fp_add(unit.y, FP_ONE as int));
    v_add(
        v_scale(V3 { x: FP_ONE as int, y: FP_ONE as int, z: FP_ONE as int }, fp_sub(FP_ONE as int, t)),
        v_scale(V3 { x: FP_HALF as int, y: 700_000, z: FP_ONE as int }, t),
    )
}

/// The colour carried back along one ray.
///
/// A zero depth budget yields black; a ray that misses every sphere
/// yields exactly the sky gradient; a hit scatters at the surface
/// material and recurses with the attenuation applied componentwise,
/// and an absorbed ray yields black.
pub fn ray_color(r: &Ray, world: &World, depth: u64) -> (c: Color)
    requires
        r.wf(),
        world.wf(),
    ensures
        c.wf(),
        depth == 0 ==> c@ == black(),
        depth > 0 && world_misses(world, r@, T_MIN_HIT as int, FP_MAX as int) ==> c@ == sky_color(
            r@,
        ),
    decreases depth,
{
    if depth == 0 {
        return Vec3::new(0, 0, 0);
    }
    match world.hit(r, T_MIN_HIT, FP_MAX) {
        Some(rec) => {
            match rec.material.scatter(r, &rec) {
                Some((attenuation, scattered)) => {
                    attenuation.mul(&ray_color(&scattered, world, depth - 1))
                },
                None => Vec3::new(0, 0, 0),
            }
        },
        None => {
            let unit = r.direction().normalized();
            let t = mul_fp(FP_HALF, add_fp(unit.y, FP_ONE));
            let white = Vec3::new(FP_ONE, FP_ONE, FP_ONE);
            let blue = Vec3::new(FP_HALF, 700_000, FP_ONE);
            white.scale(sub_fp(FP_ONE, t)).add(&blue.scale(t))
        },
    }
}

} // verus!
