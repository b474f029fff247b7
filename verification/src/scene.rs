//! The demonstration scene: a large ground sphere, a grid of small
//! randomly-materialled spheres, and three fixed feature spheres.

use vstd::prelude::*;
use crate::fixed::FP_ONE;
use crate::material::Material;
use crate::rng::rand_range;
use crate::vec3::{Color, Vec3};
use crate::sphere::Sphere;
use crate::world::World;

verus! {

/// A colour with each channel drawn uniformly from `[lo, hi)`.
pub fn random_color(lo: i64, hi: i64) -> (c: Color)
    requires
        0 <= lo < hi <= FP_ONE,
    ensures
        c.wf(),
        0 <= c@.x <= FP_ONE as int,
        0 <= c@.y <= FP_ONE as int,
        0 <= c@.z <= FP_ONE as int,
{
    Vec3::new(rand_range(lo, hi), rand_range(lo, hi), rand_range(lo, hi))
}

/// Build the demonstration scene. Whatever the random draws:
/// 533 spheres in all; the first is the grey diffuse ground sphere;
/// the 529 grid spheres all have radius 0.2 and sit at height 0.2;
/// the last three are the fixed glass, diffuse and polished-metal
/// feature spheres.
pub fn random_scene() -> (world: World)
    ensures
        world.wf(),
        world.spheres@.len() == 533,
        world.spheres@[0] == (Sphere {
            center: Vec3 { x: 0, y: -1_000_000_000i64, z: 0 },
            radius: 1_000_000_000,
            material: Material::Lambertian { albedo: Vec3 { x: 500_000, y: 500_000, z: 500_000 } },
        }),
        forall|i: int|
            1 <= i < 530 ==> (#[trigger] world.spheres@[i]).radius == 200_000
                && world.spheres@[i].center@.y == 200_000,
        world.spheres@[530] == (Sphere {
            center: Vec3 { x: 0, y: FP_ONE, z: 0 },
            radius: FP_ONE,
            material: Material::Dielectric { ir: 1_500_000 },
        }),
        world.spheres@[531] == (Sphere {
            center: Vec3 { x: -4_000_000i64, y: FP_ONE, z: 0 },
            radius: FP_ONE,
            material: Material::Lambertian { albedo: Vec3 { x: 400_000, y: 200_000, z: 100_000 } },
        }),
        world.spheres@[532] == (Sphere {
            center: Vec3 { x: 4_000_000, y: FP_ONE, z: 0 },
            radius: FP_ONE,
            material: Material::Metal {
                albedo: Vec3 { x: 700_000, y: 600_000, z: 500_000 },
                fuzz: 0,
            },
        }),
{
    let mut world = World::new();

    let ground_mat = Material::Lambertian {
        albedo: Vec3::new(500_000, 500_000, 500_000),
    };
    let ground_sphere = Sphere::new(Vec3::new(0, -1_000_000_000, 0), 1_000_000_000, ground_mat);
    world.push(ground_sphere);

    let mut ia: i64 = 0;
    while ia < 23
        invariant
            0 <= ia <= 23,
            world.wf(),
            world.spheres@.len() == 1 + ia * 23,
            world.spheres@[0] == (Sphere {
                center: Vec3 { x: 0, y: -1_000_000_000i64, z: 0 },
                radius: 1_000_000_000,
                material: Material::Lambertian {
                    albedo: Vec3 { x: 500_000, y: 500_000, z: 500_000 },
                },
            }),
            forall|i: int|
                1 <= i < 1 + ia * 23 ==> (#[trigger] world.spheres@[i]).radius == 200_000
                    && world.spheres@[i].center@.y == 200_000,
        decreases 23 - ia,
    {
        let mut ib: i64 = 0;
        while ib < 23
            invariant
                0 <= ia < 23,
                0 <= ib <= 23,
                world.wf(),
                world.spheres@.len() == 1 + ia * 23 + ib,
                world.spheres@[0] == (Sphere {
                    center: Vec3 { x: 0, y: -1_000_000_000i64, z: 0 },
                    radius: 1_000_000_000,
                    material: Material::Lambertian {
                        albedo: Vec3 { x: 500_000, y: 500_000, z: 500_000 },
                    },
                }),
                forall|i: int|
                    1 <= i < 1 + ia * 23 + ib ==> (#[trigger] world.spheres@[i]).radius == 200_000
                        && world.spheres@[i].center@.y == 200_000,
            decreases 23 - ib,
        {
            let choose_mat = rand_range(0, FP_ONE);
            let center = Vec3::new(
                (ia - 11) * FP_ONE + rand_range(0, 900_000),
                200_000,
                (ib - 11) * FP_ONE + rand_range(0, 900_000),
            );

            let sphere_mat: Material = if choose_mat < 800_000 {
                let albedo = random_color(0, FP_ONE).mul(&random_color(0, FP_ONE));
                Material::Lambertian { albedo }
            } else if choose_mat < 950_000 {
                let albedo = random_color(400_000, FP_ONE);
                let fuzz = rand_range(0, 500_000);
                Material::Metal { albedo, fuzz }
            } else {
                Material::Dielectric { ir: 1_500_000 }
            };
            world.push(Sphere::new(center, 200_000, sphere_mat));
            ib = ib + 1;
        }
        ia = ia + 1;
    }

    let mat1 = Material::Dielectric { ir: 1_500_000 };
    let mat2 = Material::Lambertian { albedo: Vec3::new(400_000, 200_000, 100_000) };
    let mat3 = Material::Metal { albedo: Vec3::new(700_000, 600_000, 500_000), fuzz: 0 };

    let sphere1 = Sphere::new(Vec3::new(0, FP_ONE, 0), FP_ONE, mat1);
    let sphere2 = Sphere::new(Vec3::new(-4_000_000, FP_ONE, 0), FP_ONE, mat2);
    let sphere3 = Sphere::new(Vec3::new(4_000_000, FP_ONE, 0), FP_ONE, mat3);

    world.push(sphere1);
    world.push(sphere2);
    world.push(sphere3);

    world
}

} // verus!
