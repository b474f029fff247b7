//! Scenario tests for the path-tracer core, on exactly-representable
//! fixed-point values (the scale is one million per unit).

use pathtracer::camera::Camera;
use pathtracer::fixed::{div_fp, mul_fp, sqrt_fp, FP_HALF, FP_MAX, FP_ONE};
use pathtracer::hit::HitRecord;
use pathtracer::material::Material;
use pathtracer::ray::Ray;
use pathtracer::rng::{random_in_unit_disk, random_in_unit_sphere};
use pathtracer::scene::{random_color, random_scene};
use pathtracer::sphere::Sphere;
use pathtracer::trace::ray_color;
use pathtracer::vec3::Vec3;
use pathtracer::world::World;

const T_MIN: i64 = 1_000;

fn grey() -> Material {
    Material::Lambertian { albedo: Vec3::new(500_000, 500_000, 500_000) }
}

#[test]
fn fixed_point_arithmetic_is_exact_on_decimals() {
    assert_eq!(mul_fp(2_500_000, 4_000_000), 10_000_000);
    assert_eq!(mul_fp(-2_500_000, 4_000_000), -10_000_000);
    assert_eq!(div_fp(10_000_000, 4_000_000), 2_500_000);
    assert_eq!(div_fp(1_000_000, 0), 0);
    assert_eq!(sqrt_fp(4_000_000), 2_000_000);
    assert_eq!(sqrt_fp(2_000_000), 1_414_213);
    assert_eq!(mul_fp(FP_MAX, FP_MAX), FP_MAX);
}

#[test]
fn vector_length_and_normalization() {
    let v = Vec3::new(3_000_000, 4_000_000, 0);
    assert_eq!(v.length_squared(), 25_000_000);
    assert_eq!(v.length(), 5_000_000);
    assert_eq!(v.normalized(), Vec3::new(600_000, 800_000, 0));
    assert_eq!(Vec3::new(0, 0, 0).normalized(), Vec3::new(0, 0, 0));
}

#[test]
fn ray_evaluates_points_along_itself() {
    let r = Ray::new(Vec3::new(1_000_000, 0, 0), Vec3::new(0, 0, -1_000_000));
    assert_eq!(r.at(3_000_000), Vec3::new(1_000_000, 0, -3_000_000));
}

#[test]
fn head_on_ray_hits_at_distance_minus_radius() {
    // Center 4 units away, radius 1: the near surface lies at t = 3,
    // and the normal faces back along the ray.
    let s = Sphere::new(Vec3::new(0, 0, -4_000_000), 1_000_000, grey());
    let r = Ray::new(Vec3::new(0, 0, 0), Vec3::new(0, 0, -1_000_000));
    let rec = s.hit(&r, T_MIN, FP_MAX).expect("head-on ray must hit");
    assert_eq!(rec.t, 3_000_000);
    assert_eq!(rec.p, Vec3::new(0, 0, -3_000_000));
    assert!(rec.front_face);
    assert_eq!(rec.normal, Vec3::new(0, 0, 1_000_000));
}

#[test]
fn hollow_sphere_flips_the_normal() {
    // A negative radius turns the outward normal inward; the stored
    // normal still stands against the ray, with front_face false.
    let s = Sphere::new(Vec3::new(0, 0, -4_000_000), -1_000_000, grey());
    let r = Ray::new(Vec3::new(0, 0, 0), Vec3::new(0, 0, -1_000_000));
    let rec = s.hit(&r, T_MIN, FP_MAX).expect("geometry is unchanged");
    assert_eq!(rec.t, 3_000_000);
    assert!(!rec.front_face);
    assert_eq!(rec.normal, Vec3::new(0, 0, 1_000_000));
}

#[test]
fn perpendicular_ray_from_outside_misses() {
    // The center offset is perpendicular to the direction and the
    // origin lies well outside: negative discriminant, no hit.
    let s = Sphere::new(Vec3::new(0, 5_000_000, 0), 1_000_000, grey());
    let r = Ray::new(Vec3::new(0, 0, 0), Vec3::new(0, 0, -1_000_000));
    assert!(s.hit(&r, T_MIN, FP_MAX).is_none());
}

#[test]
fn far_root_is_used_when_near_root_is_too_close() {
    // From inside the sphere the near root is negative, so the far
    // root (the back wall at t = 1) is reported.
    let s = Sphere::new(Vec3::new(0, 0, 0), 1_000_000, grey());
    let r = Ray::new(Vec3::new(0, 0, 0), Vec3::new(0, 0, -1_000_000));
    let rec = s.hit(&r, T_MIN, FP_MAX).expect("interior ray must exit");
    assert_eq!(rec.t, 1_000_000);
    assert!(!rec.front_face);
}

#[test]
fn world_reports_the_nearest_hit_of_three_spheres() {
    let mut world = World::new();
    let centers: [i64; 3] = [-10_000_000, -6_000_000, -14_000_000];
    for c in centers {
        world.push(Sphere::new(Vec3::new(0, 0, c), 1_000_000, grey()));
    }
    let r = Ray::new(Vec3::new(0, 0, 0), Vec3::new(0, 0, -1_000_000));

    // Brute-force scan over each member's own test.
    let mut best: i64 = i64::MAX;
    for c in centers {
        let s = Sphere::new(Vec3::new(0, 0, c), 1_000_000, grey());
        if let Some(rec) = s.hit(&r, T_MIN, FP_MAX) {
            if rec.t < best {
                best = rec.t;
            }
        }
    }

    let rec = world.hit(&r, T_MIN, FP_MAX).expect("some sphere is hit");
    assert_eq!(rec.t, best);
    assert_eq!(rec.t, 5_000_000);
    assert_eq!(rec.p, Vec3::new(0, 0, -5_000_000));
}

#[test]
fn empty_world_misses() {
    let world = World::new();
    let r = Ray::new(Vec3::new(0, 0, 0), Vec3::new(0, 0, -1_000_000));
    assert!(world.hit(&r, T_MIN, FP_MAX).is_none());
}

fn record(normal: Vec3, front_face: bool, material: Material) -> HitRecord {
    HitRecord { t: 1_000_000, p: Vec3::new(0, 0, 0), normal, front_face, material }
}

#[test]
fn lambertian_always_scatters_with_its_albedo() {
    let albedo = Vec3::new(300_000, 400_000, 500_000);
    let mat = Material::Lambertian { albedo };
    let r = Ray::new(Vec3::new(0, 0, 1_000_000), Vec3::new(0, 0, -1_000_000));
    let rec = record(Vec3::new(0, 0, 1_000_000), true, mat);
    for _ in 0..32 {
        let (att, out) = mat.scatter(&r, &rec).expect("diffuse never absorbs");
        assert_eq!(att, albedo);
        assert!(0 <= att.x && att.x <= FP_ONE);
        assert!(0 <= att.y && att.y <= FP_ONE);
        assert!(0 <= att.z && att.z <= FP_ONE);
        assert_eq!(out.origin(), rec.p);
        assert!(out.direction() != Vec3::new(0, 0, 0) || out.direction() == rec.normal);
    }
}

#[test]
fn metal_with_no_fuzz_reflects_exactly() {
    let albedo = Vec3::new(700_000, 600_000, 500_000);
    let mat = Material::Metal { albedo, fuzz: 0 };
    let normal = Vec3::new(0, 1_000_000, 0);
    let r = Ray::new(Vec3::new(0, 1_000_000, 0), Vec3::new(1_000_000, -1_000_000, 0));
    let rec = record(normal, true, mat);
    let (att, out) = mat.scatter(&r, &rec).expect("grazing reflection leaves the surface");
    assert_eq!(att, albedo);
    // unit(1,-1,0) = (0.707107, -0.707107, 0); mirrored about +y.
    let expected = r.direction().normalized().reflect(&normal);
    assert_eq!(out.direction(), expected);
    assert_eq!(out.direction(), Vec3::new(707_107, 707_107, 0));
}

#[test]
fn metal_absorbs_rays_reflected_into_the_surface() {
    // Incoming along the normal itself: the mirror direction points
    // into the surface, so the ray is absorbed.
    let mat = Material::Metal { albedo: Vec3::new(700_000, 600_000, 500_000), fuzz: 0 };
    let normal = Vec3::new(0, 1_000_000, 0);
    let r = Ray::new(Vec3::new(0, 0, 0), Vec3::new(0, 1_000_000, 0));
    let rec = record(normal, true, mat);
    assert!(mat.scatter(&r, &rec).is_none());
}

#[test]
fn unit_index_dielectric_transmits_straight_through() {
    // Normal incidence with refraction index 1: the Schlick
    // reflectance is exactly zero, so the sample always refracts, and
    // the refracted direction equals the incoming one exactly.
    let mat = Material::Dielectric { ir: 1_000_000 };
    let normal = Vec3::new(0, 0, 1_000_000);
    let r = Ray::new(Vec3::new(0, 0, 1_000_000), Vec3::new(0, 0, -1_000_000));
    let rec = record(normal, true, mat);
    for _ in 0..32 {
        let (att, out) = mat.scatter(&r, &rec).expect("dielectric never absorbs");
        assert_eq!(att, Vec3::new(FP_ONE, FP_ONE, FP_ONE));
        assert_eq!(out.direction(), Vec3::new(0, 0, -1_000_000));
    }
}

#[test]
fn refraction_with_unit_ratio_does_not_bend() {
    // Oblique incidence on exactly-representable values: with ratio 1
    // the refracted direction equals the incoming unit direction.
    let uv = Vec3::new(600_000, 0, -800_000);
    let n = Vec3::new(0, 0, 1_000_000);
    assert_eq!(uv.refract(&n, FP_ONE, 800_000), uv);
}

#[test]
fn refraction_bends_toward_the_surface_when_entering_a_denser_medium() {
    // Entering a medium of index 2 (ratio 0.5) at cos = 0.8: the
    // perpendicular part halves and the parallel part restores the
    // (truncated) unit length.
    let uv = Vec3::new(600_000, 0, -800_000);
    let n = Vec3::new(0, 0, 1_000_000);
    assert_eq!(uv.refract(&n, 500_000, 800_000), Vec3::new(300_000, 0, -953_939));
}

#[test]
fn fuzzed_metal_scatter_never_points_into_the_surface() {
    let mat = Material::Metal { albedo: Vec3::new(700_000, 600_000, 500_000), fuzz: 300_000 };
    let normal = Vec3::new(0, 1_000_000, 0);
    let r = Ray::new(Vec3::new(0, 1_000_000, 0), Vec3::new(1_000_000, -1_000_000, 0));
    let rec = record(normal, true, mat);
    for _ in 0..64 {
        if let Some((att, out)) = mat.scatter(&r, &rec) {
            assert_eq!(att, Vec3::new(700_000, 600_000, 500_000));
            assert!(out.direction().dot(&normal) > 0);
        }
    }
}

#[test]
fn dielectric_totally_internally_reflects_past_the_critical_angle() {
    // Leaving glass (index 1.5) at sin = 0.8 > 1/1.5: Snell has no
    // solution, so the surface must reflect, whatever the draw.
    let mat = Material::Dielectric { ir: 1_500_000 };
    let normal = Vec3::new(0, 0, 1_000_000);
    let r = Ray::new(Vec3::new(0, 0, 0), Vec3::new(800_000, 0, -600_000));
    let rec = record(normal, false, mat);
    for _ in 0..32 {
        let (att, out) = mat.scatter(&r, &rec).expect("dielectric never absorbs");
        assert_eq!(att, Vec3::new(FP_ONE, FP_ONE, FP_ONE));
        assert_eq!(out.direction(), Vec3::new(800_000, 0, 600_000));
    }
}

#[test]
fn ray_color_at_zero_depth_is_black() {
    let mut world = World::new();
    world.push(Sphere::new(Vec3::new(0, 0, -4_000_000), 1_000_000, grey()));
    let r = Ray::new(Vec3::new(0, 0, 0), Vec3::new(0, 0, -1_000_000));
    assert_eq!(ray_color(&r, &world, 0), Vec3::new(0, 0, 0));
}

#[test]
fn ray_color_miss_yields_the_sky_gradient_endpoints() {
    let world = World::new();
    let up = Ray::new(Vec3::new(0, 0, 0), Vec3::new(0, 1_000_000, 0));
    assert_eq!(ray_color(&up, &world, 8), Vec3::new(500_000, 700_000, 1_000_000));
    let down = Ray::new(Vec3::new(0, 0, 0), Vec3::new(0, -1_000_000, 0));
    assert_eq!(ray_color(&down, &world, 8), Vec3::new(FP_ONE, FP_ONE, FP_ONE));
}

#[test]
fn center_ray_of_a_pinhole_camera_points_at_the_target() {
    // 90 degree field of view (tangent 1), square aspect, zero
    // aperture, focus distance 2: exactly-representable throughout.
    let lookfrom = Vec3::new(0, 0, 0);
    let lookat = Vec3::new(0, 0, -1_000_000);
    let vup = Vec3::new(0, 1_000_000, 0);
    let cam = Camera::new(lookfrom, lookat, vup, FP_ONE, FP_ONE, 0, 2_000_000);
    let ray = cam.get_ray(FP_HALF, FP_HALF);
    assert_eq!(ray.origin(), lookfrom);
    assert_eq!(ray.direction(), Vec3::new(0, 0, -2_000_000));
    let toward = lookat.sub(&lookfrom).normalized();
    assert_eq!(ray.direction().normalized(), toward);
    assert_eq!(toward, Vec3::new(0, 0, -1_000_000));
}

#[test]
fn random_scene_has_the_documented_layout() {
    let world = random_scene();
    assert_eq!(world.len(), 533);
    let ground = world.spheres[0];
    assert_eq!(ground.center, Vec3::new(0, -1_000_000_000, 0));
    assert_eq!(ground.radius, 1_000_000_000);
    assert_eq!(
        ground.material,
        Material::Lambertian { albedo: Vec3::new(500_000, 500_000, 500_000) }
    );
    for i in 1..530 {
        assert_eq!(world.spheres[i].radius, 200_000);
        assert_eq!(world.spheres[i].center.y, 200_000);
    }
    assert_eq!(world.spheres[530].material, Material::Dielectric { ir: 1_500_000 });
    assert_eq!(
        world.spheres[531].material,
        Material::Lambertian { albedo: Vec3::new(400_000, 200_000, 100_000) }
    );
    assert_eq!(
        world.spheres[532].material,
        Material::Metal { albedo: Vec3::new(700_000, 600_000, 500_000), fuzz: 0 }
    );
}

#[test]
fn random_samplers_stay_in_their_ranges() {
    for _ in 0..64 {
        let v = random_in_unit_sphere();
        assert!(v.length_squared() < FP_ONE);
        let d = random_in_unit_disk();
        assert!(d.length_squared() < FP_ONE);
        assert_eq!(d.z, 0);
        let c = random_color(400_000, FP_ONE);
        assert!(400_000 <= c.x && c.x < FP_ONE);
        assert!(400_000 <= c.y && c.y < FP_ONE);
        assert!(400_000 <= c.z && c.z < FP_ONE);
    }
}

#[test]
fn ray_color_traces_a_diffuse_bounce_within_albedo_bounds() {
    // One grey sphere in front: every path's colour is a product of
    // attenuations (each channel at most 0.5 here) and a sky value in
    // [0, 1], so each channel stays within [0, 1].
    let mut world = World::new();
    world.push(Sphere::new(Vec3::new(0, 0, -4_000_000), 1_000_000, grey()));
    let r = Ray::new(Vec3::new(0, 0, 0), Vec3::new(0, 0, -1_000_000));
    for _ in 0..16 {
        let c = ray_color(&r, &world, 16);
        assert!(0 <= c.x && c.x <= FP_ONE);
        assert!(0 <= c.y && c.y <= FP_ONE);
        assert!(0 <= c.z && c.z <= FP_ONE);
    }
}
