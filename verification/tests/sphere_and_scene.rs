//! Ray-sphere intersection and nearest-hit scene aggregation.

use raytracer::fixed::SCALE;
use raytracer::hitable::{HitableList, Sphere};
use raytracer::material::{LambertarianMaterial, Material, MetalMaterial};
use raytracer::ray::Ray;
use raytracer::vector::Vector3;

fn matte() -> Material {
    Material::Lambertarian(LambertarianMaterial::new(Vector3::new(
        SCALE / 2,
        SCALE / 2,
        SCALE / 2,
    )))
}

#[test]
fn ray_through_center_hits_at_distance_minus_radius() {
    // unit sphere at the origin, ray origin three units up the axis:
    // the first hit is at distance two, the smaller root
    let sphere = Sphere::new(Vector3::new(0, 0, 0), SCALE, matte());
    let ray = Ray::new(Vector3::new(0, 0, 3 * SCALE), Vector3::new(0, 0, -SCALE));
    let hit = sphere.hit(&ray, 66, i64::MAX).expect("the ray points at the sphere");
    assert_eq!(hit.hit_at, 2 * SCALE);
    assert_eq!(hit.point, Vector3::new(0, 0, SCALE));
    assert_eq!(hit.normal, Vector3::new(0, 0, SCALE));
}

#[test]
fn ray_through_center_far_root_when_near_root_is_below_range() {
    // starting inside the interval cut: only the far root, at distance
    // four, is in range
    let sphere = Sphere::new(Vector3::new(0, 0, 0), SCALE, matte());
    let ray = Ray::new(Vector3::new(0, 0, 3 * SCALE), Vector3::new(0, 0, -SCALE));
    let hit = sphere.hit(&ray, 2 * SCALE, i64::MAX).expect("the far root is in range");
    assert_eq!(hit.hit_at, 4 * SCALE);
}

#[test]
fn ray_pointing_away_misses() {
    let sphere = Sphere::new(Vector3::new(0, 0, 0), SCALE, matte());
    let ray = Ray::new(Vector3::new(0, 0, 3 * SCALE), Vector3::new(0, 0, SCALE));
    assert!(sphere.hit(&ray, 66, i64::MAX).is_none());
}

#[test]
fn ray_beside_the_sphere_misses() {
    let sphere = Sphere::new(Vector3::new(0, 0, 0), SCALE, matte());
    let ray = Ray::new(Vector3::new(0, 3 * SCALE, 3 * SCALE), Vector3::new(0, 0, -SCALE));
    assert!(sphere.hit(&ray, 66, i64::MAX).is_none());
}

#[test]
fn negative_radius_flips_the_normal() {
    let sphere = Sphere::new(Vector3::new(0, 0, 0), -SCALE, matte());
    let ray = Ray::new(Vector3::new(0, 0, 3 * SCALE), Vector3::new(0, 0, -SCALE));
    let hit = sphere.hit(&ray, 66, i64::MAX).expect("geometry is unchanged");
    assert_eq!(hit.hit_at, 2 * SCALE);
    assert_eq!(hit.normal, Vector3::new(0, 0, -SCALE));
}

#[test]
fn tangent_ray_counts_as_a_hit() {
    // the ray grazes the unit sphere exactly at its top: the
    // discriminant is zero, which still reports a hit
    let sphere = Sphere::new(Vector3::new(0, 0, 0), SCALE, matte());
    let ray = Ray::new(Vector3::new(0, SCALE, 3 * SCALE), Vector3::new(0, 0, -SCALE));
    let hit = sphere.hit(&ray, 66, i64::MAX).expect("a tangent ray hits");
    assert_eq!(hit.hit_at, 3 * SCALE);
    assert_eq!(hit.point, Vector3::new(0, SCALE, 0));
    assert_eq!(hit.normal, Vector3::new(0, SCALE, 0));
}

#[test]
fn zero_direction_misses() {
    let sphere = Sphere::new(Vector3::new(0, 0, 0), SCALE, matte());
    let ray = Ray::new(Vector3::new(0, 0, 3 * SCALE), Vector3::new(0, 0, 0));
    assert!(sphere.hit(&ray, 66, i64::MAX).is_none());
}

#[test]
fn scene_returns_the_nearest_hit() {
    let shiny = Material::Metal(MetalMaterial::new(Vector3::new(SCALE, SCALE, SCALE), 0));
    let near = Sphere::new(Vector3::new(0, 0, -2 * SCALE), SCALE, shiny);
    let far = Sphere::new(Vector3::new(0, 0, -6 * SCALE), SCALE, matte());
    // order in the list must not matter for which sphere wins
    for spheres in [vec![near, far], vec![far, near]] {
        let world = HitableList::new(spheres);
        let ray = Ray::new(Vector3::new(0, 0, 0), Vector3::new(0, 0, -SCALE));
        let hit = world.hit(&ray, 66, i64::MAX).expect("both spheres are in the way");
        assert_eq!(hit.hit_at, SCALE);
        assert!(matches!(hit.material, Material::Metal(_)));
    }
}

#[test]
fn scene_ignores_spheres_outside_the_interval() {
    let world = HitableList::new(vec![Sphere::new(
        Vector3::new(0, 0, -2 * SCALE),
        SCALE,
        matte(),
    )]);
    let ray = Ray::new(Vector3::new(0, 0, 0), Vector3::new(0, 0, -SCALE));
    assert!(world.hit(&ray, 66, SCALE / 2).is_none());
}

#[test]
fn empty_scene_never_hits() {
    let world = HitableList::new(Vec::new());
    let ray = Ray::new(Vector3::new(0, 0, 0), Vector3::new(0, 0, -SCALE));
    assert!(world.hit(&ray, 66, i64::MAX).is_none());
}
