//! The deterministic generator, the rejection samplers, and the
//! randomized demonstration scene.

use raytracer::fixed::SCALE;
use raytracer::material::Material;
use raytracer::rng::Rng;
use raytracer::scene::random_scene;
use raytracer::vector::Vector3;

#[test]
fn same_seed_gives_the_same_stream() {
    let mut a = Rng::from_seed(123);
    let mut b = Rng::from_seed(123);
    for _ in 0..100 {
        assert_eq!(a.next_u64(), b.next_u64());
    }
}

#[test]
fn unit_draws_stay_in_the_unit_interval() {
    let mut rng = Rng::from_seed(7);
    for _ in 0..1000 {
        let u = rng.next_unit();
        assert!(0 <= u && u < SCALE);
        let s = rng.next_sym();
        assert!(-SCALE <= s && s < SCALE);
    }
}

#[test]
fn sphere_samples_land_strictly_inside_the_unit_sphere() {
    let mut rng = Rng::from_seed(99);
    for _ in 0..200 {
        let p = Vector3::random_in_unit_sphere(&mut rng);
        assert!(p.magnitude_squared() < SCALE);
    }
}

#[test]
fn disk_samples_land_strictly_inside_the_unit_disk() {
    let mut rng = Rng::from_seed(99);
    for _ in 0..200 {
        let p = Vector3::random_in_disk(&mut rng);
        assert!(p.magnitude_squared() < SCALE);
        assert_eq!(p.z(), 0);
    }
}

#[test]
fn entropy_seeded_stream_still_samples_correctly() {
    let mut rng = Rng::from_entropy();
    for _ in 0..100 {
        let u = rng.next_unit();
        assert!(0 <= u && u < SCALE);
    }
}

#[test]
fn random_scene_has_the_fixed_spheres() {
    let mut rng = Rng::from_seed(2024);
    let world = random_scene(&mut rng);
    let spheres = &world.hitables;
    let n = spheres.len();
    assert!(n >= 4);

    let ground = spheres[0];
    assert_eq!(ground.center, Vector3::new(0, -65536000, 0));
    assert_eq!(ground.radius, 65536000);
    assert!(matches!(ground.material, Material::Lambertarian(_)));

    let glass = spheres[n - 3];
    assert_eq!(glass.center, Vector3::new(0, SCALE, 0));
    assert_eq!(glass.radius, SCALE);
    assert!(matches!(glass.material, Material::Dialetric(_)));

    let matte = spheres[n - 2];
    assert_eq!(matte.center, Vector3::new(-4 * SCALE, SCALE, 0));
    assert!(matches!(matte.material, Material::Lambertarian(_)));

    let metal = spheres[n - 1];
    assert_eq!(metal.center, Vector3::new(4 * SCALE, SCALE, 0));
    assert!(matches!(metal.material, Material::Metal(_)));
}

#[test]
fn random_scene_grid_spheres_are_small_and_grounded() {
    let mut rng = Rng::from_seed(5);
    let world = random_scene(&mut rng);
    let n = world.hitables.len();
    // with any seed most of the 484 cells are kept
    assert!(n > 300);
    for sphere in &world.hitables[1..n - 3] {
        assert_eq!(sphere.radius, 13107);
        assert_eq!(sphere.center.y(), 13107);
    }
}

#[test]
fn random_scene_is_reproducible_for_a_seed() {
    let mut a = Rng::from_seed(8);
    let mut b = Rng::from_seed(8);
    let first = random_scene(&mut a);
    let second = random_scene(&mut b);
    assert_eq!(first.hitables, second.hitables);
}
