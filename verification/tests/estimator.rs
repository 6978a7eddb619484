//! The recursive color estimator: background, depth cutoff, attenuation.

use raytracer::fixed::SCALE;
use raytracer::hitable::{HitableList, Sphere};
use raytracer::material::{
    DialetricMaterial, LambertarianMaterial, Material, MetalMaterial,
};
use raytracer::ray::Ray;
use raytracer::render::estimate_color;
use raytracer::rng::Rng;
use raytracer::vector::Vector3;

fn one_sphere(material: Material) -> HitableList {
    HitableList::new(vec![Sphere::new(Vector3::new(0, 0, -2 * SCALE), SCALE, material)])
}

#[test]
fn straight_up_is_pure_sky_blue() {
    let world = HitableList::new(Vec::new());
    let ray = Ray::new(Vector3::new(0, 0, 0), Vector3::new(0, SCALE, 0));
    let mut rng = Rng::from_seed(1);
    let color = estimate_color(&ray, &world, 0, 50, &mut rng);
    assert_eq!(color, Vector3::new(32768, 45875, 65536));
}

#[test]
fn straight_down_is_pure_white() {
    let world = HitableList::new(Vec::new());
    let ray = Ray::new(Vector3::new(0, 0, 0), Vector3::new(0, -SCALE, 0));
    let mut rng = Rng::from_seed(1);
    let color = estimate_color(&ray, &world, 0, 50, &mut rng);
    assert_eq!(color, Vector3::new(SCALE, SCALE, SCALE));
}

#[test]
fn exhausted_depth_is_black_for_every_material() {
    let materials = [
        Material::Lambertarian(LambertarianMaterial::new(Vector3::new(
            SCALE / 2,
            SCALE / 2,
            SCALE / 2,
        ))),
        Material::Metal(MetalMaterial::new(Vector3::new(SCALE, SCALE, SCALE), 0)),
        Material::Dialetric(DialetricMaterial::new(98304)),
    ];
    for material in materials {
        let world = one_sphere(material);
        let ray = Ray::new(Vector3::new(0, 0, 0), Vector3::new(0, 0, -SCALE));
        let mut rng = Rng::from_seed(9);
        let color = estimate_color(&ray, &world, 0, 0, &mut rng);
        assert_eq!(color, Vector3::new(0, 0, 0));
    }
}

#[test]
fn depth_already_spent_is_black_too() {
    let world = one_sphere(Material::Lambertarian(LambertarianMaterial::new(
        Vector3::new(SCALE / 2, SCALE / 2, SCALE / 2),
    )));
    let ray = Ray::new(Vector3::new(0, 0, 0), Vector3::new(0, 0, -SCALE));
    let mut rng = Rng::from_seed(9);
    let color = estimate_color(&ray, &world, 50, 50, &mut rng);
    assert_eq!(color, Vector3::new(0, 0, 0));
}

#[test]
fn estimates_stay_within_the_unit_energy_range() {
    // a matte surface attenuates whatever the recursion brings back, so
    // every channel of the estimate stays within one unit of energy
    let albedo = Vector3::new(SCALE / 2, SCALE / 4, SCALE / 8);
    let world = one_sphere(Material::Lambertarian(LambertarianMaterial::new(albedo)));
    let ray = Ray::new(Vector3::new(0, 0, 0), Vector3::new(0, 0, -SCALE));
    for seed in 0..16u64 {
        let mut rng = Rng::from_seed(seed);
        let color = estimate_color(&ray, &world, 0, 50, &mut rng);
        assert!(0 <= color.r() && color.r() <= SCALE);
        assert!(0 <= color.g() && color.g() <= SCALE);
        assert!(0 <= color.b() && color.b() <= SCALE);
    }
}
