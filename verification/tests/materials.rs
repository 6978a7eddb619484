//! Scatter behavior of the three materials on concrete hits.

use raytracer::fixed::SCALE;
use raytracer::hitable::HitRecord;
use raytracer::material::{
    DialetricMaterial, LambertarianMaterial, Material, MetalMaterial,
};
use raytracer::ray::Ray;
use raytracer::rng::Rng;
use raytracer::vector::Vector3;

fn sample_hit(material: Material) -> HitRecord {
    HitRecord::new(
        SCALE,
        Vector3::new(0, 0, -SCALE),
        Vector3::new(0, SCALE, 0),
        material,
    )
}

#[test]
fn lambertarian_never_absorbs() {
    let albedo = Vector3::new(SCALE / 2, SCALE / 4, SCALE / 8);
    let material = LambertarianMaterial::new(albedo);
    let hit = sample_hit(Material::Lambertarian(material));
    let ray = Ray::new(Vector3::new(0, SCALE, -SCALE), Vector3::new(0, -SCALE, 0));
    for seed in 0..64u64 {
        let mut rng = Rng::from_seed(seed);
        let scatter = material.scatter(&ray, &hit, &mut rng).expect("matte always scatters");
        assert_eq!(scatter.albedo, albedo);
        assert_eq!(scatter.ray.origin, hit.point);
    }
}

#[test]
fn metal_absorbs_grazing_reflection() {
    // a mirror (no fuzz) hit exactly along the surface: the reflected
    // direction's dot with the normal is zero, which is absorbed
    let material = MetalMaterial::new(Vector3::new(SCALE, SCALE, SCALE), 0);
    let hit = sample_hit(Material::Metal(material));
    let ray = Ray::new(Vector3::new(-SCALE, 0, -SCALE), Vector3::new(SCALE, 0, 0));
    let mut rng = Rng::from_seed(7);
    assert!(material.scatter(&ray, &hit, &mut rng).is_none());
}

#[test]
fn metal_mirrors_a_head_on_ray() {
    let albedo = Vector3::new(SCALE, SCALE / 2, SCALE / 2);
    let material = MetalMaterial::new(albedo, 0);
    let hit = sample_hit(Material::Metal(material));
    let ray = Ray::new(Vector3::new(0, SCALE, -SCALE), Vector3::new(0, -SCALE, 0));
    let mut rng = Rng::from_seed(7);
    let scatter = material.scatter(&ray, &hit, &mut rng).expect("head-on reflection leaves");
    assert_eq!(scatter.ray.direction, Vector3::new(0, SCALE, 0));
    assert_eq!(scatter.albedo, albedo);
}

#[test]
fn dialetric_falls_back_to_reflection_on_total_internal_reflection() {
    // leaving glass at forty-five degrees: refraction has no real
    // solution, so the scattered ray is the reflection whatever the
    // random draw
    let material = DialetricMaterial::new(98304);
    let hit = HitRecord::new(
        SCALE,
        Vector3::new(0, 0, 0),
        Vector3::new(0, 0, SCALE),
        Material::Dialetric(material),
    );
    let ray = Ray::new(Vector3::new(-SCALE, 0, -SCALE), Vector3::new(SCALE, 0, SCALE));
    let expected = Vector3::new(SCALE, 0, -SCALE);
    for seed in 0..64u64 {
        let mut rng = Rng::from_seed(seed);
        let scatter = material.scatter(&ray, &hit, &mut rng).expect("glass never absorbs");
        assert_eq!(scatter.ray.direction, expected);
        assert_eq!(scatter.albedo, Vector3::new(SCALE, SCALE, SCALE));
    }
}

#[test]
fn dialetric_refracts_a_head_on_ray() {
    // straight into glass: reflectance is tiny, and nearly every draw
    // refracts straight through
    let material = DialetricMaterial::new(98304);
    let hit = HitRecord::new(
        SCALE,
        Vector3::new(0, 0, 0),
        Vector3::new(0, 0, SCALE),
        Material::Dialetric(material),
    );
    let ray = Ray::new(Vector3::new(0, 0, SCALE), Vector3::new(0, 0, -SCALE));
    let mut refracted: u32 = 0;
    for i in 0..64u64 {
        // spread the seeds across the state space so the first draw of
        // each stream varies
        let seed = (i + 1).wrapping_mul(0x9E3779B97F4A7C15);
        let mut rng = Rng::from_seed(seed);
        let scatter = material.scatter(&ray, &hit, &mut rng).expect("glass never absorbs");
        if scatter.ray.direction == Vector3::new(0, 0, -SCALE) {
            refracted += 1;
        }
    }
    assert!(refracted > 32);
}

#[test]
fn material_dispatch_matches_the_variant() {
    let albedo = Vector3::new(SCALE / 2, SCALE / 2, SCALE / 2);
    let matte = Material::Lambertarian(LambertarianMaterial::new(albedo));
    let hit = sample_hit(matte);
    let ray = Ray::new(Vector3::new(0, SCALE, -SCALE), Vector3::new(0, -SCALE, 0));
    let mut rng_direct = Rng::from_seed(11);
    let mut rng_dispatch = Rng::from_seed(11);
    let direct = LambertarianMaterial::new(albedo).scatter(&ray, &hit, &mut rng_direct);
    let dispatched = matte.scatter(&ray, &hit, &mut rng_dispatch);
    assert_eq!(direct, dispatched);
}
