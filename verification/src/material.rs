//! The three material models: matte, metal, and glass.
//!
//! Each material's `scatter` turns an incoming ray and a hit into either
//! an attenuated scattered ray or absorption. The material set is closed,
//! so the polymorphic dispatch of the design is a tagged `Material` sum
//! with one dispatch function. Every scatter carries an exact contract: a
//! mirror of the computation over the fixed-point model, with the random
//! draws pinned by the deterministic generator state.

use vstd::prelude::*;

use crate::fixed::Fixed;
use crate::fixed::SCALE;
use crate::fixed::add_v;
use crate::fixed::div_v;
use crate::fixed::fadd;
use crate::fixed::fdiv;
use crate::fixed::fmul;
use crate::fixed::fneg;
use crate::fixed::fsub;
use crate::fixed::mul_v;
use crate::fixed::neg_v;
use crate::fixed::sub_v;
use crate::hitable::HitRecord;
use crate::ray::Ray;
use crate::rng::Rng;
use crate::rng::next_state;
use crate::rng::unit_of;
use crate::vector::SAMPLE_TRIES;
use crate::vector::Vector3;
use crate::vector::add_vec;
use crate::vector::dot_v;
use crate::vector::magnitude_v;
use crate::vector::neg_vec;
use crate::vector::reflect_vec;
use crate::vector::refract_disc_v;
use crate::vector::refract_vec;
use crate::vector::sample_sphere_spec;
use crate::vector::scale_vec;
use crate::vector::sub_vec;
use crate::vector::unit_vec;
use crate::vector::v3;

verus! {

/// What a material hands back when it scatters: the scattered ray and the
/// per-channel attenuation.
#[derive(Clone, Copy, Debug, PartialEq, Eq, Structural)]
pub struct MaterialScatter {
    pub ray: Ray,
    pub albedo: Vector3,
}

/// A matte material: scatters diffusely, never absorbs.
#[derive(Clone, Copy, Debug, PartialEq, Eq, Structural)]
pub struct LambertarianMaterial {
    /// Fraction of each color channel the surface reflects.
    pub albedo: Vector3,
}

/// A glossy material: reflects, optionally perturbed by fuzziness.
#[derive(Clone, Copy, Debug, PartialEq, Eq, Structural)]
pub struct MetalMaterial {
    /// Fraction of each color channel the surface reflects.
    pub albedo: Vector3,
    /// Radius of the random perturbation of the reflected direction;
    /// zero is a perfect mirror.
    pub fuzziness: Fixed,
}

/// A glass-like material: both reflects and refracts, absorbs nothing.
#[derive(Clone, Copy, Debug, PartialEq, Eq, Structural)]
pub struct DialetricMaterial {
    /// Refractive index of the medium relative to its surroundings.
    pub refractive_index: Fixed,
}

/// The closed set of materials.
#[derive(Clone, Copy, Debug, PartialEq, Eq, Structural)]
pub enum Material {
    Lambertarian(LambertarianMaterial),
    Metal(MetalMaterial),
    Dialetric(DialetricMaterial),
}

/// A material whose parameters keep every scatter well defined: a glass
/// index must not make a refraction ratio or a Fresnel term divide by
/// zero.
pub open spec fn material_ok(m: Material) -> bool {
    match m {
        Material::Dialetric(d) => d.refractive_index != 0 && d.refractive_index as int != -(
        SCALE as int),
        _ => true,
    }
}

/// What `Material::scatter` demands: sound parameters, and a nonzero
/// incoming direction for the materials that normalize it.
pub open spec fn scatter_pre(m: Material, ray: Ray) -> bool {
    material_ok(m) && match m {
        Material::Lambertarian(_) => true,
        _ => magnitude_v(ray.direction) != 0,
    }
}

/// Schlick's approximation of the Fresnel reflectance:
/// `r0 + (1 - r0) * (1 - cosine)^5` with `r0 = ((1 - n) / (1 + n))^2`.
pub open spec fn shlick_v(cosine: int, refractive_index: int) -> int
    recommends
        add_v(SCALE as int, refractive_index) != 0,
{
    let r0 = div_v(sub_v(SCALE as int, refractive_index), add_v(SCALE as int, refractive_index));
    let r0s = mul_v(r0, r0);
    let omc = sub_v(SCALE as int, cosine);
    let p2 = mul_v(omc, omc);
    let p4 = mul_v(p2, p2);
    let p5 = mul_v(p4, omc);
    add_v(r0s, mul_v(sub_v(SCALE as int, r0s), p5))
}

/// What the matte material scatters from generator state `s`: a ray from
/// the hit point toward `normal + random point in the unit sphere`, with
/// the material's own albedo; never absorption.
pub open spec fn lambertarian_scatter_spec(m: LambertarianMaterial, hit: HitRecord, s: u64) -> (
    Option<MaterialScatter>,
    u64,
) {
    let (p, s1) = sample_sphere_spec(s, SAMPLE_TRIES as nat);
    let target = add_vec(add_vec(hit.point, hit.normal), p);
    let direction = sub_vec(target, hit.point);
    (
        Some(
            MaterialScatter { ray: Ray { origin: hit.point, direction }, albedo: m.albedo },
        ),
        s1,
    )
}

/// The fuzzed reflected direction the metal material scatters along.
pub open spec fn metal_direction_spec(m: MetalMaterial, ray: Ray, hit: HitRecord, s: u64) -> Vector3
    recommends
        magnitude_v(ray.direction) != 0,
{
    let reflected = reflect_vec(unit_vec(ray.direction), hit.normal);
    let (p, s1) = sample_sphere_spec(s, SAMPLE_TRIES as nat);
    add_vec(reflected, scale_vec(p, m.fuzziness as int))
}

/// What the metal material scatters from generator state `s`: the fuzzed
/// reflection with the material's albedo, or absorption when that
/// direction would leave on the wrong side of the surface.
pub open spec fn metal_scatter_spec(m: MetalMaterial, ray: Ray, hit: HitRecord, s: u64) -> (
    Option<MaterialScatter>,
    u64,
)
    recommends
        magnitude_v(ray.direction) != 0,
{
    let direction = metal_direction_spec(m, ray, hit, s);
    let s1 = sample_sphere_spec(s, SAMPLE_TRIES as nat).1;
    if dot_v(direction, hit.normal) <= 0 {
        (None, s1)
    } else {
        (
            Some(
                MaterialScatter { ray: Ray { origin: hit.point, direction }, albedo: m.albedo },
            ),
            s1,
        )
    }
}

/// The outward-facing normal the glass material refracts against.
pub open spec fn dialetric_outward_spec(ray: Ray, hit: HitRecord) -> Vector3 {
    if dot_v(ray.direction, hit.normal) > 0 {
        neg_vec(hit.normal)
    } else {
        hit.normal
    }
}

/// The refraction-index ratio for the entering or exiting case.
pub open spec fn dialetric_ratio_spec(m: DialetricMaterial, ray: Ray, hit: HitRecord) -> int
    recommends
        m.refractive_index != 0,
{
    if dot_v(ray.direction, hit.normal) > 0 {
        m.refractive_index as int
    } else {
        div_v(SCALE as int, m.refractive_index as int)
    }
}

/// The cosine Schlick's approximation is evaluated at, over the
/// normalized incoming direction.
pub open spec fn dialetric_cosine_spec(m: DialetricMaterial, ray: Ray, hit: HitRecord) -> int
    recommends
        magnitude_v(ray.direction) != 0,
{
    let d = dot_v(ray.direction, hit.normal);
    let mag = magnitude_v(ray.direction);
    if d > 0 {
        div_v(mul_v(m.refractive_index as int, d), mag)
    } else {
        neg_v(div_v(d, mag))
    }
}

/// What the glass material scatters from generator state `s`: one uniform
/// draw decides between the reflection and the refraction, and total
/// internal reflection falls back to the reflection; the attenuation is
/// always pure white, and nothing is absorbed.
pub open spec fn dialetric_scatter_spec(m: DialetricMaterial, ray: Ray, hit: HitRecord, s: u64) -> (
    Option<MaterialScatter>,
    u64,
)
    recommends
        magnitude_v(ray.direction) != 0,
        m.refractive_index != 0,
        add_v(SCALE as int, m.refractive_index as int) != 0,
{
    let reflected = reflect_vec(ray.direction, hit.normal);
    let outward = dialetric_outward_spec(ray, hit);
    let ratio = dialetric_ratio_spec(m, ray, hit);
    let cosine = dialetric_cosine_spec(m, ray, hit);
    let prob = shlick_v(cosine, m.refractive_index as int);
    let s1 = next_state(s);
    let direction = if unit_of(s1) < prob {
        reflected
    } else {
        match refract_vec(ray.direction, outward, ratio) {
            Some(refracted) => refracted,
            None => reflected,
        }
    };
    (
        Some(
            MaterialScatter {
                ray: Ray { origin: hit.point, direction },
                albedo: v3(SCALE as int, SCALE as int, SCALE as int),
            },
        ),
        s1,
    )
}

/// What any material scatters: dispatch over the closed material set.
pub open spec fn scatter_spec(m: Material, ray: Ray, hit: HitRecord, s: u64) -> (
    Option<MaterialScatter>,
    u64,
)
    recommends
        scatter_pre(m, ray),
{
    match m {
        Material::Lambertarian(l) => lambertarian_scatter_spec(l, hit, s),
        Material::Metal(mm) => metal_scatter_spec(mm, ray, hit, s),
        Material::Dialetric(d) => dialetric_scatter_spec(d, ray, hit, s),
    }
}

impl LambertarianMaterial {
    /// Builds a matte material with the given albedo.
    pub fn new(albedo: Vector3) -> (r: Self)
        ensures
            r == (LambertarianMaterial { albedo }),
    {
        LambertarianMaterial { albedo }
    }

    /// Scatters toward a random point near the surface normal. Never
    /// absorbs: the result always carries a ray and this albedo.
    pub fn scatter(&self, _ray: &Ray, hit_record: &HitRecord, rng: &mut Rng) -> (r: Option<
        MaterialScatter,
    >)
        ensures
            r == lambertarian_scatter_spec(*self, *hit_record, old(rng).state).0,
            final(rng).state == lambertarian_scatter_spec(*self, *hit_record, old(rng).state).1,
            r is Some,
    {
        let sample = Vector3::random_in_unit_sphere(rng);
        let target = hit_record.point.plus(&hit_record.normal).plus(&sample);
        let target_direction = target.minus(&hit_record.point);
        Some(
            MaterialScatter {
                ray: Ray::new(hit_record.point, target_direction),
                albedo: self.albedo,
            },
        )
    }
}

impl MetalMaterial {
    /// Builds a glossy material with the given albedo and fuzziness.
    pub fn new(albedo: Vector3, fuzziness: Fixed) -> (r: Self)
        ensures
            r == (MetalMaterial { albedo, fuzziness }),
    {
        MetalMaterial { albedo, fuzziness }
    }

    /// Reflects the incoming direction, perturbs it by the fuzziness, and
    /// absorbs exactly when the result points into the surface.
    pub fn scatter(&self, ray: &Ray, hit_record: &HitRecord, rng: &mut Rng) -> (r: Option<
        MaterialScatter,
    >)
        requires
            magnitude_v(ray.direction) != 0,
        ensures
            r == metal_scatter_spec(*self, *ray, *hit_record, old(rng).state).0,
            final(rng).state == metal_scatter_spec(*self, *ray, *hit_record, old(rng).state).1,
            r is None <==> dot_v(
                metal_direction_spec(*self, *ray, *hit_record, old(rng).state),
                hit_record.normal,
            ) <= 0,
    {
        let reflected_direction = Vector3::reflect(
            &Vector3::unit_vector(ray.direction()),
            &hit_record.normal,
        );
        let sample = Vector3::random_in_unit_sphere(rng);
        let direction = reflected_direction.plus(&sample.scaled(self.fuzziness));
        let scattered_ray = Ray::new(hit_record.point, direction);
        if Vector3::dot(scattered_ray.direction(), &hit_record.normal) <= 0 {
            return None;
        }
        Some(MaterialScatter { ray: scattered_ray, albedo: self.albedo })
    }
}

impl DialetricMaterial {
    /// Builds a glass-like material with the given refractive index.
    pub fn new(refractive_index: Fixed) -> (r: Self)
        ensures
            r == (DialetricMaterial { refractive_index }),
    {
        DialetricMaterial { refractive_index }
    }

    /// Schlick's approximation of the reflectance at the given cosine.
    fn shlick(cosine: Fixed, refractive_index: Fixed) -> (r: Fixed)
        requires
            refractive_index as int != -(SCALE as int),
        ensures
            r as int == shlick_v(cosine as int, refractive_index as int),
    {
        let r0 = fdiv(fsub(SCALE, refractive_index), fadd(SCALE, refractive_index));
        let r0s = fmul(r0, r0);
        let omc = fsub(SCALE, cosine);
        let p2 = fmul(omc, omc);
        let p4 = fmul(p2, p2);
        let p5 = fmul(p4, omc);
        fadd(r0s, fmul(fsub(SCALE, r0s), p5))
    }

    /// Picks reflection or refraction by one uniform draw against the
    /// Fresnel reflectance; total internal reflection always reflects.
    /// Never absorbs, and attenuates nothing (pure white albedo).
    pub fn scatter(&self, ray: &Ray, hit_record: &HitRecord, rng: &mut Rng) -> (r: Option<
        MaterialScatter,
    >)
        requires
            magnitude_v(ray.direction) != 0,
            self.refractive_index != 0,
            self.refractive_index as int != -(SCALE as int),
        ensures
            r == dialetric_scatter_spec(*self, *ray, *hit_record, old(rng).state).0,
            final(rng).state == dialetric_scatter_spec(*self, *ray, *hit_record, old(rng).state).1,
            r is Some,
            refract_disc_v(
                ray.direction,
                dialetric_outward_spec(*ray, *hit_record),
                dialetric_ratio_spec(*self, *ray, *hit_record),
            ) <= 0 ==> (r matches Some(ms) && ms.ray.direction == reflect_vec(
                ray.direction,
                hit_record.normal,
            )),
    {
        let reflected = Vector3::reflect(ray.direction(), &hit_record.normal);
        let dir_dot_normal = Vector3::dot(ray.direction(), &hit_record.normal);
        let inverted_normal = hit_record.normal.neg();
        let mag = ray.direction().magnitude();
        let outward_normal: Vector3;
        let refraction_differential: Fixed;
        let cosine: Fixed;
        if dir_dot_normal > 0 {
            outward_normal = inverted_normal;
            refraction_differential = self.refractive_index;
            cosine = fdiv(fmul(self.refractive_index, dir_dot_normal), mag);
        } else {
            outward_normal = hit_record.normal;
            refraction_differential = fdiv(SCALE, self.refractive_index);
            cosine = fneg(fdiv(dir_dot_normal, mag));
        }
        let reflect_probability = DialetricMaterial::shlick(cosine, self.refractive_index);
        let draw = rng.next_unit();
        let scattered_ray: Ray;
        if draw < reflect_probability {
            scattered_ray = Ray::new(hit_record.point, reflected);
        } else {
            match Vector3::refract(ray.direction(), &outward_normal, refraction_differential) {
                Some(refracted) => {
                    scattered_ray = Ray::new(hit_record.point, refracted);
                },
                None => {
                    // no real refraction: total internal reflection
                    scattered_ray = Ray::new(hit_record.point, reflected);
                },
            }
        }
        Some(
            MaterialScatter {
                ray: scattered_ray,
                albedo: Vector3::new(SCALE, SCALE, SCALE),
            },
        )
    }
}

impl Material {
    /// Dispatches `scatter` over the closed material set.
    pub fn scatter(&self, ray: &Ray, hit_record: &HitRecord, rng: &mut Rng) -> (r: Option<
        MaterialScatter,
    >)
        requires
            scatter_pre(*self, *ray),
        ensures
            r == scatter_spec(*self, *ray, *hit_record, old(rng).state).0,
            final(rng).state == scatter_spec(*self, *ray, *hit_record, old(rng).state).1,
    {
        match self {
            Material::Lambertarian(l) => l.scatter(ray, hit_record, rng),
            Material::Metal(m) => m.scatter(ray, hit_record, rng),
            Material::Dialetric(d) => d.scatter(ray, hit_record, rng),
        }
    }
}

} // verus!
