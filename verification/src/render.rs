//! The recursive color estimator.
//!
//! A ray that escapes the scene earns the background gradient; a ray that
//! hits a surface earns the scattered estimate attenuated by the
//! material's albedo, until the depth budget runs out or the material
//! absorbs, which earns black.

use vstd::prelude::*;

use crate::fixed::SCALE;
use crate::fixed::add_v;
use crate::fixed::fadd;
use crate::fixed::fmul;
use crate::fixed::fsub;
use crate::fixed::lemma_sqrt_floor_bounds;
use crate::fixed::mul_v;
use crate::fixed::sub_v;
use crate::hitable::HitableList;
use crate::hitable::Sphere;
use crate::hitable::list_hit_spec;
use crate::hitable::list_hit_upto;
use crate::hitable::list_ok;
use crate::hitable::sphere_hit_spec;
use crate::material::material_ok;
use crate::material::scatter_spec;
use crate::ray::Ray;
use crate::rng::Rng;
use crate::vector::Vector3;
use crate::vector::add_vec;
use crate::vector::dot_v;
use crate::vector::lemma_magnitude_squared_nonneg;
use crate::vector::magnitude_squared_v;
use crate::vector::magnitude_v;
use crate::vector::mul_vec;
use crate::vector::scale_vec;
use crate::vector::unit_vec;
use crate::vector::v3;

verus! {

/// Least accepted hit distance (about a thousandth): keeps a scattered
/// ray from re-hitting, through rounding, the surface it just left.
pub const HIT_EPSILON: i64 = 66;

/// Upper hit distance bound, standing for an unbounded interval.
pub const HIT_LIMIT: i64 = i64::MAX;

/// Sky-blue red channel (half).
pub const SKY_R: i64 = 32768;

/// Sky-blue green channel (seven tenths, rounded down).
pub const SKY_G: i64 = 45875;

/// Sky-blue blue channel (one).
pub const SKY_B: i64 = 65536;

/// The background gradient: white blended toward sky-blue by
/// `t = (y + 1) / 2` over the unit incoming direction. A degenerate zero
/// direction earns black.
pub open spec fn background_v(ray: Ray) -> Vector3 {
    if magnitude_v(ray.direction) == 0 {
        v3(0, 0, 0)
    } else {
        let unit = unit_vec(ray.direction);
        let t = mul_v(SKY_R as int, add_v(unit.e1 as int, SCALE as int));
        add_vec(
            scale_vec(v3(SCALE as int, SCALE as int, SCALE as int), sub_v(SCALE as int, t)),
            scale_vec(v3(SKY_R as int, SKY_G as int, SKY_B as int), t),
        )
    }
}

/// The color estimated for a ray, with the generator state after the
/// estimate: the background when nothing is hit; black when the depth
/// budget is spent or the material absorbs; otherwise the albedo times
/// the recursive estimate along the scattered ray.
pub open spec fn estimate_spec(
    spheres: Seq<Sphere>,
    ray: Ray,
    current_depth: u32,
    max_depth: u32,
    s: u64,
) -> (Vector3, u64)
    recommends
        list_ok(spheres),
    decreases max_depth - current_depth,
{
    match list_hit_spec(spheres, ray, HIT_EPSILON as int, HIT_LIMIT as int) {
        Some(hit) => {
            if current_depth < max_depth {
                let (scattered, s1) = scatter_spec(hit.material, ray, hit, s);
                match scattered {
                    Some(ms) => {
                        let (color, s2) = estimate_spec(
                            spheres,
                            ms.ray,
                            (current_depth + 1) as u32,
                            max_depth,
                            s1,
                        );
                        (mul_vec(ms.albedo, color), s2)
                    },
                    None => (v3(0, 0, 0), s1),
                }
            } else {
                (v3(0, 0, 0), s)
            }
        },
        None => (background_v(ray), s),
    }
}

/// A vector with a nonzero self-dot-product has nonzero magnitude.
pub proof fn lemma_magnitude_nonzero(a: Vector3)
    requires
        dot_v(a, a) != 0,
    ensures
        magnitude_v(a) > 0,
{
    lemma_magnitude_squared_nonneg(a);
    let m = magnitude_squared_v(a);
    let n = (m * (SCALE as int)) as nat;
    lemma_sqrt_floor_bounds(n);
    assert(m * 65536 >= 65536) by (nonlinear_arith)
        requires
            m >= 1,
    ;
    let s = crate::fixed::sqrt_floor(n);
    if s == 0 {
        assert((s + 1) * (s + 1) == 1) by (nonlinear_arith)
            requires
                s == 0nat,
        ;
        assert(n < 1);
    }
}

/// Whatever the scene's nearest hit hands back is fit to scatter: its
/// material is well defined, and the ray that produced a hit cannot have
/// a degenerate direction.
pub proof fn lemma_hit_scatterable(
    spheres: Seq<Sphere>,
    n: int,
    ray: Ray,
    t_min: int,
    t_max: int,
)
    requires
        list_ok(spheres),
        0 <= n <= spheres.len(),
    ensures
        list_hit_upto(spheres, n, ray, t_min, t_max) matches Some(h) ==> material_ok(h.material)
            && dot_v(ray.direction, ray.direction) != 0,
    decreases n,
{
    if n > 0 {
        lemma_hit_scatterable(spheres, n - 1, ray, t_min, t_max);
        let prev = list_hit_upto(spheres, n - 1, ray, t_min, t_max);
        let bound = match prev {
            Some(h) => h.hit_at as int,
            None => t_max,
        };
        match sphere_hit_spec(spheres[n - 1], ray, t_min, bound) {
            Some(h) => {
                assert(sphere_ok_trigger(spheres, n - 1));
            },
            None => {},
        }
    }
}

/// Names the quantified well-formedness fact for one scene index.
spec fn sphere_ok_trigger(spheres: Seq<Sphere>, i: int) -> bool {
    crate::hitable::sphere_ok(spheres[i])
}

/// The background color of a ray that escapes the scene.
pub fn background_color(ray: &Ray) -> (r: Vector3)
    ensures
        r == background_v(*ray),
{
    let mag = ray.direction().magnitude();
    if mag == 0 {
        return Vector3::new(0, 0, 0);
    }
    let ray_direction_unit = Vector3::unit_vector(ray.direction());
    let t = fmul(SKY_R, fadd(ray_direction_unit.y(), SCALE));
    Vector3::new(SCALE, SCALE, SCALE).scaled(fsub(SCALE, t)).plus(
        &Vector3::new(SKY_R, SKY_G, SKY_B).scaled(t),
    )
}

/// Estimates the color seen along a ray by the recursive random walk.
///
/// The estimate is an exact function of the scene, the ray, the depth
/// budget, and the generator state: same inputs, same color. A ray the
/// scene misses earns exactly the background gradient; a hit with the
/// depth budget spent earns exactly black, whatever the material.
pub fn estimate_color(
    ray: &Ray,
    world: &HitableList,
    current_depth: u32,
    max_depth: u32,
    rng: &mut Rng,
) -> (r: Vector3)
    requires
        list_ok(world.hitables@),
    ensures
        r == estimate_spec(world.hitables@, *ray, current_depth, max_depth, old(rng).state).0,
        final(rng).state == estimate_spec(
            world.hitables@,
            *ray,
            current_depth,
            max_depth,
            old(rng).state,
        ).1,
        (list_hit_spec(world.hitables@, *ray, HIT_EPSILON as int, HIT_LIMIT as int) is Some
            && current_depth >= max_depth) ==> r == v3(0, 0, 0),
        list_hit_spec(world.hitables@, *ray, HIT_EPSILON as int, HIT_LIMIT as int) is None ==> r
            == background_v(*ray),
    decreases max_depth - current_depth,
{
    match world.hit(ray, HIT_EPSILON, HIT_LIMIT) {
        Some(hit_record) => {
            if current_depth < max_depth {
                proof {
                    lemma_hit_scatterable(
                        world.hitables@,
                        world.hitables@.len() as int,
                        *ray,
                        HIT_EPSILON as int,
                        HIT_LIMIT as int,
                    );
                    lemma_magnitude_nonzero(ray.direction);
                }
                match hit_record.material.scatter(ray, &hit_record, rng) {
                    Some(scatter_material) => {
                        let color = estimate_color(
                            &scatter_material.ray,
                            world,
                            current_depth + 1,
                            max_depth,
                            rng,
                        );
                        scatter_material.albedo.times(&color)
                    },
                    None => Vector3::new(0, 0, 0),
                }
            } else {
                Vector3::new(0, 0, 0)
            }
        },
        None => background_color(ray),
    }
}

} // verus!
