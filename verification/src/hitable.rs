//! Hit records, the sphere primitive, and the scene container.
//!
//! A sphere intersection solves the quadratic the ray makes with the
//! implicit sphere equation; the scene returns the nearest accepted hit
//! by shrinking the upper distance bound as it walks its primitives.

use vstd::prelude::*;

use crate::fixed::Fixed;
use crate::fixed::SCALE;
use crate::fixed::add_v;
use crate::fixed::lemma_tdiv_exact;
use crate::fixed::tdiv;
use crate::fixed::div_v;
use crate::fixed::fadd;
use crate::fixed::fdiv;
use crate::fixed::fmul;
use crate::fixed::fneg;
use crate::fixed::fsqrt;
use crate::fixed::fsub;
use crate::fixed::mul_v;
use crate::fixed::neg_v;
use crate::fixed::sqrt_v;
use crate::fixed::sub_v;
use crate::material::Material;
use crate::material::material_ok;
use crate::ray::Ray;
use crate::ray::point_at;
use crate::vector::Vector3;
use crate::vector::div_scale_vec;
use crate::vector::dot_v;
use crate::vector::lemma_magnitude_squared_nonneg;
use crate::vector::sub_vec;

verus! {

/// One ray-surface intersection: the hit distance along the ray, the hit
/// point, the surface normal there, and the material that was struck.
/// Created per intersection test and consumed by the following scatter.
#[derive(Clone, Copy, Debug, PartialEq, Eq, Structural)]
pub struct HitRecord {
    pub hit_at: Fixed,
    pub point: Vector3,
    pub normal: Vector3,
    pub material: Material,
}

impl HitRecord {
    /// Builds a hit record from its parts.
    pub fn new(hit_at: Fixed, point: Vector3, normal: Vector3, material: Material) -> (r: Self)
        ensures
            r == (HitRecord { hit_at, point, normal, material }),
    {
        HitRecord { hit_at, point, normal, material }
    }
}

/// A sphere: center, signed radius, and the material of its surface. A
/// negative radius flips the surface normal inward, which models a hollow
/// shell; only a zero radius is ruled out.
#[derive(Clone, Copy, Debug, PartialEq, Eq, Structural)]
pub struct Sphere {
    pub center: Vector3,
    pub radius: Fixed,
    pub material: Material,
}

/// A sphere whose intersections and scatters are everywhere defined.
pub open spec fn sphere_ok(s: Sphere) -> bool {
    s.radius != 0 && material_ok(s.material)
}

/// The record a hit of sphere `s` at distance `t` yields: the normal is
/// `(point - center) / radius`, so its sign follows the radius sign.
pub open spec fn sphere_record(s: Sphere, ray: Ray, t: int) -> HitRecord
    recommends
        s.radius != 0,
{
    let p = point_at(ray, t);
    HitRecord {
        hit_at: t as i64,
        point: p,
        normal: div_scale_vec(sub_vec(p, s.center), s.radius as int),
        material: s.material,
    }
}

/// What intersecting a ray with a sphere yields over the interval
/// `(t_min, t_max)` (strict at both ends): the quadratic
/// `a t^2 + 2 b t + c = 0` is solved, the smaller root is preferred, and
/// a negative discriminant or a degenerate zero direction yields
/// nothing (a tangent hit, discriminant zero, still counts).
pub open spec fn sphere_hit_spec(s: Sphere, ray: Ray, t_min: int, t_max: int) -> Option<HitRecord>
    recommends
        s.radius != 0,
{
    let oc = sub_vec(ray.origin, s.center);
    let a = dot_v(ray.direction, ray.direction);
    let b = dot_v(ray.direction, oc);
    let c = sub_v(dot_v(oc, oc), mul_v(s.radius as int, s.radius as int));
    let disc = sub_v(mul_v(b, b), mul_v(a, c));
    if a == 0 || disc < 0 {
        None
    } else {
        let sq = sqrt_v(disc);
        let t1 = div_v(sub_v(neg_v(b), sq), a);
        let t2 = div_v(add_v(neg_v(b), sq), a);
        if t_min < t1 && t1 < t_max {
            Some(sphere_record(s, ray, t1))
        } else if t_min < t2 && t2 < t_max {
            Some(sphere_record(s, ray, t2))
        } else {
            None
        }
    }
}

/// A ray cast at a sphere straight through its center hits the surface
/// at distance `dist - radius` going in and `dist + radius` coming out,
/// and the intersection yields the smaller root that lies in range. The
/// statement takes the representative configuration: sphere centered at
/// the origin, ray origin on the positive third axis at distance `dist`,
/// unit direction straight down that axis, and a radius whose square is
/// a whole number of raw units, so that the square root is exact. The
/// distance is capped well below the range where sums would saturate.
pub proof fn lemma_ray_through_center(
    s: Sphere,
    ray: Ray,
    t_min: int,
    t_max: int,
    dist: i64,
    radius: i64,
)
    requires
        0 < radius < dist,
        dist <= 0x4000000000,
        (radius as int) * (radius as int) % (SCALE as int) == 0,
        s.center == crate::vector::v3(0, 0, 0),
        s.radius == radius,
        ray.origin == crate::vector::v3(0, 0, dist as int),
        ray.direction == crate::vector::v3(0, 0, -(SCALE as int)),
    ensures
        t_min < dist - radius < t_max ==> (sphere_hit_spec(s, ray, t_min, t_max) matches Some(h)
            && h.hit_at == dist - radius),
        (dist - radius <= t_min && t_min < dist + radius < t_max) ==> (sphere_hit_spec(
            s,
            ray,
            t_min,
            t_max,
        ) matches Some(h) && h.hit_at == dist + radius),
{
    let sc = SCALE as int;
    let di = dist as int;
    let ra = radius as int;
    let oc = sub_vec(ray.origin, s.center);
    assert(oc == crate::vector::v3(0, 0, di));
    let a = dot_v(ray.direction, ray.direction);
    assert((-sc) * (-sc) == sc * sc) by (nonlinear_arith);
    lemma_tdiv_exact(sc, sc);
    assert(a == sc);
    let b = dot_v(ray.direction, oc);
    assert((-sc) * di == (-di) * sc) by (nonlinear_arith);
    lemma_tdiv_exact(-di, sc);
    assert(b == -di);
    let qd = tdiv(di * di, sc);
    assert(0 <= di * di <= 0x10000000000000000000) by (nonlinear_arith)
        requires
            0 <= di <= 0x4000000000,
    ;
    crate::fixed::lemma_tdiv_nonneg(di * di, sc);
    vstd::arithmetic::div_mod::lemma_div_is_ordered(di * di, 0x10000000000000000000, sc);
    assert(qd <= 0x10000000000000000000int / 65536);
    let qr = tdiv(ra * ra, sc);
    assert(0 <= ra * ra <= di * di) by (nonlinear_arith)
        requires
            0 < ra < di,
    ;
    crate::fixed::lemma_tdiv_nonneg(ra * ra, sc);
    vstd::arithmetic::div_mod::lemma_div_is_ordered(ra * ra, di * di, sc);
    let c = sub_v(dot_v(oc, oc), mul_v(ra, ra));
    assert(dot_v(oc, oc) == qd);
    assert(c == qd - qr);
    let disc = sub_v(mul_v(b, b), mul_v(a, c));
    assert((-di) * (-di) == di * di) by (nonlinear_arith);
    assert(mul_v(b, b) == qd);
    assert(sc * (qd - qr) == (qd - qr) * sc) by (nonlinear_arith);
    lemma_tdiv_exact(qd - qr, sc);
    assert(mul_v(a, c) == qd - qr);
    assert(disc == qr);
    // the square root of the discriminant is exactly the radius
    vstd::arithmetic::div_mod::lemma_fundamental_div_mod(ra * ra, sc);
    assert(qr * sc == ra * ra) by (nonlinear_arith)
        requires
            ra * ra == sc * qr + (ra * ra) % sc,
            (ra * ra) % sc == 0,
    ;
    crate::fixed::lemma_sqrt_v_exact(qr, ra);
    assert(sqrt_v(disc) == ra);
    let t1 = div_v(sub_v(neg_v(b), sqrt_v(disc)), a);
    lemma_tdiv_exact(di - ra, sc);
    assert(t1 == di - ra);
    let t2 = div_v(add_v(neg_v(b), sqrt_v(disc)), a);
    lemma_tdiv_exact(di + ra, sc);
    assert(t2 == di + ra);
}

/// A ray whose origin lies outside a sphere and whose direction does not
/// point back toward it reports no hit, whatever the random history: the
/// outside condition is a positive quadratic constant term, pointing
/// away is a nonnegative half-slope, and then both roots lie at or below
/// zero, outside any interval with a nonnegative lower bound.
pub proof fn lemma_ray_pointing_away_misses(s: Sphere, ray: Ray, t_min: int, t_max: int)
    requires
        s.radius != 0,
        t_min >= 0,
        dot_v(ray.direction, sub_vec(ray.origin, s.center)) >= 0,
        sub_v(
            dot_v(sub_vec(ray.origin, s.center), sub_vec(ray.origin, s.center)),
            mul_v(s.radius as int, s.radius as int),
        ) > 0,
    ensures
        sphere_hit_spec(s, ray, t_min, t_max) is None,
{
    let sc = SCALE as int;
    let oc = sub_vec(ray.origin, s.center);
    let a = dot_v(ray.direction, ray.direction);
    let b = dot_v(ray.direction, oc);
    let c = sub_v(dot_v(oc, oc), mul_v(s.radius as int, s.radius as int));
    crate::vector::lemma_magnitude_squared_nonneg(ray.direction);
    if a != 0 {
        let disc = sub_v(mul_v(b, b), mul_v(a, c));
        if disc >= 0 {
            // the root of the discriminant cannot exceed the half-slope
            assert(0 <= a * c) by (nonlinear_arith)
                requires
                    a >= 1,
                    c >= 1,
            ;
            crate::fixed::lemma_tdiv_nonneg(a * c, sc);
            assert(0 <= b * b) by (nonlinear_arith);
            crate::fixed::lemma_tdiv_nonneg(b * b, sc);
            assert(disc <= tdiv(b * b, sc));
            let n = disc * sc;
            vstd::arithmetic::div_mod::lemma_fundamental_div_mod(b * b, sc);
            assert((b * b) % sc >= 0) by {
                vstd::arithmetic::div_mod::lemma_remainder_lower(b * b, sc);
            }
            assert(tdiv(b * b, sc) * sc <= b * b) by (nonlinear_arith)
                requires
                    b * b == sc * tdiv(b * b, sc) + (b * b) % sc,
                    (b * b) % sc >= 0,
                    sc == 65536,
            ;
            assert(disc * sc <= tdiv(b * b, sc) * sc) by (nonlinear_arith)
                requires
                    disc <= tdiv(b * b, sc),
                    sc > 0,
            ;
            crate::fixed::lemma_sqrt_floor_bounds(n as nat);
            let sq = sqrt_v(disc);
            assert(sq * sq <= n);
            assert(sq <= b) by (nonlinear_arith)
                requires
                    sq >= 0,
                    b >= 0,
                    sq * sq <= b * b,
            ;
            // both roots are at or below zero, hence out of range
            let num1 = sub_v(neg_v(b), sq);
            let num2 = add_v(neg_v(b), sq);
            assert(num1 <= 0 && num2 <= 0);
            assert(num1 * sc <= 0 && num2 * sc <= 0) by (nonlinear_arith)
                requires
                    num1 <= 0,
                    num2 <= 0,
                    sc > 0,
            ;
            crate::fixed::lemma_tdiv_nonpos(num1 * sc, a);
            crate::fixed::lemma_tdiv_nonpos(num2 * sc, a);
            let t1 = div_v(num1, a);
            let t2 = div_v(num2, a);
            assert(t1 <= 0 && t2 <= 0);
        }
    }
}

/// Any hit a sphere reports lies strictly inside the given interval.
pub proof fn lemma_sphere_hit_in_range(s: Sphere, ray: Ray, t_min: int, t_max: int)
    ensures
        sphere_hit_spec(s, ray, t_min, t_max) matches Some(h) ==> t_min < h.hit_at < t_max,
{
}

/// The sphere's reported hit does not depend on the upper bound, beyond
/// being filtered by it: a hit under a tight bound is the hit under any
/// looser one, and a loose hit below a tight bound is reported under the
/// tight bound too.
proof fn lemma_sphere_hit_bound(s: Sphere, ray: Ray, t_min: int, b1: int, b2: int)
    requires
        b1 <= b2,
    ensures
        sphere_hit_spec(s, ray, t_min, b1) is Some ==> sphere_hit_spec(s, ray, t_min, b2)
            == sphere_hit_spec(s, ray, t_min, b1),
        (sphere_hit_spec(s, ray, t_min, b2) matches Some(h) && (h.hit_at as int) < b1)
            ==> sphere_hit_spec(s, ray, t_min, b1) == sphere_hit_spec(s, ray, t_min, b2),
{
    let sc = SCALE as int;
    let oc = sub_vec(ray.origin, s.center);
    let a = dot_v(ray.direction, ray.direction);
    let b = dot_v(ray.direction, oc);
    let c = sub_v(dot_v(oc, oc), mul_v(s.radius as int, s.radius as int));
    let disc = sub_v(mul_v(b, b), mul_v(a, c));
    if a != 0 && disc >= 0 {
        crate::vector::lemma_magnitude_squared_nonneg(ray.direction);
        let sq = sqrt_v(disc);
        assert(sq >= 0);
        let num1 = sub_v(neg_v(b), sq);
        let num2 = add_v(neg_v(b), sq);
        assert(num1 <= num2);
        assert(num1 * sc <= num2 * sc) by (nonlinear_arith)
            requires
                num1 <= num2,
                sc > 0,
        ;
        crate::fixed::lemma_tdiv_monotone(num1 * sc, num2 * sc, a);
        assert(div_v(num1, a) <= div_v(num2, a));
    }
}

/// How near one optional hit is to another: a reported hit is at least
/// as near as any other report, and nothing is nearer than a miss.
pub open spec fn at_least_as_near(best: Option<HitRecord>, other: Option<HitRecord>) -> bool {
    match other {
        Some(hi) => best matches Some(h) && h.hit_at <= hi.hit_at,
        None => true,
    }
}

/// The scene aggregation really returns the nearest surface: whatever
/// the first `n` spheres would report over the whole interval on their
/// own, the aggregate's hit is at least as near, and an aggregate miss
/// means every sphere misses.
pub proof fn lemma_list_hit_nearest(spheres: Seq<Sphere>, n: int, ray: Ray, t_min: int, t_max: int)
    requires
        0 <= n <= spheres.len(),
    ensures
        list_hit_upto(spheres, n, ray, t_min, t_max) matches Some(h) ==> t_min < h.hit_at < t_max,
        forall|i: int|
            0 <= i < n ==> at_least_as_near(
                list_hit_upto(spheres, n, ray, t_min, t_max),
                #[trigger] sphere_hit_spec(spheres[i], ray, t_min, t_max),
            ),
    decreases n,
{
    if n > 0 {
        lemma_list_hit_nearest(spheres, n - 1, ray, t_min, t_max);
        let prev = list_hit_upto(spheres, n - 1, ray, t_min, t_max);
        let bound = match prev {
            Some(h) => h.hit_at as int,
            None => t_max,
        };
        let cur = sphere_hit_spec(spheres[n - 1], ray, t_min, bound);
        lemma_sphere_hit_in_range(spheres[n - 1], ray, t_min, bound);
        lemma_sphere_hit_bound(spheres[n - 1], ray, t_min, bound, t_max);
        match cur {
            Some(hc) => {
                assert(sphere_hit_spec(spheres[n - 1], ray, t_min, t_max) == cur);
            },
            None => {
                match sphere_hit_spec(spheres[n - 1], ray, t_min, t_max) {
                    Some(hf) => {
                        assert((hf.hit_at as int) >= bound);
                    },
                    None => {},
                }
            },
        }
    }
}

impl Sphere {
    /// Builds a sphere from center, signed radius, and material.
    pub fn new(center: Vector3, radius: Fixed, material: Material) -> (r: Self)
        ensures
            r == (Sphere { center, radius, material }),
    {
        Sphere { center, radius, material }
    }

    /// The sphere's center.
    pub fn center(&self) -> (r: &Vector3)
        ensures
            *r == self.center,
    {
        &self.center
    }

    /// The sphere's signed radius.
    pub fn radius(&self) -> (r: Fixed)
        ensures
            r == self.radius,
    {
        self.radius
    }

    /// Intersects the ray with this sphere over `(t_min, t_max)`.
    pub fn hit(&self, ray: &Ray, t_min: Fixed, t_max: Fixed) -> (r: Option<HitRecord>)
        requires
            self.radius != 0,
        ensures
            r == sphere_hit_spec(*self, *ray, t_min as int, t_max as int),
    {
        let sphere_origin_vector = ray.origin().minus(&self.center);
        let a = Vector3::dot(ray.direction(), ray.direction());
        let b = Vector3::dot(ray.direction(), &sphere_origin_vector);
        let c = fsub(
            Vector3::dot(&sphere_origin_vector, &sphere_origin_vector),
            fmul(self.radius, self.radius),
        );
        let discriminant = fsub(fmul(b, b), fmul(a, c));
        if a == 0 || discriminant < 0 {
            // a zero direction or no real root: the ray misses
            return None;
        }
        let sq = fsqrt(discriminant);
        let time_at_hit = fdiv(fsub(fneg(b), sq), a);
        if t_min < time_at_hit && time_at_hit < t_max {
            let point_at_hit = ray.point_at_time(time_at_hit);
            let normal = point_at_hit.minus(&self.center).divided(self.radius);
            return Some(HitRecord::new(time_at_hit, point_at_hit, normal, self.material));
        }
        let time_at_hit = fdiv(fadd(fneg(b), sq), a);
        if t_min < time_at_hit && time_at_hit < t_max {
            let point_at_hit = ray.point_at_time(time_at_hit);
            let normal = point_at_hit.minus(&self.center).divided(self.radius);
            return Some(HitRecord::new(time_at_hit, point_at_hit, normal, self.material));
        }
        None
    }
}

/// The scene: an ordered collection of spheres.
pub struct HitableList {
    pub hitables: Vec<Sphere>,
}

/// A scene whose every sphere is well defined.
pub open spec fn list_ok(spheres: Seq<Sphere>) -> bool {
    forall|i: int| 0 <= i < spheres.len() ==> sphere_ok(#[trigger] spheres[i])
}

/// The nearest hit among the first `n` spheres: each sphere is tested
/// against an upper bound shrunk to the best hit so far, so a later
/// sphere displaces an earlier one only by hitting strictly nearer. At
/// an exactly equal distance the strict bound keeps the earlier record,
/// an incidental choice no client should lean on.
pub open spec fn list_hit_upto(
    spheres: Seq<Sphere>,
    n: int,
    ray: Ray,
    t_min: int,
    t_max: int,
) -> Option<HitRecord>
    recommends
        0 <= n <= spheres.len(),
    decreases n,
{
    if n <= 0 {
        None
    } else {
        let prev = list_hit_upto(spheres, n - 1, ray, t_min, t_max);
        let bound = match prev {
            Some(h) => h.hit_at as int,
            None => t_max,
        };
        match sphere_hit_spec(spheres[n - 1], ray, t_min, bound) {
            Some(h) => Some(h),
            None => prev,
        }
    }
}

/// The nearest hit in the whole scene.
pub open spec fn list_hit_spec(spheres: Seq<Sphere>, ray: Ray, t_min: int, t_max: int) -> Option<
    HitRecord,
> {
    list_hit_upto(spheres, spheres.len() as int, ray, t_min, t_max)
}

impl HitableList {
    /// Builds a scene from its spheres.
    pub fn new(hitables: Vec<Sphere>) -> (r: HitableList)
        ensures
            r.hitables@ == hitables@,
    {
        HitableList { hitables }
    }

    /// Intersects the ray with every sphere and returns the nearest hit.
    #[verifier::loop_isolation(false)]
    #[verifier::rlimit(60)]
    pub fn hit(&self, ray: &Ray, t_min: Fixed, t_max: Fixed) -> (r: Option<HitRecord>)
        requires
            list_ok(self.hitables@),
        ensures
            r == list_hit_spec(self.hitables@, *ray, t_min as int, t_max as int),
            r matches Some(h) ==> t_min < h.hit_at < t_max,
            forall|i: int|
                0 <= i < self.hitables@.len() ==> at_least_as_near(
                    r,
                    #[trigger] sphere_hit_spec(self.hitables@[i], *ray, t_min as int, t_max as int),
                ),
    {
        proof {
            lemma_list_hit_nearest(
                self.hitables@,
                self.hitables@.len() as int,
                *ray,
                t_min as int,
                t_max as int,
            );
        }
        let mut bound = t_max;
        let mut closest_hit: Option<HitRecord> = None;
        let mut i: usize = 0;
        while i < self.hitables.len()
            invariant
                0 <= i <= self.hitables.len(),
                closest_hit == list_hit_upto(
                    self.hitables@,
                    i as int,
                    *ray,
                    t_min as int,
                    t_max as int,
                ),
                bound as int == (match closest_hit {
                    Some(h) => h.hit_at as int,
                    None => t_max as int,
                }),
            decreases self.hitables.len() - i,
        {
            match self.hitables[i].hit(ray, t_min, bound) {
                Some(hit_record) => {
                    bound = hit_record.hit_at;
                    closest_hit = Some(hit_record);
                },
                None => {},
            }
            i = i + 1;
        }
        closest_hit
    }
}

} // verus!
