//! Three-component vectors over fixed-point scalars.
//!
//! Each operation carries an exact contract: a spec-level mirror over the
//! saturating, truncating scalar model in `fixed`. The same storage serves
//! as a spatial point (`x`/`y`/`z`) and as a color (`r`/`g`/`b`).

use vstd::prelude::*;

use crate::fixed::Fixed;
use crate::fixed::SCALE;
use crate::fixed::add_v;
use crate::fixed::clip;
use crate::fixed::div_v;
use crate::fixed::fadd;
use crate::fixed::fdiv;
use crate::fixed::fmul;
use crate::fixed::fneg;
use crate::fixed::fsqrt;
use crate::fixed::fsub;
use crate::fixed::lemma_tdiv_exact;
use crate::fixed::lemma_tdiv_nonneg;
use crate::fixed::mul_v;
use crate::fixed::neg_v;
use crate::fixed::sqrt_v;
use crate::fixed::sub_v;
use crate::rng::Rng;
use crate::rng::next_state;
use crate::rng::sym_of;

verus! {

/// An immutable triple of fixed-point scalars.
#[derive(Clone, Copy, Debug, PartialEq, Eq, Structural)]
pub struct Vector3 {
    pub e0: Fixed,
    pub e1: Fixed,
    pub e2: Fixed,
}

/// Builds a vector from mathematical integers, saturating each component.
pub open spec fn v3(x: int, y: int, z: int) -> Vector3 {
    Vector3 { e0: clip(x) as i64, e1: clip(y) as i64, e2: clip(z) as i64 }
}

/// Componentwise sum.
pub open spec fn add_vec(a: Vector3, b: Vector3) -> Vector3 {
    v3(a.e0 + b.e0, a.e1 + b.e1, a.e2 + b.e2)
}

/// Componentwise difference.
pub open spec fn sub_vec(a: Vector3, b: Vector3) -> Vector3 {
    v3(a.e0 - b.e0, a.e1 - b.e1, a.e2 - b.e2)
}

/// Componentwise negation.
pub open spec fn neg_vec(a: Vector3) -> Vector3 {
    v3(-a.e0, -a.e1, -a.e2)
}

/// Componentwise product (color attenuation).
pub open spec fn mul_vec(a: Vector3, b: Vector3) -> Vector3 {
    v3(mul_v(a.e0 as int, b.e0 as int), mul_v(a.e1 as int, b.e1 as int), mul_v(
        a.e2 as int,
        b.e2 as int,
    ))
}

/// The vector scaled by a scalar.
pub open spec fn scale_vec(a: Vector3, k: int) -> Vector3 {
    v3(mul_v(a.e0 as int, k), mul_v(a.e1 as int, k), mul_v(a.e2 as int, k))
}

/// The vector divided by a nonzero scalar.
pub open spec fn div_scale_vec(a: Vector3, k: int) -> Vector3
    recommends
        k != 0,
{
    v3(div_v(a.e0 as int, k), div_v(a.e1 as int, k), div_v(a.e2 as int, k))
}

/// Dot product, summed left to right.
pub open spec fn dot_v(a: Vector3, b: Vector3) -> int {
    add_v(
        add_v(mul_v(a.e0 as int, b.e0 as int), mul_v(a.e1 as int, b.e1 as int)),
        mul_v(a.e2 as int, b.e2 as int),
    )
}

/// Cross product.
pub open spec fn cross_vec(a: Vector3, b: Vector3) -> Vector3 {
    v3(
        sub_v(mul_v(a.e1 as int, b.e2 as int), mul_v(a.e2 as int, b.e1 as int)),
        neg_v(sub_v(mul_v(a.e0 as int, b.e2 as int), mul_v(a.e2 as int, b.e0 as int))),
        sub_v(mul_v(a.e0 as int, b.e1 as int), mul_v(a.e1 as int, b.e0 as int)),
    )
}

/// Squared magnitude: the dot product of the vector with itself.
pub open spec fn magnitude_squared_v(a: Vector3) -> int {
    dot_v(a, a)
}

/// Magnitude: fixed-point square root of the squared magnitude.
pub open spec fn magnitude_v(a: Vector3) -> int {
    sqrt_v(magnitude_squared_v(a))
}

/// The vector scaled to unit length (defined for nonzero magnitude).
pub open spec fn unit_vec(a: Vector3) -> Vector3
    recommends
        magnitude_v(a) != 0,
{
    div_scale_vec(a, magnitude_v(a))
}

/// Reflection of `v` about the normal `n`: `v - 2 * dot(v, n) * n`.
pub open spec fn reflect_vec(v: Vector3, n: Vector3) -> Vector3 {
    sub_vec(v, scale_vec(n, add_v(dot_v(v, n), dot_v(v, n))))
}

/// Discriminant of Snell's law in vector form: `1 - ratio^2 * (1 - c^2)`,
/// where `c` is the cosine between the unit incoming vector and `-n`.
pub open spec fn refract_disc_v(v: Vector3, n: Vector3, ratio: int) -> int
    recommends
        magnitude_v(v) != 0,
{
    let c = dot_v(unit_vec(v), neg_vec(n));
    sub_v(SCALE as int, mul_v(mul_v(ratio, ratio), sub_v(SCALE as int, mul_v(c, c))))
}

/// Refraction of `v` at the normal `n` (Snell's law, vector form): no
/// value when the discriminant shows total internal reflection.
pub open spec fn refract_vec(v: Vector3, n: Vector3, ratio: int) -> Option<Vector3>
    recommends
        magnitude_v(v) != 0,
{
    let u = unit_vec(v);
    let c = dot_v(u, neg_vec(n));
    let disc = refract_disc_v(v, n, ratio);
    if disc <= 0 {
        None
    } else {
        Some(add_vec(scale_vec(u, ratio), scale_vec(n, sub_v(mul_v(ratio, c), sqrt_v(disc)))))
    }
}

/// Discriminant of the book form of Snell's law, over the cosine with `n`.
pub open spec fn refract_book_disc_v(v: Vector3, n: Vector3, ratio: int) -> int
    recommends
        magnitude_v(v) != 0,
{
    let dt = dot_v(unit_vec(v), n);
    sub_v(SCALE as int, mul_v(mul_v(ratio, ratio), sub_v(SCALE as int, mul_v(dt, dt))))
}

/// Refraction of `v` at the normal `n`, in the book form.
pub open spec fn refract_book_vec(v: Vector3, n: Vector3, ratio: int) -> Option<Vector3>
    recommends
        magnitude_v(v) != 0,
{
    let u = unit_vec(v);
    let dt = dot_v(u, n);
    let disc = refract_book_disc_v(v, n, ratio);
    if disc <= 0 {
        None
    } else {
        Some(
            sub_vec(scale_vec(sub_vec(u, scale_vec(n, dt)), ratio), scale_vec(n, sqrt_v(disc))),
        )
    }
}

/// Tries granted to a rejection-sampling loop before it falls back to the
/// origin: termination is almost sure, and the cap makes it certain.
pub const SAMPLE_TRIES: u64 = 64;

/// The point rejection sampling inside the unit sphere yields from state
/// `s` with `fuel` tries left, with the state after the draw.
pub open spec fn sample_sphere_spec(s: u64, fuel: nat) -> (Vector3, u64)
    decreases fuel,
{
    if fuel == 0 {
        (v3(0, 0, 0), s)
    } else {
        let s1 = next_state(s);
        let s2 = next_state(s1);
        let s3 = next_state(s2);
        let p = v3(sym_of(s1), sym_of(s2), sym_of(s3));
        if magnitude_squared_v(p) < SCALE as int {
            (p, s3)
        } else {
            sample_sphere_spec(s3, (fuel - 1) as nat)
        }
    }
}

/// The point rejection sampling inside the unit disk (z = 0) yields from
/// state `s` with `fuel` tries left, with the state after the draw.
pub open spec fn sample_disk_spec(s: u64, fuel: nat) -> (Vector3, u64)
    decreases fuel,
{
    if fuel == 0 {
        (v3(0, 0, 0), s)
    } else {
        let s1 = next_state(s);
        let s2 = next_state(s1);
        let p = v3(sym_of(s1), sym_of(s2), 0);
        if magnitude_squared_v(p) < SCALE as int {
            (p, s2)
        } else {
            sample_disk_spec(s2, (fuel - 1) as nat)
        }
    }
}

/// A normal that is exactly one of the six axis-aligned unit vectors.
pub open spec fn axis_unit(n: Vector3) -> bool {
    ((n.e0 == SCALE || n.e0 == -SCALE) && n.e1 == 0 && n.e2 == 0) || (n.e0 == 0 && (n.e1 == SCALE
        || n.e1 == -SCALE) && n.e2 == 0) || (n.e0 == 0 && n.e1 == 0 && (n.e2 == SCALE || n.e2
        == -SCALE))
}

/// Multiplying by one, minus one, or zero is exact.
proof fn lemma_mul_unit(x: int)
    requires
        -0x7fffffffffffffff <= x <= 0x7fffffffffffffff,
    ensures
        mul_v(x, SCALE as int) == x,
        mul_v(SCALE as int, x) == x,
        mul_v(x, -(SCALE as int)) == -x,
        mul_v(-(SCALE as int), x) == -x,
        mul_v(x, 0) == 0,
        mul_v(0, x) == 0,
{
    let sc = SCALE as int;
    lemma_tdiv_exact(x, sc);
    lemma_tdiv_exact(-x, sc);
    assert(x * sc == sc * x) by (nonlinear_arith);
    assert(x * (-sc) == (-x) * sc) by (nonlinear_arith);
    assert((-sc) * x == (-x) * sc) by (nonlinear_arith);
    assert(x * 0 == 0 && 0 * x == 0) by (nonlinear_arith);
}

/// Reflecting about an axis-aligned unit normal flips exactly the
/// component along that axis.
proof fn lemma_reflect_axis(v: Vector3, n: Vector3)
    requires
        axis_unit(n),
        -0x200000000000 <= v.e0 <= 0x200000000000,
        -0x200000000000 <= v.e1 <= 0x200000000000,
        -0x200000000000 <= v.e2 <= 0x200000000000,
    ensures
        n.e0 != 0 ==> reflect_vec(v, n) == v3(-v.e0, v.e1 as int, v.e2 as int),
        n.e1 != 0 ==> reflect_vec(v, n) == v3(v.e0 as int, -v.e1, v.e2 as int),
        n.e2 != 0 ==> reflect_vec(v, n) == v3(v.e0 as int, v.e1 as int, -v.e2),
{
    lemma_mul_unit(v.e0 as int);
    lemma_mul_unit(v.e1 as int);
    lemma_mul_unit(v.e2 as int);
    let d = dot_v(v, n);
    let k = add_v(d, d);
    lemma_mul_unit(k);
}

/// Reflecting twice about the same planar normal restores the vector.
/// The statement is exact for the axis-aligned unit normals, where no
/// fixed-point truncation occurs; a general unit normal may perturb the
/// result by rounding in the last raw unit.
pub proof fn lemma_reflect_involution(v: Vector3, n: Vector3)
    requires
        axis_unit(n),
        -0x200000000000 <= v.e0 <= 0x200000000000,
        -0x200000000000 <= v.e1 <= 0x200000000000,
        -0x200000000000 <= v.e2 <= 0x200000000000,
    ensures
        reflect_vec(reflect_vec(v, n), n) == v,
{
    lemma_reflect_axis(v, n);
    let r1 = reflect_vec(v, n);
    lemma_reflect_axis(r1, n);
}

/// A squared fixed-point product never falls below zero.
pub proof fn lemma_mul_self_nonneg(x: int)
    ensures
        0 <= mul_v(x, x),
{
    assert(x * x >= 0) by (nonlinear_arith);
    lemma_tdiv_nonneg(x * x, SCALE as int);
}

/// A vector's squared magnitude never falls below zero.
pub proof fn lemma_magnitude_squared_nonneg(a: Vector3)
    ensures
        0 <= magnitude_squared_v(a),
{
    lemma_mul_self_nonneg(a.e0 as int);
    lemma_mul_self_nonneg(a.e1 as int);
    lemma_mul_self_nonneg(a.e2 as int);
}

impl Vector3 {
    /// Builds the vector with the given components.
    pub fn new(x: Fixed, y: Fixed, z: Fixed) -> (r: Self)
        ensures
            r == (Vector3 { e0: x, e1: y, e2: z }),
    {
        Vector3 { e0: x, e1: y, e2: z }
    }

    /// Componentwise sum.
    pub fn plus(&self, other: &Vector3) -> (r: Vector3)
        ensures
            r == add_vec(*self, *other),
    {
        Vector3 {
            e0: fadd(self.e0, other.e0),
            e1: fadd(self.e1, other.e1),
            e2: fadd(self.e2, other.e2),
        }
    }

    /// Componentwise difference.
    pub fn minus(&self, other: &Vector3) -> (r: Vector3)
        ensures
            r == sub_vec(*self, *other),
    {
        Vector3 {
            e0: fsub(self.e0, other.e0),
            e1: fsub(self.e1, other.e1),
            e2: fsub(self.e2, other.e2),
        }
    }

    /// Componentwise product (color attenuation).
    pub fn times(&self, other: &Vector3) -> (r: Vector3)
        ensures
            r == mul_vec(*self, *other),
    {
        Vector3 {
            e0: fmul(self.e0, other.e0),
            e1: fmul(self.e1, other.e1),
            e2: fmul(self.e2, other.e2),
        }
    }

    /// The vector scaled by a scalar.
    pub fn scaled(&self, k: Fixed) -> (r: Vector3)
        ensures
            r == scale_vec(*self, k as int),
    {
        Vector3 { e0: fmul(self.e0, k), e1: fmul(self.e1, k), e2: fmul(self.e2, k) }
    }

    /// The vector divided by a nonzero scalar.
    pub fn divided(&self, k: Fixed) -> (r: Vector3)
        requires
            k != 0,
        ensures
            r == div_scale_vec(*self, k as int),
    {
        Vector3 { e0: fdiv(self.e0, k), e1: fdiv(self.e1, k), e2: fdiv(self.e2, k) }
    }

    /// Componentwise negation.
    pub fn neg(&self) -> (r: Vector3)
        ensures
            r == neg_vec(*self),
    {
        Vector3 { e0: fneg(self.e0), e1: fneg(self.e1), e2: fneg(self.e2) }
    }

    /// Dot product of two vectors.
    pub fn dot(lhs: &Vector3, rhs: &Vector3) -> (r: Fixed)
        ensures
            r as int == dot_v(*lhs, *rhs),
    {
        fadd(fadd(fmul(lhs.e0, rhs.e0), fmul(lhs.e1, rhs.e1)), fmul(lhs.e2, rhs.e2))
    }

    /// Cross product of two vectors.
    pub fn cross(&self, other: &Vector3) -> (r: Vector3)
        ensures
            r == cross_vec(*self, *other),
    {
        Vector3 {
            e0: fsub(fmul(self.e1, other.e2), fmul(self.e2, other.e1)),
            e1: fneg(fsub(fmul(self.e0, other.e2), fmul(self.e2, other.e0))),
            e2: fsub(fmul(self.e0, other.e1), fmul(self.e1, other.e0)),
        }
    }

    /// Squared magnitude of the vector.
    pub fn magnitude_squared(&self) -> (r: Fixed)
        ensures
            r as int == magnitude_squared_v(*self),
            r >= 0,
    {
        proof {
            lemma_magnitude_squared_nonneg(*self);
        }
        fadd(fadd(fmul(self.e0, self.e0), fmul(self.e1, self.e1)), fmul(self.e2, self.e2))
    }

    /// Magnitude of the vector.
    pub fn magnitude(&self) -> (r: Fixed)
        ensures
            r as int == magnitude_v(*self),
            r >= 0,
    {
        let m = self.magnitude_squared();
        fsqrt(m)
    }

    /// The vector scaled to unit length. Demands nonzero magnitude: the
    /// caller keeps degenerate directions away, as the design demands.
    pub fn unit_vector(vector: &Vector3) -> (r: Vector3)
        requires
            magnitude_v(*vector) != 0,
        ensures
            r == unit_vec(*vector),
    {
        let mag = vector.magnitude();
        vector.divided(mag)
    }

    /// Spatial first component.
    pub fn x(&self) -> (r: Fixed)
        ensures
            r == self.e0,
    {
        self.e0
    }

    /// Spatial second component.
    pub fn y(&self) -> (r: Fixed)
        ensures
            r == self.e1,
    {
        self.e1
    }

    /// Spatial third component.
    pub fn z(&self) -> (r: Fixed)
        ensures
            r == self.e2,
    {
        self.e2
    }

    /// Color red channel (same storage as `x`).
    pub fn r(&self) -> (r: Fixed)
        ensures
            r == self.e0,
    {
        self.e0
    }

    /// Color green channel (same storage as `y`).
    pub fn g(&self) -> (r: Fixed)
        ensures
            r == self.e1,
    {
        self.e1
    }

    /// Color blue channel (same storage as `z`).
    pub fn b(&self) -> (r: Fixed)
        ensures
            r == self.e2,
    {
        self.e2
    }

    /// Reflects `vector_to_reflect` about `normal_of_reflection`.
    pub fn reflect(vector_to_reflect: &Vector3, normal_of_reflection: &Vector3) -> (r: Vector3)
        ensures
            r == reflect_vec(*vector_to_reflect, *normal_of_reflection),
    {
        let d = Vector3::dot(vector_to_reflect, normal_of_reflection);
        let twice = fadd(d, d);
        vector_to_reflect.minus(&normal_of_reflection.scaled(twice))
    }

    /// Refracts `vector_to_refract` at `normal_of_refraction` with the
    /// given index ratio (Snell's law, vector form); no value on total
    /// internal reflection.
    pub fn refract(
        vector_to_refract: &Vector3,
        normal_of_refraction: &Vector3,
        refraction_index_differential: Fixed,
    ) -> (r: Option<Vector3>)
        requires
            magnitude_v(*vector_to_refract) != 0,
        ensures
            r == refract_vec(
                *vector_to_refract,
                *normal_of_refraction,
                refraction_index_differential as int,
            ),
            r is None <==> refract_disc_v(
                *vector_to_refract,
                *normal_of_refraction,
                refraction_index_differential as int,
            ) <= 0,
    {
        let u = Vector3::unit_vector(vector_to_refract);
        let c = Vector3::dot(&u, &normal_of_refraction.neg());
        let ratio = refraction_index_differential;
        let discriminant = fsub(SCALE, fmul(fmul(ratio, ratio), fsub(SCALE, fmul(c, c))));
        if discriminant <= 0 {
            return None;
        }
        let refracted = u.scaled(ratio).plus(
            &normal_of_refraction.scaled(fsub(fmul(ratio, c), fsqrt(discriminant))),
        );
        Some(refracted)
    }

    /// Refracts `vector_to_refract` at `normal_of_refraction`, in the
    /// book form of Snell's law.
    pub fn refract_book(
        vector_to_refract: &Vector3,
        normal_of_refraction: &Vector3,
        refraction_index_differential: Fixed,
    ) -> (r: Option<Vector3>)
        requires
            magnitude_v(*vector_to_refract) != 0,
        ensures
            r == refract_book_vec(
                *vector_to_refract,
                *normal_of_refraction,
                refraction_index_differential as int,
            ),
    {
        let u = Vector3::unit_vector(vector_to_refract);
        let dt = Vector3::dot(&u, normal_of_refraction);
        let ratio = refraction_index_differential;
        let discriminant = fsub(SCALE, fmul(fmul(ratio, ratio), fsub(SCALE, fmul(dt, dt))));
        if discriminant <= 0 {
            return None;
        }
        let refraction = u.minus(&normal_of_refraction.scaled(dt)).scaled(ratio).minus(
            &normal_of_refraction.scaled(fsqrt(discriminant)),
        );
        Some(refraction)
    }

    /// Draws a point strictly inside the unit sphere by rejection
    /// sampling, falling back to the origin when every try misses.
    #[verifier::loop_isolation(false)]
    pub fn random_in_unit_sphere(rng: &mut Rng) -> (r: Vector3)
        ensures
            r == sample_sphere_spec(old(rng).state, SAMPLE_TRIES as nat).0,
            final(rng).state == sample_sphere_spec(old(rng).state, SAMPLE_TRIES as nat).1,
            magnitude_squared_v(r) < SCALE as int,
    {
        let ghost s0 = rng.state;
        let mut tries: u64 = SAMPLE_TRIES;
        while tries > 0
            invariant
                sample_sphere_spec(s0, SAMPLE_TRIES as nat) == sample_sphere_spec(
                    rng.state,
                    tries as nat,
                ),
            decreases tries,
        {
            let ghost st = rng.state;
            let x = rng.next_sym();
            let y = rng.next_sym();
            let z = rng.next_sym();
            let point = Vector3::new(x, y, z);
            proof {
                let s1 = next_state(st);
                let s2 = next_state(s1);
                let s3 = next_state(s2);
                assert(point == v3(sym_of(s1), sym_of(s2), sym_of(s3)));
                assert(rng.state == s3);
            }
            if point.magnitude_squared() < SCALE {
                assert(sample_sphere_spec(st, tries as nat) == (point, rng.state));
                return point;
            }
            assert(sample_sphere_spec(st, tries as nat) == sample_sphere_spec(
                rng.state,
                (tries - 1) as nat,
            ));
            tries = tries - 1;
        }
        let fallback = Vector3::new(0, 0, 0);
        assert(magnitude_squared_v(fallback) == 0);
        fallback
    }

    /// Draws a point strictly inside the unit disk (z = 0) by rejection
    /// sampling, falling back to the origin when every try misses.
    #[verifier::loop_isolation(false)]
    pub fn random_in_disk(rng: &mut Rng) -> (r: Vector3)
        ensures
            r == sample_disk_spec(old(rng).state, SAMPLE_TRIES as nat).0,
            final(rng).state == sample_disk_spec(old(rng).state, SAMPLE_TRIES as nat).1,
            magnitude_squared_v(r) < SCALE as int,
            r.e2 == 0,
    {
        let ghost s0 = rng.state;
        let mut tries: u64 = SAMPLE_TRIES;
        while tries > 0
            invariant
                sample_disk_spec(s0, SAMPLE_TRIES as nat) == sample_disk_spec(
                    rng.state,
                    tries as nat,
                ),
            decreases tries,
        {
            let ghost st = rng.state;
            let x = rng.next_sym();
            let y = rng.next_sym();
            let point = Vector3::new(x, y, 0);
            proof {
                let s1 = next_state(st);
                let s2 = next_state(s1);
                assert(point == v3(sym_of(s1), sym_of(s2), 0));
                assert(rng.state == s2);
            }
            if point.magnitude_squared() < SCALE {
                assert(sample_disk_spec(st, tries as nat) == (point, rng.state));
                return point;
            }
            assert(sample_disk_spec(st, tries as nat) == sample_disk_spec(
                rng.state,
                (tries - 1) as nat,
            ));
            tries = tries - 1;
        }
        let fallback = Vector3::new(0, 0, 0);
        assert(magnitude_squared_v(fallback) == 0);
        fallback
    }
}

} // verus!
