//! Fixed-point scalar arithmetic.
//!
//! A `Fixed` is a signed 64-bit integer holding a real value scaled by
//! `SCALE`: the raw value `r` stands for the real number `r / SCALE`.
//! Multiplication, division and square root truncate toward zero, and any
//! result that leaves the representable range saturates at `i64::MAX` /
//! `i64::MIN`. Every operation is total except division, which demands a
//! nonzero divisor, and square root, which demands a nonnegative argument.

use vstd::prelude::*;

verus! {

/// Scalar type of the ray tracer: a real number scaled by `SCALE`.
pub type Fixed = i64;

/// Raw units per whole unit: `SCALE` raw = the real number one.
pub const SCALE: i64 = 65536;

/// Saturates a mathematical integer into the `i64` range.
pub open spec fn clip(x: int) -> int {
    if x > i64::MAX as int {
        i64::MAX as int
    } else if x < i64::MIN as int {
        i64::MIN as int
    } else {
        x
    }
}

/// Division truncating toward zero, as machine division does.
pub open spec fn tdiv(a: int, b: int) -> int
    recommends
        b != 0,
{
    if a == 0 {
        0
    } else if a > 0 && b > 0 {
        a / b
    } else if a < 0 && b < 0 {
        (a * -1) / (b * -1)
    } else if a < 0 {
        ((a * -1) / b) * -1
    } else {
        (a / (b * -1)) * -1
    }
}

/// Saturating sum of two scalars.
pub open spec fn add_v(a: int, b: int) -> int {
    clip(a + b)
}

/// Saturating difference of two scalars.
pub open spec fn sub_v(a: int, b: int) -> int {
    clip(a - b)
}

/// Saturating negation of a scalar.
pub open spec fn neg_v(a: int) -> int {
    clip(-a)
}

/// Saturating fixed-point product: `(a * b) / SCALE`, truncated toward zero.
pub open spec fn mul_v(a: int, b: int) -> int {
    clip(tdiv(a * b, SCALE as int))
}

/// Saturating fixed-point quotient: `(a * SCALE) / b`, truncated toward zero.
pub open spec fn div_v(a: int, b: int) -> int
    recommends
        b != 0,
{
    clip(tdiv(a * (SCALE as int), b))
}

/// Integer square root, rounded down.
pub open spec fn sqrt_floor(n: nat) -> nat
    decreases n,
{
    if n == 0 {
        0
    } else {
        let p = sqrt_floor((n - 1) as nat);
        if (p + 1) * (p + 1) <= n {
            p + 1
        } else {
            p
        }
    }
}

/// Fixed-point square root: `sqrt(a / SCALE) * SCALE`, rounded down.
pub open spec fn sqrt_v(a: int) -> int
    recommends
        a >= 0,
{
    sqrt_floor((a * (SCALE as int)) as nat) as int
}

/// `sqrt_floor(n)` really is the square root of `n`, rounded down.
pub proof fn lemma_sqrt_floor_bounds(n: nat)
    ensures
        sqrt_floor(n) * sqrt_floor(n) <= n,
        n < (sqrt_floor(n) + 1) * (sqrt_floor(n) + 1),
        sqrt_floor(n) <= n,
    decreases n,
{
    if n == 0 {
        let s = sqrt_floor(n);
        assert(s == 0);
        assert(s * s == 0 && (s + 1) * (s + 1) == 1) by (nonlinear_arith)
            requires
                s == 0nat,
        ;
    } else {
        lemma_sqrt_floor_bounds((n - 1) as nat);
        let p = sqrt_floor((n - 1) as nat);
        assert(p * p <= n - 1);
        assert(n - 1 < (p + 1) * (p + 1));
        if (p + 1) * (p + 1) <= n {
            assert(sqrt_floor(n) == p + 1);
            assert((p + 1) * (p + 1) < (p + 2) * (p + 2)) by (nonlinear_arith);
            assert(n < (p + 2) * (p + 2));
            assert(p + 1 <= n);
            assert(sqrt_floor(n) * sqrt_floor(n) <= n);
            assert(n < (sqrt_floor(n) + 1) * (sqrt_floor(n) + 1));
        } else {
            assert(sqrt_floor(n) == p);
            assert(sqrt_floor(n) * sqrt_floor(n) <= n);
            assert(n < (sqrt_floor(n) + 1) * (sqrt_floor(n) + 1));
        }
    }
}

/// Any value bracketed the way `sqrt_floor(n)` is equals `sqrt_floor(n)`.
pub proof fn lemma_sqrt_floor_unique(n: nat, r: nat)
    requires
        r * r <= n,
        n < (r + 1) * (r + 1),
    ensures
        r == sqrt_floor(n),
{
    let s = sqrt_floor(n);
    lemma_sqrt_floor_bounds(n);
    if r < s {
        assert((r + 1) * (r + 1) <= s * s) by (nonlinear_arith)
            requires
                r + 1 <= s,
        ;
    }
    if s < r {
        assert((s + 1) * (s + 1) <= r * r) by (nonlinear_arith)
            requires
                s + 1 <= r,
        ;
    }
}

/// The fixed-point square root is exact on perfect squares: when
/// `r^2 == a * SCALE`, the root of `a` is exactly `r`. This is how a
/// caller evaluates the magnitude of concrete data, for instance to
/// discharge the camera's normalizable-direction precondition.
pub proof fn lemma_sqrt_v_exact(a: int, r: int)
    requires
        a >= 0,
        r >= 0,
        r * r == a * (SCALE as int),
    ensures
        sqrt_v(a) == r,
{
    assert(r * r < (r + 1) * (r + 1)) by (nonlinear_arith)
        requires
            r >= 0,
    ;
    lemma_sqrt_floor_unique((a * (SCALE as int)) as nat, r as nat);
}

/// Truncating division cancels an exact multiple of a positive divisor.
pub proof fn lemma_tdiv_exact(x: int, d: int)
    requires
        d > 0,
    ensures
        tdiv(x * d, d) == x,
{
    if x == 0 {
        assert(x * d == 0) by (nonlinear_arith)
            requires
                x == 0,
        ;
    } else if x > 0 {
        assert(x * d > 0) by (nonlinear_arith)
            requires
                x > 0,
                d > 0,
        ;
        vstd::arithmetic::div_mod::lemma_div_multiples_vanish(x, d);
        assert(d * x == x * d) by (nonlinear_arith);
    } else {
        let y = -x;
        assert(x * d < 0) by (nonlinear_arith)
            requires
                x < 0,
                d > 0,
        ;
        vstd::arithmetic::div_mod::lemma_div_multiples_vanish(y, d);
        assert(d * y == (x * d) * -1) by (nonlinear_arith)
            requires
                y == -x,
        ;
    }
}

/// Truncating division keeps a nonnegative dividend nonnegative.
pub proof fn lemma_tdiv_nonneg(a: int, b: int)
    requires
        a >= 0,
        b > 0,
    ensures
        0 <= tdiv(a, b) <= a,
{
    if a > 0 {
        assert(0 <= a / b <= a) by (nonlinear_arith)
            requires
                a > 0,
                b >= 1,
        ;
    }
}

/// Truncating division by a positive divisor is monotone in the
/// dividend.
pub proof fn lemma_tdiv_monotone(a1: int, a2: int, b: int)
    requires
        a1 <= a2,
        b > 0,
    ensures
        tdiv(a1, b) <= tdiv(a2, b),
{
    if a1 >= 0 {
        vstd::arithmetic::div_mod::lemma_div_is_ordered(a1, a2, b);
    } else if a2 < 0 {
        vstd::arithmetic::div_mod::lemma_div_is_ordered(-a2, -a1, b);
        assert(a1 * -1 == -a1 && a2 * -1 == -a2);
    } else {
        lemma_tdiv_nonpos(a1, b);
        lemma_tdiv_nonneg(a2, b);
    }
}

/// Truncating division keeps a nonpositive dividend nonpositive.
pub proof fn lemma_tdiv_nonpos(a: int, b: int)
    requires
        a <= 0,
        b > 0,
    ensures
        a <= tdiv(a, b) <= 0,
{
    if a < 0 {
        lemma_tdiv_nonneg(-a, b);
        assert(a * -1 == -a);
    }
}

/// Truncating division by a nonzero divisor never grows the magnitude.
proof fn lemma_tdiv_magnitude(a: int, b: int)
    requires
        b != 0,
    ensures
        a >= 0 ==> -a <= tdiv(a, b) <= a,
        a < 0 ==> a <= tdiv(a, b) <= -a,
{
    let m = if a >= 0 { a } else { -a };
    let d = if b > 0 { b } else { -b };
    assert(0 <= m / d <= m) by (nonlinear_arith)
        requires
            m >= 0,
            d >= 1,
    ;
    assert(tdiv(a, b) == m / d || tdiv(a, b) == -(m / d));
}

/// Saturates a wide intermediate result into the scalar range.
fn clamp_wide(x: i128) -> (r: Fixed)
    ensures
        r as int == clip(x as int),
{
    if x > i64::MAX as i128 {
        i64::MAX
    } else if x < i64::MIN as i128 {
        i64::MIN
    } else {
        x as i64
    }
}

/// Saturating scalar addition.
pub fn fadd(a: Fixed, b: Fixed) -> (r: Fixed)
    ensures
        r as int == add_v(a as int, b as int),
{
    clamp_wide(a as i128 + b as i128)
}

/// Saturating scalar subtraction.
pub fn fsub(a: Fixed, b: Fixed) -> (r: Fixed)
    ensures
        r as int == sub_v(a as int, b as int),
{
    clamp_wide(a as i128 - b as i128)
}

/// Saturating scalar negation.
pub fn fneg(a: Fixed) -> (r: Fixed)
    ensures
        r as int == neg_v(a as int),
{
    clamp_wide(-(a as i128))
}

/// Saturating fixed-point multiplication.
pub fn fmul(a: Fixed, b: Fixed) -> (r: Fixed)
    ensures
        r as int == mul_v(a as int, b as int),
{
    proof {
        assert(i128::MIN <= (a as int) * (b as int) <= i128::MAX) by (nonlinear_arith)
            requires
                i64::MIN <= (a as int) <= i64::MAX,
                i64::MIN <= (b as int) <= i64::MAX,
        ;
    }
    let p: i128 = (a as i128) * (b as i128);
    proof {
        lemma_tdiv_magnitude(p as int, SCALE as int);
    }
    let q: i128 = p.checked_div(SCALE as i128).unwrap();
    clamp_wide(q)
}

/// Saturating fixed-point division. The divisor must be nonzero: the
/// caller rules degenerate quotients out, as the design demands.
pub fn fdiv(a: Fixed, b: Fixed) -> (r: Fixed)
    requires
        b != 0,
    ensures
        r as int == div_v(a as int, b as int),
{
    proof {
        assert(i128::MIN <= (a as int) * 65536 <= i128::MAX) by (nonlinear_arith)
            requires
                i64::MIN <= (a as int) <= i64::MAX,
        ;
    }
    let n: i128 = (a as i128) * (SCALE as i128);
    proof {
        lemma_tdiv_magnitude(n as int, b as int);
    }
    let q: i128 = n.checked_div(b as i128).unwrap();
    clamp_wide(q)
}

/// Integer square root by binary search.
fn isqrt(n: u128) -> (r: u128)
    ensures
        r as int == sqrt_floor(n as nat) as int,
{
    proof {
        lemma_sqrt_floor_bounds(n as nat);
    }
    if n == 0 {
        return 0;
    }
    let mut lo: u128 = 0;
    let mut hi: u128 = 0x10000000000000000;
    assert((hi as int) * (hi as int) > n as int) by (nonlinear_arith)
        requires
            hi as int == 0x10000000000000000,
            n as int <= u128::MAX as int,
    ;
    while lo + 1 < hi
        invariant
            0 <= lo < hi <= 0x10000000000000000,
            (lo as int) * (lo as int) <= n as int,
            (hi as int) * (hi as int) > n as int,
        decreases hi - lo,
    {
        let mid: u128 = lo + (hi - lo) / 2;
        assert((mid as int) * (mid as int) < 0x100000000000000000000000000000000) by (nonlinear_arith)
            requires
                0 <= (mid as int) && (mid as int) < 0x10000000000000000,
        ;
        let sq: u128 = mid * mid;
        if sq <= n {
            lo = mid;
        } else {
            hi = mid;
        }
    }
    proof {
        lemma_sqrt_floor_unique(n as nat, lo as nat);
    }
    lo
}

/// Fixed-point square root of a nonnegative scalar.
pub fn fsqrt(a: Fixed) -> (r: Fixed)
    requires
        a >= 0,
    ensures
        r as int == sqrt_v(a as int),
{
    proof {
        assert(0 <= (a as int) * 65536 < 0x100000000000000000000) by (nonlinear_arith)
            requires
                0 <= (a as int) <= i64::MAX,
        ;
    }
    let n: u128 = (a as u128) * (SCALE as u128);
    let s: u128 = isqrt(n);
    proof {
        lemma_sqrt_floor_bounds(n as nat);
        assert(s as int <= i64::MAX as int) by (nonlinear_arith)
            requires
                (s as int) * (s as int) <= n as int,
                (n as int) < 0x100000000000000000000,
                s as int >= 0,
        ;
    }
    s as i64
}

} // verus!
