use vstd::arithmetic::div_mod::lemma_fundamental_div_mod;
use vstd::prelude::*;

verus! {

/// Number of fixed-point units in 1.0: every value carries eight fractional
/// decimal digits.
pub const SCALE: i64 = 100_000_000;

/// Tolerance of approximate equality, in units: two values are near one
/// another when they differ by at most `EPSILON` units (5e-7).
pub const EPSILON: i64 = 50;

/// `n` lies within the range of an `i64`.
pub open spec fn fits_i64(n: int) -> bool {
    i64::MIN <= n <= i64::MAX
}

/// The approximate-equality policy on which every composite equality rests:
/// `a` and `b` (in units) differ by at most `EPSILON` units.
pub open spec fn near(a: int, b: int) -> bool {
    -(EPSILON as int) <= a - b <= EPSILON as int
}

/// Quotient of `n` by `d` (`d >= 1`), rounded to the nearest integer, ties
/// rounded away from zero.
pub open spec fn rounded_div(n: int, d: int) -> int
    recommends
        d >= 1,
{
    if n >= 0 {
        (n + d / 2) / d
    } else {
        -((-n + d / 2) / d)
    }
}

/// The fixed-point product of `a` and `b` (both in units): their real
/// product, rounded to the nearest unit.
pub open spec fn scale_mul(a: int, b: int) -> int {
    rounded_div(a * b, SCALE as int)
}

/// The fixed-point quotient of `a` by `d` (both in units, `d != 0`): the
/// real quotient, rounded to the nearest unit.
pub open spec fn scale_div(a: int, d: int) -> int
    recommends
        d != 0,
{
    if d >= 0 {
        rounded_div(a * (SCALE as int), d)
    } else {
        rounded_div(-(a * (SCALE as int)), -d)
    }
}

/// Rounding to the nearest changes a quotient's value by at most half the
/// divisor: `rounded_div(n, d) * d` lies within `d / 2` of `n`.
pub proof fn lemma_rounded_div_err(n: int, d: int)
    requires
        d >= 1,
    ensures
        -(d / 2) <= rounded_div(n, d) * d - n <= d / 2,
{
    lemma_fundamental_div_mod(d, 2);
    if n >= 0 {
        let s = n + d / 2;
        let q = s / d;
        lemma_fundamental_div_mod(s, d);
        assert(q * d - n == d / 2 - s % d);
    } else {
        let m = -n;
        let s = m + d / 2;
        let q = s / d;
        lemma_fundamental_div_mod(s, d);
        assert(q * d - m == d / 2 - s % d);
        assert(rounded_div(n, d) == -q);
        assert((-q) * d == -(q * d)) by (nonlinear_arith);
        assert(rounded_div(n, d) * d - n == -(q * d - m));
    }
}

/// A rounded product is within half a unit of the real product:
/// `scale_mul(a, b) * SCALE` lies within `SCALE / 2` of `a * b`.
pub proof fn lemma_scale_mul_err(a: int, b: int)
    ensures
        -50_000_000 <= scale_mul(a, b) * (SCALE as int) - a * b <= 50_000_000,
{
    lemma_rounded_div_err(a * b, SCALE as int);
}

/// The rounded product does not depend on the order of its operands.
pub proof fn lemma_scale_mul_comm(a: int, b: int)
    ensures
        scale_mul(a, b) == scale_mul(b, a),
{
    assert(a * b == b * a) by (nonlinear_arith);
}

/// Multiplying by one is exact: `scale_mul(a, SCALE) == a`.
pub proof fn lemma_scale_mul_one(a: int)
    ensures
        scale_mul(a, SCALE as int) == a,
        scale_mul(SCALE as int, a) == a,
{
    let big = SCALE as int;
    lemma_rounded_div_err(a * big, big);
    assert(scale_mul(a, big) == a) by (nonlinear_arith)
        requires
            -(big / 2) <= scale_mul(a, big) * big - a * big <= big / 2,
            big == 100_000_000,
    ;
    lemma_scale_mul_comm(a, big);
}

/// Multiplying by zero is exact: `scale_mul(a, 0) == 0`.
pub proof fn lemma_scale_mul_zero(a: int)
    ensures
        scale_mul(a, 0) == 0,
        scale_mul(0, a) == 0,
{
    assert(a * 0 == 0) by (nonlinear_arith);
    assert(0 * a == 0) by (nonlinear_arith);
}

/// Scaling by `s` and dividing by `s` again returns to the start, up to the
/// tolerance, provided `s` is not too small: the two roundings move the
/// value by at most half a unit plus `SCALE / (2 * |s|)` units, which stays
/// within `EPSILON` once `99 * |s| >= SCALE` (that is, `|s| >= 1/99`).
pub proof fn lemma_scale_then_div_near(c: int, s: int)
    requires
        99 * s >= SCALE || 99 * s <= -(SCALE as int),
    ensures
        near(scale_div(scale_mul(c, s), s), c),
{
    let big = SCALE as int;
    let u = scale_mul(c, s);
    lemma_rounded_div_err(c * s, big);
    let v = scale_div(u, s);
    lemma_fundamental_div_mod(big, 2);
    if s > 0 {
        lemma_rounded_div_err(u * big, s);
        lemma_fundamental_div_mod(s, 2);
        assert(-50 <= v - c <= 50) by (nonlinear_arith)
            requires
                v == scale_div(scale_mul(c, s), s),
                u == scale_mul(c, s),
                -(big / 2) <= u * big - c * s <= big / 2,
                -(s / 2) <= v * s - u * big <= s / 2,
                2 * (s / 2) <= s,
                2 * (big / 2) <= big,
                big == 100000000,
                99 * s >= big,
        ;
    } else {
        let t = -s;
        lemma_rounded_div_err(-(u * big), t);
        lemma_fundamental_div_mod(t, 2);
        assert(v == rounded_div(-(u * big), t));
        assert(-50 <= v - c <= 50) by (nonlinear_arith)
            requires
                -(big / 2) <= u * big - c * s <= big / 2,
                -(t / 2) <= v * t - (-(u * big)) <= t / 2,
                2 * (t / 2) <= t,
                2 * (big / 2) <= big,
                big == 100000000,
                t == -s,
                99 * t >= big,
        ;
    }
}

/// `r` is the floor square root of `n`.
pub open spec fn is_floor_sqrt(n: int, r: int) -> bool {
    0 <= r && r * r <= n && n < (r + 1) * (r + 1)
}

/// The floor square root of a nonnegative `n`.
pub open spec fn sqrt_floor(n: int) -> int {
    choose|r: int| is_floor_sqrt(n, r)
}

/// Every nonnegative integer has a floor square root, and `sqrt_floor`
/// denotes it.
pub proof fn lemma_sqrt_floor_exists(n: int)
    requires
        n >= 0,
    ensures
        is_floor_sqrt(n, sqrt_floor(n)),
    decreases n,
{
    if n == 0 {
        assert(is_floor_sqrt(0, 0));
    } else {
        lemma_sqrt_floor_exists(n - 1);
        let r = sqrt_floor(n - 1);
        if (r + 1) * (r + 1) <= n {
            assert(n == (r + 1) * (r + 1));
            assert((r + 1 + 1) * (r + 1 + 1) > n) by (nonlinear_arith)
                requires
                    n == (r + 1) * (r + 1),
                    r >= 0,
            ;
            assert(is_floor_sqrt(n, r + 1));
        } else {
            assert(is_floor_sqrt(n, r));
        }
    }
}

/// The floor square root is unique: any `r` satisfying its definition is
/// `sqrt_floor(n)`.
pub proof fn lemma_sqrt_floor_unique(n: int, r: int)
    requires
        is_floor_sqrt(n, r),
    ensures
        r == sqrt_floor(n),
{
    assert(n >= 0) by (nonlinear_arith)
        requires
            r * r <= n,
            r >= 0,
    ;
    lemma_sqrt_floor_exists(n);
    let s = sqrt_floor(n);
    assert(r == s) by (nonlinear_arith)
        requires
            0 <= r,
            0 <= s,
            r * r <= n,
            n < (r + 1) * (r + 1),
            s * s <= n,
            n < (s + 1) * (s + 1),
    ;
}

/// A real number in fixed-point form: `units` counts multiples of
/// `1 / SCALE`.  Its view is the unit count as a mathematical integer.
#[derive(Clone, Copy, Debug, PartialEq, Eq, Structural)]
pub struct Scalar {
    pub units: i64,
}

impl View for Scalar {
    type V = int;

    open spec fn view(&self) -> int {
        self.units as int
    }
}

impl Scalar {
    /// The value counting `units` fixed-point units.
    pub fn from_units(units: i64) -> (r: Scalar)
        ensures
            r@ == units,
    {
        Scalar { units }
    }

    /// Sum.
    pub fn add(self, rhs: Scalar) -> (r: Scalar)
        requires
            fits_i64(self@ + rhs@),
        ensures
            r@ == self@ + rhs@,
    {
        Scalar { units: self.units + rhs.units }
    }

    /// Difference.
    pub fn sub(self, rhs: Scalar) -> (r: Scalar)
        requires
            fits_i64(self@ - rhs@),
        ensures
            r@ == self@ - rhs@,
    {
        Scalar { units: self.units - rhs.units }
    }

    /// Negation.
    pub fn neg(self) -> (r: Scalar)
        requires
            fits_i64(-self@),
        ensures
            r@ == -self@,
    {
        Scalar { units: -self.units }
    }

    /// Product, rounded to the nearest unit.
    pub fn mul(self, rhs: Scalar) -> (r: Scalar)
        requires
            fits_i64(scale_mul(self@, rhs@)),
        ensures
            r@ == scale_mul(self@, rhs@),
    {
        let w: i128 = scale_mul_wide(self.units, rhs.units);
        Scalar { units: w as i64 }
    }

    /// Quotient, rounded to the nearest unit.
    pub fn div(self, rhs: Scalar) -> (r: Scalar)
        requires
            rhs@ != 0,
            fits_i64(scale_div(self@, rhs@)),
        ensures
            r@ == scale_div(self@, rhs@),
    {
        let n: i128 = self.units as i128 * (SCALE as i128);
        proof {
            assert(-0x40000000000000000000000 < (n as int) < 0x40000000000000000000000)
                by (nonlinear_arith)
                requires
                    n as int == (self.units as int) * (SCALE as int),
                    i64::MIN <= self.units as int <= i64::MAX,
                    SCALE == 100_000_000i64,
            ;
        }
        let d: i128 = rhs.units as i128;
        let q: i128 = if d >= 1 {
            div_rounded_i128(n, d)
        } else {
            div_rounded_i128(-n, -d)
        };
        Scalar { units: q as i64 }
    }

    /// Approximate equality at tolerance `EPSILON`.
    pub fn approx_eq(self, rhs: Scalar) -> (r: bool)
        ensures
            r == near(self@, rhs@),
    {
        let d: i128 = self.units as i128 - rhs.units as i128;
        -(EPSILON as i128) <= d && d <= EPSILON as i128
    }
}

/// The fixed-point product of two unit counts, kept wide: the result always
/// fits an `i128` and is bounded well below its range.
pub(crate) fn scale_mul_wide(a: i64, b: i64) -> (r: i128)
    ensures
        r == scale_mul(a as int, b as int),
        -0x1000000000000000000000000000i128 <= r <= 0x1000000000000000000000000000i128,
{
    proof {
        assert(-0x40000000000000000000000000000000 <= (a as int) * (b as int)
            <= 0x40000000000000000000000000000000) by (nonlinear_arith)
            requires
                -0x8000000000000000 <= a as int <= 0x8000000000000000,
                -0x8000000000000000 <= b as int <= 0x8000000000000000,
        ;
    }
    let p: i128 = a as i128 * b as i128;
    let r = div_rounded_i128(p, SCALE as i128);
    proof {
        lemma_rounded_div_err(p as int, SCALE as int);
        assert(-0x1000000000000000000000000000i128 <= r <= 0x1000000000000000000000000000i128)
            by (nonlinear_arith)
            requires
                -(SCALE as int) / 2 <= r * (SCALE as int) - p <= (SCALE as int) / 2,
                -0x40000000000000000000000000000000 <= (p as int)
                    <= 0x40000000000000000000000000000000,
                SCALE == 100_000_000i64,
        ;
    }
    r
}

/// The square of a unit count, kept wide: it is nonnegative and bounded by
/// the square of the `i64` range.
pub(crate) fn square_u128(a: i64) -> (r: u128)
    ensures
        r == (a as int) * (a as int),
        r <= 0x40000000000000000000000000000000u128,
{
    proof {
        assert(0 <= (a as int) * (a as int) <= 0x40000000000000000000000000000000)
            by (nonlinear_arith)
            requires
                -0x8000000000000000 <= a as int <= 0x8000000000000000,
        ;
    }
    let p: i128 = a as i128 * a as i128;
    p as u128
}

/// Rounded division on machine integers; the divisor is positive and the
/// numerator is above `i128::MIN`.
pub(crate) fn div_rounded_i128(n: i128, d: i128) -> (r: i128)
    requires
        d >= 1,
        n > i128::MIN,
    ensures
        r == rounded_div(n as int, d as int),
{
    let du: u128 = d as u128;
    let half: u128 = du / 2;
    if n >= 0 {
        let nu: u128 = n as u128;
        let q: u128 = (nu + half) / du;
        proof {
            lemma_fundamental_div_mod((nu + half) as int, du as int);
            assert(q <= nu) by (nonlinear_arith)
                requires
                    q as int * du as int <= nu as int + half as int,
                    half < du,
                    du >= 1,
                    nu >= 0,
                    q >= 0,
            ;
        }
        q as i128
    } else {
        let m: i128 = -n;
        let mu: u128 = m as u128;
        let q: u128 = (mu + half) / du;
        proof {
            lemma_fundamental_div_mod((mu + half) as int, du as int);
            assert(q <= mu) by (nonlinear_arith)
                requires
                    q as int * du as int <= mu as int + half as int,
                    half < du,
                    du >= 1,
                    mu >= 0,
                    q >= 0,
            ;
        }
        -(q as i128)
    }
}

/// Floor square root of a machine integer.
pub(crate) fn isqrt_u128(n: u128) -> (r: u128)
    ensures
        is_floor_sqrt(n as int, r as int),
        r as int == sqrt_floor(n as int),
{
    let mut lo: u128 = 0;
    let mut hi: u128 = 0x10000000000000000;
    proof {
        assert((hi as int) * (hi as int) > n as int);
    }
    while lo + 1 < hi
        invariant
            lo < hi <= 0x10000000000000000u128,
            (lo as int) * (lo as int) <= n as int,
            (n as int) < (hi as int) * (hi as int),
        decreases hi - lo,
    {
        let mid: u128 = lo + (hi - lo) / 2;
        proof {
            assert(lo < mid < hi);
            assert(mid as int * mid as int <= 0xffffffffffffffffffffffffffffffff)
                by (nonlinear_arith)
                requires
                    0 <= mid as int <= 0xffffffffffffffff,
            ;
        }
        if mid * mid <= n {
            lo = mid;
        } else {
            hi = mid;
        }
    }
    proof {
        lemma_sqrt_floor_unique(n as int, lo as int);
    }
    lo
}

} // verus!
