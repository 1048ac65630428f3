use crate::point::Point;
use crate::scalar::{
    fits_i64, is_floor_sqrt, lemma_sqrt_floor_exists, near, scale_div, scale_mul, sqrt_floor,
    square_u128, isqrt_u128, scale_mul_wide, Scalar, SCALE,
};
use crate::tuple::Tuple;
use vstd::arithmetic::div_mod::lemma_fundamental_div_mod;
use vstd::prelude::*;

verus! {

/// A direction or displacement: three components with the homogeneous
/// component fixed at `w = 0`, so that translation never affects it.
#[derive(Clone, Copy, Debug)]
pub struct Vector {
    pub x: Scalar,
    pub y: Scalar,
    pub z: Scalar,
    pub w: Scalar,
}

/// Failure of narrowing a generic tuple to a vector.
#[derive(Clone, Copy, Debug, PartialEq, Eq, Structural)]
pub enum IntoVectorError {
    /// The tuple's homogeneous component is not 0.
    BadW,
}

/// The dot product of two vectors, in units: the sum of the rounded
/// pairwise component products.
pub open spec fn dot_units(a: Vector, b: Vector) -> int {
    scale_mul(a.x@, b.x@) + scale_mul(a.y@, b.y@) + scale_mul(a.z@, b.z@)
}

/// The x component of the cross product, in units.
pub open spec fn cross_x_units(a: Vector, b: Vector) -> int {
    scale_mul(a.y@, b.z@) - scale_mul(a.z@, b.y@)
}

/// The y component of the cross product, in units.
pub open spec fn cross_y_units(a: Vector, b: Vector) -> int {
    scale_mul(a.z@, b.x@) - scale_mul(a.x@, b.z@)
}

/// The z component of the cross product, in units.
pub open spec fn cross_z_units(a: Vector, b: Vector) -> int {
    scale_mul(a.x@, b.y@) - scale_mul(a.y@, b.x@)
}

impl Vector {
    /// A vector carries `w = 0`: the invariant every constructor
    /// establishes and every operation returning a vector preserves.
    pub open spec fn wf(self) -> bool {
        self.w@ == 0
    }

    /// Sum of the squares of the three spatial components, in units squared.
    pub open spec fn mag_sq(self) -> int {
        self.x@ * self.x@ + self.y@ * self.y@ + self.z@ * self.z@
    }

    /// The vector with the given components.
    pub fn new(x: Scalar, y: Scalar, z: Scalar) -> (r: Vector)
        ensures
            r.x == x && r.y == y && r.z == z,
            r.wf(),
    {
        Vector { x, y, z, w: Scalar { units: 0 } }
    }

    /// The zero vector.
    pub fn zero() -> (r: Vector)
        ensures
            r.x@ == 0 && r.y@ == 0 && r.z@ == 0,
            r.wf(),
    {
        Vector::new(Scalar { units: 0 }, Scalar { units: 0 }, Scalar { units: 0 })
    }

    /// The unit vector along x.
    pub fn x_unit() -> (r: Vector)
        ensures
            r.x@ == SCALE && r.y@ == 0 && r.z@ == 0,
            r.wf(),
    {
        Vector::new(Scalar { units: SCALE }, Scalar { units: 0 }, Scalar { units: 0 })
    }

    /// The unit vector along y.
    pub fn y_unit() -> (r: Vector)
        ensures
            r.x@ == 0 && r.y@ == SCALE && r.z@ == 0,
            r.wf(),
    {
        Vector::new(Scalar { units: 0 }, Scalar { units: SCALE }, Scalar { units: 0 })
    }

    /// The unit vector along z.
    pub fn z_unit() -> (r: Vector)
        ensures
            r.x@ == 0 && r.y@ == 0 && r.z@ == SCALE,
            r.wf(),
    {
        Vector::new(Scalar { units: 0 }, Scalar { units: 0 }, Scalar { units: SCALE })
    }

    /// Euclidean norm of the three spatial components, rounded down to a
    /// unit.
    pub fn magnitude(&self) -> (r: Scalar)
        requires
            sqrt_floor(self.mag_sq()) <= i64::MAX,
        ensures
            r@ == sqrt_floor(self.mag_sq()),
            is_floor_sqrt(self.mag_sq(), r@),
    {
        proof {
            assert(self.x@ * self.x@ >= 0) by (nonlinear_arith);
            assert(self.y@ * self.y@ >= 0) by (nonlinear_arith);
            assert(self.z@ * self.z@ >= 0) by (nonlinear_arith);
            lemma_sqrt_floor_exists(self.mag_sq());
            let m = sqrt_floor(self.mag_sq());
            assert(self.mag_sq() < 0x40000000000000000000000000000000) by (nonlinear_arith)
                requires
                    self.mag_sq() < (m + 1) * (m + 1),
                    0 <= m <= 0x7fffffffffffffff,
            ;
        }
        let sum: u128 = square_u128(self.x.units) + square_u128(self.y.units)
            + square_u128(self.z.units);
        let r: u128 = isqrt_u128(sum);
        proof {
            assert(r <= 0x7fffffffffffffff) by (nonlinear_arith)
                requires
                    (r as int) * (r as int) <= sum as int,
                    sum as int == self.mag_sq(),
                    is_floor_sqrt(self.mag_sq(), sqrt_floor(self.mag_sq())),
                    r as int == sqrt_floor(self.mag_sq()),
                    sqrt_floor(self.mag_sq()) <= 0x7fffffffffffffff,
            ;
        }
        Scalar { units: r as i64 }
    }

    /// Every component divided by the magnitude.  The magnitude must be
    /// nonzero: normalizing the zero vector is left undefined and ruled out
    /// here, as the callers must guarantee a nonzero magnitude.
    pub fn normalize(self) -> (r: Vector)
        requires
            1 <= sqrt_floor(self.mag_sq()) <= i64::MAX,
            fits_i64(scale_div(self.x@, sqrt_floor(self.mag_sq()))),
            fits_i64(scale_div(self.y@, sqrt_floor(self.mag_sq()))),
            fits_i64(scale_div(self.z@, sqrt_floor(self.mag_sq()))),
        ensures
            r.x@ == scale_div(self.x@, sqrt_floor(self.mag_sq())),
            r.y@ == scale_div(self.y@, sqrt_floor(self.mag_sq())),
            r.z@ == scale_div(self.z@, sqrt_floor(self.mag_sq())),
            r.wf(),
    {
        let m = self.magnitude();
        self.div(m)
    }

    /// Narrow a generic tuple to a vector.  This succeeds exactly when the
    /// tuple carries `w == 0`; any other `w` is an invariant violation,
    /// answered with `BadW`.
    pub fn try_from(t: Tuple) -> (r: Result<Vector, IntoVectorError>)
        ensures
            t.w@ == 0 ==> r == Ok::<Vector, IntoVectorError>(
                Vector { x: t.x, y: t.y, z: t.z, w: t.w },
            ),
            t.w@ != 0 ==> r == Err::<Vector, IntoVectorError>(IntoVectorError::BadW),
    {
        if t.w.units == 0 {
            Ok(Vector { x: t.x, y: t.y, z: t.z, w: t.w })
        } else {
            Err(IntoVectorError::BadW)
        }
    }

    /// Component-wise sum of two vectors: a displacement composition.
    pub fn add(self, rhs: Vector) -> (r: Vector)
        requires
            fits_i64(self.x@ + rhs.x@),
            fits_i64(self.y@ + rhs.y@),
            fits_i64(self.z@ + rhs.z@),
        ensures
            r.x@ == self.x@ + rhs.x@,
            r.y@ == self.y@ + rhs.y@,
            r.z@ == self.z@ + rhs.z@,
            r.wf(),
    {
        Vector::new(self.x.add(rhs.x), self.y.add(rhs.y), self.z.add(rhs.z))
    }

    /// Translate a point by this vector: a point.
    pub fn add_point(self, rhs: Point) -> (r: Point)
        requires
            fits_i64(self.x@ + rhs.x@),
            fits_i64(self.y@ + rhs.y@),
            fits_i64(self.z@ + rhs.z@),
        ensures
            r.x@ == self.x@ + rhs.x@,
            r.y@ == self.y@ + rhs.y@,
            r.z@ == self.z@ + rhs.z@,
            r.wf(),
    {
        Point::new(self.x.add(rhs.x), self.y.add(rhs.y), self.z.add(rhs.z))
    }

    /// Component-wise difference of two vectors.
    pub fn sub(self, rhs: Vector) -> (r: Vector)
        requires
            fits_i64(self.x@ - rhs.x@),
            fits_i64(self.y@ - rhs.y@),
            fits_i64(self.z@ - rhs.z@),
        ensures
            r.x@ == self.x@ - rhs.x@,
            r.y@ == self.y@ - rhs.y@,
            r.z@ == self.z@ - rhs.z@,
            r.wf(),
    {
        Vector::new(self.x.sub(rhs.x), self.y.sub(rhs.y), self.z.sub(rhs.z))
    }

    /// Subtract a point from a vector: a generic tuple with `w = -1`.
    pub fn sub_point(self, rhs: Point) -> (r: Tuple)
        requires
            fits_i64(self.x@ - rhs.x@),
            fits_i64(self.y@ - rhs.y@),
            fits_i64(self.z@ - rhs.z@),
        ensures
            r.x@ == self.x@ - rhs.x@,
            r.y@ == self.y@ - rhs.y@,
            r.z@ == self.z@ - rhs.z@,
            r.w@ == -(SCALE as int),
    {
        Tuple {
            x: self.x.sub(rhs.x),
            y: self.y.sub(rhs.y),
            z: self.z.sub(rhs.z),
            w: Scalar { units: -SCALE },
        }
    }

    /// Component-wise negation.
    pub fn neg(self) -> (r: Vector)
        requires
            fits_i64(-self.x@),
            fits_i64(-self.y@),
            fits_i64(-self.z@),
        ensures
            r.x@ == -self.x@,
            r.y@ == -self.y@,
            r.z@ == -self.z@,
            r.wf(),
    {
        Vector::new(self.x.neg(), self.y.neg(), self.z.neg())
    }

    /// Every component multiplied by the scalar `rhs`.
    pub fn scale(self, rhs: Scalar) -> (r: Vector)
        requires
            fits_i64(scale_mul(self.x@, rhs@)),
            fits_i64(scale_mul(self.y@, rhs@)),
            fits_i64(scale_mul(self.z@, rhs@)),
        ensures
            r.x@ == scale_mul(self.x@, rhs@),
            r.y@ == scale_mul(self.y@, rhs@),
            r.z@ == scale_mul(self.z@, rhs@),
            r.wf(),
    {
        Vector::new(self.x.mul(rhs), self.y.mul(rhs), self.z.mul(rhs))
    }

    /// Every component divided by the nonzero scalar `rhs`.
    pub fn div(self, rhs: Scalar) -> (r: Vector)
        requires
            rhs@ != 0,
            fits_i64(scale_div(self.x@, rhs@)),
            fits_i64(scale_div(self.y@, rhs@)),
            fits_i64(scale_div(self.z@, rhs@)),
        ensures
            r.x@ == scale_div(self.x@, rhs@),
            r.y@ == scale_div(self.y@, rhs@),
            r.z@ == scale_div(self.z@, rhs@),
            r.wf(),
    {
        Vector::new(self.x.div(rhs), self.y.div(rhs), self.z.div(rhs))
    }

    /// The dot product: the projection and angle metric of two vectors.
    pub fn dot(self, rhs: Vector) -> (r: Scalar)
        requires
            fits_i64(dot_units(self, rhs)),
        ensures
            r@ == dot_units(self, rhs),
    {
        let s: i128 = scale_mul_wide(self.x.units, rhs.x.units)
            + scale_mul_wide(self.y.units, rhs.y.units)
            + scale_mul_wide(self.z.units, rhs.z.units);
        Scalar { units: s as i64 }
    }

    /// The cross product, by the right-hand rule: a vector orthogonal to
    /// both operands.
    pub fn cross(self, rhs: Vector) -> (r: Vector)
        requires
            fits_i64(cross_x_units(self, rhs)),
            fits_i64(cross_y_units(self, rhs)),
            fits_i64(cross_z_units(self, rhs)),
        ensures
            r.x@ == cross_x_units(self, rhs),
            r.y@ == cross_y_units(self, rhs),
            r.z@ == cross_z_units(self, rhs),
            r.wf(),
    {
        let cx: i128 = scale_mul_wide(self.y.units, rhs.z.units)
            - scale_mul_wide(self.z.units, rhs.y.units);
        let cy: i128 = scale_mul_wide(self.z.units, rhs.x.units)
            - scale_mul_wide(self.x.units, rhs.z.units);
        let cz: i128 = scale_mul_wide(self.x.units, rhs.y.units)
            - scale_mul_wide(self.y.units, rhs.x.units);
        Vector::new(
            Scalar { units: cx as i64 },
            Scalar { units: cy as i64 },
            Scalar { units: cz as i64 },
        )
    }
}

/// The x component of a normalized vector, in units.
pub open spec fn normalized_x(v: Vector) -> int {
    scale_div(v.x@, sqrt_floor(v.mag_sq()))
}

/// The y component of a normalized vector, in units.
pub open spec fn normalized_y(v: Vector) -> int {
    scale_div(v.y@, sqrt_floor(v.mag_sq()))
}

/// The z component of a normalized vector, in units.
pub open spec fn normalized_z(v: Vector) -> int {
    scale_div(v.z@, sqrt_floor(v.mag_sq()))
}

/// The cross product is anti-commutative, exactly: each component of
/// `a x b` is the negation of the matching component of `b x a`, so the two
/// are also approximately opposite.
pub proof fn lemma_cross_anti_commutative(a: Vector, b: Vector)
    ensures
        cross_x_units(a, b) == -cross_x_units(b, a),
        cross_y_units(a, b) == -cross_y_units(b, a),
        cross_z_units(a, b) == -cross_z_units(b, a),
        near(cross_x_units(a, b), -cross_x_units(b, a)),
        near(cross_y_units(a, b), -cross_y_units(b, a)),
        near(cross_z_units(a, b), -cross_z_units(b, a)),
{
    crate::scalar::lemma_scale_mul_comm(a.y@, b.z@);
    crate::scalar::lemma_scale_mul_comm(a.z@, b.y@);
    crate::scalar::lemma_scale_mul_comm(a.z@, b.x@);
    crate::scalar::lemma_scale_mul_comm(a.x@, b.z@);
    crate::scalar::lemma_scale_mul_comm(a.x@, b.y@);
    crate::scalar::lemma_scale_mul_comm(a.y@, b.x@);
}

/// The cross product is orthogonal to its first operand: for a vector `c`
/// with the components of `a x b`, the dot product `c . a` is within the
/// tolerance of zero.  The bound on `a`'s components (at most 16 in
/// absolute value) keeps the rounding error of the six products inside the
/// tolerance; for far larger components the residue can exceed it.
pub proof fn lemma_cross_orthogonal(a: Vector, b: Vector, c: Vector)
    requires
        c.x@ == cross_x_units(a, b),
        c.y@ == cross_y_units(a, b),
        c.z@ == cross_z_units(a, b),
        -16 * (SCALE as int) <= a.x@ <= 16 * (SCALE as int),
        -16 * (SCALE as int) <= a.y@ <= 16 * (SCALE as int),
        -16 * (SCALE as int) <= a.z@ <= 16 * (SCALE as int),
    ensures
        near(dot_units(c, a), 0),
{
    let big = SCALE as int;
    let tx = a.y@ * b.z@ - a.z@ * b.y@;
    let ty = a.z@ * b.x@ - a.x@ * b.z@;
    let tz = a.x@ * b.y@ - a.y@ * b.x@;
    crate::scalar::lemma_scale_mul_err(a.y@, b.z@);
    crate::scalar::lemma_scale_mul_err(a.z@, b.y@);
    crate::scalar::lemma_scale_mul_err(a.z@, b.x@);
    crate::scalar::lemma_scale_mul_err(a.x@, b.z@);
    crate::scalar::lemma_scale_mul_err(a.x@, b.y@);
    crate::scalar::lemma_scale_mul_err(a.y@, b.x@);
    let ex = c.x@ * big - tx;
    let ey = c.y@ * big - ty;
    let ez = c.z@ * big - tz;
    assert(c.x@ * big == scale_mul(a.y@, b.z@) * big - scale_mul(a.z@, b.y@) * big)
        by (nonlinear_arith)
        requires
            c.x@ == scale_mul(a.y@, b.z@) - scale_mul(a.z@, b.y@),
    ;
    assert(c.y@ * big == scale_mul(a.z@, b.x@) * big - scale_mul(a.x@, b.z@) * big)
        by (nonlinear_arith)
        requires
            c.y@ == scale_mul(a.z@, b.x@) - scale_mul(a.x@, b.z@),
    ;
    assert(c.z@ * big == scale_mul(a.x@, b.y@) * big - scale_mul(a.y@, b.x@) * big)
        by (nonlinear_arith)
        requires
            c.z@ == scale_mul(a.x@, b.y@) - scale_mul(a.y@, b.x@),
    ;
    assert(-100_000_000 <= ex <= 100_000_000);
    assert(-100_000_000 <= ey <= 100_000_000);
    assert(-100_000_000 <= ez <= 100_000_000);
    let d = dot_units(c, a);
    crate::scalar::lemma_scale_mul_err(c.x@, a.x@);
    crate::scalar::lemma_scale_mul_err(c.y@, a.y@);
    crate::scalar::lemma_scale_mul_err(c.z@, a.z@);
    let g = d * big - (c.x@ * a.x@ + c.y@ * a.y@ + c.z@ * a.z@);
    assert(-150_000_000 <= g <= 150_000_000) by (nonlinear_arith)
        requires
            d == scale_mul(c.x@, a.x@) + scale_mul(c.y@, a.y@) + scale_mul(c.z@, a.z@),
            g == d * big - (c.x@ * a.x@ + c.y@ * a.y@ + c.z@ * a.z@),
            -50_000_000 <= scale_mul(c.x@, a.x@) * big - c.x@ * a.x@ <= 50_000_000,
            -50_000_000 <= scale_mul(c.y@, a.y@) * big - c.y@ * a.y@ <= 50_000_000,
            -50_000_000 <= scale_mul(c.z@, a.z@) * big - c.z@ * a.z@ <= 50_000_000,
    ;
    // The exact cross product is orthogonal: tx * ax + ty * ay + tz * az == 0.
    assert(tx * a.x@ + ty * a.y@ + tz * a.z@ == 0) by (nonlinear_arith)
        requires
            tx == a.y@ * b.z@ - a.z@ * b.y@,
            ty == a.z@ * b.x@ - a.x@ * b.z@,
            tz == a.x@ * b.y@ - a.y@ * b.x@,
    ;
    assert(-50 <= d <= 50) by (nonlinear_arith)
        requires
            d * big == (c.x@ * a.x@ + c.y@ * a.y@ + c.z@ * a.z@) + g,
            c.x@ * big == tx + ex,
            c.y@ * big == ty + ey,
            c.z@ * big == tz + ez,
            tx * a.x@ + ty * a.y@ + tz * a.z@ == 0,
            -100_000_000 <= ex <= 100_000_000,
            -100_000_000 <= ey <= 100_000_000,
            -100_000_000 <= ez <= 100_000_000,
            -150_000_000 <= g <= 150_000_000,
            -16 * big <= a.x@ <= 16 * big,
            -16 * big <= a.y@ <= 16 * big,
            -16 * big <= a.z@ <= 16 * big,
            big == 100_000_000,
    ;
}

/// Normalizing a vector yields a vector of magnitude 1, up to the
/// tolerance, provided the vector is not too short: its magnitude must be
/// at least 2_100_000 units (0.021).  For far shorter vectors the
/// quantization of the magnitude itself outweighs the tolerance.
pub proof fn lemma_normalize_unit_magnitude(v: Vector)
    requires
        sqrt_floor(v.mag_sq()) >= 2_100_000,
    ensures
        near(
            sqrt_floor(
                normalized_x(v) * normalized_x(v) + normalized_y(v) * normalized_y(v)
                    + normalized_z(v) * normalized_z(v),
            ),
            SCALE as int,
        ),
        -(SCALE as int) <= normalized_x(v) <= SCALE as int,
        -(SCALE as int) <= normalized_y(v) <= SCALE as int,
        -(SCALE as int) <= normalized_z(v) <= SCALE as int,
{
    let big = SCALE as int;
    let q = v.mag_sq();
    assert(v.x@ * v.x@ >= 0) by (nonlinear_arith);
    assert(v.y@ * v.y@ >= 0) by (nonlinear_arith);
    assert(v.z@ * v.z@ >= 0) by (nonlinear_arith);
    lemma_sqrt_floor_exists(q);
    let m = sqrt_floor(q);
    assert(m * m <= q < (m + 1) * (m + 1));
    assert(q <= m * m + 2 * m) by (nonlinear_arith)
        requires
            q < (m + 1) * (m + 1),
    ;
    // Each component is bounded by the magnitude.
    assert(-m <= v.x@ <= m) by (nonlinear_arith)
        requires
            v.x@ * v.x@ <= q,
            q <= m * m + 2 * m,
            m >= 0,
    ;
    assert(-m <= v.y@ <= m) by (nonlinear_arith)
        requires
            v.y@ * v.y@ <= q,
            q <= m * m + 2 * m,
            m >= 0,
    ;
    assert(-m <= v.z@ <= m) by (nonlinear_arith)
        requires
            v.z@ * v.z@ <= q,
            q <= m * m + 2 * m,
            m >= 0,
    ;
    let nx = normalized_x(v);
    let ny = normalized_y(v);
    let nz = normalized_z(v);
    crate::scalar::lemma_rounded_div_err(v.x@ * big, m);
    crate::scalar::lemma_rounded_div_err(v.y@ * big, m);
    crate::scalar::lemma_rounded_div_err(v.z@ * big, m);
    lemma_fundamental_div_mod(m, 2);
    let h = m / 2;
    let dx = nx * m - v.x@ * big;
    let dy = ny * m - v.y@ * big;
    let dz = nz * m - v.z@ * big;
    assert(-h <= dx <= h && -h <= dy <= h && -h <= dz <= h);
    // Each normalized component stays within one unit magnitude.
    assert(-big <= nx <= big) by (nonlinear_arith)
        requires
            nx * m == v.x@ * big + dx,
            -h <= dx <= h,
            2 * h <= m,
            -m <= v.x@ <= m,
            m >= 1,
            big >= 1,
    ;
    assert(-big <= ny <= big) by (nonlinear_arith)
        requires
            ny * m == v.y@ * big + dy,
            -h <= dy <= h,
            2 * h <= m,
            -m <= v.y@ <= m,
            m >= 1,
            big >= 1,
    ;
    assert(-big <= nz <= big) by (nonlinear_arith)
        requires
            nz * m == v.z@ * big + dz,
            -h <= dz <= h,
            2 * h <= m,
            -m <= v.z@ <= m,
            m >= 1,
            big >= 1,
    ;
    let cx = v.x@;
    let cy = v.y@;
    let cz = v.z@;
    let n = nx * nx + ny * ny + nz * nz;
    let mm = m * m;
    let mh = m * h;
    let hh = h * h;
    let mmn = mm * n;
    assert(mm >= m) by (nonlinear_arith)
        requires
            mm == m * m,
            m >= 1,
    ;
    let cross_terms = cx * dx + cy * dy + cz * dz;
    let squares = dx * dx + dy * dy + dz * dz;
    // The magnitude squared of the normalized vector, scaled by m * m,
    // expands into the exact part, the cross terms and the square terms.
    assert((nx * m) * (nx * m) == big * big * (cx * cx) + 2 * big * (cx * dx) + dx * dx)
        by (nonlinear_arith)
        requires
            nx * m == cx * big + dx,
            big == 100_000_000,
    ;
    assert((ny * m) * (ny * m) == big * big * (cy * cy) + 2 * big * (cy * dy) + dy * dy)
        by (nonlinear_arith)
        requires
            ny * m == cy * big + dy,
            big == 100_000_000,
    ;
    assert((nz * m) * (nz * m) == big * big * (cz * cz) + 2 * big * (cz * dz) + dz * dz)
        by (nonlinear_arith)
        requires
            nz * m == cz * big + dz,
            big == 100_000_000,
    ;
    assert(mmn == (nx * m) * (nx * m) + (ny * m) * (ny * m) + (nz * m) * (nz * m))
        by (nonlinear_arith)
        requires
            mmn == (m * m) * (nx * nx + ny * ny + nz * nz),
    ;
    assert(mmn == big * big * q + 2 * big * cross_terms + squares) by (nonlinear_arith)
        requires
            mmn == (nx * m) * (nx * m) + (ny * m) * (ny * m) + (nz * m) * (nz * m),
            (nx * m) * (nx * m) == big * big * (cx * cx) + 2 * big * (cx * dx) + dx * dx,
            (ny * m) * (ny * m) == big * big * (cy * cy) + 2 * big * (cy * dy) + dy * dy,
            (nz * m) * (nz * m) == big * big * (cz * cz) + 2 * big * (cz * dz) + dz * dz,
            q == cx * cx + cy * cy + cz * cz,
            cross_terms == cx * dx + cy * dy + cz * dz,
            squares == dx * dx + dy * dy + dz * dz,
    ;
    // Bounds on the error terms.
    assert(-mh <= cx * dx <= mh) by (nonlinear_arith)
        requires
            -m <= cx <= m,
            -h <= dx <= h,
            mh == m * h,
            m >= 0,
            h >= 0,
    ;
    assert(-mh <= cy * dy <= mh) by (nonlinear_arith)
        requires
            -m <= cy <= m,
            -h <= dy <= h,
            mh == m * h,
            m >= 0,
            h >= 0,
    ;
    assert(-mh <= cz * dz <= mh) by (nonlinear_arith)
        requires
            -m <= cz <= m,
            -h <= dz <= h,
            mh == m * h,
            m >= 0,
            h >= 0,
    ;
    assert(0 <= dx * dx <= hh && 0 <= dy * dy <= hh && 0 <= dz * dz <= hh) by (nonlinear_arith)
        requires
            -h <= dx <= h,
            -h <= dy <= h,
            -h <= dz <= h,
            hh == h * h,
            h >= 0,
    ;
    assert(2 * mh <= mm && 4 * hh <= mm) by (nonlinear_arith)
        requires
            mm == m * m,
            mh == m * h,
            hh == h * h,
            2 * h <= m,
            h >= 0,
            m >= 0,
    ;
    assert(-(3 * mh) <= cross_terms <= 3 * mh);
    assert(0 <= squares <= 3 * hh);
    // The magnitude squared of the vector itself brackets m * m.
    assert(mm <= q <= mm + 2 * m);
    // Lower bound: n >= big * big - 3 * big >= (big - 2)^2.
    assert(mmn >= big * big * mm - 3 * big * mm) by (nonlinear_arith)
        requires
            mmn == big * big * q + 2 * big * cross_terms + squares,
            mm <= q,
            -(3 * mh) <= cross_terms,
            2 * mh <= mm,
            0 <= squares,
            big == 100_000_000,
    ;
    assert(big * big - 3 * big <= n) by (nonlinear_arith)
        requires
            mmn == mm * n,
            mmn >= big * big * mm - 3 * big * mm,
            mm >= 1,
            big == 100_000_000,
    ;
    // Upper bound: n <= big * big + 99 * big + 1 < (big + 50)^2, resting on
    // the vector being long enough: 96 * m >= 2 * big.
    assert(2 * big * big * m <= 96 * big * mm) by (nonlinear_arith)
        requires
            mm == m * m,
            96 * m >= 2 * big,
            m >= 0,
            big == 100_000_000,
    ;
    assert(big * big * q <= big * big * mm + 2 * big * big * m) by (nonlinear_arith)
        requires
            q <= mm + 2 * m,
            big == 100_000_000,
    ;
    assert(2 * big * cross_terms <= 3 * big * mm) by (nonlinear_arith)
        requires
            cross_terms <= 3 * mh,
            2 * mh <= mm,
            big == 100_000_000,
    ;
    assert(squares <= mm) by (nonlinear_arith)
        requires
            squares <= 3 * hh,
            4 * hh <= mm,
            0 <= hh,
    ;
    assert(mmn <= big * big * mm + 2 * big * big * m + 3 * big * mm + mm);
    assert(n <= big * big + 99 * big + 1) by (nonlinear_arith)
        requires
            mmn == mm * n,
            mmn <= big * big * mm + 2 * big * big * m + 3 * big * mm + mm,
            2 * big * big * m <= 96 * big * mm,
            mm >= 1,
            big == 100_000_000,
    ;
    lemma_sqrt_floor_exists(n);
    let g = sqrt_floor(n);
    assert(g * g <= n < (g + 1) * (g + 1));
    assert(big - 2 <= g <= big + 49) by (nonlinear_arith)
        requires
            g * g <= n < (g + 1) * (g + 1),
            big * big - 3 * big <= n <= big * big + 99 * big + 1,
            g >= 0,
            big == 100_000_000,
    ;
}

impl PartialEq for Vector {
    /// Approximate equality over the three spatial components.
    fn eq(&self, other: &Vector) -> (r: bool) {
        self.x.approx_eq(other.x) && self.y.approx_eq(other.y) && self.z.approx_eq(other.z)
    }
}

impl vstd::std_specs::cmp::PartialEqSpecImpl for Vector {
    open spec fn obeys_eq_spec() -> bool {
        true
    }

    open spec fn eq_spec(&self, other: &Vector) -> bool {
        near(self.x@, other.x@) && near(self.y@, other.y@) && near(self.z@, other.z@)
    }
}

} // verus!
