use crate::point::Point;
use crate::scalar::{
    fits_i64, is_floor_sqrt, lemma_sqrt_floor_exists, near, scale_div, scale_mul, sqrt_floor,
    square_u128, isqrt_u128, Scalar, SCALE,
};
use crate::vector::Vector;
use vstd::prelude::*;

verus! {

/// A homogeneous 4-component value `(x, y, z, w)`: the generic carrier of
/// the algebra.  `w` carries no invariant here; `Point` and `Vector` fix it.
#[derive(Clone, Copy, Debug)]
pub struct Tuple {
    pub x: Scalar,
    pub y: Scalar,
    pub z: Scalar,
    pub w: Scalar,
}

impl Tuple {
    /// Sum of the squares of all four components, in units squared.
    pub open spec fn mag_sq(self) -> int {
        self.x@ * self.x@ + self.y@ * self.y@ + self.z@ * self.z@ + self.w@ * self.w@
    }

    /// The tuple with the given components.
    pub fn new(x: Scalar, y: Scalar, z: Scalar, w: Scalar) -> (r: Tuple)
        ensures
            r == (Tuple { x, y, z, w }),
    {
        Tuple { x, y, z, w }
    }

    /// The all-zero tuple.
    pub fn zero() -> (r: Tuple)
        ensures
            r.x@ == 0 && r.y@ == 0 && r.z@ == 0 && r.w@ == 0,
    {
        Tuple {
            x: Scalar { units: 0 },
            y: Scalar { units: 0 },
            z: Scalar { units: 0 },
            w: Scalar { units: 0 },
        }
    }

    /// Euclidean norm over all four components, rounded down to a unit.
    pub fn magnitude(&self) -> (r: Scalar)
        requires
            sqrt_floor(self.mag_sq()) <= i64::MAX,
        ensures
            r@ == sqrt_floor(self.mag_sq()),
            is_floor_sqrt(self.mag_sq(), r@),
    {
        proof {
            assert(self.x@ * self.x@ >= 0) by (nonlinear_arith);
            assert(self.y@ * self.y@ >= 0) by (nonlinear_arith);
            assert(self.z@ * self.z@ >= 0) by (nonlinear_arith);
            assert(self.w@ * self.w@ >= 0) by (nonlinear_arith);
            lemma_sqrt_floor_exists(self.mag_sq());
            let m = sqrt_floor(self.mag_sq());
            assert(self.mag_sq() < 0x40000000000000000000000000000000) by (nonlinear_arith)
                requires
                    self.mag_sq() < (m + 1) * (m + 1),
                    0 <= m <= 0x7fffffffffffffff,
            ;
        }
        let sum: u128 = square_u128(self.x.units) + square_u128(self.y.units)
            + square_u128(self.z.units) + square_u128(self.w.units);
        let r: u128 = isqrt_u128(sum);
        proof {
            assert(r <= 0x7fffffffffffffff) by (nonlinear_arith)
                requires
                    (r as int) * (r as int) <= sum as int,
                    sum as int == self.mag_sq(),
                    is_floor_sqrt(self.mag_sq(), sqrt_floor(self.mag_sq())),
                    r as int == sqrt_floor(self.mag_sq()),
                    sqrt_floor(self.mag_sq()) <= 0x7fffffffffffffff,
            ;
        }
        Scalar { units: r as i64 }
    }

    /// Every component divided by the magnitude.  The magnitude must be
    /// nonzero: normalizing a zero tuple is left undefined and ruled out
    /// here, as the callers must guarantee a nonzero magnitude.
    pub fn normalize(self) -> (r: Tuple)
        requires
            1 <= sqrt_floor(self.mag_sq()) <= i64::MAX,
            fits_i64(scale_div(self.x@, sqrt_floor(self.mag_sq()))),
            fits_i64(scale_div(self.y@, sqrt_floor(self.mag_sq()))),
            fits_i64(scale_div(self.z@, sqrt_floor(self.mag_sq()))),
            fits_i64(scale_div(self.w@, sqrt_floor(self.mag_sq()))),
        ensures
            r.x@ == scale_div(self.x@, sqrt_floor(self.mag_sq())),
            r.y@ == scale_div(self.y@, sqrt_floor(self.mag_sq())),
            r.z@ == scale_div(self.z@, sqrt_floor(self.mag_sq())),
            r.w@ == scale_div(self.w@, sqrt_floor(self.mag_sq())),
    {
        let m = self.magnitude();
        self.div(m)
    }

    /// Component-wise sum of two tuples.
    pub fn add(self, rhs: Tuple) -> (r: Tuple)
        requires
            fits_i64(self.x@ + rhs.x@),
            fits_i64(self.y@ + rhs.y@),
            fits_i64(self.z@ + rhs.z@),
            fits_i64(self.w@ + rhs.w@),
        ensures
            r.x@ == self.x@ + rhs.x@,
            r.y@ == self.y@ + rhs.y@,
            r.z@ == self.z@ + rhs.z@,
            r.w@ == self.w@ + rhs.w@,
    {
        Tuple {
            x: self.x.add(rhs.x),
            y: self.y.add(rhs.y),
            z: self.z.add(rhs.z),
            w: self.w.add(rhs.w),
        }
    }

    /// Translate by a vector: `w` is unchanged, as a vector carries `w = 0`.
    pub fn add_vector(self, rhs: Vector) -> (r: Tuple)
        requires
            fits_i64(self.x@ + rhs.x@),
            fits_i64(self.y@ + rhs.y@),
            fits_i64(self.z@ + rhs.z@),
        ensures
            r.x@ == self.x@ + rhs.x@,
            r.y@ == self.y@ + rhs.y@,
            r.z@ == self.z@ + rhs.z@,
            r.w@ == self.w@,
    {
        Tuple { x: self.x.add(rhs.x), y: self.y.add(rhs.y), z: self.z.add(rhs.z), w: self.w }
    }

    /// Add a point: `w` grows by 1, the point's homogeneous component.
    pub fn add_point(self, rhs: Point) -> (r: Tuple)
        requires
            fits_i64(self.x@ + rhs.x@),
            fits_i64(self.y@ + rhs.y@),
            fits_i64(self.z@ + rhs.z@),
            fits_i64(self.w@ + SCALE),
        ensures
            r.x@ == self.x@ + rhs.x@,
            r.y@ == self.y@ + rhs.y@,
            r.z@ == self.z@ + rhs.z@,
            r.w@ == self.w@ + SCALE,
    {
        Tuple {
            x: self.x.add(rhs.x),
            y: self.y.add(rhs.y),
            z: self.z.add(rhs.z),
            w: self.w.add(Scalar { units: SCALE }),
        }
    }

    /// Component-wise difference of two tuples.
    pub fn sub(self, rhs: Tuple) -> (r: Tuple)
        requires
            fits_i64(self.x@ - rhs.x@),
            fits_i64(self.y@ - rhs.y@),
            fits_i64(self.z@ - rhs.z@),
            fits_i64(self.w@ - rhs.w@),
        ensures
            r.x@ == self.x@ - rhs.x@,
            r.y@ == self.y@ - rhs.y@,
            r.z@ == self.z@ - rhs.z@,
            r.w@ == self.w@ - rhs.w@,
    {
        Tuple {
            x: self.x.sub(rhs.x),
            y: self.y.sub(rhs.y),
            z: self.z.sub(rhs.z),
            w: self.w.sub(rhs.w),
        }
    }

    /// Translate backward by a vector: `w` is unchanged.
    pub fn sub_vector(self, rhs: Vector) -> (r: Tuple)
        requires
            fits_i64(self.x@ - rhs.x@),
            fits_i64(self.y@ - rhs.y@),
            fits_i64(self.z@ - rhs.z@),
        ensures
            r.x@ == self.x@ - rhs.x@,
            r.y@ == self.y@ - rhs.y@,
            r.z@ == self.z@ - rhs.z@,
            r.w@ == self.w@,
    {
        Tuple { x: self.x.sub(rhs.x), y: self.y.sub(rhs.y), z: self.z.sub(rhs.z), w: self.w }
    }

    /// Subtract a point: `w` shrinks by 1.
    pub fn sub_point(self, rhs: Point) -> (r: Tuple)
        requires
            fits_i64(self.x@ - rhs.x@),
            fits_i64(self.y@ - rhs.y@),
            fits_i64(self.z@ - rhs.z@),
            fits_i64(self.w@ - SCALE),
        ensures
            r.x@ == self.x@ - rhs.x@,
            r.y@ == self.y@ - rhs.y@,
            r.z@ == self.z@ - rhs.z@,
            r.w@ == self.w@ - SCALE,
    {
        Tuple {
            x: self.x.sub(rhs.x),
            y: self.y.sub(rhs.y),
            z: self.z.sub(rhs.z),
            w: self.w.sub(Scalar { units: SCALE }),
        }
    }

    /// Component-wise negation.
    pub fn neg(self) -> (r: Tuple)
        requires
            fits_i64(-self.x@),
            fits_i64(-self.y@),
            fits_i64(-self.z@),
            fits_i64(-self.w@),
        ensures
            r.x@ == -self.x@,
            r.y@ == -self.y@,
            r.z@ == -self.z@,
            r.w@ == -self.w@,
    {
        Tuple { x: self.x.neg(), y: self.y.neg(), z: self.z.neg(), w: self.w.neg() }
    }

    /// Every component multiplied by the scalar `rhs`.
    pub fn scale(self, rhs: Scalar) -> (r: Tuple)
        requires
            fits_i64(scale_mul(self.x@, rhs@)),
            fits_i64(scale_mul(self.y@, rhs@)),
            fits_i64(scale_mul(self.z@, rhs@)),
            fits_i64(scale_mul(self.w@, rhs@)),
        ensures
            r.x@ == scale_mul(self.x@, rhs@),
            r.y@ == scale_mul(self.y@, rhs@),
            r.z@ == scale_mul(self.z@, rhs@),
            r.w@ == scale_mul(self.w@, rhs@),
    {
        Tuple {
            x: self.x.mul(rhs),
            y: self.y.mul(rhs),
            z: self.z.mul(rhs),
            w: self.w.mul(rhs),
        }
    }

    /// Every component divided by the nonzero scalar `rhs`.
    pub fn div(self, rhs: Scalar) -> (r: Tuple)
        requires
            rhs@ != 0,
            fits_i64(scale_div(self.x@, rhs@)),
            fits_i64(scale_div(self.y@, rhs@)),
            fits_i64(scale_div(self.z@, rhs@)),
            fits_i64(scale_div(self.w@, rhs@)),
        ensures
            r.x@ == scale_div(self.x@, rhs@),
            r.y@ == scale_div(self.y@, rhs@),
            r.z@ == scale_div(self.z@, rhs@),
            r.w@ == scale_div(self.w@, rhs@),
    {
        Tuple {
            x: self.x.div(rhs),
            y: self.y.div(rhs),
            z: self.z.div(rhs),
            w: self.w.div(rhs),
        }
    }
}

impl PartialEq for Tuple {
    /// Approximate equality, component-wise over all four components.
    fn eq(&self, other: &Tuple) -> (r: bool) {
        self.x.approx_eq(other.x) && self.y.approx_eq(other.y) && self.z.approx_eq(other.z)
            && self.w.approx_eq(other.w)
    }
}

impl vstd::std_specs::cmp::PartialEqSpecImpl for Tuple {
    open spec fn obeys_eq_spec() -> bool {
        true
    }

    open spec fn eq_spec(&self, other: &Tuple) -> bool {
        near(self.x@, other.x@) && near(self.y@, other.y@) && near(self.z@, other.z@)
            && near(self.w@, other.w@)
    }
}

impl From<Vector> for Tuple {
    /// The tuple of a vector: same components, `w = 0`.
    fn from(v: Vector) -> (r: Tuple) {
        Tuple { x: v.x, y: v.y, z: v.z, w: Scalar { units: 0 } }
    }
}

impl vstd::std_specs::convert::FromSpecImpl<Vector> for Tuple {
    open spec fn obeys_from_spec() -> bool {
        true
    }

    open spec fn from_spec(v: Vector) -> Tuple {
        Tuple { x: v.x, y: v.y, z: v.z, w: Scalar { units: 0 } }
    }
}

impl From<Point> for Tuple {
    /// The tuple of a point: same components, `w = 1`.
    fn from(p: Point) -> (r: Tuple) {
        Tuple { x: p.x, y: p.y, z: p.z, w: Scalar { units: SCALE } }
    }
}

impl vstd::std_specs::convert::FromSpecImpl<Point> for Tuple {
    open spec fn obeys_from_spec() -> bool {
        true
    }

    open spec fn from_spec(p: Point) -> Tuple {
        Tuple { x: p.x, y: p.y, z: p.z, w: Scalar { units: SCALE } }
    }
}

} // verus!
