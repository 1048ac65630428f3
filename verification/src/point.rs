use crate::scalar::{fits_i64, near, Scalar, SCALE};
use crate::tuple::Tuple;
use crate::vector::Vector;
use vstd::prelude::*;

verus! {

/// A location in space: three components with the homogeneous component
/// fixed at `w = 1`.
#[derive(Clone, Copy, Debug)]
pub struct Point {
    pub x: Scalar,
    pub y: Scalar,
    pub z: Scalar,
    pub w: Scalar,
}

/// Failure of narrowing a generic tuple to a point.
#[derive(Clone, Copy, Debug, PartialEq, Eq, Structural)]
pub enum IntoPointError {
    /// The tuple's homogeneous component is not 1.
    BadW,
}

impl Point {
    /// A point carries `w = 1`: the invariant every constructor
    /// establishes and every operation returning a point preserves.
    pub open spec fn wf(self) -> bool {
        self.w@ == SCALE
    }

    /// The point at the given coordinates.
    pub fn new(x: Scalar, y: Scalar, z: Scalar) -> (r: Point)
        ensures
            r.x == x && r.y == y && r.z == z,
            r.wf(),
    {
        Point { x, y, z, w: Scalar { units: SCALE } }
    }

    /// The origin.
    pub fn origin() -> (r: Point)
        ensures
            r.x@ == 0 && r.y@ == 0 && r.z@ == 0,
            r.wf(),
    {
        Point::new(Scalar { units: 0 }, Scalar { units: 0 }, Scalar { units: 0 })
    }

    /// Narrow a generic tuple to a point.  This succeeds exactly when the
    /// tuple carries `w == 1`; any other `w` is an invariant violation,
    /// answered with `BadW`.
    pub fn try_from(t: Tuple) -> (r: Result<Point, IntoPointError>)
        ensures
            t.w@ == SCALE ==> r == Ok::<Point, IntoPointError>(
                Point { x: t.x, y: t.y, z: t.z, w: t.w },
            ),
            t.w@ != SCALE ==> r == Err::<Point, IntoPointError>(IntoPointError::BadW),
    {
        if t.w.units == SCALE {
            Ok(Point { x: t.x, y: t.y, z: t.z, w: t.w })
        } else {
            Err(IntoPointError::BadW)
        }
    }

    /// Translate by a vector: a point again.
    pub fn add_vector(self, rhs: Vector) -> (r: Point)
        requires
            fits_i64(self.x@ + rhs.x@),
            fits_i64(self.y@ + rhs.y@),
            fits_i64(self.z@ + rhs.z@),
        ensures
            r.x@ == self.x@ + rhs.x@,
            r.y@ == self.y@ + rhs.y@,
            r.z@ == self.z@ + rhs.z@,
            r.wf(),
    {
        Point::new(self.x.add(rhs.x), self.y.add(rhs.y), self.z.add(rhs.z))
    }

    /// Add two points: not geometrically meaningful, so the result is a
    /// generic tuple with `w = 2`, kept for completeness.
    pub fn add_point(self, rhs: Point) -> (r: Tuple)
        requires
            fits_i64(self.x@ + rhs.x@),
            fits_i64(self.y@ + rhs.y@),
            fits_i64(self.z@ + rhs.z@),
        ensures
            r.x@ == self.x@ + rhs.x@,
            r.y@ == self.y@ + rhs.y@,
            r.z@ == self.z@ + rhs.z@,
            r.w@ == 2 * SCALE,
    {
        Tuple {
            x: self.x.add(rhs.x),
            y: self.y.add(rhs.y),
            z: self.z.add(rhs.z),
            w: Scalar { units: 2 * SCALE },
        }
    }

    /// Add a generic tuple: a tuple whose `w` grew by 1.
    pub fn add_tuple(self, rhs: Tuple) -> (r: Tuple)
        requires
            fits_i64(self.x@ + rhs.x@),
            fits_i64(self.y@ + rhs.y@),
            fits_i64(self.z@ + rhs.z@),
            fits_i64(rhs.w@ + SCALE),
        ensures
            r.x@ == self.x@ + rhs.x@,
            r.y@ == self.y@ + rhs.y@,
            r.z@ == self.z@ + rhs.z@,
            r.w@ == rhs.w@ + SCALE,
    {
        Tuple {
            x: self.x.add(rhs.x),
            y: self.y.add(rhs.y),
            z: self.z.add(rhs.z),
            w: rhs.w.add(Scalar { units: SCALE }),
        }
    }

    /// The displacement between two locations: a vector.
    pub fn sub_point(self, rhs: Point) -> (r: Vector)
        requires
            fits_i64(self.x@ - rhs.x@),
            fits_i64(self.y@ - rhs.y@),
            fits_i64(self.z@ - rhs.z@),
        ensures
            r.x@ == self.x@ - rhs.x@,
            r.y@ == self.y@ - rhs.y@,
            r.z@ == self.z@ - rhs.z@,
            r.wf(),
    {
        Vector::new(self.x.sub(rhs.x), self.y.sub(rhs.y), self.z.sub(rhs.z))
    }

    /// Translate backward by a vector: a point again.
    pub fn sub_vector(self, rhs: Vector) -> (r: Point)
        requires
            fits_i64(self.x@ - rhs.x@),
            fits_i64(self.y@ - rhs.y@),
            fits_i64(self.z@ - rhs.z@),
        ensures
            r.x@ == self.x@ - rhs.x@,
            r.y@ == self.y@ - rhs.y@,
            r.z@ == self.z@ - rhs.z@,
            r.wf(),
    {
        Point::new(self.x.sub(rhs.x), self.y.sub(rhs.y), self.z.sub(rhs.z))
    }

    /// Subtract a generic tuple: a tuple whose `w` is `1` less the tuple's.
    pub fn sub_tuple(self, rhs: Tuple) -> (r: Tuple)
        requires
            fits_i64(self.x@ - rhs.x@),
            fits_i64(self.y@ - rhs.y@),
            fits_i64(self.z@ - rhs.z@),
            fits_i64(SCALE - rhs.w@),
        ensures
            r.x@ == self.x@ - rhs.x@,
            r.y@ == self.y@ - rhs.y@,
            r.z@ == self.z@ - rhs.z@,
            r.w@ == SCALE - rhs.w@,
    {
        Tuple {
            x: self.x.sub(rhs.x),
            y: self.y.sub(rhs.y),
            z: self.z.sub(rhs.z),
            w: Scalar { units: SCALE }.sub(rhs.w),
        }
    }

    /// Negate a point: a generic tuple with `w = -1`.
    pub fn neg(self) -> (r: Tuple)
        requires
            fits_i64(-self.x@),
            fits_i64(-self.y@),
            fits_i64(-self.z@),
        ensures
            r.x@ == -self.x@,
            r.y@ == -self.y@,
            r.z@ == -self.z@,
            r.w@ == -(SCALE as int),
    {
        Tuple {
            x: self.x.neg(),
            y: self.y.neg(),
            z: self.z.neg(),
            w: Scalar { units: -SCALE },
        }
    }
}

impl PartialEq for Point {
    /// Approximate equality over the three spatial components.
    fn eq(&self, other: &Point) -> (r: bool) {
        self.x.approx_eq(other.x) && self.y.approx_eq(other.y) && self.z.approx_eq(other.z)
    }
}

impl vstd::std_specs::cmp::PartialEqSpecImpl for Point {
    open spec fn obeys_eq_spec() -> bool {
        true
    }

    open spec fn eq_spec(&self, other: &Point) -> bool {
        near(self.x@, other.x@) && near(self.y@, other.y@) && near(self.z@, other.z@)
    }
}

/// A point translated by a vector and back lands where it started: with
/// `q = p + v` and `r = q - v` (as `add_vector` and `sub_vector` compute
/// them), `r` equals `p` exactly, hence approximately.
pub proof fn lemma_translate_round_trip(p: Point, v: Vector, q: Point, r: Point)
    requires
        q.x@ == p.x@ + v.x@,
        q.y@ == p.y@ + v.y@,
        q.z@ == p.z@ + v.z@,
        r.x@ == q.x@ - v.x@,
        r.y@ == q.y@ - v.y@,
        r.z@ == q.z@ - v.z@,
    ensures
        r.x@ == p.x@ && r.y@ == p.y@ && r.z@ == p.z@,
        near(r.x@, p.x@) && near(r.y@, p.y@) && near(r.z@, p.z@),
{
}

/// The backward round trip holds as well: with `q = p - v` and
/// `r = q + v`, `r` equals `p` exactly, hence approximately.
pub proof fn lemma_translate_back_round_trip(p: Point, v: Vector, q: Point, r: Point)
    requires
        q.x@ == p.x@ - v.x@,
        q.y@ == p.y@ - v.y@,
        q.z@ == p.z@ - v.z@,
        r.x@ == q.x@ + v.x@,
        r.y@ == q.y@ + v.y@,
        r.z@ == q.z@ + v.z@,
    ensures
        r.x@ == p.x@ && r.y@ == p.y@ && r.z@ == p.z@,
        near(r.x@, p.x@) && near(r.y@, p.y@) && near(r.z@, p.z@),
{
}

} // verus!
