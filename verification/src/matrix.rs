use crate::point::Point;
use crate::scalar::{
    fits_i64, lemma_scale_mul_err, lemma_scale_mul_one, lemma_scale_mul_zero, near, scale_mul,
    scale_mul_wide, Scalar, SCALE,
};
use crate::tuple::Tuple;
use crate::vector::Vector;
use vstd::prelude::*;

verus! {

/// A fixed 4x4 grid of scalars, row-major: the affine and linear operator
/// of the algebra.
#[derive(Clone, Copy, Debug)]
pub struct Matrix {
    pub data: [[Scalar; 4]; 4],
}

/// One entry of the rounded matrix product of `a` and `b`, in units.
pub open spec fn product_units(a: Matrix, b: Matrix, i: int, j: int) -> int {
    scale_mul(a.at(i, 0), b.at(0, j)) + scale_mul(a.at(i, 1), b.at(1, j)) + scale_mul(
        a.at(i, 2),
        b.at(2, j),
    ) + scale_mul(a.at(i, 3), b.at(3, j))
}

/// One component of a matrix applied to a vector, in units: only the 3x3
/// linear block acts, so translation cannot affect a direction.
pub open spec fn apply_vector_units(m: Matrix, v: Vector, i: int) -> int {
    scale_mul(m.at(i, 0), v.x@) + scale_mul(m.at(i, 1), v.y@) + scale_mul(m.at(i, 2), v.z@)
}

/// One component of a matrix applied to a point, in units: the full affine
/// transform, the translation column entering with the point's `w = 1`.
pub open spec fn apply_point_units(m: Matrix, p: Point, i: int) -> int {
    scale_mul(m.at(i, 0), p.x@) + scale_mul(m.at(i, 1), p.y@) + scale_mul(m.at(i, 2), p.z@)
        + m.at(i, 3)
}

/// One component of a matrix applied to a generic tuple, in units: the full
/// homogeneous product with all four components.
pub open spec fn apply_tuple_units(m: Matrix, t: Tuple, i: int) -> int {
    scale_mul(m.at(i, 0), t.x@) + scale_mul(m.at(i, 1), t.y@) + scale_mul(m.at(i, 2), t.z@)
        + scale_mul(m.at(i, 3), t.w@)
}

impl Matrix {
    /// The entry in row `i`, column `j`, in units.
    pub open spec fn at(self, i: int, j: int) -> int {
        self.data@[i]@[j]@
    }

    /// The matrix over the given row-major grid.
    pub fn new(data: [[Scalar; 4]; 4]) -> (m: Matrix)
        ensures
            m == (Matrix { data }),
    {
        Matrix { data }
    }

    /// The all-zero matrix.
    pub fn zero() -> (m: Matrix)
        ensures
            forall|i: int, j: int| 0 <= i < 4 && 0 <= j < 4 ==> #[trigger] m.at(i, j) == 0,
    {
        let row: [Scalar; 4] = [Scalar { units: 0 };4];
        Matrix { data: [row;4] }
    }

    /// The identity: ones on the diagonal, zeroes elsewhere.
    pub fn identity() -> (m: Matrix)
        ensures
            forall|i: int, j: int|
                0 <= i < 4 && 0 <= j < 4 ==> #[trigger] m.at(i, j) == if i == j {
                    SCALE as int
                } else {
                    0
                },
    {
        let mut m = Matrix::zero();
        m.set(0, 0, Scalar { units: SCALE });
        m.set(1, 1, Scalar { units: SCALE });
        m.set(2, 2, Scalar { units: SCALE });
        m.set(3, 3, Scalar { units: SCALE });
        m
    }

    /// The entry in row `i`, column `j`.
    pub fn get(&self, i: usize, j: usize) -> (v: Scalar)
        requires
            i < 4,
            j < 4,
        ensures
            v@ == self.at(i as int, j as int),
    {
        self.data[i][j]
    }

    /// Replace the entry in row `i`, column `j`.
    pub fn set(&mut self, i: usize, j: usize, v: Scalar)
        requires
            i < 4,
            j < 4,
        ensures
            final(self).at(i as int, j as int) == v@,
            forall|a: int, b: int|
                0 <= a < 4 && 0 <= b < 4 && !(a == i && b == j) ==> #[trigger] final(self).at(
                    a,
                    b,
                ) == old(self).at(a, b),
    {
        let mut row: [Scalar; 4] = self.data[i];
        row[j] = v;
        self.data[i] = row;
    }

    /// The rounded matrix product.
    pub fn mul(self, rhs: Matrix) -> (m: Matrix)
        requires
            forall|i: int, j: int|
                0 <= i < 4 && 0 <= j < 4 ==> fits_i64(#[trigger] product_units(self, rhs, i, j)),
        ensures
            forall|i: int, j: int|
                0 <= i < 4 && 0 <= j < 4 ==> #[trigger] m.at(i, j) == product_units(
                    self,
                    rhs,
                    i,
                    j,
                ),
    {
        let mut m = Matrix::zero();
        let mut i: usize = 0;
        while i < 4
            invariant
                i <= 4,
                forall|a: int, b: int|
                    0 <= a < 4 && 0 <= b < 4 ==> fits_i64(#[trigger] product_units(self, rhs, a, b)),
                forall|a: int, b: int|
                    0 <= a < i && 0 <= b < 4 ==> #[trigger] m.at(a, b) == product_units(
                        self,
                        rhs,
                        a,
                        b,
                    ),
            decreases 4 - i,
        {
            let mut j: usize = 0;
            while j < 4
                invariant
                    i < 4,
                    j <= 4,
                    forall|a: int, b: int|
                        0 <= a < 4 && 0 <= b < 4 ==> fits_i64(
                            #[trigger] product_units(self, rhs, a, b),
                        ),
                    forall|a: int, b: int|
                        0 <= a < i && 0 <= b < 4 ==> #[trigger] m.at(a, b) == product_units(
                            self,
                            rhs,
                            a,
                            b,
                        ),
                    forall|b: int|
                        0 <= b < j ==> #[trigger] m.at(i as int, b) == product_units(
                            self,
                            rhs,
                            i as int,
                            b,
                        ),
                decreases 4 - j,
            {
                let e = mul_entry(&self, &rhs, i, j);
                m.set(i, j, e);
                j += 1;
            }
            i += 1;
        }
        m
    }

    /// Apply to a vector: only the 3x3 linear block, so a translation-only
    /// matrix leaves every vector unchanged.
    pub fn mul_vector(self, rhs: Vector) -> (v: Vector)
        requires
            fits_i64(apply_vector_units(self, rhs, 0)),
            fits_i64(apply_vector_units(self, rhs, 1)),
            fits_i64(apply_vector_units(self, rhs, 2)),
        ensures
            v.x@ == apply_vector_units(self, rhs, 0),
            v.y@ == apply_vector_units(self, rhs, 1),
            v.z@ == apply_vector_units(self, rhs, 2),
            v.wf(),
    {
        let x: i128 = scale_mul_wide(self.data[0][0].units, rhs.x.units) + scale_mul_wide(
            self.data[0][1].units,
            rhs.y.units,
        ) + scale_mul_wide(self.data[0][2].units, rhs.z.units);
        let y: i128 = scale_mul_wide(self.data[1][0].units, rhs.x.units) + scale_mul_wide(
            self.data[1][1].units,
            rhs.y.units,
        ) + scale_mul_wide(self.data[1][2].units, rhs.z.units);
        let z: i128 = scale_mul_wide(self.data[2][0].units, rhs.x.units) + scale_mul_wide(
            self.data[2][1].units,
            rhs.y.units,
        ) + scale_mul_wide(self.data[2][2].units, rhs.z.units);
        Vector::new(
            Scalar { units: x as i64 },
            Scalar { units: y as i64 },
            Scalar { units: z as i64 },
        )
    }

    /// Apply to a point: the full affine transform, translation included;
    /// the result is a generic tuple whose `w` comes from the last row.
    pub fn mul_point(self, rhs: Point) -> (t: Tuple)
        requires
            fits_i64(apply_point_units(self, rhs, 0)),
            fits_i64(apply_point_units(self, rhs, 1)),
            fits_i64(apply_point_units(self, rhs, 2)),
            fits_i64(apply_point_units(self, rhs, 3)),
        ensures
            t.x@ == apply_point_units(self, rhs, 0),
            t.y@ == apply_point_units(self, rhs, 1),
            t.z@ == apply_point_units(self, rhs, 2),
            t.w@ == apply_point_units(self, rhs, 3),
    {
        let x = self.point_row(&rhs, 0);
        let y = self.point_row(&rhs, 1);
        let z = self.point_row(&rhs, 2);
        let w = self.point_row(&rhs, 3);
        Tuple { x, y, z, w }
    }

    /// One row of the affine product with a point.
    fn point_row(&self, rhs: &Point, i: usize) -> (v: Scalar)
        requires
            i < 4,
            fits_i64(apply_point_units(*self, *rhs, i as int)),
        ensures
            v@ == apply_point_units(*self, *rhs, i as int),
    {
        let s: i128 = scale_mul_wide(self.data[i][0].units, rhs.x.units) + scale_mul_wide(
            self.data[i][1].units,
            rhs.y.units,
        ) + scale_mul_wide(self.data[i][2].units, rhs.z.units) + self.data[i][3].units as i128;
        Scalar { units: s as i64 }
    }

    /// Apply to a generic tuple: the full homogeneous product.
    pub fn mul_tuple(self, rhs: Tuple) -> (t: Tuple)
        requires
            fits_i64(apply_tuple_units(self, rhs, 0)),
            fits_i64(apply_tuple_units(self, rhs, 1)),
            fits_i64(apply_tuple_units(self, rhs, 2)),
            fits_i64(apply_tuple_units(self, rhs, 3)),
        ensures
            t.x@ == apply_tuple_units(self, rhs, 0),
            t.y@ == apply_tuple_units(self, rhs, 1),
            t.z@ == apply_tuple_units(self, rhs, 2),
            t.w@ == apply_tuple_units(self, rhs, 3),
    {
        let x = self.tuple_row(&rhs, 0);
        let y = self.tuple_row(&rhs, 1);
        let z = self.tuple_row(&rhs, 2);
        let w = self.tuple_row(&rhs, 3);
        Tuple { x, y, z, w }
    }

    /// One row of the homogeneous product with a tuple.
    fn tuple_row(&self, rhs: &Tuple, i: usize) -> (v: Scalar)
        requires
            i < 4,
            fits_i64(apply_tuple_units(*self, *rhs, i as int)),
        ensures
            v@ == apply_tuple_units(*self, *rhs, i as int),
    {
        let s: i128 = scale_mul_wide(self.data[i][0].units, rhs.x.units) + scale_mul_wide(
            self.data[i][1].units,
            rhs.y.units,
        ) + scale_mul_wide(self.data[i][2].units, rhs.z.units) + scale_mul_wide(
            self.data[i][3].units,
            rhs.w.units,
        );
        Scalar { units: s as i64 }
    }
}

/// One entry of the rounded matrix product.
fn mul_entry(a: &Matrix, b: &Matrix, i: usize, j: usize) -> (e: Scalar)
    requires
        i < 4,
        j < 4,
        fits_i64(product_units(*a, *b, i as int, j as int)),
    ensures
        e@ == product_units(*a, *b, i as int, j as int),
{
    let s: i128 = scale_mul_wide(a.data[i][0].units, b.data[0][j].units) + scale_mul_wide(
        a.data[i][1].units,
        b.data[1][j].units,
    ) + scale_mul_wide(a.data[i][2].units, b.data[2][j].units) + scale_mul_wide(
        a.data[i][3].units,
        b.data[3][j].units,
    );
    Scalar { units: s as i64 }
}

/// `m` translates by `(tx, ty, tz)` and does nothing else: an identity
/// linear block with a translation column.
pub open spec fn is_translation(m: Matrix, tx: int, ty: int, tz: int) -> bool {
    m.at(0, 0) == SCALE && m.at(0, 1) == 0 && m.at(0, 2) == 0 && m.at(0, 3) == tx && m.at(1, 0)
        == 0 && m.at(1, 1) == SCALE && m.at(1, 2) == 0 && m.at(1, 3) == ty && m.at(2, 0) == 0
        && m.at(2, 1) == 0 && m.at(2, 2) == SCALE && m.at(2, 3) == tz && m.at(3, 0) == 0 && m.at(
        3,
        1,
    ) == 0 && m.at(3, 2) == 0 && m.at(3, 3) == SCALE
}

/// Multiplying by the identity changes nothing, exactly: every entry of
/// `a * identity` equals the entry of `a`, so the product is also
/// approximately `a`.
pub proof fn lemma_mul_identity(a: Matrix, ident: Matrix)
    requires
        forall|i: int, j: int|
            0 <= i < 4 && 0 <= j < 4 ==> #[trigger] ident.at(i, j) == if i == j {
                SCALE as int
            } else {
                0
            },
    ensures
        forall|i: int, j: int|
            0 <= i < 4 && 0 <= j < 4 ==> #[trigger] product_units(a, ident, i, j) == a.at(i, j),
        forall|i: int, j: int|
            0 <= i < 4 && 0 <= j < 4 ==> near(#[trigger] product_units(a, ident, i, j), a.at(i, j)),
{
    assert forall|i: int, j: int|
        0 <= i < 4 && 0 <= j < 4 implies #[trigger] product_units(a, ident, i, j) == a.at(
        i,
        j,
    ) by {
        lemma_scale_mul_one(a.at(i, 0));
        lemma_scale_mul_one(a.at(i, 1));
        lemma_scale_mul_one(a.at(i, 2));
        lemma_scale_mul_one(a.at(i, 3));
        lemma_scale_mul_zero(a.at(i, 0));
        lemma_scale_mul_zero(a.at(i, 1));
        lemma_scale_mul_zero(a.at(i, 2));
        lemma_scale_mul_zero(a.at(i, 3));
    }
}

/// A translation-only matrix leaves every vector unchanged, exactly: the
/// product sees only the identity linear block, never the translation
/// column.
pub proof fn lemma_translation_fixes_vectors(t: Matrix, tx: int, ty: int, tz: int, v: Vector)
    requires
        is_translation(t, tx, ty, tz),
    ensures
        apply_vector_units(t, v, 0) == v.x@,
        apply_vector_units(t, v, 1) == v.y@,
        apply_vector_units(t, v, 2) == v.z@,
        near(apply_vector_units(t, v, 0), v.x@),
        near(apply_vector_units(t, v, 1), v.y@),
        near(apply_vector_units(t, v, 2), v.z@),
{
    lemma_scale_mul_one(v.x@);
    lemma_scale_mul_one(v.y@);
    lemma_scale_mul_one(v.z@);
    lemma_scale_mul_zero(v.x@);
    lemma_scale_mul_zero(v.y@);
    lemma_scale_mul_zero(v.z@);
}

/// The same matrix does move points: it adds its translation column
/// exactly, so whenever a translation offset exceeds the tolerance the
/// transformed point differs from the original.
pub proof fn lemma_translation_moves_points(t: Matrix, tx: int, ty: int, tz: int, p: Point)
    requires
        is_translation(t, tx, ty, tz),
    ensures
        apply_point_units(t, p, 0) == p.x@ + tx,
        apply_point_units(t, p, 1) == p.y@ + ty,
        apply_point_units(t, p, 2) == p.z@ + tz,
        apply_point_units(t, p, 3) == SCALE,
        !near(tx, 0) ==> !near(apply_point_units(t, p, 0), p.x@),
        !near(ty, 0) ==> !near(apply_point_units(t, p, 1), p.y@),
        !near(tz, 0) ==> !near(apply_point_units(t, p, 2), p.z@),
{
    lemma_scale_mul_one(p.x@);
    lemma_scale_mul_one(p.y@);
    lemma_scale_mul_one(p.z@);
    lemma_scale_mul_zero(p.x@);
    lemma_scale_mul_zero(p.y@);
    lemma_scale_mul_zero(p.z@);
}

/// A rounded four-term dot product lies within two units of the exact one,
/// scaled: each of the four roundings moves the sum by at most half a unit.
proof fn lemma_dot4_err(p0: int, p1: int, p2: int, p3: int, q0: int, q1: int, q2: int, q3: int, d: int)
    requires
        d == scale_mul(p0, q0) + scale_mul(p1, q1) + scale_mul(p2, q2) + scale_mul(p3, q3),
    ensures
        -200_000_000 <= d * (SCALE as int) - (p0 * q0 + p1 * q1 + p2 * q2 + p3 * q3)
            <= 200_000_000,
{
    let big = SCALE as int;
    lemma_scale_mul_err(p0, q0);
    lemma_scale_mul_err(p1, q1);
    lemma_scale_mul_err(p2, q2);
    lemma_scale_mul_err(p3, q3);
    assert(d * big == scale_mul(p0, q0) * big + scale_mul(p1, q1) * big + scale_mul(p2, q2) * big
        + scale_mul(p3, q3) * big) by (nonlinear_arith)
        requires
            d == scale_mul(p0, q0) + scale_mul(p1, q1) + scale_mul(p2, q2) + scale_mul(p3, q3),
    ;
}

/// Matrix multiplication is associative up to the tolerance: with
/// `ab = a * b`, `bc = b * c`, the entries of `ab * c` and of `a * bc` are
/// near one another, provided the entries of `a` and of `c` are bounded by
/// 2 in absolute value.  For far larger entries the accumulated rounding
/// can exceed the tolerance.
pub proof fn lemma_mul_associative(a: Matrix, b: Matrix, c: Matrix, ab: Matrix, bc: Matrix)
    requires
        forall|i: int, j: int|
            0 <= i < 4 && 0 <= j < 4 ==> #[trigger] ab.at(i, j) == product_units(a, b, i, j),
        forall|i: int, j: int|
            0 <= i < 4 && 0 <= j < 4 ==> #[trigger] bc.at(i, j) == product_units(b, c, i, j),
        forall|i: int, j: int|
            0 <= i < 4 && 0 <= j < 4 ==> -2 * (SCALE as int) <= #[trigger] a.at(i, j) <= 2 * (
            SCALE as int),
        forall|i: int, j: int|
            0 <= i < 4 && 0 <= j < 4 ==> -2 * (SCALE as int) <= #[trigger] c.at(i, j) <= 2 * (
            SCALE as int),
    ensures
        forall|i: int, j: int|
            0 <= i < 4 && 0 <= j < 4 ==> near(
                #[trigger] product_units(ab, c, i, j),
                #[trigger] product_units(a, bc, i, j),
            ),
{
    assert forall|i: int, j: int| 0 <= i < 4 && 0 <= j < 4 implies near(
        #[trigger] product_units(ab, c, i, j),
        #[trigger] product_units(a, bc, i, j),
    ) by {
        lemma_assoc_entry(a, b, c, ab, bc, i, j);
    }
}

/// One entry of the associativity law.
proof fn lemma_assoc_entry(a: Matrix, b: Matrix, c: Matrix, ab: Matrix, bc: Matrix, i: int, j: int)
    requires
        0 <= i < 4,
        0 <= j < 4,
        forall|l: int| 0 <= l < 4 ==> #[trigger] ab.at(i, l) == product_units(a, b, i, l),
        forall|k: int| 0 <= k < 4 ==> #[trigger] bc.at(k, j) == product_units(b, c, k, j),
        forall|k: int| 0 <= k < 4 ==> -2 * (SCALE as int) <= #[trigger] a.at(i, k) <= 2 * (
        SCALE as int),
        forall|l: int| 0 <= l < 4 ==> -2 * (SCALE as int) <= #[trigger] c.at(l, j) <= 2 * (
        SCALE as int),
    ensures
        near(product_units(ab, c, i, j), product_units(a, bc, i, j)),
{
    let big = SCALE as int;
    let a0 = a.at(i, 0);
    let a1 = a.at(i, 1);
    let a2 = a.at(i, 2);
    let a3 = a.at(i, 3);
    let c0 = c.at(0, j);
    let c1 = c.at(1, j);
    let c2 = c.at(2, j);
    let c3 = c.at(3, j);
    let d0 = ab.at(i, 0);
    let d1 = ab.at(i, 1);
    let d2 = ab.at(i, 2);
    let d3 = ab.at(i, 3);
    let e0 = bc.at(0, j);
    let e1 = bc.at(1, j);
    let e2 = bc.at(2, j);
    let e3 = bc.at(3, j);
    let g = product_units(ab, c, i, j);
    let h = product_units(a, bc, i, j);
    // The exact triple products that both groupings approximate.
    let t0 = a0 * b.at(0, 0) + a1 * b.at(1, 0) + a2 * b.at(2, 0) + a3 * b.at(3, 0);
    let t1 = a0 * b.at(0, 1) + a1 * b.at(1, 1) + a2 * b.at(2, 1) + a3 * b.at(3, 1);
    let t2 = a0 * b.at(0, 2) + a1 * b.at(1, 2) + a2 * b.at(2, 2) + a3 * b.at(3, 2);
    let t3 = a0 * b.at(0, 3) + a1 * b.at(1, 3) + a2 * b.at(2, 3) + a3 * b.at(3, 3);
    let u0 = b.at(0, 0) * c0 + b.at(0, 1) * c1 + b.at(0, 2) * c2 + b.at(0, 3) * c3;
    let u1 = b.at(1, 0) * c0 + b.at(1, 1) * c1 + b.at(1, 2) * c2 + b.at(1, 3) * c3;
    let u2 = b.at(2, 0) * c0 + b.at(2, 1) * c1 + b.at(2, 2) * c2 + b.at(2, 3) * c3;
    let u3 = b.at(3, 0) * c0 + b.at(3, 1) * c1 + b.at(3, 2) * c2 + b.at(3, 3) * c3;
    lemma_dot4_err(a0, a1, a2, a3, b.at(0, 0), b.at(1, 0), b.at(2, 0), b.at(3, 0), d0);
    lemma_dot4_err(a0, a1, a2, a3, b.at(0, 1), b.at(1, 1), b.at(2, 1), b.at(3, 1), d1);
    lemma_dot4_err(a0, a1, a2, a3, b.at(0, 2), b.at(1, 2), b.at(2, 2), b.at(3, 2), d2);
    lemma_dot4_err(a0, a1, a2, a3, b.at(0, 3), b.at(1, 3), b.at(2, 3), b.at(3, 3), d3);
    lemma_dot4_err(b.at(0, 0), b.at(0, 1), b.at(0, 2), b.at(0, 3), c0, c1, c2, c3, e0);
    lemma_dot4_err(b.at(1, 0), b.at(1, 1), b.at(1, 2), b.at(1, 3), c0, c1, c2, c3, e1);
    lemma_dot4_err(b.at(2, 0), b.at(2, 1), b.at(2, 2), b.at(2, 3), c0, c1, c2, c3, e2);
    lemma_dot4_err(b.at(3, 0), b.at(3, 1), b.at(3, 2), b.at(3, 3), c0, c1, c2, c3, e3);
    lemma_dot4_err(d0, d1, d2, d3, c0, c1, c2, c3, g);
    lemma_dot4_err(a0, a1, a2, a3, e0, e1, e2, e3, h);
    let ed0 = d0 * big - t0;
    let ed1 = d1 * big - t1;
    let ed2 = d2 * big - t2;
    let ed3 = d3 * big - t3;
    let ee0 = e0 * big - u0;
    let ee1 = e1 * big - u1;
    let ee2 = e2 * big - u2;
    let ee3 = e3 * big - u3;
    let eg = g * big - (d0 * c0 + d1 * c1 + d2 * c2 + d3 * c3);
    let eh = h * big - (a0 * e0 + a1 * e1 + a2 * e2 + a3 * e3);
    // Scale the outer rounding error by one more factor of SCALE.
    let sdc = d0 * c0 + d1 * c1 + d2 * c2 + d3 * c3;
    let sae = a0 * e0 + a1 * e1 + a2 * e2 + a3 * e3;
    assert(g * big * big == sdc * big + eg * big) by (nonlinear_arith)
        requires
            g * big == sdc + eg,
    ;
    assert(sdc * big == (d0 * c0) * big + (d1 * c1) * big + (d2 * c2) * big + (d3 * c3) * big)
        by (nonlinear_arith)
        requires
            sdc == d0 * c0 + d1 * c1 + d2 * c2 + d3 * c3,
    ;
    assert((d0 * c0) * big == (d0 * big) * c0) by (nonlinear_arith);
    assert((d1 * c1) * big == (d1 * big) * c1) by (nonlinear_arith);
    assert((d2 * c2) * big == (d2 * big) * c2) by (nonlinear_arith);
    assert((d3 * c3) * big == (d3 * big) * c3) by (nonlinear_arith);
    assert(sdc * big == (d0 * big) * c0 + (d1 * big) * c1 + (d2 * big) * c2 + (d3 * big) * c3);
    assert(h * big * big == sae * big + eh * big) by (nonlinear_arith)
        requires
            h * big == sae + eh,
    ;
    assert(sae * big == (a0 * e0) * big + (a1 * e1) * big + (a2 * e2) * big + (a3 * e3) * big)
        by (nonlinear_arith)
        requires
            sae == a0 * e0 + a1 * e1 + a2 * e2 + a3 * e3,
    ;
    assert((a0 * e0) * big == a0 * (e0 * big)) by (nonlinear_arith);
    assert((a1 * e1) * big == a1 * (e1 * big)) by (nonlinear_arith);
    assert((a2 * e2) * big == a2 * (e2 * big)) by (nonlinear_arith);
    assert((a3 * e3) * big == a3 * (e3 * big)) by (nonlinear_arith);
    assert(sae * big == a0 * (e0 * big) + a1 * (e1 * big) + a2 * (e2 * big) + a3 * (e3 * big));
    // Swap in the exact rows and columns, each with its rounding residue.
    assert((d0 * big) * c0 == t0 * c0 + ed0 * c0) by (nonlinear_arith)
        requires
            ed0 == d0 * big - t0,
    ;
    assert((d1 * big) * c1 == t1 * c1 + ed1 * c1) by (nonlinear_arith)
        requires
            ed1 == d1 * big - t1,
    ;
    assert((d2 * big) * c2 == t2 * c2 + ed2 * c2) by (nonlinear_arith)
        requires
            ed2 == d2 * big - t2,
    ;
    assert((d3 * big) * c3 == t3 * c3 + ed3 * c3) by (nonlinear_arith)
        requires
            ed3 == d3 * big - t3,
    ;
    assert(a0 * (e0 * big) == a0 * u0 + a0 * ee0) by (nonlinear_arith)
        requires
            ee0 == e0 * big - u0,
    ;
    assert(a1 * (e1 * big) == a1 * u1 + a1 * ee1) by (nonlinear_arith)
        requires
            ee1 == e1 * big - u1,
    ;
    assert(a2 * (e2 * big) == a2 * u2 + a2 * ee2) by (nonlinear_arith)
        requires
            ee2 == e2 * big - u2,
    ;
    assert(a3 * (e3 * big) == a3 * u3 + a3 * ee3) by (nonlinear_arith)
        requires
            ee3 == e3 * big - u3,
    ;
    // Both groupings share the same exact triple sum: distribute each side
    // into its sixteen monomials and reassociate them one by one.
    assert(t0 * c0 == (a0 * b.at(0, 0)) * c0 + (a1 * b.at(1, 0)) * c0 + (a2 * b.at(2, 0))
        * c0 + (a3 * b.at(3, 0)) * c0) by (nonlinear_arith)
        requires
            t0 == a0 * b.at(0, 0) + a1 * b.at(1, 0) + a2 * b.at(2, 0) + a3 * b.at(3, 0),
    ;
    assert(t1 * c1 == (a0 * b.at(0, 1)) * c1 + (a1 * b.at(1, 1)) * c1 + (a2 * b.at(2, 1))
        * c1 + (a3 * b.at(3, 1)) * c1) by (nonlinear_arith)
        requires
            t1 == a0 * b.at(0, 1) + a1 * b.at(1, 1) + a2 * b.at(2, 1) + a3 * b.at(3, 1),
    ;
    assert(t2 * c2 == (a0 * b.at(0, 2)) * c2 + (a1 * b.at(1, 2)) * c2 + (a2 * b.at(2, 2))
        * c2 + (a3 * b.at(3, 2)) * c2) by (nonlinear_arith)
        requires
            t2 == a0 * b.at(0, 2) + a1 * b.at(1, 2) + a2 * b.at(2, 2) + a3 * b.at(3, 2),
    ;
    assert(t3 * c3 == (a0 * b.at(0, 3)) * c3 + (a1 * b.at(1, 3)) * c3 + (a2 * b.at(2, 3))
        * c3 + (a3 * b.at(3, 3)) * c3) by (nonlinear_arith)
        requires
            t3 == a0 * b.at(0, 3) + a1 * b.at(1, 3) + a2 * b.at(2, 3) + a3 * b.at(3, 3),
    ;
    assert(a0 * u0 == a0 * (b.at(0, 0) * c0) + a0 * (b.at(0, 1) * c1) + a0 * (b.at(0, 2)
        * c2) + a0 * (b.at(0, 3) * c3)) by (nonlinear_arith)
        requires
            u0 == b.at(0, 0) * c0 + b.at(0, 1) * c1 + b.at(0, 2) * c2 + b.at(0, 3) * c3,
    ;
    assert(a1 * u1 == a1 * (b.at(1, 0) * c0) + a1 * (b.at(1, 1) * c1) + a1 * (b.at(1, 2)
        * c2) + a1 * (b.at(1, 3) * c3)) by (nonlinear_arith)
        requires
            u1 == b.at(1, 0) * c0 + b.at(1, 1) * c1 + b.at(1, 2) * c2 + b.at(1, 3) * c3,
    ;
    assert(a2 * u2 == a2 * (b.at(2, 0) * c0) + a2 * (b.at(2, 1) * c1) + a2 * (b.at(2, 2)
        * c2) + a2 * (b.at(2, 3) * c3)) by (nonlinear_arith)
        requires
            u2 == b.at(2, 0) * c0 + b.at(2, 1) * c1 + b.at(2, 2) * c2 + b.at(2, 3) * c3,
    ;
    assert(a3 * u3 == a3 * (b.at(3, 0) * c0) + a3 * (b.at(3, 1) * c1) + a3 * (b.at(3, 2)
        * c2) + a3 * (b.at(3, 3) * c3)) by (nonlinear_arith)
        requires
            u3 == b.at(3, 0) * c0 + b.at(3, 1) * c1 + b.at(3, 2) * c2 + b.at(3, 3) * c3,
    ;
    assert((a0 * b.at(0, 0)) * c0 == a0 * (b.at(0, 0) * c0)) by (nonlinear_arith);
    assert((a0 * b.at(0, 1)) * c1 == a0 * (b.at(0, 1) * c1)) by (nonlinear_arith);
    assert((a0 * b.at(0, 2)) * c2 == a0 * (b.at(0, 2) * c2)) by (nonlinear_arith);
    assert((a0 * b.at(0, 3)) * c3 == a0 * (b.at(0, 3) * c3)) by (nonlinear_arith);
    assert((a1 * b.at(1, 0)) * c0 == a1 * (b.at(1, 0) * c0)) by (nonlinear_arith);
    assert((a1 * b.at(1, 1)) * c1 == a1 * (b.at(1, 1) * c1)) by (nonlinear_arith);
    assert((a1 * b.at(1, 2)) * c2 == a1 * (b.at(1, 2) * c2)) by (nonlinear_arith);
    assert((a1 * b.at(1, 3)) * c3 == a1 * (b.at(1, 3) * c3)) by (nonlinear_arith);
    assert((a2 * b.at(2, 0)) * c0 == a2 * (b.at(2, 0) * c0)) by (nonlinear_arith);
    assert((a2 * b.at(2, 1)) * c1 == a2 * (b.at(2, 1) * c1)) by (nonlinear_arith);
    assert((a2 * b.at(2, 2)) * c2 == a2 * (b.at(2, 2) * c2)) by (nonlinear_arith);
    assert((a2 * b.at(2, 3)) * c3 == a2 * (b.at(2, 3) * c3)) by (nonlinear_arith);
    assert((a3 * b.at(3, 0)) * c0 == a3 * (b.at(3, 0) * c0)) by (nonlinear_arith);
    assert((a3 * b.at(3, 1)) * c1 == a3 * (b.at(3, 1) * c1)) by (nonlinear_arith);
    assert((a3 * b.at(3, 2)) * c2 == a3 * (b.at(3, 2) * c2)) by (nonlinear_arith);
    assert((a3 * b.at(3, 3)) * c3 == a3 * (b.at(3, 3) * c3)) by (nonlinear_arith);
    assert(t0 * c0 + t1 * c1 + t2 * c2 + t3 * c3 == a0 * u0 + a1 * u1 + a2 * u2 + a3 * u3);
    // Bound every residue term by its factors.
    assert(-40_000_000_000_000_000 <= ed0 * c0 <= 40_000_000_000_000_000) by (nonlinear_arith)
        requires
            -200_000_000 <= ed0 <= 200_000_000,
            -200_000_000 <= c0 <= 200_000_000,
    ;
    assert(-40_000_000_000_000_000 <= ed1 * c1 <= 40_000_000_000_000_000) by (nonlinear_arith)
        requires
            -200_000_000 <= ed1 <= 200_000_000,
            -200_000_000 <= c1 <= 200_000_000,
    ;
    assert(-40_000_000_000_000_000 <= ed2 * c2 <= 40_000_000_000_000_000) by (nonlinear_arith)
        requires
            -200_000_000 <= ed2 <= 200_000_000,
            -200_000_000 <= c2 <= 200_000_000,
    ;
    assert(-40_000_000_000_000_000 <= ed3 * c3 <= 40_000_000_000_000_000) by (nonlinear_arith)
        requires
            -200_000_000 <= ed3 <= 200_000_000,
            -200_000_000 <= c3 <= 200_000_000,
    ;
    assert(-40_000_000_000_000_000 <= a0 * ee0 <= 40_000_000_000_000_000) by (nonlinear_arith)
        requires
            -200_000_000 <= a0 <= 200_000_000,
            -200_000_000 <= ee0 <= 200_000_000,
    ;
    assert(-40_000_000_000_000_000 <= a1 * ee1 <= 40_000_000_000_000_000) by (nonlinear_arith)
        requires
            -200_000_000 <= a1 <= 200_000_000,
            -200_000_000 <= ee1 <= 200_000_000,
    ;
    assert(-40_000_000_000_000_000 <= a2 * ee2 <= 40_000_000_000_000_000) by (nonlinear_arith)
        requires
            -200_000_000 <= a2 <= 200_000_000,
            -200_000_000 <= ee2 <= 200_000_000,
    ;
    assert(-40_000_000_000_000_000 <= a3 * ee3 <= 40_000_000_000_000_000) by (nonlinear_arith)
        requires
            -200_000_000 <= a3 <= 200_000_000,
            -200_000_000 <= ee3 <= 200_000_000,
    ;
    assert(-20_000_000_000_000_000 <= eg * big <= 20_000_000_000_000_000) by (nonlinear_arith)
        requires
            -200_000_000 <= eg <= 200_000_000,
            big == 100_000_000,
    ;
    assert(-20_000_000_000_000_000 <= eh * big <= 20_000_000_000_000_000) by (nonlinear_arith)
        requires
            -200_000_000 <= eh <= 200_000_000,
            big == 100_000_000,
    ;
    // Each grouping is within 18 units (scaled twice) of the exact sum, so
    // the two are within 36 units of one another.
    assert(-50 <= g - h <= 50) by (nonlinear_arith)
        requires
            g * big * big - h * big * big <= 360_000_000_000_000_000,
            g * big * big - h * big * big >= -360_000_000_000_000_000,
            big == 100_000_000,
    ;
}

impl PartialEq for Matrix {
    /// Approximate equality, entry-wise over all sixteen entries.
    fn eq(&self, other: &Matrix) -> (res: bool) {
        let mut i: usize = 0;
        while i < 4
            invariant
                i <= 4,
                forall|a: int, b: int|
                    0 <= a < i && 0 <= b < 4 ==> near(
                        #[trigger] self.at(a, b),
                        #[trigger] other.at(a, b),
                    ),
            decreases 4 - i,
        {
            let mut j: usize = 0;
            while j < 4
                invariant
                    i < 4,
                    j <= 4,
                    forall|a: int, b: int|
                        0 <= a < i && 0 <= b < 4 ==> near(
                            #[trigger] self.at(a, b),
                            #[trigger] other.at(a, b),
                        ),
                    forall|b: int|
                        0 <= b < j ==> near(
                            #[trigger] self.at(i as int, b),
                            #[trigger] other.at(i as int, b),
                        ),
                decreases 4 - j,
            {
                if !self.data[i][j].approx_eq(other.data[i][j]) {
                    proof {
                        assert(!near(self.at(i as int, j as int), other.at(i as int, j as int)));
                    }
                    return false;
                }
                j += 1;
            }
            i += 1;
        }
        true
    }
}

impl vstd::std_specs::cmp::PartialEqSpecImpl for Matrix {
    open spec fn obeys_eq_spec() -> bool {
        true
    }

    open spec fn eq_spec(&self, other: &Matrix) -> bool {
        forall|i: int, j: int|
            0 <= i < 4 && 0 <= j < 4 ==> near(#[trigger] self.at(i, j), #[trigger] other.at(i, j))
    }
}

} // verus!
