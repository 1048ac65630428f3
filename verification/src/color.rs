use crate::scalar::{
    fits_i64, lemma_rounded_div_err, lemma_scale_then_div_near, near, rounded_div, scale_div,
    scale_mul, div_rounded_i128, Scalar, SCALE,
};
use vstd::prelude::*;

verus! {

/// An RGB triple.  Channels are unbounded during arithmetic (overexposed
/// light may exceed 1 or go negative); they are clamped only when a canvas
/// serializes them.
#[derive(Clone, Copy, Debug)]
pub struct Color {
    pub r: Scalar,
    pub g: Scalar,
    pub b: Scalar,
}

/// The serialized level of one channel: the channel clamped to `[0, 1]`,
/// scaled by 255 and rounded to the nearest integer.
pub open spec fn spec_level(v: int) -> int {
    if v <= 0 {
        0
    } else if v >= SCALE {
        255
    } else {
        rounded_div(255 * v, SCALE as int)
    }
}

/// The serialized level of one channel, an integer in `[0, 255]`.
pub fn channel_level(v: Scalar) -> (level: u8)
    ensures
        level as int == spec_level(v@),
{
    if v.units <= 0 {
        0
    } else if v.units >= SCALE {
        255
    } else {
        let q: i128 = div_rounded_i128(v.units as i128 * 255, SCALE as i128);
        proof {
            lemma_rounded_div_err(v@ * 255, SCALE as int);
            assert(0 <= rounded_div(v@ * 255, SCALE as int) <= 255) by (nonlinear_arith)
                requires
                    -(SCALE as int) / 2 <= rounded_div(v@ * 255, SCALE as int) * (SCALE as int)
                        - v@ * 255 <= (SCALE as int) / 2,
                    0 < v@ < SCALE,
                    SCALE == 100_000_000i64,
            ;
            assert(255 * v@ == v@ * 255);
        }
        q as u8
    }
}

/// Black as a value: the default content of a canvas.
pub open spec fn spec_black() -> Color {
    Color { r: Scalar { units: 0 }, g: Scalar { units: 0 }, b: Scalar { units: 0 } }
}

impl Color {
    /// The color with the given channels.
    pub fn new(r: Scalar, g: Scalar, b: Scalar) -> (c: Color)
        ensures
            c == (Color { r, g, b }),
    {
        Color { r, g, b }
    }

    /// Black: all channels zero.
    pub fn black() -> (c: Color)
        ensures
            c == spec_black(),
            c.r@ == 0 && c.g@ == 0 && c.b@ == 0,
    {
        Color { r: Scalar { units: 0 }, g: Scalar { units: 0 }, b: Scalar { units: 0 } }
    }

    /// White: all channels one.
    pub fn white() -> (c: Color)
        ensures
            c.r@ == SCALE && c.g@ == SCALE && c.b@ == SCALE,
    {
        Color {
            r: Scalar { units: SCALE },
            g: Scalar { units: SCALE },
            b: Scalar { units: SCALE },
        }
    }

    /// Channel-wise sum.
    pub fn add(self, o: Color) -> (c: Color)
        requires
            fits_i64(self.r@ + o.r@),
            fits_i64(self.g@ + o.g@),
            fits_i64(self.b@ + o.b@),
        ensures
            c.r@ == self.r@ + o.r@,
            c.g@ == self.g@ + o.g@,
            c.b@ == self.b@ + o.b@,
    {
        Color { r: self.r.add(o.r), g: self.g.add(o.g), b: self.b.add(o.b) }
    }

    /// Channel-wise difference.
    pub fn sub(self, o: Color) -> (c: Color)
        requires
            fits_i64(self.r@ - o.r@),
            fits_i64(self.g@ - o.g@),
            fits_i64(self.b@ - o.b@),
        ensures
            c.r@ == self.r@ - o.r@,
            c.g@ == self.g@ - o.g@,
            c.b@ == self.b@ - o.b@,
    {
        Color { r: self.r.sub(o.r), g: self.g.sub(o.g), b: self.b.sub(o.b) }
    }

    /// Every channel multiplied by the scalar `s`.
    pub fn scale(self, s: Scalar) -> (c: Color)
        requires
            fits_i64(scale_mul(self.r@, s@)),
            fits_i64(scale_mul(self.g@, s@)),
            fits_i64(scale_mul(self.b@, s@)),
        ensures
            c.r@ == scale_mul(self.r@, s@),
            c.g@ == scale_mul(self.g@, s@),
            c.b@ == scale_mul(self.b@, s@),
    {
        Color { r: self.r.mul(s), g: self.g.mul(s), b: self.b.mul(s) }
    }

    /// Every channel divided by the nonzero scalar `s`.
    pub fn div(self, s: Scalar) -> (c: Color)
        requires
            s@ != 0,
            fits_i64(scale_div(self.r@, s@)),
            fits_i64(scale_div(self.g@, s@)),
            fits_i64(scale_div(self.b@, s@)),
        ensures
            c.r@ == scale_div(self.r@, s@),
            c.g@ == scale_div(self.g@, s@),
            c.b@ == scale_div(self.b@, s@),
    {
        Color { r: self.r.div(s), g: self.g.div(s), b: self.b.div(s) }
    }

    /// The Hadamard (channel-wise) product, the blend of a light color with
    /// a surface color; distinct from any dot product.
    pub fn hadamard(self, o: Color) -> (c: Color)
        requires
            fits_i64(scale_mul(self.r@, o.r@)),
            fits_i64(scale_mul(self.g@, o.g@)),
            fits_i64(scale_mul(self.b@, o.b@)),
        ensures
            c.r@ == scale_mul(self.r@, o.r@),
            c.g@ == scale_mul(self.g@, o.g@),
            c.b@ == scale_mul(self.b@, o.b@),
    {
        Color { r: self.r.mul(o.r), g: self.g.mul(o.g), b: self.b.mul(o.b) }
    }
}

impl PartialEq for Color {
    /// Approximate equality, channel-wise.
    fn eq(&self, other: &Color) -> (res: bool) {
        self.r.approx_eq(other.r) && self.g.approx_eq(other.g) && self.b.approx_eq(other.b)
    }
}

impl vstd::std_specs::cmp::PartialEqSpecImpl for Color {
    open spec fn obeys_eq_spec() -> bool {
        true
    }

    open spec fn eq_spec(&self, other: &Color) -> bool {
        near(self.r@, other.r@) && near(self.g@, other.g@) && near(self.b@, other.b@)
    }
}

/// Adding a color and subtracting it again returns to the start exactly,
/// hence approximately: each channel of `(c1 + c2) - c2` equals the channel
/// of `c1`.
pub proof fn lemma_color_add_sub_round_trip(c1: Color, c2: Color)
    ensures
        (c1.r@ + c2.r@) - c2.r@ == c1.r@,
        (c1.g@ + c2.g@) - c2.g@ == c1.g@,
        (c1.b@ + c2.b@) - c2.b@ == c1.b@,
        near((c1.r@ + c2.r@) - c2.r@, c1.r@),
        near((c1.g@ + c2.g@) - c2.g@, c1.g@),
        near((c1.b@ + c2.b@) - c2.b@, c1.b@),
{
}

/// Scaling a color by `s` and dividing by `s` again lands within the
/// tolerance of the start, provided `|s| >= 1/99`: each channel of
/// `(c * s) / s` is near the channel of `c`.  Below that bound the two
/// roundings can move a channel farther than the tolerance (dividing by
/// `s = 1e-6`, for instance, loses the channel entirely).
pub proof fn lemma_color_scale_div_round_trip(c: Color, s: Scalar)
    requires
        99 * s@ >= SCALE || 99 * s@ <= -(SCALE as int),
    ensures
        near(scale_div(scale_mul(c.r@, s@), s@), c.r@),
        near(scale_div(scale_mul(c.g@, s@), s@), c.g@),
        near(scale_div(scale_mul(c.b@, s@), s@), c.b@),
{
    lemma_scale_then_div_near(c.r@, s@);
    lemma_scale_then_div_near(c.g@, s@);
    lemma_scale_then_div_near(c.b@, s@);
}

} // verus!
