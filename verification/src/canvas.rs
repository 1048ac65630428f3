use crate::color::{channel_level, spec_black, spec_level, Color};
use vstd::prelude::*;

verus! {

/// A `width x height` grid of colors, row-major, created all black,
/// mutated pixel by pixel under a permissive bounds policy, and serialized
/// to a plain-text image.  Serializing borrows the canvas, so a canvas
/// stays usable and can be exported again.
#[derive(Debug)]
pub struct Canvas {
    width: usize,
    height: usize,
    pixels: Vec<Color>,
}

/// The decimal digits of a nonnegative number, as ASCII bytes.
pub open spec fn dec_digits(n: int) -> Seq<u8>
    recommends
        n >= 0,
    decreases n,
{
    if n <= 9 {
        seq![(48 + n) as u8]
    } else {
        dec_digits(n / 10).push((48 + n % 10) as u8)
    }
}

/// One serialized pixel: the three channel levels, space-separated, with a
/// trailing newline.
pub open spec fn spec_line(c: Color) -> Seq<u8> {
    dec_digits(spec_level(c.r@)) + seq![32u8] + dec_digits(spec_level(c.g@)) + seq![32u8]
        + dec_digits(spec_level(c.b@)) + seq![10u8]
}

/// The serialized pixel rows: every pixel's line, in row-major order.
pub open spec fn spec_rows(pixels: Seq<Color>) -> Seq<u8>
    decreases pixels.len(),
{
    if pixels.len() == 0 {
        Seq::empty()
    } else {
        spec_rows(pixels.drop_last()) + spec_line(pixels.last())
    }
}

/// The image header: the magic line, the dimensions, and the maximum level.
pub open spec fn spec_header(w: int, h: int) -> Seq<u8> {
    seq![80u8, 51u8, 10u8] + dec_digits(w) + seq![32u8] + dec_digits(h) + seq![
        10u8,
        50u8,
        53u8,
        53u8,
        10u8,
    ]
}

/// The full serialized image of a canvas: header, then every pixel line.
pub open spec fn spec_ppm(c: Canvas) -> Seq<u8> {
    spec_header(c.spec_width(), c.spec_height()) + spec_rows(c.spec_pixels())
}

impl Canvas {
    /// The pixel buffer always holds exactly `width * height` colors.
    #[verifier::type_invariant]
    spec fn wf(self) -> bool {
        self.pixels@.len() == self.width * self.height
    }

    /// The canvas width, in pixels.
    pub closed spec fn spec_width(self) -> int {
        self.width as int
    }

    /// The canvas height, in pixels.
    pub closed spec fn spec_height(self) -> int {
        self.height as int
    }

    /// The stored pixels, row-major, row 0 first.
    pub closed spec fn spec_pixels(self) -> Seq<Color> {
        self.pixels@
    }

    /// A canvas of the given dimensions with every pixel black.
    pub fn new(width: usize, height: usize) -> (c: Canvas)
        requires
            width * height <= usize::MAX,
        ensures
            c.spec_width() == width,
            c.spec_height() == height,
            c.spec_pixels().len() == width * height,
            forall|i: int| 0 <= i < width * height ==> c.spec_pixels()[i] == spec_black(),
    {
        let total: usize = width * height;
        let mut pixels: Vec<Color> = Vec::new();
        let mut i: usize = 0;
        while i < total
            invariant
                i <= total,
                pixels@.len() == i,
                forall|k: int| 0 <= k < i ==> pixels@[k] == spec_black(),
            decreases total - i,
        {
            pixels.push(Color::black());
            i += 1;
        }
        Canvas { width, height, pixels }
    }

    /// The width, in pixels.
    pub fn width(&self) -> (w: usize)
        ensures
            w == self.spec_width(),
    {
        self.width
    }

    /// The height, in pixels.
    pub fn height(&self) -> (h: usize)
        ensures
            h == self.spec_height(),
    {
        self.height
    }

    /// Store a color at `(x, y)` if the coordinates are in bounds; a write
    /// out of bounds alters nothing and does not fail.  The permissive
    /// policy is deliberate: geometry may overshoot the canvas edges.
    pub fn write_pixel(&mut self, x: usize, y: usize, color: Color)
        ensures
            final(self).spec_width() == old(self).spec_width(),
            final(self).spec_height() == old(self).spec_height(),
            x < old(self).spec_width() && y < old(self).spec_height()
                ==> final(self).spec_pixels()
                == old(self).spec_pixels().update(y * old(self).spec_width() + x, color),
            !(x < old(self).spec_width() && y < old(self).spec_height())
                ==> final(self).spec_pixels() == old(self).spec_pixels(),
    {
        proof {
            use_type_invariant(&*self);
        }
        if x < self.width && y < self.height {
            let n: usize = self.pixels.len();
            proof {
                assert(y * self.width + x < n) by (nonlinear_arith)
                    requires
                        x < self.width,
                        y < self.height,
                        n == self.width * self.height,
                ;
            }
            let idx: usize = y * self.width + x;
            self.pixels[idx] = color;
        }
    }

    /// The color stored at `(x, y)`, or black if the coordinates are out of
    /// bounds: the read side of the permissive policy.
    pub fn pixel_at(&self, x: usize, y: usize) -> (c: Color)
        ensures
            x < self.spec_width() && y < self.spec_height() ==> c == self.spec_pixels()[y
                * self.spec_width() + x],
            !(x < self.spec_width() && y < self.spec_height()) ==> c == spec_black(),
    {
        proof {
            use_type_invariant(&*self);
        }
        if x < self.width && y < self.height {
            let n: usize = self.pixels.len();
            proof {
                assert(y * self.width + x < n) by (nonlinear_arith)
                    requires
                        x < self.width,
                        y < self.height,
                        n == self.width * self.height,
                ;
            }
            let idx: usize = y * self.width + x;
            self.pixels[idx]
        } else {
            Color::black()
        }
    }

    /// Serialize to the plain-text image format: the header
    /// `P3 / width height / 255`, then one line of three clamped, quantized
    /// channel levels per pixel, row-major, row 0 first.
    pub fn to_ppm(&self) -> (out: Vec<u8>)
        ensures
            out@ == spec_ppm(*self),
    {
        proof {
            use_type_invariant(&*self);
        }
        let mut out: Vec<u8> = Vec::new();
        out.push(80u8);
        out.push(51u8);
        out.push(10u8);
        push_decimal(&mut out, self.width as u64);
        out.push(32u8);
        push_decimal(&mut out, self.height as u64);
        out.push(10u8);
        out.push(50u8);
        out.push(53u8);
        out.push(53u8);
        out.push(10u8);
        proof {
            assert(out@ =~= spec_header(self.spec_width(), self.spec_height()));
            assert(self.spec_pixels().take(0) =~= Seq::<Color>::empty());
        }
        let mut i: usize = 0;
        while i < self.pixels.len()
            invariant
                i <= self.pixels@.len(),
                self.pixels@.len() == self.spec_pixels().len(),
                out@ == spec_header(self.spec_width(), self.spec_height()) + spec_rows(
                    self.spec_pixels().take(i as int),
                ),
            decreases self.pixels@.len() - i,
        {
            let c: Color = self.pixels[i];
            push_line(&mut out, c);
            proof {
                let taken = self.spec_pixels().take(i + 1);
                assert(taken.drop_last() =~= self.spec_pixels().take(i as int));
                assert(taken.last() == c);
                assert(out@ =~= spec_header(self.spec_width(), self.spec_height()) + spec_rows(
                    taken,
                ));
            }
            i += 1;
        }
        proof {
            assert(self.spec_pixels().take(self.spec_pixels().len() as int) =~= self.spec_pixels());
        }
        out
    }
}

/// Append the decimal digits of `n`.
fn push_decimal(out: &mut Vec<u8>, n: u64)
    ensures
        final(out)@ == old(out)@ + dec_digits(n as int),
    decreases n,
{
    if n <= 9 {
        out.push(48 + n as u8);
    } else {
        let snapshot = Ghost(out@);
        push_decimal(out, n / 10);
        out.push(48 + (n % 10) as u8);
        proof {
            assert(out@ =~= snapshot@ + dec_digits(n as int));
        }
    }
}

/// Append one pixel's serialized line.
fn push_line(out: &mut Vec<u8>, c: Color)
    ensures
        final(out)@ == old(out)@ + spec_line(c),
{
    push_decimal(out, channel_level(c.r) as u64);
    out.push(32u8);
    push_decimal(out, channel_level(c.g) as u64);
    out.push(32u8);
    push_decimal(out, channel_level(c.b) as u64);
    out.push(10u8);
    proof {
        assert(out@ =~= old(out)@ + spec_line(c));
    }
}

} // verus!
