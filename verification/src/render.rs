//! The picture: how its pixels lie in the output buffer, how a channel
//! becomes a byte, and the seed of each row.

use vstd::prelude::*;
use vstd::arithmetic::div_mod::{
    lemma_basic_div, lemma_div_by_multiple, lemma_div_denominator,
    lemma_div_is_ordered_by_denominator,
};
use vstd::arithmetic::power2::{
    lemma2_to64, lemma_pow2_adds, lemma_pow2_pos, lemma_pow2_strictly_increases, pow2,
};
use vstd::bits::lemma_u32_shr_is_div;
use crate::scalar::{Scalar, SIGN_BIT};

verus! {

/// Bytes per pixel: red, green, blue.
pub const COLOR_DEPTH: usize = 3;

/// Camera rays per pixel.
pub const SAMPLE_COUNT: u32 = 10;

/// The pattern of 255.99, by which a channel is multiplied before it is cut
/// down to a byte.
pub const SCALE_BITS: u32 = 0x437f_fd71;

/// The size of a picture. Its buffer holds the rows from the top one down,
/// each row from left to right, three bytes to a pixel. Pixel rows are
/// counted from the bottom, as the camera counts them.
#[derive(Clone, Copy, Debug)]
pub struct Film {
    width: usize,
    height: usize,
}

/// The byte that a scaled channel becomes: the whole part of the number,
/// held to the range of a byte. A NaN becomes 0.
///
/// A number of `v` units of 2^-149 has the whole part `v / 2^149`.
pub open spec fn quantize_spec(scaled: Scalar) -> int {
    if scaled.nan() || scaled.value() < 0 {
        0
    } else if scaled.value() / (pow2(149) as int) >= 255 {
        255
    } else {
        scaled.value() / (pow2(149) as int)
    }
}

/// The whole part of a number that is not below zero is its digits without
/// those behind the point: shifted right where the exponent field is below
/// 150.
proof fn whole_part(scaled: Scalar)
    requires
        !scaled.sign(),
    ensures
        scaled.exponent() < 127 ==> scaled.value() / (pow2(149) as int) == 0,
        127 <= scaled.exponent() <= 150 ==> scaled.value() / (pow2(149) as int)
            == scaled.significand() / (pow2((150 - scaled.exponent()) as nat) as int),
        135 <= scaled.exponent() ==> scaled.value() / (pow2(149) as int) >= 256,
{
    let e = scaled.exponent();
    let m = scaled.significand();
    let p = pow2(scaled.scale()) as int;
    let unit = pow2(149) as int;
    lemma_pow2_pos(scaled.scale());
    lemma_pow2_pos(149);
    lemma2_to64();
    assert(scaled.value() == m * p);
    assert(0 <= m < 0x100_0000);
    if e == 0 {
        lemma_pow2_strictly_increases(23, 149);
        assert(m * p == m) by (nonlinear_arith)
            requires
                p == 1,
        ;
        lemma_basic_div(m, unit);
    } else if e <= 150 {
        let rest = (150 - e) as nat;
        let q = pow2(rest) as int;
        lemma_pow2_pos(rest);
        lemma_pow2_adds(scaled.scale(), rest);
        assert(unit == p * q);
        assert(0 <= m * p) by (nonlinear_arith)
            requires
                0 <= m,
                0 < p,
        ;
        lemma_div_denominator(m * p, p, q);
        lemma_div_by_multiple(m, p);
        assert((m * p) / unit == m / q);
        if e < 127 {
            if rest > 24 {
                lemma_pow2_strictly_increases(24, rest);
            }
            lemma_basic_div(m, q);
        }
        if e >= 135 {
            if rest < 15 {
                lemma_pow2_strictly_increases(rest, 15);
            }
            assert(q <= 0x8000);
            lemma_div_is_ordered_by_denominator(m, q, 0x8000);
        }
    } else {
        let over = (e - 150) as nat;
        let q = pow2(over) as int;
        lemma_pow2_pos(over);
        lemma_pow2_adds(149, over);
        assert(p == unit * q);
        assert(m * p == (m * q) * unit && m * q >= 0x80_0000) by (nonlinear_arith)
            requires
                p == unit * q,
                m >= 0x80_0000,
                q >= 1,
        ;
        lemma_div_by_multiple(m * q, unit);
    }
}

/// The byte that a scaled channel becomes: the number cut off at the point,
/// not rounded, and held to the range from 0 to 255. A NaN becomes 0.
pub fn quantize(scaled: Scalar) -> (byte: u8)
    ensures
        byte == quantize_spec(scaled),
{
    if scaled.is_nan() {
        return 0;
    }
    if scaled.bits >= SIGN_BIT {
        proof {
            Scalar::rank_orders_as_value(scaled, Scalar { bits: 0 });
            Scalar::zero_is_below_one();
            lemma_pow2_pos(149);
        }
        return 0;
    }
    let exponent: u32 = scaled.bits / 0x80_0000;
    let fraction: u32 = scaled.bits % 0x80_0000;
    proof {
        whole_part(scaled);
    }
    if exponent < 127 {
        0
    } else if exponent >= 135 {
        255
    } else {
        let shift: u32 = 150 - exponent;
        let significand: u32 = 0x80_0000 + fraction;
        let whole: u32 = significand >> shift;
        proof {
            lemma_u32_shr_is_div(significand, shift);
            lemma2_to64();
            let by: nat = pow2(shift as nat);
            assert(by == 0x1_0000 || by == 0x2_0000 || by == 0x4_0000 || by == 0x8_0000 || by
                == 0x10_0000 || by == 0x20_0000 || by == 0x40_0000 || by == 0x80_0000) by {
                assert(shift == 16 || shift == 17 || shift == 18 || shift == 19 || shift == 20
                    || shift == 21 || shift == 22 || shift == 23);
            }
            lemma_div_is_ordered_by_denominator(significand as int, 0x1_0000, by as int);
        }
        whole as u8
    }
}

/// The seed of the random stream of a pixel row: the base seed plus the
/// row's number, wrapping round.
pub open spec fn row_seed_spec(base: u128, row: u64) -> u128 {
    if base + row > u128::MAX {
        (base + row - u128::MAX - 1) as u128
    } else {
        (base + row) as u128
    }
}

/// The seed of the random stream of a pixel row: the base seed plus the
/// row's number, wrapping round. Each row has a stream of its own, and the
/// same base seed gives the same streams.
pub fn row_seed(base: u128, row: u64) -> (seed: u128)
    ensures
        seed == row_seed_spec(base, row),
{
    base.wrapping_add(row as u128)
}

/// Two rows never share a seed.
pub proof fn row_seeds_differ(base: u128, row: u64, other: u64)
    requires
        row != other,
    ensures
        row_seed_spec(base, row) != row_seed_spec(base, other),
{
}

impl Film {
    #[verifier::type_invariant]
    spec fn well_formed(self) -> bool {
        Film::fits(self.width as int, self.height as int)
    }

    /// Whether a picture of this size exists: it has a pixel, and its buffer
    /// has a length.
    pub open spec fn fits(width: int, height: int) -> bool {
        width > 0 && height > 0 && 3 * width * height <= usize::MAX
    }

    /// Where the first byte of pixel (`x`, `y`) lies in the buffer of a
    /// picture of the given size, `y` counted from the bottom row.
    pub open spec fn offset_of(width: int, height: int, x: int, y: int) -> int {
        3 * ((height - 1 - y) * width + x)
    }

    /// The number of pixels in a row.
    pub closed spec fn spec_width(&self) -> usize {
        self.width
    }

    /// The number of rows.
    pub closed spec fn spec_height(&self) -> usize {
        self.height
    }

    /// The film of a picture of the given size, if there is such a picture.
    pub fn new(width: usize, height: usize) -> (film: Option<Film>)
        ensures
            film is Some <==> Film::fits(width as int, height as int),
            film matches Some(f) ==> f.spec_width() == width && f.spec_height() == height,
    {
        if width == 0 || height == 0 {
            return None;
        }
        match width.checked_mul(COLOR_DEPTH) {
            Some(row) => match row.checked_mul(height) {
                Some(_) => {
                    assert(3 * width * height == width * 3 * height) by (nonlinear_arith);
                    Some(Film { width, height })
                },
                None => {
                    assert(3 * width * height == width * 3 * height) by (nonlinear_arith);
                    None
                },
            },
            None => {
                assert(3 * width * height >= 3 * width) by (nonlinear_arith)
                    requires
                        height >= 1,
                        width >= 0,
                ;
                None
            },
        }
    }

    /// The number of pixels in a row.
    #[verifier::when_used_as_spec(spec_width)]
    pub fn width(&self) -> (w: usize)
        ensures
            w == self.spec_width(),
            w > 0,
    {
        proof {
            use_type_invariant(self);
        }
        self.width
    }

    /// The number of rows.
    #[verifier::when_used_as_spec(spec_height)]
    pub fn height(&self) -> (h: usize)
        ensures
            h == self.spec_height(),
            h > 0,
    {
        proof {
            use_type_invariant(self);
        }
        self.height
    }

    /// The number of bytes in a row of the buffer.
    pub fn row_len(&self) -> (n: usize)
        ensures
            n == 3 * self.spec_width(),
    {
        proof {
            use_type_invariant(self);
            assert(3 * self.width * self.height >= 3 * self.width) by (nonlinear_arith)
                requires
                    self.height >= 1,
                    self.width >= 0,
            ;
        }
        COLOR_DEPTH * self.width
    }

    /// The number of bytes in the buffer.
    pub fn buffer_len(&self) -> (n: usize)
        ensures
            n == 3 * self.spec_width() * self.spec_height(),
    {
        proof {
            use_type_invariant(self);
        }
        self.row_len() * self.height
    }

    /// The pixel row that the buffer holds in its row number `chunk`,
    /// counted from the top: the buffer's first row is the picture's top row.
    pub fn row_of_chunk(&self, chunk: usize) -> (y: usize)
        requires
            chunk < self.spec_height(),
        ensures
            y == self.spec_height() - 1 - chunk,
    {
        self.height - 1 - chunk
    }

    /// Where the first byte of pixel (`x`, `y`) lies in the buffer, `y`
    /// counted from the bottom row. The pixel's three bytes lie within the
    /// buffer.
    pub fn offset(&self, x: usize, y: usize) -> (at: usize)
        requires
            x < self.spec_width(),
            y < self.spec_height(),
        ensures
            at == Film::offset_of(
                self.spec_width() as int,
                self.spec_height() as int,
                x as int,
                y as int,
            ),
            at + 3 <= 3 * self.spec_width() * self.spec_height(),
    {
        proof {
            use_type_invariant(self);
            Film::pixel_lies_within(self.width as int, self.height as int, x as int, y as int);
        }
        let row: usize = self.height - 1 - y;
        assert(row * self.width + x < self.width * self.height) by (nonlinear_arith)
            requires
                row < self.height,
                x < self.width,
        ;
        assert(3 * (self.width * self.height) == 3 * self.width * self.height) by (nonlinear_arith);
        COLOR_DEPTH * (row * self.width + x)
    }

    /// The three bytes of a pixel lie within the buffer.
    pub proof fn pixel_lies_within(width: int, height: int, x: int, y: int)
        requires
            0 <= x < width,
            0 <= y < height,
        ensures
            0 <= Film::offset_of(width, height, x, y),
            Film::offset_of(width, height, x, y) + 3 <= 3 * width * height,
    {
        let row = height - 1 - y;
        assert(row * width + x + 1 <= width * height && row * width >= 0) by (nonlinear_arith)
            requires
                0 <= row < height,
                0 <= x < width,
        ;
        assert(3 * (width * height) == 3 * width * height) by (nonlinear_arith);
    }

    /// No two pixels share a byte: the offsets of different pixels are at
    /// least three apart.
    pub proof fn pixels_are_apart(width: int, height: int, x: int, y: int, u: int, v: int)
        requires
            0 <= x < width,
            0 <= y < height,
            0 <= u < width,
            0 <= v < height,
            x != u || y != v,
        ensures
            Film::offset_of(width, height, x, y) + 3 <= Film::offset_of(width, height, u, v)
                || Film::offset_of(width, height, u, v) + 3 <= Film::offset_of(width, height, x, y),
    {
        let a = height - 1 - y;
        let b = height - 1 - v;
        if a < b {
            assert(a * width + x + 1 <= b * width + u) by (nonlinear_arith)
                requires
                    a + 1 <= b,
                    0 <= x < width,
                    0 <= u,
            ;
        } else if b < a {
            assert(b * width + u + 1 <= a * width + x) by (nonlinear_arith)
                requires
                    b + 1 <= a,
                    0 <= u < width,
                    0 <= x,
            ;
        }
    }

    /// Every byte of the buffer is a channel of a pixel: byte `i` is channel
    /// `i % 3` of the pixel in column `(i / 3) % width` of the row that lies
    /// `(i / 3) / width` below the top.
    pub proof fn bytes_are_channels(width: int, height: int, i: int)
        requires
            width > 0,
            height > 0,
            0 <= i < 3 * width * height,
        ensures
            0 <= (i / 3) % width < width,
            0 <= height - 1 - (i / 3) / width < height,
            Film::offset_of(width, height, (i / 3) % width, height - 1 - (i / 3) / width) + i % 3
                == i,
    {
        let p = i / 3;
        assert(3 * (width * height) == 3 * width * height) by (nonlinear_arith);
        assert(p < width * height);
        assert(p == (p / width) * width + p % width && 0 <= p % width < width && 0 <= p / width
            < height) by (nonlinear_arith)
            requires
                0 <= p < width * height,
                width > 0,
                height > 0,
        ;
    }

    /// Row `chunk` of the buffer, counted from the top, holds pixel row
    /// `height - 1 - chunk`: pixel `x` of that row begins `3 * x` bytes
    /// into the chunk.
    pub proof fn rows_are_chunks(width: int, height: int, x: int, chunk: int)
        ensures
            Film::offset_of(width, height, x, height - 1 - chunk) == chunk * (3 * width) + 3 * x,
    {
        assert(3 * (chunk * width + x) == chunk * (3 * width) + 3 * x) by (nonlinear_arith);
    }
}

} // verus!
