//! Single-precision numbers as bit patterns, and their order.

use vstd::prelude::*;
use vstd::arithmetic::power2::{
    lemma2_to64, lemma_pow2_adds, lemma_pow2_pos, lemma_pow2_strictly_increases, lemma_pow2_unfold,
    pow2,
};

verus! {

/// The sign bit of a pattern.
pub const SIGN_BIT: u32 = 0x8000_0000;

/// The pattern of positive infinity. A magnitude above it is not a number.
pub const INFINITY_BITS: u32 = 0x7f80_0000;

/// The pattern of 1.0.
pub const ONE_BITS: u32 = 0x3f80_0000;

/// The pattern of the largest finite number.
pub const MAX_BITS: u32 = 0x7f7f_ffff;

/// An IEEE-754 single-precision number, held by its bit pattern.
///
/// `==` on `Scalar` compares patterns: it tells `0.0` from `-0.0` and finds a
/// NaN equal to itself. The numeric comparisons are [`Scalar::lt`],
/// [`Scalar::gt`], [`Scalar::le`] and [`Scalar::ge`].
#[derive(Clone, Copy, Debug, PartialEq, Eq, Structural)]
pub struct Scalar {
    pub bits: u32,
}

impl Scalar {
    /// The pattern without its sign bit.
    pub open spec fn magnitude(self) -> int {
        if self.bits >= SIGN_BIT {
            self.bits - SIGN_BIT
        } else {
            self.bits as int
        }
    }

    /// Whether the sign bit is set (true of `-0.0` and of some NaNs too).
    pub open spec fn sign(self) -> bool {
        self.bits >= SIGN_BIT
    }

    /// The exponent field of the pattern: its eight bits below the sign bit.
    pub open spec fn exponent(self) -> int {
        self.magnitude() / 0x80_0000
    }

    /// The fraction field of the pattern: its low 23 bits.
    pub open spec fn fraction(self) -> int {
        self.magnitude() % 0x80_0000
    }

    /// Whether the pattern is a NaN: the exponent field is full and the
    /// fraction is not zero.
    pub open spec fn nan(self) -> bool {
        self.exponent() == 0xff && self.fraction() != 0
    }

    /// The digits of the number: the fraction, with a leading one where the
    /// exponent field is not zero.
    pub open spec fn significand(self) -> int {
        if self.exponent() == 0 {
            self.fraction()
        } else {
            0x80_0000 + self.fraction()
        }
    }

    /// The power of two that the digits are multiplied by, counted from the
    /// smallest: exponent fields 0 and 1 share it.
    pub open spec fn scale(self) -> nat {
        if self.exponent() == 0 {
            0
        } else {
            (self.exponent() - 1) as nat
        }
    }

    /// The size of the number without its sign, in units of 2^-149, the
    /// smallest number above zero. An infinity counts as the power of two
    /// beyond the largest finite number.
    pub open spec fn size(self) -> int {
        self.significand() * pow2(self.scale())
    }

    /// The number, in units of 2^-149. It means nothing for a NaN.
    pub open spec fn value(self) -> int {
        if self.sign() {
            -self.size()
        } else {
            self.size()
        }
    }

    /// The pattern as a signed integer: what the comparisons compute with.
    /// It orders the patterns as `value` orders the numbers.
    pub open spec fn rank(self) -> int {
        if self.sign() {
            -self.magnitude()
        } else {
            self.magnitude()
        }
    }

    /// `self < other` as numbers: false as soon as either is a NaN.
    pub open spec fn spec_lt(self, other: Scalar) -> bool {
        !self.nan() && !other.nan() && self.value() < other.value()
    }

    /// `self > other` as numbers.
    pub open spec fn spec_gt(self, other: Scalar) -> bool {
        other.spec_lt(self)
    }

    /// `self <= other` as numbers: false as soon as either is a NaN.
    pub open spec fn spec_le(self, other: Scalar) -> bool {
        !self.nan() && !other.nan() && self.value() <= other.value()
    }

    /// `self >= other` as numbers.
    pub open spec fn spec_ge(self, other: Scalar) -> bool {
        other.spec_le(self)
    }

    /// Whether two patterns are the same number: neither is a NaN, and they
    /// have one value. The two zeros are the same number.
    pub open spec fn same_number(self, other: Scalar) -> bool {
        !self.nan() && !other.nan() && self.value() == other.value()
    }

    /// A pattern with the larger magnitude is the larger in size.
    pub proof fn size_grows_with_magnitude(a: Scalar, b: Scalar)
        requires
            a.magnitude() < b.magnitude(),
        ensures
            0 <= a.size() < b.size(),
    {
        let m = a.significand();
        let n = b.significand();
        let p = pow2(a.scale()) as int;
        let q = pow2(b.scale()) as int;
        lemma_pow2_pos(a.scale());
        lemma_pow2_pos(b.scale());
        assert(a.size() == m * p);
        assert(b.size() == n * q);
        assert(0 <= m < 0x100_0000);
        assert(0 <= n < 0x100_0000);
        assert(0 <= m * p) by (nonlinear_arith)
            requires
                0 <= m,
                0 < p,
        ;
        if a.exponent() == b.exponent() {
            assert(p == q);
            assert(m < n);
            assert(m * p < n * q) by (nonlinear_arith)
                requires
                    m < n,
                    0 < p,
                    p == q,
            ;
        } else {
            assert(a.exponent() < b.exponent());
            assert(0x80_0000 <= n);
            if a.exponent() == 0 {
                assert(p == 1) by {
                    lemma2_to64();
                }
                assert(m < 0x80_0000);
                assert(m * p < n * q) by (nonlinear_arith)
                    requires
                        0 <= m < 0x80_0000,
                        0x80_0000 <= n,
                        p == 1,
                        1 <= q,
                ;
            } else {
                assert(a.scale() + 1 <= b.scale());
                lemma_pow2_unfold((a.scale() + 1) as nat);
                assert(pow2((a.scale() + 1) as nat) == 2 * p);
                if a.scale() + 1 < b.scale() {
                    lemma_pow2_strictly_increases((a.scale() + 1) as nat, b.scale());
                }
                assert(2 * p <= q);
                assert(m * p < n * q) by (nonlinear_arith)
                    requires
                        0 <= m < 0x100_0000,
                        0x80_0000 <= n,
                        0 < p,
                        2 * p <= q,
                ;
            }
        }
    }

    /// Zero has no size.
    proof fn zero_has_no_size(z: Scalar)
        requires
            z.magnitude() == 0,
        ensures
            z.size() == 0,
            z.value() == 0,
    {
        let m = z.significand();
        let p = pow2(z.scale()) as int;
        assert(m == 0);
        assert(m * p == 0) by (nonlinear_arith)
            requires
                m == 0,
        ;
    }

    /// The comparisons of patterns as signed integers are those of the
    /// numbers.
    pub proof fn rank_orders_as_value(a: Scalar, b: Scalar)
        ensures
            a.rank() < b.rank() <==> a.value() < b.value(),
            a.rank() == b.rank() <==> a.value() == b.value(),
            a.rank() == 0 <==> a.value() == 0,
    {
        let zero = Scalar { bits: 0 };
        Scalar::zero_has_no_size(zero);
        if a.magnitude() < b.magnitude() {
            Scalar::size_grows_with_magnitude(a, b);
        }
        if b.magnitude() < a.magnitude() {
            Scalar::size_grows_with_magnitude(b, a);
        }
        if 0 < a.magnitude() {
            Scalar::size_grows_with_magnitude(zero, a);
        }
        if 0 < b.magnitude() {
            Scalar::size_grows_with_magnitude(zero, b);
        }
        if a.magnitude() == b.magnitude() {
            assert(a.size() == b.size());
        }
        if a.magnitude() == 0 {
            Scalar::zero_has_no_size(a);
        }
        if b.magnitude() == 0 {
            Scalar::zero_has_no_size(b);
        }
    }

    /// The numbers are in a strict order, and NaNs stand outside it.
    ///
    /// No number is below itself, and of two numbers exactly one holds: the
    /// first is below the second, they are the same number, or the second is
    /// below the first. What is below a number is below everything above
    /// that number. `<=` is `<` or the same number. A NaN is neither below
    /// nor above nor the same as anything. Two patterns are the same number
    /// only if they are one pattern or the two zeros.
    pub proof fn order_is_strict(a: Scalar, b: Scalar, c: Scalar)
        ensures
            !a.spec_lt(a),
            a.spec_lt(b) ==> !b.spec_lt(a) && !a.same_number(b),
            a.spec_lt(b) && b.spec_lt(c) ==> a.spec_lt(c),
            a.spec_lt(b) && b.spec_le(c) ==> a.spec_lt(c),
            a.spec_le(b) && b.spec_lt(c) ==> a.spec_lt(c),
            !a.nan() && !b.nan() ==> a.spec_lt(b) || a.same_number(b) || b.spec_lt(a),
            a.spec_le(b) <==> a.spec_lt(b) || a.same_number(b),
            a.nan() ==> !a.spec_lt(b) && !b.spec_lt(a) && !a.spec_le(b) && !b.spec_le(a)
                && !a.same_number(b),
            a.same_number(b) && a != b ==> a.value() == 0,
    {
        Scalar::rank_orders_as_value(a, b);
    }

    /// Zero is below one, and both are numbers.
    pub proof fn zero_is_below_one()
        ensures
            Scalar::zero().value() == 0,
            Scalar::one().value() == pow2(149),
            Scalar::zero().spec_lt(Scalar::one()),
            Scalar::zero().is_fraction(),
            Scalar::one().is_fraction(),
    {
        let zero = Scalar { bits: 0 };
        let one = Scalar { bits: ONE_BITS };
        Scalar::zero_has_no_size(zero);
        lemma2_to64();
        lemma_pow2_adds(23, 126);
        lemma_pow2_pos(149);
        assert(one.exponent() == 127);
        assert(one.fraction() == 0);
        assert(one.significand() == pow2(23));
        assert(one.scale() == 126);
        assert(one.size() == pow2(23) * pow2(126));
    }

    /// Whether the number lies from 0 to 1, both included.
    pub open spec fn is_fraction(self) -> bool {
        self.spec_ge(Scalar::zero()) && self.spec_le(Scalar::one())
    }

    /// The number with the given pattern.
    pub fn from_bits(bits: u32) -> (r: Scalar)
        ensures
            r.bits == bits,
    {
        Scalar { bits }
    }

    /// The pattern of the number.
    pub fn to_bits(self) -> (r: u32)
        ensures
            r == self.bits,
    {
        self.bits
    }

    /// 0.0
    pub open spec fn spec_zero() -> Scalar {
        Scalar { bits: 0 }
    }

    /// 1.0
    pub open spec fn spec_one() -> Scalar {
        Scalar { bits: ONE_BITS }
    }

    /// The largest finite number.
    pub open spec fn spec_max() -> Scalar {
        Scalar { bits: MAX_BITS }
    }

    /// 0.0
    #[verifier::when_used_as_spec(spec_zero)]
    pub fn zero() -> (r: Scalar)
        ensures
            r == Scalar::spec_zero(),
    {
        Scalar { bits: 0 }
    }

    /// 1.0
    #[verifier::when_used_as_spec(spec_one)]
    pub fn one() -> (r: Scalar)
        ensures
            r == Scalar::spec_one(),
    {
        Scalar { bits: ONE_BITS }
    }

    /// The largest finite number.
    #[verifier::when_used_as_spec(spec_max)]
    pub fn max() -> (r: Scalar)
        ensures
            r == Scalar::spec_max(),
    {
        Scalar { bits: MAX_BITS }
    }

    /// Whether the number is a NaN.
    pub fn is_nan(self) -> (r: bool)
        ensures
            r == self.nan(),
    {
        self.abs_bits() > INFINITY_BITS
    }

    fn abs_bits(self) -> (m: u32)
        ensures
            m == self.magnitude(),
    {
        if self.bits >= SIGN_BIT {
            self.bits - SIGN_BIT
        } else {
            self.bits
        }
    }

    fn key(self) -> (k: i64)
        ensures
            k == self.rank(),
    {
        let m: u32 = self.abs_bits();
        if self.bits >= SIGN_BIT {
            -(m as i64)
        } else {
            m as i64
        }
    }

    /// `self < other` as numbers.
    #[verifier::when_used_as_spec(spec_lt)]
    pub fn lt(self, other: Scalar) -> (r: bool)
        ensures
            r == self.spec_lt(other),
    {
        proof {
            Scalar::rank_orders_as_value(self, other);
        }
        !self.is_nan() && !other.is_nan() && self.key() < other.key()
    }

    /// `self > other` as numbers.
    #[verifier::when_used_as_spec(spec_gt)]
    pub fn gt(self, other: Scalar) -> (r: bool)
        ensures
            r == self.spec_gt(other),
    {
        other.lt(self)
    }

    /// `self <= other` as numbers.
    #[verifier::when_used_as_spec(spec_le)]
    pub fn le(self, other: Scalar) -> (r: bool)
        ensures
            r == self.spec_le(other),
    {
        proof {
            Scalar::rank_orders_as_value(self, other);
        }
        !self.is_nan() && !other.is_nan() && self.key() <= other.key()
    }

    /// `self >= other` as numbers.
    #[verifier::when_used_as_spec(spec_ge)]
    pub fn ge(self, other: Scalar) -> (r: bool)
        ensures
            r == self.spec_ge(other),
    {
        other.le(self)
    }

    /// Whether the number lies from 0 to 1, both included.
    pub fn in_unit_range(self) -> (r: bool)
        ensures
            r == self.is_fraction(),
    {
        self.ge(Scalar::zero()) && self.le(Scalar::one())
    }
}

} // verus!
