//! IEEE-754 single-precision numbers by their bit patterns.

use vstd::prelude::*;
use vstd::arithmetic::power2::pow2;
use vstd::arithmetic::power2::lemma2_to64;
use vstd::arithmetic::power2::lemma_pow2_pos;
use vstd::arithmetic::power2::lemma_pow2_strictly_increases;
use vstd::arithmetic::power2::lemma_pow2_unfold;
use vstd::arithmetic::power2::lemma_pow2_adds;
use vstd::arithmetic::div_mod::lemma_basic_div;
use vstd::arithmetic::div_mod::lemma_div_by_multiple;
use vstd::arithmetic::div_mod::lemma_div_multiples_vanish_quotient;
use vstd::bits::lemma_u32_shr_is_div;

verus! {

/// Bit of the sign in a binary32 pattern.
pub const SIGN_BIT: u32 = 0x8000_0000;

/// Pattern of positive infinity: every pattern whose lower 31 bits exceed it
/// is a NaN.
pub const INFINITY_BITS: u32 = 0x7F80_0000;

/// The hidden bit of a normal number: 2^23, one above the largest fraction.
pub const HIDDEN_BIT: u32 = 0x80_0000;

/// Exponent field of 1.0.
pub const EXPONENT_BIAS: u32 = 127;

/// A binary32 number, held by its bit pattern.
///
/// Equality of two `Single`s is equality of their patterns. Numeric
/// comparison, in which a NaN is unordered and the two zeros are equal, is
/// [`Single::lt`] and [`Single::gt`].
#[derive(Clone, Copy, Debug, PartialEq, Eq, Structural)]
pub struct Single {
    pub bits: u32,
}

impl Single {
    /// The sign bit is set.
    pub open spec fn negative(self) -> bool {
        self.bits >= SIGN_BIT
    }

    /// The lower 31 bits: exponent and fraction, read as one number. Among
    /// numbers of one sign it grows with the absolute value.
    pub open spec fn magnitude(self) -> int {
        if self.bits >= SIGN_BIT {
            self.bits - SIGN_BIT
        } else {
            self.bits as int
        }
    }

    /// The pattern is a NaN.
    pub open spec fn nan(self) -> bool {
        self.magnitude() > INFINITY_BITS
    }

    /// The same number with the opposite sign.
    pub open spec fn negated(self) -> Single {
        if self.bits >= SIGN_BIT {
            Single { bits: (self.bits - SIGN_BIT) as u32 }
        } else {
            Single { bits: (self.bits + SIGN_BIT) as u32 }
        }
    }

    /// The same number without its sign.
    pub open spec fn absolute(self) -> Single {
        Single { bits: self.magnitude() as u32 }
    }

    /// Positive zero.
    pub open spec fn zero() -> Single {
        Single { bits: 0 }
    }

    /// The number is zero, of either sign.
    pub open spec fn zero_valued(self) -> bool {
        self.magnitude() == 0
    }

    /// The exponent field.
    pub open spec fn exponent(self) -> int {
        self.magnitude() / (HIDDEN_BIT as int)
    }

    /// The fraction field.
    pub open spec fn fraction(self) -> int {
        self.magnitude() % (HIDDEN_BIT as int)
    }

    /// The absolute value of a number that is not NaN, counted in steps of
    /// 2^-149, the smallest positive number. A subnormal number is its
    /// fraction; a normal number is `(2^23 + fraction) * 2^(exponent - 1)`.
    /// An infinity counts as 2^128.
    pub open spec fn steps(self) -> int {
        if self.exponent() == 0 {
            self.fraction()
        } else {
            (HIDDEN_BIT + self.fraction()) * pow2((self.exponent() - 1) as nat)
        }
    }

    /// The number itself, if it is not NaN, counted in steps of 2^-149.
    pub open spec fn value_in_steps(self) -> int {
        if self.negative() {
            -self.steps()
        } else {
            self.steps()
        }
    }

    /// Numeric `<`: false as soon as one side is a NaN, and else the order of
    /// the two values. The two zeros are equal.
    pub open spec fn less(self, other: Single) -> bool {
        !self.nan() && !other.nan() && self.value_in_steps() < other.value_in_steps()
    }

    /// Position among the patterns that are not NaN: the magnitude, counted
    /// downwards from zero for negative numbers.
    spec fn rank(self) -> int {
        if self.negative() {
            -self.magnitude()
        } else {
            self.magnitude()
        }
    }

    /// The absolute value of a number that is not NaN, with what follows the
    /// point cut off: the steps of 2^-149 that the number counts, divided by
    /// the 2^149 steps that make 1.
    pub open spec fn whole_part(self) -> int {
        self.steps() / (pow2(149) as int)
    }

    /// The whole part, read off the two fields. A number below 1.0 has none;
    /// the significand of any other is moved by the exponent.
    spec fn shifted(self) -> int {
        if self.exponent() < EXPONENT_BIAS {
            0
        } else if self.exponent() >= EXPONENT_BIAS + 23 {
            (HIDDEN_BIT + self.fraction()) * pow2((self.exponent() - (EXPONENT_BIAS + 23)) as nat)
        } else {
            (HIDDEN_BIT + self.fraction()) / (pow2(
                ((EXPONENT_BIAS + 23) - self.exponent()) as nat,
            ) as int)
        }
    }

    /// The number as a 16-bit integer: rounded towards zero, held at the
    /// nearest end of the range where it lies outside, and 0 for a NaN.
    pub open spec fn truncated(self) -> i16 {
        if self.nan() {
            0i16
        } else if self.negative() {
            if self.whole_part() >= 32768 {
                i16::MIN
            } else {
                (-self.whole_part()) as i16
            }
        } else {
            if self.whole_part() >= 32767 {
                i16::MAX
            } else {
                self.whole_part() as i16
            }
        }
    }

    pub fn from_bits(bits: u32) -> (s: Single)
        ensures
            s.bits == bits,
    {
        Single { bits }
    }

    pub fn to_bits(self) -> (bits: u32)
        ensures
            bits == self.bits,
    {
        self.bits
    }

    pub fn is_nan(self) -> (r: bool)
        ensures
            r == self.nan(),
    {
        let magnitude: u32 = if self.bits >= SIGN_BIT {
            self.bits - SIGN_BIT
        } else {
            self.bits
        };
        magnitude > INFINITY_BITS
    }

    /// Numeric `self < other`.
    pub fn lt(self, other: Single) -> (r: bool)
        ensures
            r == self.less(other),
    {
        if self.is_nan() || other.is_nan() {
            return false;
        }
        proof {
            values_are_ordered_as_ranks(self, other);
        }
        let left_negative: bool = self.bits >= SIGN_BIT;
        let right_negative: bool = other.bits >= SIGN_BIT;
        if left_negative && right_negative {
            // Both below zero: the larger magnitude is the smaller number.
            self.bits > other.bits
        } else if left_negative {
            // Negative against non-negative: smaller unless both are zero.
            self.bits > SIGN_BIT || other.bits > 0
        } else if right_negative {
            false
        } else {
            self.bits < other.bits
        }
    }

    /// Numeric `self > other`.
    pub fn gt(self, other: Single) -> (r: bool)
        ensures
            r == other.less(self),
    {
        other.lt(self)
    }

    /// The number is zero, of either sign.
    pub fn is_zero(self) -> (r: bool)
        ensures
            r == self.zero_valued(),
    {
        self.bits == 0 || self.bits == SIGN_BIT
    }

    /// The same number without its sign.
    pub fn abs(self) -> (r: Single)
        ensures
            r == self.absolute(),
    {
        if self.bits >= SIGN_BIT {
            Single { bits: self.bits - SIGN_BIT }
        } else {
            self
        }
    }

    /// The number as a 16-bit integer: rounded towards zero, held at the
    /// nearest end of the range where it lies outside, and 0 for a NaN.
    pub fn to_i16(self) -> (r: i16)
        ensures
            r == self.truncated(),
    {
        if self.is_nan() {
            return 0;
        }
        let negative: bool = self.bits >= SIGN_BIT;
        let magnitude: u32 = if negative {
            self.bits - SIGN_BIT
        } else {
            self.bits
        };
        let exponent: u32 = magnitude / HIDDEN_BIT;
        let significand: u32 = HIDDEN_BIT + magnitude % HIDDEN_BIT;
        proof {
            whole_part_is_shifted(self);
        }
        if exponent < EXPONENT_BIAS {
            return 0;
        }
        if exponent >= EXPONENT_BIAS + 15 {
            proof {
                shifted_is_large(self);
            }
            return if negative {
                i16::MIN
            } else {
                i16::MAX
            };
        }
        let shift: u32 = EXPONENT_BIAS + 23 - exponent;
        let whole: u32 = significand >> shift;
        proof {
            lemma_u32_shr_is_div(significand, shift);
            lemma2_to64();
            if shift > 9 {
                lemma_pow2_strictly_increases(9, shift as nat);
            }
            let divisor: int = pow2(shift as nat) as int;
            assert(significand as int / divisor < 32768) by (nonlinear_arith)
                requires
                    0 <= significand < 0x100_0000,
                    divisor >= 512,
            ;
        }
        if negative {
            -(whole as i16)
        } else {
            whole as i16
        }
    }

    /// The same number with the opposite sign.
    pub fn neg(self) -> (r: Single)
        ensures
            r == self.negated(),
    {
        if self.bits >= SIGN_BIT {
            Single { bits: self.bits - SIGN_BIT }
        } else {
            Single { bits: self.bits + SIGN_BIT }
        }
    }
}

/// From 2^15 on, the whole part is at least 32768.
proof fn shifted_is_large(x: Single)
    requires
        x.exponent() >= EXPONENT_BIAS + 15,
    ensures
        x.shifted() >= 32768,
{
    let significand: int = HIDDEN_BIT + x.fraction();
    if x.exponent() >= EXPONENT_BIAS + 23 {
        let factor: int = pow2((x.exponent() - (EXPONENT_BIAS + 23)) as nat) as int;
        lemma_pow2_pos((x.exponent() - (EXPONENT_BIAS + 23)) as nat);
        assert(significand * factor >= 32768) by (nonlinear_arith)
            requires
                significand >= 0x80_0000,
                factor >= 1,
        ;
    } else {
        let places: nat = ((EXPONENT_BIAS + 23) - x.exponent()) as nat;
        lemma2_to64();
        if places < 8 {
            lemma_pow2_strictly_increases(places, 8);
        }
        lemma_pow2_pos(places);
        let divisor: int = pow2(places) as int;
        assert(significand / divisor >= 32768) by (nonlinear_arith)
            requires
                significand >= 0x80_0000,
                0 < divisor <= 256,
        ;
    }
}

/// A larger magnitude stands for a larger absolute value.
proof fn steps_grow_with_magnitude(a: Single, b: Single)
    requires
        a.magnitude() < b.magnitude(),
    ensures
        0 <= a.steps() < b.steps(),
{
    let hidden: int = HIDDEN_BIT as int;
    let (ea, fa) = (a.exponent(), a.fraction());
    let (eb, fb) = (b.exponent(), b.fraction());
    assert(0 <= fa < hidden && 0 <= fb < hidden && 0 <= ea <= eb);
    if ea == eb {
        assert(fa < fb);
        if ea > 0 {
            let unit: int = pow2((ea - 1) as nat) as int;
            lemma_pow2_pos((ea - 1) as nat);
            assert(0 <= (hidden + fa) * unit < (hidden + fb) * unit) by (nonlinear_arith)
                requires
                    0 <= fa < fb,
                    hidden > 0,
                    unit > 0,
            ;
        }
    } else {
        let upper: int = pow2((eb - 1) as nat) as int;
        lemma_pow2_pos((eb - 1) as nat);
        assert(hidden * upper <= (hidden + fb) * upper) by (nonlinear_arith)
            requires
                0 <= fb,
                upper > 0,
        ;
        if ea == 0 {
            assert(hidden <= hidden * upper) by (nonlinear_arith)
                requires
                    hidden > 0,
                    upper >= 1,
            ;
        } else {
            let lower: int = pow2((ea - 1) as nat) as int;
            lemma_pow2_pos((ea - 1) as nat);
            lemma_pow2_unfold(ea as nat);
            if ea < eb - 1 {
                lemma_pow2_strictly_increases(ea as nat, (eb - 1) as nat);
            }
            assert(2 * lower <= upper);
            assert(0 <= (hidden + fa) * lower < hidden * upper) by (nonlinear_arith)
                requires
                    0 <= fa < hidden,
                    lower > 0,
                    2 * lower <= upper,
            ;
        }
    }
}

/// The whole part can be read off the two fields.
proof fn whole_part_is_shifted(x: Single)
    ensures
        x.whole_part() == x.shifted(),
{
    let hidden: int = HIDDEN_BIT as int;
    let e = x.exponent();
    let significand: int = hidden + x.fraction();
    let one: int = pow2(149) as int;
    lemma2_to64();
    lemma_pow2_pos(149);
    assert(0 <= x.fraction() < hidden && 0 <= e);
    if e == 0 {
        lemma_pow2_strictly_increases(23, 149);
        lemma_basic_div(x.fraction(), one);
    } else if e < EXPONENT_BIAS {
        let unit: int = pow2((e - 1) as nat) as int;
        lemma_pow2_pos((e - 1) as nat);
        if e - 1 < 125 {
            lemma_pow2_strictly_increases((e - 1) as nat, 125);
        }
        lemma_pow2_adds(24, 125);
        let top: int = pow2(125) as int;
        assert(0 <= significand * unit < 0x100_0000 * top) by (nonlinear_arith)
            requires
                0 <= significand < 0x100_0000,
                0 < unit <= top,
        ;
        lemma_basic_div(significand * unit, one);
    } else if e >= EXPONENT_BIAS + 23 {
        let factor: int = pow2((e - 150) as nat) as int;
        lemma_pow2_adds((e - 150) as nat, 149);
        assert((e - 150) as nat + 149 == (e - 1) as nat);
        lemma_pow2_pos((e - 150) as nat);
        assert(significand * (factor * one) == (significand * factor) * one)
            by (nonlinear_arith);
        assert(0 <= significand * factor) by (nonlinear_arith)
            requires
                0 <= significand,
                0 <= factor,
        ;
        lemma_div_by_multiple(significand * factor, one);
    } else {
        let unit: int = pow2((e - 1) as nat) as int;
        let divisor: int = pow2((150 - e) as nat) as int;
        lemma_pow2_adds((e - 1) as nat, (150 - e) as nat);
        assert((e - 1) as nat + (150 - e) as nat == 149);
        lemma_pow2_pos((e - 1) as nat);
        lemma_pow2_pos((150 - e) as nat);
        lemma_div_multiples_vanish_quotient(unit, significand, divisor);
        assert(significand * unit == unit * significand) by (nonlinear_arith);
    }
}

/// The values of two patterns are ordered as their ranks are, and only the
/// two zeros count no steps.
proof fn values_are_ordered_as_ranks(a: Single, b: Single)
    ensures
        a.value_in_steps() < b.value_in_steps() <==> a.rank() < b.rank(),
        a.zero_valued() <==> a.steps() == 0,
{
    if a.magnitude() < b.magnitude() {
        steps_grow_with_magnitude(a, b);
    } else if b.magnitude() < a.magnitude() {
        steps_grow_with_magnitude(b, a);
    } else {
        assert(a.steps() == b.steps());
    }
    if a.magnitude() > 0 {
        steps_grow_with_magnitude(Single::zero(), a);
    }
    if b.magnitude() > 0 {
        steps_grow_with_magnitude(Single::zero(), b);
    }
    assert(Single::zero().steps() == 0);
}

/// A number is zero exactly if it counts no steps.
pub proof fn zero_counts_no_steps(x: Single)
    ensures
        x.zero_valued() <==> x.value_in_steps() == 0,
{
    values_are_ordered_as_ranks(x, x);
}

/// Negation flips the sign and nothing else, and undoes itself.
pub proof fn negation_flips_sign_only(x: Single)
    ensures
        x.negated().negative() == !x.negative(),
        x.negated().magnitude() == x.magnitude(),
        x.negated().nan() == x.nan(),
        x.negated().value_in_steps() == -x.value_in_steps(),
        x.negated().negated() == x,
{
}

/// Numeric `<` is a strict order on the patterns: nothing is below itself,
/// no two numbers are below each other, and it is transitive. Negation
/// reverses it.
pub proof fn less_is_strict_order(a: Single, b: Single, c: Single)
    ensures
        !a.less(a),
        a.less(b) ==> !b.less(a),
        a.less(b) && b.less(c) ==> a.less(c),
        a.less(b) == b.negated().less(a.negated()),
{
    negation_flips_sign_only(a);
    negation_flips_sign_only(b);
}

} // verus!
