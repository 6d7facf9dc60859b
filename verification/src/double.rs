//! IEEE 754 binary64 values held by their bit pattern.
//!
//! Protocol messages carry intensities as binary64 numbers. This module keeps
//! such a number as the 64 bits of its encoding and gives the encoding a
//! mathematical meaning: every finite binary64 value is a whole multiple of
//! 2^-1074, so a finite value is modelled by its sign and by its magnitude
//! counted in that unit.

use vstd::prelude::*;
use vstd::arithmetic::power2::{
    pow2, lemma2_to64, lemma2_to64_rest, lemma_pow2_pos, lemma_pow2_adds,
    lemma_pow2_strictly_increases,
};

verus! {

/// Number of fraction bits of the binary64 format.
pub const FRACTION_BITS: u64 = 52;

/// 2^52, the weight of the implicit leading bit of a normal number.
pub const HIDDEN_BIT: u64 = 0x10_0000_0000_0000;

/// 2^63, the sign bit.
pub const SIGN_BIT: u64 = 0x8000_0000_0000_0000;

/// Bit pattern of 1.0.
pub const ONE_BITS: u64 = 0x3FF0_0000_0000_0000;

/// Bit pattern of positive infinity.
pub const INFINITY_BITS: u64 = 0x7FF0_0000_0000_0000;

/// A binary64 number, identified by its encoding.
///
/// Equality on this type is identity of encodings: the two zeros differ and a
/// not-a-number pattern equals itself.
#[derive(Clone, Copy, Debug, PartialEq, Eq, Structural)]
pub struct Double {
    pub bits: u64,
}

impl Double {
    /// The sign bit: set for negative numbers, for negative zero and for
    /// not-a-number patterns that carry it.
    pub open spec fn sign(self) -> bool {
        self.bits >= SIGN_BIT
    }

    /// The eleven exponent bits.
    pub open spec fn exponent_field(self) -> nat {
        ((self.bits / HIDDEN_BIT) % 2048) as nat
    }

    /// The fifty-two fraction bits.
    pub open spec fn fraction_field(self) -> nat {
        (self.bits % HIDDEN_BIT) as nat
    }

    pub open spec fn is_nan(self) -> bool {
        self.exponent_field() == 2047 && self.fraction_field() != 0
    }

    pub open spec fn is_infinite(self) -> bool {
        self.exponent_field() == 2047 && self.fraction_field() == 0
    }

    pub open spec fn is_finite(self) -> bool {
        self.exponent_field() < 2047
    }

    /// Absolute value of a finite number, counted in units of 2^-1074.
    pub open spec fn magnitude(self) -> nat
        recommends
            self.is_finite(),
    {
        if self.exponent_field() == 0 {
            self.fraction_field()
        } else {
            ((HIDDEN_BIT + self.fraction_field()) * pow2((self.exponent_field() - 1) as nat)) as nat
        }
    }

    /// Whether the number lies in the closed interval from zero to one.
    /// Negative zero does; no not-a-number pattern does.
    pub open spec fn in_unit_interval(self) -> bool {
        self.is_finite() && if self.sign() {
            self.magnitude() == 0
        } else {
            self.magnitude() <= pow2(1074)
        }
    }

    /// Whether the number is above one: a positive number that is infinite, or
    /// finite with a magnitude above that of one.
    pub open spec fn above_one(self) -> bool {
        !self.sign() && (self.is_infinite() || (self.is_finite() && self.magnitude() > pow2(
            1074,
        )))
    }

    pub fn from_bits(bits: u64) -> (r: Double)
        ensures
            r.bits == bits,
    {
        Double { bits }
    }

    pub fn to_bits(&self) -> (r: u64)
        ensures
            r == self.bits,
    {
        self.bits
    }

    /// Whether the number lies between zero and one, both included.
    pub fn is_in_unit_interval(&self) -> (r: bool)
        ensures
            r == self.in_unit_interval(),
    {
        proof {
            lemma_unit_interval(*self);
        }
        self.bits <= ONE_BITS || self.bits == SIGN_BIT
    }

    /// Whether the number is above one. No not-a-number pattern is.
    pub fn exceeds_one(&self) -> (r: bool)
        ensures
            r == self.above_one(),
    {
        proof {
            lemma_unit_interval(*self);
        }
        ONE_BITS < self.bits && self.bits <= INFINITY_BITS
    }

    pub fn is_sign_negative(&self) -> (r: bool)
        ensures
            r == self.sign(),
    {
        self.bits >= SIGN_BIT
    }
}

/// The order of the encodings of positive numbers is the order of the numbers.
pub proof fn lemma_unit_interval(value: Double)
    ensures
        value.in_unit_interval() <==> (value.bits <= ONE_BITS || value.bits == SIGN_BIT),
        value.above_one() <==> (ONE_BITS < value.bits && value.bits <= INFINITY_BITS),
{
    lemma2_to64();
    lemma2_to64_rest();
    let field = value.exponent_field();
    let fraction = value.fraction_field();
    let low = if value.sign() {
        (value.bits - SIGN_BIT) as nat
    } else {
        value.bits as nat
    };
    assert(low == field * HIDDEN_BIT + fraction);
    if field > 0 && field < 2047 {
        let scale = pow2((field - 1) as nat);
        lemma_pow2_pos((field - 1) as nat);
        let significand = HIDDEN_BIT + fraction;
        assert(value.magnitude() == significand * scale);
        assert(significand * scale > 0) by (nonlinear_arith)
            requires
                significand > 0,
                scale > 0,
        ;
        if field < 1023 {
            lemma_pow2_adds(53, (field - 1) as nat);
            if 52 + field < 1074 {
                lemma_pow2_strictly_increases((52 + field) as nat, 1074);
            }
            assert(significand * scale < pow2(53) * scale) by (nonlinear_arith)
                requires
                    significand < pow2(53),
                    scale > 0,
            ;
        } else if field == 1023 {
            lemma_pow2_adds(52, 1022);
            assert(significand * scale > pow2(52) * scale <==> fraction > 0) by (nonlinear_arith)
                requires
                    significand == pow2(52) + fraction,
                    fraction >= 0,
                    scale > 0,
            ;
        } else {
            lemma_pow2_adds(52, (field - 1) as nat);
            lemma_pow2_strictly_increases(1074, (51 + field) as nat);
            assert(significand * scale >= pow2(52) * scale) by (nonlinear_arith)
                requires
                    significand >= pow2(52),
                    scale > 0,
            ;
        }
    } else if field == 0 {
        lemma_pow2_strictly_increases(52, 1074);
    }
}

} // verus!
