//! Hundredths as binary64 numbers.
//!
//! A battery gauge reports its charge in hundredths. The charge as a part of
//! one is that count divided by one hundred in binary64 arithmetic: the
//! quotient, rounded to the format.

use vstd::prelude::*;
use vstd::arithmetic::power2::{
    pow2, lemma_pow2_pos, lemma_pow2_adds, lemma_pow2_unfold, lemma2_to64, lemma2_to64_rest,
    lemma_pow2_strictly_increases,
};
use vstd::arithmetic::div_mod::lemma_div_denominator;
use crate::double::{Double, HIDDEN_BIT, SIGN_BIT};
use crate::rounding::{excess_bits, lemma_excess_bits_unique, lemma_scaled_div_mod};

verus! {

/// The quotient of `a` by `b`, both counted in one unit, rounded to 53
/// significant bits: to the nearest such number, and to the one with an even
/// significand when two are equally near.
pub open spec fn round_ratio(a: nat, b: nat) -> nat
    recommends
        b > 0,
{
    let unit = pow2(excess_bits(a / b));
    let step = b * unit;
    let q = a / step;
    let r = a % step;
    if 2 * r > step || (2 * r == step && q % 2 == 1) {
        (q + 1) * unit
    } else {
        q * unit
    }
}

/// The absolute value of a count.
pub open spec fn absolute(n: i32) -> nat {
    if n < 0 {
        (-n) as nat
    } else {
        n as nat
    }
}

/// Whether `value` is `n` hundredths: `n` divided by one hundred and rounded
/// to binary64, with the sign of `n`. Zero hundredths are the positive zero.
pub open spec fn is_hundredths(value: Double, n: i32) -> bool {
    &&& value.is_finite()
    &&& value.sign() == (n < 0)
    &&& value.magnitude() == round_ratio(absolute(n) * pow2(1074), 100)
}

/// The encoding of `n` hundredths.
pub closed spec fn hundredths(n: i32) -> Double {
    choose|value: Double| is_hundredths(value, n)
}

impl Double {
    /// The number that is `n` hundredths.
    pub fn from_hundredths(n: i32) -> (r: Double)
        ensures
            is_hundredths(r, n),
            r == hundredths(n),
    {
        let r = Self::divide_by_hundred(n);
        proof {
            lemma_hundredths_unique(r, hundredths(n), n);
        }
        r
    }

    fn divide_by_hundred(n: i32) -> (r: Double)
        ensures
            is_hundredths(r, n),
    {
        proof {
            lemma2_to64();
            lemma2_to64_rest();
            lemma_pow2_pos(1074);
        }
        if n == 0 {
            proof {
                assert(0 * pow2(1074) == 0) by (nonlinear_arith);
                assert(0nat / 100 == 0);
                assert(excess_bits(0) == 0);
                assert(100 * pow2(0) == 100) by (nonlinear_arith)
                    requires
                        pow2(0) == 1,
                ;
                assert(0nat / 100 == 0 && 0nat % 100 == 0);
                assert(0 * pow2(0) == 0) by (nonlinear_arith);
            }
            return Double { bits: 0 };
        }
        let negative = n < 0;
        let count: u64 = if negative {
            (-(n as i64)) as u64
        } else {
            n as u64
        };
        let mut num: u128 = count as u128;
        let mut j: u32 = 0;
        while num / 100 < 0x10_0000_0000_0000
            invariant
                1 <= count <= 0x8000_0000,
                num == count * pow2(j as nat),
                j <= 60,
                num >= 1,
                j > 0 ==> num < 200 * 0x10_0000_0000_0000,
                j == 0 ==> num <= 0x8000_0000,
            decreases 0x1000_0000_0000_0000 - num,
        {
            proof {
                lemma2_to64_rest();
                lemma_pow2_unfold((j + 1) as nat);
                assert(count * (2 * pow2(j as nat)) == 2 * (count * pow2(j as nat)))
                    by (nonlinear_arith);
                if j >= 60 {
                    lemma_pow2_pos(j as nat);
                    if j > 60 {
                        lemma_pow2_strictly_increases(60, j as nat);
                    }
                    assert(count * pow2(j as nat) >= pow2(j as nat)) by (nonlinear_arith)
                        requires
                            count >= 1,
                    ;
                    assert(false);
                }
            }
            num = num * 2;
            j = j + 1;
        }
        let q: u128 = num / 100;
        let rem: u128 = num % 100;
        let up: bool = 2 * rem > 100 || (2 * rem == 100 && q % 2 == 1);
        let rounded: u64 = if up {
            (q + 1) as u64
        } else {
            q as u64
        };
        let shift: u32 = 1074 - j;
        let carried: bool = rounded == 0x20_0000_0000_0000;
        let significand: u64 = if carried {
            HIDDEN_BIT
        } else {
            rounded
        };
        let field: u64 = if carried {
            (shift + 2) as u64
        } else {
            (shift + 1) as u64
        };
        let low: u64 = field * HIDDEN_BIT + (significand - HIDDEN_BIT);
        let bits: u64 = if negative {
            SIGN_BIT + low
        } else {
            low
        };
        let r = Double { bits };
        proof {
            let unit = pow2(shift as nat);
            lemma_pow2_pos(shift as nat);
            lemma_pow2_adds(j as nat, shift as nat);
            let a = absolute(n) * pow2(1074);
            assert(a == num * unit) by (nonlinear_arith)
                requires
                    a == count * (pow2(j as nat) * unit),
                    num == count * pow2(j as nat),
            ;
            lemma_scaled_div_mod(num as nat, 100, unit);
            lemma_div_denominator(a as int, 100, unit as int);
            lemma_excess_bits_unique(a / 100, shift as nat);
            assert(r.exponent_field() == field);
            assert(r.fraction_field() == significand - HIDDEN_BIT);
            assert(2 * (rem * unit) > 100 * unit <==> 2 * rem > 100) by (nonlinear_arith)
                requires
                    unit > 0,
            ;
            assert(2 * (rem * unit) == 100 * unit <==> 2 * rem == 100) by (nonlinear_arith)
                requires
                    unit > 0,
            ;
            if carried {
                lemma_pow2_unfold((shift + 1) as nat);
                assert(HIDDEN_BIT * (2 * unit) == rounded * unit) by (nonlinear_arith)
                    requires
                        rounded == 2 * HIDDEN_BIT,
                ;
            }
            assert(r.magnitude() == rounded * unit);
        }
        r
    }
}

/// Only one encoding is `n` hundredths.
pub proof fn lemma_hundredths_unique(a: Double, b: Double, n: i32)
    requires
        is_hundredths(a, n),
    ensures
        is_hundredths(b, n) ==> a == b,
        is_hundredths(hundredths(n), n),
{
    if is_hundredths(b, n) {
        lemma_magnitude_injective(a, b);
    }
}

/// Two finite numbers of one sign and one magnitude have one encoding.
pub proof fn lemma_magnitude_injective(a: Double, b: Double)
    requires
        a.is_finite(),
        b.is_finite(),
        a.sign() == b.sign(),
        a.magnitude() == b.magnitude(),
    ensures
        a == b,
{
    lemma2_to64();
    lemma2_to64_rest();
    let fa = a.exponent_field();
    let fb = b.exponent_field();
    lemma_magnitude_bounds(a);
    lemma_magnitude_bounds(b);
    if fa < fb {
        lemma_field_orders_magnitude(a, b);
    } else if fb < fa {
        lemma_field_orders_magnitude(b, a);
    } else if fa > 0 {
        let scale = pow2((fa - 1) as nat);
        lemma_pow2_pos((fa - 1) as nat);
        assert(a.fraction_field() == b.fraction_field()) by (nonlinear_arith)
            requires
                (HIDDEN_BIT + a.fraction_field()) * scale == (HIDDEN_BIT + b.fraction_field())
                    * scale,
                scale > 0,
        ;
    }
    assert(a.bits == b.bits);
}

/// A magnitude lies between the powers of two that its exponent field names.
pub proof fn lemma_magnitude_bounds(a: Double)
    requires
        a.is_finite(),
    ensures
        a.exponent_field() == 0 ==> a.magnitude() < pow2(52),
        a.exponent_field() > 0 ==> pow2((51 + a.exponent_field()) as nat) <= a.magnitude() < pow2(
            (52 + a.exponent_field()) as nat,
        ),
{
    lemma2_to64();
    lemma2_to64_rest();
    let field = a.exponent_field();
    if field > 0 {
        let scale = pow2((field - 1) as nat);
        lemma_pow2_pos((field - 1) as nat);
        lemma_pow2_adds(52, (field - 1) as nat);
        lemma_pow2_adds(53, (field - 1) as nat);
        let significand = HIDDEN_BIT + a.fraction_field();
        assert(pow2(52) * scale <= significand * scale < pow2(53) * scale) by (nonlinear_arith)
            requires
                pow2(52) <= significand < pow2(53),
                scale > 0,
        ;
    }
}

/// A greater exponent field means a greater magnitude.
pub proof fn lemma_field_orders_magnitude(a: Double, b: Double)
    requires
        a.is_finite(),
        b.is_finite(),
        a.exponent_field() < b.exponent_field(),
    ensures
        a.magnitude() < b.magnitude(),
{
    lemma_magnitude_bounds(a);
    lemma_magnitude_bounds(b);
    let fa = a.exponent_field();
    let fb = b.exponent_field();
    if fa == 0 {
        if 52 < 51 + fb {
            lemma_pow2_strictly_increases(52, (51 + fb) as nat);
        }
    } else {
        if 52 + fa < 51 + fb {
            lemma_pow2_strictly_increases((52 + fa) as nat, (51 + fb) as nat);
        }
    }
}

} // verus!
