//! From a normalised intensity to a hardware step value.
//!
//! A command carries an intensity as a binary64 number, nominally between zero
//! and one. A feature accepts whole steps between the two ends of its step
//! range. The step value of an intensity is found in binary64 arithmetic: the
//! intensity times the width of the range; zero if that product is below one
//! ten-thousandth; otherwise the product plus the start of the range, rounded
//! up to a whole number. Rounding up, never down, is the rule that users of
//! the protocol have always seen.
//!
//! The arithmetic is carried out on integers here, and the result is proved to
//! be the one that correctly rounded binary64 operations give.

use vstd::prelude::*;
use vstd::arithmetic::power2::{
    pow2, lemma_pow2_pos, lemma_pow2_adds, lemma_pow2_unfold, lemma2_to64, lemma2_to64_rest,
    lemma_pow2_strictly_increases,
};
use vstd::arithmetic::div_mod::{lemma_fundamental_div_mod, lemma_fundamental_div_mod_converse};
use crate::double::{Double, HIDDEN_BIT, SIGN_BIT};
use crate::rounding::{
    round_nearest, round_to_significand, lemma_round_nearest_exact, lemma_round_nearest_scales,
    lemma_round_nearest_lower, lemma_excess_bits_at_most, lemma_scaled_div_mod, SIGNIFICAND_LIMIT,
};

verus! {

/// Significand of the binary64 number nearest to 0.0001, which is this
/// significand times 2^-66.
pub const THRESHOLD_SIGNIFICAND: u64 = 0x1A_36E2_EB1C_432D;

/// The binary64 number nearest to 0.0001, in units of 2^-1074.
pub open spec fn threshold() -> nat {
    (THRESHOLD_SIGNIFICAND * pow2(1008)) as nat
}

/// The whole number `n`, in units of 2^-1074.
pub open spec fn whole(n: nat) -> nat {
    n * pow2(1074)
}

/// The least whole number that is not below `x` units of 2^-1074.
pub open spec fn ceil_units(x: nat) -> nat {
    if x % pow2(1074) == 0 {
        x / pow2(1074)
    } else {
        x / pow2(1074) + 1
    }
}

/// The step value of `value` on the step range from `start` to `end`.
///
/// The product of `value` and the width of the range is rounded to binary64.
/// Below the threshold the step value is zero. Otherwise the start of the
/// range is added, the sum is rounded to binary64 and then up to a whole
/// number, which is cut off at the largest 32 bit value. A product that is
/// negative, or a negative zero, is below the threshold. A product that is not
/// a number gives zero, and an infinite one the largest value.
pub open spec fn step_of(value: Double, start: u32, end: u32) -> u32
    recommends
        start <= end,
{
    let width = (end - start) as nat;
    if value.sign() || value.is_nan() {
        0
    } else if value.is_infinite() {
        if width == 0 {
            0
        } else {
            u32::MAX
        }
    } else {
        let raw = round_nearest(value.magnitude() * width);
        if raw < threshold() {
            0
        } else {
            let steps = ceil_units(round_nearest(raw + whole(start as nat)));
            if steps >= u32::MAX {
                u32::MAX
            } else {
                steps as u32
            }
        }
    }
}

proof fn lemma_pow2_monotone(a: nat, b: nat)
    requires
        a <= b,
    ensures
        pow2(a) <= pow2(b),
{
    if a < b {
        lemma_pow2_strictly_increases(a, b);
    }
}

/// How a significand with a power of two compares with the threshold.
proof fn lemma_threshold_compare(m: nat, t: nat)
    requires
        0 < m <= SIGNIFICAND_LIMIT,
    ensures
        t < 1007 ==> m * pow2(t) < threshold(),
        t == 1007 ==> (m * pow2(t) < threshold() <==> m < 2 * THRESHOLD_SIGNIFICAND),
        1008 <= t ==> (m * pow2(t) < threshold() <==> m * pow2((t - 1008) as nat)
            < THRESHOLD_SIGNIFICAND),
        1061 <= t ==> m * pow2(t) >= threshold(),
{
    lemma2_to64();
    lemma2_to64_rest();
    let base = pow2(1008);
    lemma_pow2_pos(1008);
    let ts = THRESHOLD_SIGNIFICAND as nat;
    if t < 1007 {
        lemma_pow2_adds(53, t);
        lemma_pow2_monotone(53 + t, 1059);
        lemma_pow2_adds(51, 1008);
        assert(m * pow2(t) <= pow2(53) * pow2(t)) by (nonlinear_arith)
            requires
                m <= pow2(53),
        ;
        assert(pow2(51) * base < ts * base) by (nonlinear_arith)
            requires
                pow2(51) < ts,
                base > 0,
        ;
    } else if t == 1007 {
        lemma_pow2_unfold(1008);
        let half = pow2(1007);
        lemma_pow2_pos(1007);
        assert(ts * (2 * half) == (2 * ts) * half) by (nonlinear_arith);
        assert(m * half < (2 * ts) * half <==> m < 2 * ts) by (nonlinear_arith)
            requires
                half > 0,
        ;
    } else {
        let j = (t - 1008) as nat;
        lemma_pow2_adds(j, 1008);
        let mj = m * pow2(j);
        assert(m * (pow2(j) * base) == mj * base) by (nonlinear_arith)
            requires
                mj == m * pow2(j),
        ;
        assert(mj * base < ts * base <==> mj < ts) by (nonlinear_arith)
            requires
                base > 0,
        ;
        if 1061 <= t {
            lemma_pow2_monotone(53, j);
            assert(mj >= pow2(j)) by (nonlinear_arith)
                requires
                    mj == m * pow2(j),
                    m >= 1,
            ;
        }
    }
}

/// Rounding a whole number and then rounding it up.
proof fn lemma_ceil_of_whole(w: nat)
    ensures
        w < 0x1_0000_0000 ==> ceil_units(round_nearest(whole(w))) == w,
        w >= 0x1_0000_0000 ==> ceil_units(round_nearest(whole(w))) >= 0x1_0000_0000,
{
    lemma2_to64();
    lemma2_to64_rest();
    let one = pow2(1074);
    lemma_pow2_pos(1074);
    if w < 0x1_0000_0000 {
        lemma_round_nearest_exact(w);
        lemma_round_nearest_scales(w, 1074);
        lemma_fundamental_div_mod_converse((w * one) as int, one as int, w as int, 0);
    } else {
        lemma_pow2_adds(32, 1074);
        assert(w * one >= pow2(32) * one) by (nonlinear_arith)
            requires
                w >= pow2(32),
                one > 0,
        ;
        lemma_round_nearest_lower(whole(w), 1106);
        let y = round_nearest(whole(w));
        lemma_fundamental_div_mod(y as int, one as int);
        assert(y / one >= pow2(32)) by (nonlinear_arith)
            requires
                y >= pow2(32) * one,
                y == one * (y / one) + y % one,
                0 <= y % one < one,
                one > 0,
        ;
    }
}

/// Rounding a number that has `d` binary places, and then rounding it up.
proof fn lemma_ceil_of_fraction(s: nat, d: nat)
    requires
        0 < d <= 1074,
    ensures
        pow2(d) > 0,
        ceil_units(round_nearest(s * pow2((1074 - d) as nat))) == if round_nearest(s) % pow2(d)
            == 0 {
            round_nearest(s) / pow2(d)
        } else {
            round_nearest(s) / pow2(d) + 1
        },
{
    let t = (1074 - d) as nat;
    lemma_pow2_pos(d);
    lemma_pow2_pos(t);
    lemma_pow2_adds(d, t);
    lemma_round_nearest_scales(s, t);
    lemma_scaled_div_mod(round_nearest(s), pow2(d), pow2(t));
    let r = round_nearest(s) % pow2(d);
    assert(r * pow2(t) == 0 <==> r == 0) by (nonlinear_arith)
        requires
            pow2(t) > 0,
    ;
}

fn power_of_two(k: u32) -> (r: u128)
    requires
        k <= 126,
    ensures
        r == pow2(k as nat),
{
    let mut r: u128 = 1;
    let mut i: u32 = 0;
    proof {
        lemma2_to64();
    }
    while i < k
        invariant
            i <= k <= 126,
            r == pow2(i as nat),
        decreases k - i,
    {
        proof {
            lemma2_to64_rest();
            lemma_pow2_adds(63, 62);
            lemma_pow2_monotone(i as nat, 125);
            lemma_pow2_unfold((i + 1) as nat);
        }
        r = r * 2;
        i = i + 1;
    }
    r
}

/// Computes the step value of `value` on the step range from `start` to `end`.
pub fn step_value(value: Double, start: u32, end: u32) -> (r: u32)
    requires
        start <= end,
    ensures
        r == step_of(value, start, end),
{
    let bits: u64 = value.bits;
    let width: u32 = end - start;
    if bits >= SIGN_BIT {
        return 0;
    }
    let field: u64 = bits / HIDDEN_BIT;
    let fraction: u64 = bits % HIDDEN_BIT;
    assert(field < 2048);
    if field == 2047 {
        if fraction != 0 || width == 0 {
            return 0;
        } else {
            return u32::MAX;
        }
    }
    let significand: u64 = if field == 0 {
        fraction
    } else {
        HIDDEN_BIT + fraction
    };
    let shift: u32 = if field == 0 {
        0
    } else {
        (field - 1) as u32
    };
    assert(significand * width <= 0x20_0000_0000_0000 * 0x1_0000_0000) by (nonlinear_arith)
        requires
            significand <= 0x20_0000_0000_0000,
            width <= 0x1_0000_0000,
    ;
    let product: u128 = (significand as u128) * (width as u128);
    let ghost unit = pow2(shift as nat);
    let ghost exact = value.magnitude() * (width as nat);
    proof {
        lemma2_to64();
        lemma_pow2_pos(shift as nat);
        lemma_pow2_pos(1008);
        assert(value.exponent_field() == field);
        assert(value.fraction_field() == fraction);
        if field == 0 {
            assert(significand * unit == significand) by (nonlinear_arith)
                requires
                    unit == 1,
            ;
        }
        assert(value.magnitude() == significand * unit);
        assert(exact == product * unit) by (nonlinear_arith)
            requires
                exact == (significand * unit) * width,
                product == significand * width,
        ;
    }
    if product == 0 {
        proof {
            assert(exact == 0) by (nonlinear_arith)
                requires
                    exact == product * unit,
                    product == 0,
            ;
            lemma_round_nearest_exact(0);
            assert(threshold() > 0) by (nonlinear_arith)
                requires
                    threshold() == THRESHOLD_SIGNIFICAND * pow2(1008),
                    pow2(1008) > 0,
            ;
        }
        return 0;
    }
    let (m, s) = round_to_significand(product);
    let t: u32 = s + shift;
    let ghost raw = round_nearest(exact);
    proof {
        lemma_round_nearest_scales(product as nat, shift as nat);
        lemma_pow2_adds(s as nat, shift as nat);
        assert(raw == m * pow2(t as nat)) by (nonlinear_arith)
            requires
                raw == (m * pow2(s as nat)) * unit,
                pow2(t as nat) == pow2(s as nat) * unit,
        ;
        lemma_threshold_compare(m as nat, t as nat);
    }
    if t < 1007 {
        return 0;
    }
    if t == 1007 {
        if (m as u128) < 2 * (THRESHOLD_SIGNIFICAND as u128) {
            return 0;
        }
    } else if t >= 1008 && t < 1061 {
        let scale: u128 = power_of_two(t - 1008);
        proof {
            lemma2_to64_rest();
            lemma_pow2_monotone((t - 1008) as nat, 52);
            assert(m * scale <= 0x20_0000_0000_0000 * 0x10_0000_0000_0000) by (nonlinear_arith)
                requires
                    m <= 0x20_0000_0000_0000,
                    scale <= 0x10_0000_0000_0000,
            ;
        }
        if (m as u128) * scale < THRESHOLD_SIGNIFICAND as u128 {
            return 0;
        }
    }
    assert(raw >= threshold());
    if t >= 1074 {
        if t - 1074 >= 32 {
            proof {
                let j = (t - 1074) as nat;
                lemma_pow2_adds(j, 1074);
                lemma_pow2_monotone(32, j);
                let w = m * pow2(j) + start;
                assert(m * pow2(j) >= pow2(j)) by (nonlinear_arith)
                    requires
                        m >= 1,
                ;
                assert(raw + whole(start as nat) == whole(w as nat)) by (nonlinear_arith)
                    requires
                        raw == m * (pow2(j) * pow2(1074)),
                        whole(start as nat) == start * pow2(1074),
                        whole(w as nat) == (m * pow2(j) + start) * pow2(1074),
                ;
                lemma_ceil_of_whole(w as nat);
            }
            return u32::MAX;
        }
        let scale: u128 = power_of_two(t - 1074);
        proof {
            lemma2_to64_rest();
            lemma_pow2_monotone((t - 1074) as nat, 31);
            assert(m * scale <= 0x20_0000_0000_0000 * 0x8000_0000) by (nonlinear_arith)
                requires
                    m <= 0x20_0000_0000_0000,
                    scale <= 0x8000_0000,
            ;
        }
        let w: u128 = (m as u128) * scale + (start as u128);
        proof {
            lemma_pow2_adds((t - 1074) as nat, 1074);
            assert(raw + whole(start as nat) == whole(w as nat)) by (nonlinear_arith)
                requires
                    raw == m * (scale * pow2(1074)),
                    whole(start as nat) == start * pow2(1074),
                    whole(w as nat) == (m * scale + start) * pow2(1074),
            ;
            lemma_ceil_of_whole(w as nat);
        }
        if w >= 0xFFFF_FFFF {
            u32::MAX
        } else {
            w as u32
        }
    } else {
        let d: u32 = 1074 - t;
        let scale: u128 = power_of_two(d);
        proof {
            lemma2_to64_rest();
            lemma_pow2_adds(64, 3);
            lemma_pow2_monotone(d as nat, 67);
            assert(start * scale <= 0xFFFF_FFFF * 0x8_0000_0000_0000_0000) by (nonlinear_arith)
                requires
                    start <= 0xFFFF_FFFF,
                    scale <= 0x8_0000_0000_0000_0000,
            ;
        }
        let scaled: u128 = (m as u128) + (start as u128) * scale;
        let (m2, s2) = round_to_significand(scaled);
        proof {
            lemma_pow2_adds(d as nat, t as nat);
            assert(raw + whole(start as nat) == scaled * pow2(t as nat)) by (nonlinear_arith)
                requires
                    raw == m * pow2(t as nat),
                    whole(start as nat) == start * (scale * pow2(t as nat)),
                    scaled == m + start * scale,
            ;
            lemma_ceil_of_fraction(scaled as nat, d as nat);
            lemma_pow2_adds(64, 36);
            lemma_pow2_adds(47, 53);
            assert((scaled as nat) / pow2(47) < 0x20_0000_0000_0000) by (nonlinear_arith)
                requires
                    scaled < pow2(47) * 0x20_0000_0000_0000,
                    pow2(47) > 0,
            ;
            lemma_excess_bits_at_most(scaled as nat, 47);
            lemma_pow2_monotone(s2 as nat, 47);
        }
        let unit2: u128 = power_of_two(s2);
        proof {
            assert(m2 * unit2 <= 0x20_0000_0000_0000 * 0x8000_0000_0000) by (nonlinear_arith)
                requires
                    m2 <= 0x20_0000_0000_0000,
                    unit2 <= 0x8000_0000_0000,
            ;
        }
        let rounded: u128 = (m2 as u128) * unit2;
        let q: u128 = rounded / scale;
        let rem: u128 = rounded % scale;
        let steps: u128 = if rem == 0 {
            q
        } else {
            q + 1
        };
        if steps >= 0xFFFF_FFFF {
            u32::MAX
        } else {
            steps as u32
        }
    }
}

} // verus!
