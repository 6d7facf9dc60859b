//! Rounding to the binary64 significand.
//!
//! A finite binary64 value, counted in units of 2^-1074, is a natural number
//! with at most 53 significant bits. Rounding an exact result to the format is
//! therefore rounding a natural number to 53 significant bits, to the nearest
//! such number and to the one with an even significand when two are equally
//! near.

use vstd::prelude::*;
use vstd::arithmetic::power2::{
    pow2, lemma_pow2_pos, lemma_pow2_adds, lemma_pow2_unfold, lemma2_to64, lemma2_to64_rest,
    lemma_pow2_strictly_increases,
};
use vstd::arithmetic::div_mod::{
    lemma_div_denominator, lemma_fundamental_div_mod, lemma_fundamental_div_mod_converse,
};

verus! {

/// 2^53: a significand is below this bound.
pub const SIGNIFICAND_LIMIT: u64 = 0x20_0000_0000_0000;

/// How many low bits of `x` do not fit into a 53 bit significand.
pub open spec fn excess_bits(x: nat) -> nat
    decreases x,
{
    if x < SIGNIFICAND_LIMIT {
        0
    } else {
        1 + excess_bits(x / 2)
    }
}

/// `x` rounded to 53 significant bits: to the nearest multiple of
/// 2^`excess_bits(x)`, and to the even multiple when `x` lies halfway.
pub open spec fn round_nearest(x: nat) -> nat {
    let unit = pow2(excess_bits(x));
    let q = x / unit;
    let r = x % unit;
    if 2 * r > unit || (2 * r == unit && q % 2 == 1) {
        (q + 1) * unit
    } else {
        q * unit
    }
}

/// The quotient that `excess_bits` leaves is a significand, and a normalised
/// one when any bit was dropped.
pub proof fn lemma_excess_bits_quotient(x: nat)
    ensures
        x / pow2(excess_bits(x)) < SIGNIFICAND_LIMIT,
        excess_bits(x) > 0 ==> x / pow2(excess_bits(x)) >= SIGNIFICAND_LIMIT / 2,
    decreases x,
{
    lemma2_to64();
    lemma2_to64_rest();
    if x < SIGNIFICAND_LIMIT {
    } else {
        let h = x / 2;
        let s = excess_bits(h);
        lemma_excess_bits_quotient(h);
        lemma_pow2_pos(s);
        lemma_pow2_unfold(s + 1);
        lemma_div_denominator(x as int, 2, pow2(s) as int);
        assert(x / pow2(s + 1) == h / pow2(s));
    }
}

/// A shift that leaves a normalised significand is the one `excess_bits` finds.
pub proof fn lemma_excess_bits_unique(x: nat, s: nat)
    requires
        x / pow2(s) < SIGNIFICAND_LIMIT,
        s > 0 ==> x / pow2(s) >= SIGNIFICAND_LIMIT / 2,
    ensures
        excess_bits(x) == s,
    decreases s,
{
    lemma2_to64();
    if s == 0 {
        assert(x / 1 == x);
        assert(excess_bits(x) == 0);
    } else {
        let p = pow2((s - 1) as nat);
        lemma_pow2_pos((s - 1) as nat);
        lemma_pow2_unfold(s);
        lemma_div_denominator(x as int, 2, p as int);
        assert(x / pow2(s) == (x / 2) / p);
        lemma_fundamental_div_mod((x / 2) as int, p as int);
        assert((x / 2) >= p * ((x / 2) / p));
        assert(p * ((x / 2) / p) >= (SIGNIFICAND_LIMIT / 2) as int) by (nonlinear_arith)
            requires
                p >= 1,
                (x / 2) / p >= (SIGNIFICAND_LIMIT / 2) as int,
        ;
        assert(x >= SIGNIFICAND_LIMIT);
        lemma_excess_bits_unique(x / 2, (s - 1) as nat);
        assert(excess_bits(x) == 1 + excess_bits(x / 2));
    }
}

/// Any shift that leaves a significand is at least the one `excess_bits` finds.
pub proof fn lemma_excess_bits_at_most(x: nat, s: nat)
    requires
        x / pow2(s) < SIGNIFICAND_LIMIT,
    ensures
        excess_bits(x) <= s,
    decreases s,
{
    lemma2_to64();
    if s == 0 {
        assert(x / 1 == x);
        assert(excess_bits(x) == 0);
    } else if x < SIGNIFICAND_LIMIT {
        assert(excess_bits(x) == 0);
    } else {
        let p = pow2((s - 1) as nat);
        lemma_pow2_pos((s - 1) as nat);
        lemma_pow2_unfold(s);
        lemma_div_denominator(x as int, 2, p as int);
        assert(x / pow2(s) == (x / 2) / p);
        lemma_excess_bits_at_most(x / 2, (s - 1) as nat);
        assert(excess_bits(x) == 1 + excess_bits(x / 2));
    }
}

/// Quotient and remainder of a scaled number by an equally scaled divisor.
pub proof fn lemma_scaled_div_mod(x: nat, d: nat, c: nat)
    requires
        d > 0,
        c > 0,
    ensures
        d * c > 0,
        (x * c) / (d * c) == x / d,
        (x * c) % (d * c) == (x % d) * c,
{
    let q = x / d;
    let r = x % d;
    lemma_fundamental_div_mod(x as int, d as int);
    assert(d * c > 0) by (nonlinear_arith)
        requires
            d > 0,
            c > 0,
    ;
    assert(x * c == q * (d * c) + r * c) by (nonlinear_arith)
        requires
            x == d * q + r,
    ;
    assert(0 <= r * c < d * c) by (nonlinear_arith)
        requires
            0 <= r < d,
            c > 0,
    ;
    lemma_fundamental_div_mod_converse((x * c) as int, (d * c) as int, q as int, (r * c) as int);
}

/// A number that is a significand already is left as it is.
pub proof fn lemma_round_nearest_exact(x: nat)
    requires
        x < SIGNIFICAND_LIMIT,
    ensures
        round_nearest(x) == x,
{
    lemma2_to64();
    let unit = pow2(excess_bits(x));
    assert(x / unit == x && x % unit == 0 && x * unit == x) by (nonlinear_arith)
        requires
            unit == 1,
    ;
}

/// Rounding commutes with scaling by a power of two.
pub proof fn lemma_round_nearest_scales(x: nat, k: nat)
    ensures
        round_nearest(x * pow2(k)) == round_nearest(x) * pow2(k),
{
    lemma2_to64();
    let c = pow2(k);
    lemma_pow2_pos(k);
    let s = excess_bits(x);
    let unit = pow2(s);
    lemma_pow2_pos(s);
    lemma_pow2_adds(s, k);
    lemma_excess_bits_quotient(x);
    lemma_scaled_div_mod(x, unit, c);
    let q = x / unit;
    let r = x % unit;
    let big = x * c;
    if s > 0 {
        lemma_excess_bits_unique(big, s + k);
        assert(2 * (r * c) > unit * c <==> 2 * r > unit) by (nonlinear_arith)
            requires
                c > 0,
        ;
        assert(2 * (r * c) == unit * c <==> 2 * r == unit) by (nonlinear_arith)
            requires
                c > 0,
        ;
        assert((q + 1) * (unit * c) == ((q + 1) * unit) * c) by (nonlinear_arith);
        assert(q * (unit * c) == (q * unit) * c) by (nonlinear_arith);
    } else {
        lemma_round_nearest_exact(x);
        lemma_excess_bits_at_most(big, k);
        let t = excess_bits(big);
        let j = (k - t) as nat;
        lemma_pow2_adds(j, t);
        lemma_pow2_pos(t);
        let u = pow2(t);
        assert(big == (x * pow2(j)) * u) by (nonlinear_arith)
            requires
                big == x * c,
                c == pow2(j) * u,
        ;
        lemma_fundamental_div_mod_converse(big as int, u as int, (x * pow2(j)) as int, 0);
        assert(big / u == x * pow2(j));
        assert(big % u == 0);
    }
}

/// Rounding never falls below a power of two that the argument has reached.
pub proof fn lemma_round_nearest_lower(x: nat, n: nat)
    requires
        pow2(n) <= x,
    ensures
        pow2(n) <= round_nearest(x),
{
    lemma2_to64();
    lemma2_to64_rest();
    let s = excess_bits(x);
    let unit = pow2(s);
    lemma_pow2_pos(s);
    lemma_excess_bits_quotient(x);
    lemma_fundamental_div_mod(x as int, unit as int);
    let q = x / unit;
    let r = x % unit;
    assert(round_nearest(x) >= q * unit) by (nonlinear_arith)
        requires
            round_nearest(x) == q * unit || round_nearest(x) == (q + 1) * unit,
            unit > 0,
    ;
    if s == 0 {
        assert(q * unit == x);
    } else if n <= s + 52 {
        lemma_pow2_adds(52, s);
        if n < s + 52 {
            lemma_pow2_strictly_increases(n, s + 52);
        }
        assert(q * unit >= pow2(52) * unit) by (nonlinear_arith)
            requires
                q >= pow2(52),
                unit > 0,
        ;
    } else {
        lemma_pow2_adds(53, s);
        if s + 53 < n {
            lemma_pow2_strictly_increases(s + 53, n);
        }
        assert(x < pow2(53) * unit) by (nonlinear_arith)
            requires
                x == unit * q + r,
                r < unit,
                q < pow2(53),
        ;
        assert(false);
    }
}

/// The rounded value as a significand and a shift.
pub fn round_to_significand(p: u128) -> (r: (u64, u32))
    ensures
        r.0 * pow2(r.1 as nat) == round_nearest(p as nat),
        r.1 == excess_bits(p as nat),
        r.0 <= SIGNIFICAND_LIMIT,
        r.1 <= 76,
        p < SIGNIFICAND_LIMIT ==> r.0 == p && r.1 == 0,
        p > 0 ==> r.0 > 0,
{
    let mut s: u32 = 0;
    let mut unit: u128 = 1;
    proof {
        lemma2_to64();
        lemma2_to64_rest();
    }
    while p / unit >= 0x20_0000_0000_0000
        invariant
            unit == pow2(s as nat),
            unit > 0,
            s <= 76,
            s > 0 ==> unit * 0x10_0000_0000_0000 <= p,
            excess_bits(p as nat) == s + excess_bits((p / unit) as nat),
        decreases p / unit,
    {
        proof {
            lemma2_to64();
            lemma_fundamental_div_mod(p as int, unit as int);
            assert(unit * 0x20_0000_0000_0000 <= p) by (nonlinear_arith)
                requires
                    p >= unit * (p / unit),
                    p / unit >= 0x20_0000_0000_0000,
                    unit > 0,
            ;
            lemma_pow2_unfold((s + 1) as nat);
            lemma_div_denominator(p as int, unit as int, 2);
            lemma_pow2_adds(64, 11);
            if s >= 75 {
                if s > 75 {
                    lemma_pow2_strictly_increases(75, s as nat);
                }
                assert(false);
            }
        }
        unit = unit * 2;
        s = s + 1;
    }
    let q: u128 = p / unit;
    let rem: u128 = p % unit;
    proof {
        lemma_excess_bits_quotient(p as nat);
    }
    let up: bool = 2 * rem > unit || (2 * rem == unit && q % 2 == 1);
    let m: u64 = if up {
        (q + 1) as u64
    } else {
        q as u64
    };
    proof {
        if p > 0 && !up {
            lemma_fundamental_div_mod(p as int, unit as int);
            if q == 0 {
                assert(unit * 0 == 0);
                assert(s > 0);
            }
        }
    }
    (m, s)
}

} // verus!
