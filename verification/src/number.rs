//! Numbers as they cross the wire: the 64 bits of an IEEE-754 binary64 value.
//!
//! A number argument is carried as its bit pattern. The spec functions below
//! read the sign, exponent and fraction fields, so that the value of a finite
//! number is `(-1)^sign * significand * 2^exponent`, and each check a method
//! makes of a number is stated over that value.

use vstd::prelude::*;
use vstd::arithmetic::power2::*;
use vstd::arithmetic::div_mod::*;
use vstd::arithmetic::mul::*;

verus! {

pub open spec fn magnitude_bits(b: u64) -> nat {
    (b % 0x8000_0000_0000_0000) as nat
}

pub open spec fn biased_exponent(b: u64) -> nat {
    magnitude_bits(b) / 0x10_0000_0000_0000
}

pub open spec fn fraction(b: u64) -> nat {
    magnitude_bits(b) % 0x10_0000_0000_0000
}

/// The sign bit is set (this includes `-0.0` and negative NaNs).
pub open spec fn is_negative(b: u64) -> bool {
    b >= 0x8000_0000_0000_0000
}

pub open spec fn is_nan(b: u64) -> bool {
    biased_exponent(b) == 0x7ff && fraction(b) != 0
}

pub open spec fn is_infinite(b: u64) -> bool {
    biased_exponent(b) == 0x7ff && fraction(b) == 0
}

pub open spec fn is_finite(b: u64) -> bool {
    biased_exponent(b) < 0x7ff
}

/// The integer significand of a finite value (with the implicit leading bit of
/// normal numbers).
pub open spec fn significand(b: u64) -> nat {
    if biased_exponent(b) == 0 {
        fraction(b)
    } else {
        fraction(b) + 0x10_0000_0000_0000
    }
}

/// The power of two that scales the significand of a finite value.
pub open spec fn exponent(b: u64) -> int {
    if biased_exponent(b) == 0 {
        -1074
    } else {
        biased_exponent(b) - 1075
    }
}

/// `+0.0` or `-0.0`.
pub open spec fn is_zero(b: u64) -> bool {
    is_finite(b) && significand(b) == 0
}

/// The magnitude of a finite value rounded toward zero.
pub open spec fn truncated(b: u64) -> nat {
    if exponent(b) >= 0 {
        significand(b) * pow2(exponent(b) as nat)
    } else {
        significand(b) / pow2((-exponent(b)) as nat)
    }
}

/// A finite value with no fractional part (`value.fract() == 0.0`).
pub open spec fn is_integral(b: u64) -> bool {
    is_finite(b) && (exponent(b) >= 0 || significand(b) % pow2((-exponent(b)) as nat) == 0)
}

/// `value >= 0.0` (true of both zeros, false of NaN).
pub open spec fn is_at_least_zero(b: u64) -> bool {
    !is_nan(b) && (!is_negative(b) || is_zero(b))
}

/// `value > 0.0`.
pub open spec fn is_positive(b: u64) -> bool {
    !is_nan(b) && !is_negative(b) && !is_zero(b)
}

/// The magnitude of the finite value `b` is at most `m * 2^e`.
pub open spec fn magnitude_at_most(b: u64, m: nat, e: nat) -> bool {
    if exponent(b) >= e {
        significand(b) * pow2((exponent(b) - e) as nat) <= m
    } else {
        significand(b) <= m * pow2((e - exponent(b)) as nat)
    }
}

/// `f32::MAX` is `0xff_ffff * 2^104`.
pub open spec fn f32_max_significand() -> nat {
    0xff_ffff
}

/// A finite value in `f32::MIN ..= f32::MAX`.
pub open spec fn is_f32_range(b: u64) -> bool {
    is_finite(b) && magnitude_at_most(b, f32_max_significand(), 104)
}

/// `value >= 0.5` (false of NaN, true of `+inf`).
pub open spec fn is_at_least_half(b: u64) -> bool {
    !is_nan(b) && !is_negative(b) && (is_infinite(b) || (if exponent(b) >= -1 {
        significand(b) >= 1
    } else {
        significand(b) >= pow2((-1 - exponent(b)) as nat)
    }))
}

/// `value != 0.0` (true of NaN).
pub open spec fn is_nonzero(b: u64) -> bool {
    !is_zero(b)
}

/// A non-negative integer that `u64` holds exactly: finite, `>= 0`, with no
/// fractional part and below `2^64`.
pub open spec fn exact_u64(b: u64) -> Option<u64> {
    if is_integral(b) && is_at_least_zero(b) && truncated(b) <= u64::MAX {
        Some(truncated(b) as u64)
    } else {
        None
    }
}

/// `value as u64`: NaN and negative values give 0, values past the range give
/// `u64::MAX`, others are rounded toward zero.
pub open spec fn saturating_u64(b: u64) -> u64 {
    if is_nan(b) || is_negative(b) {
        0
    } else if is_infinite(b) || truncated(b) > u64::MAX {
        u64::MAX
    } else {
        truncated(b) as u64
    }
}

/// A finite value whose magnitude is at most `2^64`, the binary64 value
/// `u64::MAX as f64` rounds to.
pub open spec fn is_within_2_64(b: u64) -> bool {
    is_finite(b) && (truncated(b) <= u64::MAX || magnitude_bits(b) == 0x43f0_0000_0000_0000)
}

proof fn lemma_decode(b: u64)
    ensures
        magnitude_bits(b) < 0x8000_0000_0000_0000,
        biased_exponent(b) <= 0x7ff,
        fraction(b) < 0x10_0000_0000_0000,
        significand(b) < 0x20_0000_0000_0000,
        biased_exponent(b) != 0 ==> significand(b) >= 0x10_0000_0000_0000,
{
}

/// `(sig / 2^shift, sig % 2^shift == 0)`.
fn shift_down(sig: u64, shift: u64) -> (r: (u64, bool))
    requires
        sig < 0x20_0000_0000_0000,
    ensures
        r.0 == (sig as nat) / pow2(shift as nat),
        r.1 == ((sig as nat) % pow2(shift as nat) == 0),
{
    if shift >= 64 {
        proof {
            lemma2_to64();
            lemma2_to64_rest();
            lemma_pow2_strictly_increases(53, shift as nat);
            lemma_small_mod(sig as nat, pow2(shift as nat));
            vstd::arithmetic::div_mod::lemma_basic_div(sig as int, pow2(shift as nat) as int);
        }
        return (0, sig == 0);
    }
    let mut v: u64 = sig;
    let mut exact = true;
    let mut j: u64 = 0;
    proof {
        lemma2_to64();
            lemma2_to64_rest();
        assert((sig as nat) / pow2(0) == sig);
        assert((sig as nat) % pow2(0) == 0);
    }
    while j < shift
        invariant
            j <= shift < 64,
            v == (sig as nat) / pow2(j as nat),
            exact == ((sig as nat) % pow2(j as nat) == 0),
        decreases shift - j,
    {
        proof {
            lemma_pow2_pos(j as nat);
            lemma_pow2_adds(j as nat, 1);
            lemma2_to64();
            lemma2_to64_rest();
            lemma_div_denominator(sig as int, pow2(j as nat) as int, 2);
            lemma_mod_breakdown(sig as int, pow2(j as nat) as int, 2);
            assert(pow2((j + 1) as nat) == pow2(j as nat) * 2);
            lemma_mod_bound(sig as int, pow2(j as nat) as int);
            lemma_mul_nonnegative(
                pow2(j as nat) as int,
                (((sig as nat) / pow2(j as nat)) % 2) as int,
            );
            if ((sig as nat) / pow2(j as nat)) % 2 != 0 {
                lemma_mul_increases(
                    (((sig as nat) / pow2(j as nat)) % 2) as int,
                    pow2(j as nat) as int,
                );
            }
        }
        exact = exact && v % 2 == 0;
        v = v / 2;
        j = j + 1;
    }
    (v, exact)
}

/// `sig * 2^shift` when it fits in 64 bits.
fn shift_up(sig: u64, shift: u64) -> (r: Option<u64>)
    ensures
        r == (if (sig as nat) * pow2(shift as nat) <= u64::MAX {
            Some(((sig as nat) * pow2(shift as nat)) as u64)
        } else {
            None
        }),
{
    if sig == 0 {
        proof {
            lemma_mul_basics(pow2(shift as nat) as int);
        }
        return Some(0);
    }
    if shift >= 64 {
        proof {
            lemma2_to64();
            lemma2_to64_rest();
            if shift > 64 {
                lemma_pow2_strictly_increases(64, shift as nat);
            }
            lemma_mul_increases(sig as int, pow2(shift as nat) as int);
        }
        return None;
    }
    let mut v: u64 = sig;
    let mut k: u64 = 0;
    proof {
        lemma2_to64();
            lemma2_to64_rest();
    }
    while k < shift
        invariant
            0 < sig,
            k <= shift < 64,
            v == (sig as nat) * pow2(k as nat),
        decreases shift - k,
    {
        proof {
            lemma_pow2_adds(k as nat, 1);
            lemma2_to64();
            lemma2_to64_rest();
            lemma_mul_is_associative(sig as int, pow2(k as nat) as int, 2);
        }
        if v > u64::MAX / 2 {
            proof {
                lemma_pow2_adds((k + 1) as nat, (shift - k - 1) as nat);
                lemma_pow2_pos((shift - k - 1) as nat);
                lemma_mul_is_associative(
                    sig as int,
                    pow2((k + 1) as nat) as int,
                    pow2((shift - k - 1) as nat) as int,
                );
                lemma_mul_increases(
                    pow2((shift - k - 1) as nat) as int,
                    ((sig as nat) * pow2((k + 1) as nat)) as int,
                );
                lemma_mul_is_commutative(
                    pow2((shift - k - 1) as nat) as int,
                    ((sig as nat) * pow2((k + 1) as nat)) as int,
                );
            }
            return None;
        }
        v = v * 2;
        k = k + 1;
    }
    Some(v)
}

/// The fields of `b`: sign, biased exponent and significand.
fn decode(b: u64) -> (r: (bool, u64, u64))
    ensures
        r.0 == is_negative(b),
        r.1 == biased_exponent(b),
        r.2 == significand(b),
{
    proof {
        lemma_decode(b);
    }
    let m = b % 0x8000_0000_0000_0000;
    let be = m / 0x10_0000_0000_0000;
    let f = m % 0x10_0000_0000_0000;
    let sig = if be == 0 {
        f
    } else {
        f + 0x10_0000_0000_0000
    };
    (b >= 0x8000_0000_0000_0000, be, sig)
}

/// The rounded-toward-zero magnitude of a finite value when it fits in 64
/// bits, and whether the value is integral.
fn truncate(b: u64) -> (r: (Option<u64>, bool))
    requires
        is_finite(b),
    ensures
        r.0 == (if truncated(b) <= u64::MAX {
            Some(truncated(b) as u64)
        } else {
            None
        }),
        r.1 == is_integral(b),
{
    let (_, be, sig) = decode(b);
    proof {
        lemma_decode(b);
    }
    if be == 0 {
        let (q, exact) = shift_down(sig, 1074);
        (Some(q), exact)
    } else if be >= 1075 {
        (shift_up(sig, be - 1075), true)
    } else {
        let (q, exact) = shift_down(sig, 1075 - be);
        (Some(q), exact)
    }
}

pub fn f64_is_nan(b: u64) -> (r: bool)
    ensures
        r == is_nan(b),
{
    let (_, be, sig) = decode(b);
    be == 0x7ff && sig != 0x10_0000_0000_0000
}

pub fn f64_is_finite(b: u64) -> (r: bool)
    ensures
        r == is_finite(b),
{
    let (_, be, _) = decode(b);
    be < 0x7ff
}

pub fn f64_is_zero(b: u64) -> (r: bool)
    ensures
        r == is_zero(b),
{
    let (_, be, sig) = decode(b);
    be < 0x7ff && sig == 0
}

/// `value >= 0.0`.
pub fn f64_at_least_zero(b: u64) -> (r: bool)
    ensures
        r == is_at_least_zero(b),
{
    let (neg, _, _) = decode(b);
    !f64_is_nan(b) && (!neg || f64_is_zero(b))
}

/// `value > 0.0`.
pub fn f64_positive(b: u64) -> (r: bool)
    ensures
        r == is_positive(b),
{
    let (neg, _, _) = decode(b);
    !f64_is_nan(b) && !neg && !f64_is_zero(b)
}

/// `value != 0.0`.
pub fn f64_nonzero(b: u64) -> (r: bool)
    ensures
        r == is_nonzero(b),
{
    !f64_is_zero(b)
}

/// `value >= 0.5`.
pub fn f64_at_least_half(b: u64) -> (r: bool)
    ensures
        r == is_at_least_half(b),
{
    let (neg, be, sig) = decode(b);
    proof {
        lemma_decode(b);
    }
    if f64_is_nan(b) || neg {
        return false;
    }
    if be == 0x7ff {
        return true;
    }
    if be >= 1074 {
        return sig >= 1;
    }
    // exponent < -1: compare with 2^(-1 - exponent)
    let shift: u64 = if be == 0 {
        1073
    } else {
        1074 - be
    };
    let (q, _) = shift_down(sig, shift);
    proof {
        lemma_pow2_pos(shift as nat);
        if (sig as nat) >= pow2(shift as nat) {
            vstd::arithmetic::div_mod::lemma_div_is_ordered(
                pow2(shift as nat) as int,
                sig as int,
                pow2(shift as nat) as int,
            );
            vstd::arithmetic::div_mod::lemma_div_by_self(pow2(shift as nat) as int);
        } else {
            vstd::arithmetic::div_mod::lemma_basic_div(sig as int, pow2(shift as nat) as int);
        }
    }
    q >= 1
}

/// A finite value whose magnitude is at most `f32::MAX`.
pub fn f64_in_f32_range(b: u64) -> (r: bool)
    ensures
        r == is_f32_range(b),
{
    let (_, be, sig) = decode(b);
    proof {
        lemma_decode(b);
    }
    if be >= 0x7ff {
        return false;
    }
    // exponent >= 104 when be >= 1179
    if be >= 1179 {
        match shift_up(sig, be - 1179) {
            Some(v) => v <= 0xff_ffff,
            None => false,
        }
    } else {
        // significand <= 0xffffff * 2^(104 - exponent), where 104 - exponent >= 1
        let e: u64 = if be == 0 {
            1178
        } else {
            1179 - be
        };
        proof {
            lemma2_to64();
            lemma2_to64_rest();
        }
        if e >= 30 {
            proof {
                if e > 30 {
                    lemma_pow2_strictly_increases(30, e as nat);
                }
                lemma_mul_inequality(pow2(30) as int, pow2(e as nat) as int, 0xff_ffff);
                lemma_mul_is_commutative(pow2(e as nat) as int, 0xff_ffff);
                assert(pow2(30) * 0xff_ffff >= 0x20_0000_0000_0000);
            }
            true
        } else {
            match shift_up(0xff_ffff, e) {
                Some(v) => sig <= v,
                None => true,
            }
        }
    }
}

/// `exact_u64`: the value when it is a non-negative integer below `2^64`.
pub fn f64_exact_u64(b: u64) -> (r: Option<u64>)
    ensures
        r == exact_u64(b),
{
    if !f64_is_finite(b) || !f64_at_least_zero(b) {
        return None;
    }
    let (t, integral) = truncate(b);
    if !integral {
        return None;
    }
    t
}

/// `value as u64`.
pub fn f64_saturating_u64(b: u64) -> (r: u64)
    ensures
        r == saturating_u64(b),
{
    let (neg, be, _) = decode(b);
    if f64_is_nan(b) || neg {
        return 0;
    }
    if be == 0x7ff {
        return u64::MAX;
    }
    match truncate(b).0 {
        Some(t) => t,
        None => u64::MAX,
    }
}

/// `value.abs() <= u64::MAX as f64` of a finite value.
pub fn f64_within_2_64(b: u64) -> (r: bool)
    ensures
        r == is_within_2_64(b),
{
    if !f64_is_finite(b) {
        return false;
    }
    match truncate(b).0 {
        Some(_) => true,
        None => b % 0x8000_0000_0000_0000 == 0x43f0_0000_0000_0000,
    }
}

/// `value.fract() == 0.0` of a finite value.
pub fn f64_is_integral(b: u64) -> (r: bool)
    ensures
        r == is_integral(b),
{
    if !f64_is_finite(b) {
        return false;
    }
    truncate(b).1
}

/// An integer value `>= 1`.
pub fn f64_integer_at_least_one(b: u64) -> (r: bool)
    ensures
        r == (is_integral(b) && !is_negative(b) && truncated(b) >= 1),
{
    let (neg, _, _) = decode(b);
    if !f64_is_finite(b) || neg {
        return false;
    }
    let (t, integral) = truncate(b);
    integral && match t {
        Some(v) => v >= 1,
        None => true,
    }
}

} // verus!
