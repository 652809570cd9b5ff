//! Double-precision IEEE-754 values, carried as their 64-bit patterns.
//!
//! Verus holds no floating-point type, so every float travels through the
//! library as the `u64` bit pattern of an IEEE-754 double. The arithmetic
//! itself is done by outside softfloat code behind the trusted wrappers
//! below; what can be decided from the bit pattern alone (zero tests,
//! truthiness, decoding into sign, mantissa and exponent) is ordinary
//! verified code.
use vstd::prelude::*;

use rustc_apfloat::Float;
use rustc_apfloat::Round;
use rustc_apfloat::ieee::Double;
use astro_float::BigFloat;
use astro_float::Consts;
use astro_float::RoundingMode;
use astro_float::Sign::Neg;
use astro_float::Sign::Pos;

verus! {

/// Bit pattern of -0.0: only the sign bit set.
pub const NEG_ZERO_BITS: u64 = 0x8000_0000_0000_0000;

/// Bit pattern of a canonical quiet NaN.
pub const QNAN_BITS: u64 = 0x7FF8_0000_0000_0000;

/// Bit pattern of positive infinity.
pub const POS_INF_BITS: u64 = 0x7FF0_0000_0000_0000;

/// Bit pattern of negative infinity.
pub const NEG_INF_BITS: u64 = 0xFFF0_0000_0000_0000;

/// Whether the bit pattern is an IEEE-754 zero (either +0.0 or -0.0).
pub open spec fn is_zero_bits(b: u64) -> bool {
    b == 0 || b == NEG_ZERO_BITS
}

/// Runtime test for an IEEE-754 zero bit pattern.
pub fn float_is_zero(b: u64) -> (r: bool)
    ensures
        r == is_zero_bits(b),
{
    b == 0 || b == NEG_ZERO_BITS
}

/// The biased exponent field (bits 62..52) of a double's bit pattern.
pub open spec fn exp_field(b: u64) -> u64 {
    (b >> 52) & 0x7FF
}

/// The fraction field (bits 51..0) of a double's bit pattern.
pub open spec fn frac_field(b: u64) -> u64 {
    b & 0xF_FFFF_FFFF_FFFF
}

/// Whether the bit pattern holds a NaN.
pub open spec fn is_nan_bits(b: u64) -> bool {
    exp_field(b) == 0x7FF && frac_field(b) != 0
}

/// Whether the bit pattern holds an infinity.
pub open spec fn is_inf_bits(b: u64) -> bool {
    exp_field(b) == 0x7FF && frac_field(b) == 0
}

/// What `Double::add_r` returns on two double bit patterns.
pub uninterp spec fn float_add_of(a: u64, b: u64) -> u64;

/// What `Double::mul_r` returns on two double bit patterns.
pub uninterp spec fn float_mul_of(a: u64, b: u64) -> u64;

/// What `Double::sub_r` returns on two double bit patterns.
pub uninterp spec fn float_sub_of(a: u64, b: u64) -> u64;

/// What `Double::div_r` returns on two double bit patterns.
pub uninterp spec fn float_div_of(a: u64, b: u64) -> u64;

/// What `Double::c_fmod` returns on two double bit patterns.
pub uninterp spec fn float_rem_of(a: u64, b: u64) -> u64;

/// The double bit pattern of a 32-bit signed integer; every such
/// integer is exactly representable.
pub uninterp spec fn bits_of_int(i: i32) -> u64;

/// The value of a double bit pattern truncated toward zero and clamped
/// to the range of `i32`, with NaN taken to 0.
pub uninterp spec fn trunc_of(b: u64) -> i32;

/// The decimal rendering of a double bit pattern.
pub uninterp spec fn float_text_of(b: u64) -> Seq<char>;

/// What `BigFloat::pow` returns, as (kind, sign, mantissa word, binary
/// exponent) raw parts: kind 0 is a finite value, 1 an infinity, 2 a NaN.
pub uninterp spec fn pow_parts_of(
    a_neg: bool,
    a_m: u64,
    a_n: usize,
    a_e: i32,
    b_neg: bool,
    b_m: u64,
    b_n: usize,
    b_e: i32,
) -> (u8, bool, u64, i32);

/// The double bit pattern of `m * 2^e` as `Double::from_u128_r` and
/// `scalbn` compute it: `m` rounded to double precision with ties to
/// even, then scaled by `2^e` with the same rounding.
pub uninterp spec fn scaled_bits_of(m: u64, e: i32) -> u64;

/// Relies on rustc_apfloat's `Double::add_r`: IEEE-754 double addition,
/// rounding to nearest with ties to even, on bit patterns.
#[verifier::external_body]
pub(crate) fn float_add(a: u64, b: u64) -> (r: u64)
    ensures
        r == float_add_of(a, b),
{
    let x = Double::from_bits(a as u128);
    let y = Double::from_bits(b as u128);
    x.add_r(y, Round::NearestTiesToEven).value.to_bits() as u64
}

/// Relies on rustc_apfloat's `Double::sub_r`: IEEE-754 double subtraction,
/// rounding to nearest with ties to even, on bit patterns.
#[verifier::external_body]
pub(crate) fn float_sub(a: u64, b: u64) -> (r: u64)
    ensures
        r == float_sub_of(a, b),
{
    let x = Double::from_bits(a as u128);
    let y = Double::from_bits(b as u128);
    x.sub_r(y, Round::NearestTiesToEven).value.to_bits() as u64
}

/// Relies on rustc_apfloat's `Double::mul_r`: IEEE-754 double
/// multiplication, rounding to nearest with ties to even, on bit patterns.
#[verifier::external_body]
pub(crate) fn float_mul(a: u64, b: u64) -> (r: u64)
    ensures
        r == float_mul_of(a, b),
{
    let x = Double::from_bits(a as u128);
    let y = Double::from_bits(b as u128);
    x.mul_r(y, Round::NearestTiesToEven).value.to_bits() as u64
}

/// Relies on rustc_apfloat's `Double::div_r`: IEEE-754 double division,
/// rounding to nearest with ties to even, on bit patterns.
#[verifier::external_body]
pub(crate) fn float_div(a: u64, b: u64) -> (r: u64)
    ensures
        r == float_div_of(a, b),
{
    let x = Double::from_bits(a as u128);
    let y = Double::from_bits(b as u128);
    x.div_r(y, Round::NearestTiesToEven).value.to_bits() as u64
}

/// Relies on rustc_apfloat's `Double::c_fmod`: the C `fmod` remainder on
/// double bit patterns, as the `%` operator computes it.
#[verifier::external_body]
pub(crate) fn float_rem(a: u64, b: u64) -> (r: u64)
    ensures
        r == float_rem_of(a, b),
{
    let x = Double::from_bits(a as u128);
    let y = Double::from_bits(b as u128);
    x.c_fmod(y).value.to_bits() as u64
}

/// Relies on rustc_apfloat's `Double::from_i128_r`: conversion of a 32-bit
/// signed integer to the double that represents it exactly.
#[verifier::external_body]
pub(crate) fn float_of_int(i: i32) -> (r: u64)
    ensures
        r == bits_of_int(i),
{
    Double::from_i128_r(i as i128, Round::NearestTiesToEven).value.to_bits() as u64
}

/// Relies on rustc_apfloat's `Double::to_i128_r` with rounding toward
/// zero: it returns 0 for NaN and clamps out-of-range values to the
/// nearest end of the 32-bit signed range.
#[verifier::external_body]
pub(crate) fn float_trunc(b: u64) -> (r: i32)
    ensures
        r == trunc_of(b),
{
    let x = Double::from_bits(b as u128);
    let mut exact = false;
    x.to_i128_r(32, Round::TowardZero, &mut exact).value as i32
}

/// Relies on rustc_apfloat's `Display` for `Double`: a decimal rendering
/// of the value, a function of the bit pattern alone.
#[verifier::external_body]
pub(crate) fn float_text(b: u64) -> (r: String)
    ensures
        r@ == float_text_of(b),
{
    format!("{}", Double::from_bits(b as u128))
}

/// Relies on astro-float's `BigFloat::pow`: the power of two finite
/// doubles given as raw mantissa/exponent parts, computed at 64 bits of
/// working precision and truncated, handed back as raw parts; the final
/// rounding to double happens in the verified packing.
#[verifier::external_body]
pub(crate) fn float_pow_raw(
    a_neg: bool,
    a_m: u64,
    a_n: usize,
    a_e: i32,
    b_neg: bool,
    b_m: u64,
    b_n: usize,
    b_e: i32,
) -> (r: (u8, bool, u64, i32))
    ensures
        r == pow_parts_of(a_neg, a_m, a_n, a_e, b_neg, b_m, b_n, b_e),
{
    let x = BigFloat::from_raw_parts(&[a_m], a_n, if a_neg { Neg } else { Pos }, a_e, false);
    let y = BigFloat::from_raw_parts(&[b_m], b_n, if b_neg { Neg } else { Pos }, b_e, false);
    let mut cc = match Consts::new() {
        Ok(c) => c,
        Err(_) => return (2, false, 0, 0),
    };
    let p = x.pow(&y, 64, RoundingMode::None, &mut cc);
    if p.is_inf() {
        return (1, p.is_inf_neg(), 0, 0);
    }
    match p.as_raw_parts() {
        Some((m, _, s, e, _)) => (0, s == Neg, m.last().copied().unwrap_or(0), e),
        None => (2, false, 0, 0),
    }
}

/// Relies on rustc_apfloat's `Double::from_u128_r` and `scalbn`: the
/// double nearest to `m * 2^e`, rounding to nearest with ties to even.
#[verifier::external_body]
pub(crate) fn float_scaled(m: u64, e: i32) -> (r: u64)
    ensures
        r == scaled_bits_of(m, e),
{
    Double::from_u128_r(m as u128, Round::NearestTiesToEven).value.scalbn(e).to_bits() as u64
}

/// The mantissa doubled until its top bit is set (0 stays 0).
pub open spec fn norm_m(m: u64) -> u64
    decreases 0x1_0000_0000_0000_0000 - m,
{
    if m == 0 {
        0
    } else if m >= 0x8000_0000_0000_0000 {
        m
    } else {
        norm_m((m * 2) as u64)
    }
}

/// How many doublings `norm_m` takes.
pub open spec fn norm_count(m: u64) -> nat
    decreases 0x1_0000_0000_0000_0000 - m,
{
    if m == 0 {
        0
    } else if m >= 0x8000_0000_0000_0000 {
        0
    } else {
        1 + norm_count((m * 2) as u64)
    }
}

/// A nonzero mantissa normalizes to `m * 2^norm_count(m)`, which has the
/// top bit set; in particular at most 63 doublings happen.
pub proof fn lemma_norm(m: u64)
    requires
        m > 0,
    ensures
        norm_m(m) >= 0x8000_0000_0000_0000,
        norm_m(m) == m * vstd::arithmetic::power2::pow2(norm_count(m)),
        norm_count(m) <= 63,
    decreases 0x1_0000_0000_0000_0000 - m,
{
    if m >= 0x8000_0000_0000_0000 {
        vstd::arithmetic::power2::lemma2_to64();
        assert(norm_m(m) == m * vstd::arithmetic::power2::pow2(0));
    } else {
        let m2 = (m * 2) as u64;
        lemma_norm(m2);
        let c2 = norm_count(m2);
        assert(norm_count(m) == 1 + c2);
        assert(vstd::arithmetic::power2::pow2(1 + c2) == 2 * vstd::arithmetic::power2::pow2(c2))
            by {
            vstd::arithmetic::power2::lemma_pow2_unfold((1 + c2) as nat);
        }
        let p2 = vstd::arithmetic::power2::pow2(c2);
        assert(m * (2 * p2) == (2 * m) * p2) by (nonlinear_arith);
        assert(norm_m(m) == m * vstd::arithmetic::power2::pow2(norm_count(m)));
        if norm_count(m) > 63 {
            let c = norm_count(m);
            let p = vstd::arithmetic::power2::pow2(c);
            assert(vstd::arithmetic::power2::pow2(64) <= p) by {
                if c > 64 {
                    vstd::arithmetic::power2::lemma_pow2_strictly_increases(64, c);
                }
            }
            vstd::arithmetic::power2::lemma2_to64_rest();
            assert(m * p >= p) by (nonlinear_arith)
                requires
                    m >= 1,
                    p >= 0,
            ;
            assert(norm_m(m) >= 0x1_0000_0000_0000_0000);
            assert(false);
        }
    }
}

/// The sign, mantissa word, mantissa bit count and binary exponent of a
/// finite double bit pattern, as astro-float raw parts: the value is
/// `(-1)^sign * m / 2^64 * 2^e`.
pub open spec fn decode_parts(b: u64) -> (bool, u64, usize, i32) {
    let neg = b >= NEG_ZERO_BITS;
    let e = exp_field(b);
    let f = frac_field(b);
    if e == 0 {
        if f == 0 {
            (neg, 0u64, 0usize, 0i32)
        } else {
            (neg, norm_m(f), 64usize, (-1010 - norm_count(f)) as i32)
        }
    } else {
        (neg, ((f | 0x10_0000_0000_0000u64) << 11) as u64, 64usize, (e - 1022) as i32)
    }
}

/// Decodes a finite double bit pattern into raw parts.
pub(crate) fn decode_parts_exec(b: u64) -> (r: (bool, u64, usize, i32))
    requires
        !is_nan_bits(b),
        !is_inf_bits(b),
    ensures
        r == decode_parts(b),
{
    let neg = b >= NEG_ZERO_BITS;
    let e = (b >> 52) & 0x7FF;
    let f = b & 0xF_FFFF_FFFF_FFFF;
    if e == 0 {
        if f == 0 {
            (neg, 0u64, 0usize, 0i32)
        } else {
            let mut m: u64 = f;
            let mut k: u32 = 0;
            proof {
                lemma_norm(f);
            }
            while m < 0x8000_0000_0000_0000
                invariant
                    m > 0,
                    norm_m(f) == norm_m(m),
                    norm_count(f) == norm_count(m) + k,
                    norm_count(f) <= 63,
                decreases 0x1_0000_0000_0000_0000 - m,
            {
                m = m * 2;
                k = k + 1;
            }
            proof {
                assert(norm_count(m) == 0);
                assert(m == norm_m(m));
            }
            (neg, m, 64usize, -1010 - (k as i32))
        }
    } else {
        assert(((b >> 52) & 0x7FF) <= 0x7FF) by (bit_vector);
        assert((b & 0xF_FFFF_FFFF_FFFF) < 0x10_0000_0000_0000) by (bit_vector);
        (neg, (f | 0x10_0000_0000_0000u64) << 11, 64usize, (e as i32) - 1022)
    }
}

/// The bit pattern that the power instruction produces on two double bit
/// patterns: NaN when either operand is NaN or infinite, otherwise the
/// softfloat power of the decoded operands packed back into a double,
/// with overflow saturating to infinity and underflow flushing to zero.
pub open spec fn float_pow_model(a: u64, b: u64) -> u64 {
    if is_nan_bits(a) || is_inf_bits(a) || is_nan_bits(b) || is_inf_bits(b) {
        QNAN_BITS
    } else {
        let (an, am, an_bits, ae) = decode_parts(a);
        let (bn, bm, bn_bits, be) = decode_parts(b);
        let (k, rn, rm, re) = pow_parts_of(an, am, an_bits, ae, bn, bm, bn_bits, be);
        if k == 1 {
            if rn {
                NEG_INF_BITS
            } else {
                POS_INF_BITS
            }
        } else if k != 0 {
            QNAN_BITS
        } else if rm == 0 {
            if rn {
                NEG_ZERO_BITS
            } else {
                0
            }
        } else {
            let e2 = re - 64;
            let mag = if e2 > 2000 {
                POS_INF_BITS
            } else if e2 < -2200 {
                0u64
            } else {
                scaled_bits_of(rm, e2 as i32)
            };
            if rn {
                mag | NEG_ZERO_BITS
            } else {
                mag
            }
        }
    }
}

/// The power of two doubles given as bit patterns.
pub(crate) fn float_pow(a: u64, b: u64) -> (r: u64)
    ensures
        r == float_pow_model(a, b),
{
    let ae_field = (a >> 52) & 0x7FF;
    let be_field = (b >> 52) & 0x7FF;
    if ae_field == 0x7FF || be_field == 0x7FF {
        QNAN_BITS
    } else {
        let (an, am, an_bits, ax) = decode_parts_exec(a);
        let (bn, bm, bn_bits, bx) = decode_parts_exec(b);
        let (k, rn, rm, re) = float_pow_raw(an, am, an_bits, ax, bn, bm, bn_bits, bx);
        if k == 1 {
            if rn {
                NEG_INF_BITS
            } else {
                POS_INF_BITS
            }
        } else if k != 0 {
            QNAN_BITS
        } else if rm == 0 {
            if rn {
                NEG_ZERO_BITS
            } else {
                0
            }
        } else {
            let e2: i64 = (re as i64) - 64;
            let mag: u64 = if e2 > 2000 {
                POS_INF_BITS
            } else if e2 < -2200 {
                0u64
            } else {
                float_scaled(rm, e2 as i32)
            };
            if rn {
                mag | NEG_ZERO_BITS
            } else {
                mag
            }
        }
    }
}

} // verus!
