//! Integer arithmetic on IEEE-754 binary32 bit patterns.
//!
//! A record's catalog number is stored on disk as a binary32 value.
//! The decoder never needs floating-point arithmetic on it: whether
//! the value is finite and non-negative, and its integer part, are
//! both functions of the bit pattern alone, and are computed here
//! with shifts and masks.

use vstd::prelude::*;
use vstd::arithmetic::power2::{pow2, lemma2_to64, lemma_pow2_strictly_increases};
use vstd::bits::{lemma_u32_shl_is_mul, lemma_u32_shr_is_div};

verus! {

/// The 8-bit biased exponent field of a binary32 bit pattern.
pub open spec fn exponent_field(bits: u32) -> u32 {
    (bits >> 23) & 0xff
}

/// The 23-bit fraction field of a binary32 bit pattern.
pub open spec fn fraction_field(bits: u32) -> u32 {
    bits & 0x7f_ffff
}

/// The pattern encodes a finite value (neither infinity nor NaN).
pub open spec fn is_finite_bits(bits: u32) -> bool {
    exponent_field(bits) != 0xff
}

/// The sign bit is set (true of negative zero too).
pub open spec fn is_sign_negative_bits(bits: u32) -> bool {
    bits >= 0x8000_0000
}

/// The encoded value is finite and not less than zero; negative zero
/// passes. This is the admission test for a record's catalog number.
pub open spec fn is_valid_star_number(bits: u32) -> bool {
    is_finite_bits(bits) && (!is_sign_negative_bits(bits) || bits == 0x8000_0000)
}

/// The encoded value truncated toward zero to a `u32`, saturating at
/// `u32::MAX`, for patterns admitted by `is_valid_star_number`. A
/// normal value is m × 2^(e − 150) with m the fraction field plus the
/// implicit leading bit and e the biased exponent; values below 1
/// (zero and subnormals included) truncate to 0, and values of 2^32
/// or more saturate.
pub open spec fn trunc_to_u32(bits: u32) -> u32 {
    let e = exponent_field(bits) as int;
    let m = fraction_field(bits) + 0x80_0000;
    if e < 127 {
        0
    } else if e >= 159 {
        u32::MAX
    } else if e <= 150 {
        (m / pow2((150 - e) as nat) as int) as u32
    } else {
        (m * pow2((e - 150) as nat) as int) as u32
    }
}

/// True iff the pattern may serve as a catalog number.
pub fn star_number_valid(bits: u32) -> (b: bool)
    ensures
        b == is_valid_star_number(bits),
{
    let e: u32 = (bits >> 23) & 0xff;
    e != 0xff && (bits < 0x8000_0000 || bits == 0x8000_0000)
}

/// The integer part of the encoded value, for admitted patterns.
pub fn trunc_f32_bits_to_u32(bits: u32) -> (v: u32)
    ensures
        v == trunc_to_u32(bits),
{
    let e: u32 = (bits >> 23) & 0xff;
    proof {
        assert(bits & 0x7f_ffff <= 0x7f_ffff) by (bit_vector);
    }
    let m: u32 = (bits & 0x7f_ffff) + 0x80_0000;
    if e < 127 {
        0
    } else if e >= 159 {
        u32::MAX
    } else if e <= 150 {
        let s: u32 = 150 - e;
        proof {
            lemma_u32_shr_is_div(m, s);
        }
        m >> s
    } else {
        let s: u32 = e - 150;
        proof {
            lemma2_to64();
            if s < 8 {
                lemma_pow2_strictly_increases(s as nat, 8);
            }
            assert(m * pow2(s as nat) <= u32::MAX) by (nonlinear_arith)
                requires
                    m <= 0xff_ffff,
                    pow2(s as nat) <= 0x100,
            ;
            lemma_u32_shl_is_mul(m, s);
        }
        m << s
    }
}

} // verus!
