//! Exact halving and doubling of binary64 values, on their bit patterns.
//!
//! The zoom factor is a 64-bit floating-point value, but the only
//! arithmetic the navigation controller performs on it is a plain
//! division or multiplication by two.  Both are simple, fully specified
//! bit manipulations of the binary64 interchange format, so the library
//! carries them out directly on the bit pattern and proves them against
//! an integer model of the represented value: every finite binary64
//! datum is an integer multiple of 2^-1074, and `scaled_value` returns
//! that multiple.

use vstd::prelude::*;
use vstd::arithmetic::power2::{pow2, lemma_pow2_unfold, lemma2_to64};

verus! {

/// Sign bit of a binary64 datum.
pub const SIGN_MASK: u64 = 0x8000_0000_0000_0000;

/// The eleven bits of the biased exponent field.
pub const EXP_MASK: u64 = 0x7FF0_0000_0000_0000;

/// The 52 bits of the fraction field.
pub const FRAC_MASK: u64 = 0x000F_FFFF_FFFF_FFFF;

/// One unit of the biased exponent field; equally, the implicit leading
/// significand bit of a normal value.
pub const EXP_UNIT: u64 = 0x0010_0000_0000_0000;

/// Everything but the sign: exponent and fraction together.
pub const MAG_MASK: u64 = 0x7FFF_FFFF_FFFF_FFFF;

/// The biased exponent reserved for infinities and NaNs.
pub const EXP_SPECIAL: u64 = 0x7FF;

/// The sign bit of a datum, in place.
pub open spec fn sign_field(b: u64) -> u64 {
    b & SIGN_MASK
}

/// The magnitude bits of a datum: exponent and fraction.
pub open spec fn magnitude(b: u64) -> u64 {
    b & MAG_MASK
}

/// The biased exponent of a datum.
pub open spec fn biased_exp(b: u64) -> u64 {
    (b & EXP_MASK) >> 52u64
}

/// The fraction field of a datum.
pub open spec fn fraction(b: u64) -> u64 {
    b & FRAC_MASK
}

/// Finite values are everything outside the top exponent.
pub open spec fn is_finite(b: u64) -> bool {
    biased_exp(b) != EXP_SPECIAL
}

/// The magnitude of a finite datum scaled by 2^1074, which makes it an
/// integer: a subnormal magnitude is the bare fraction, a normal one
/// carries the implicit leading bit and a power of two.
pub open spec fn scaled_magnitude(b: u64) -> nat {
    if biased_exp(b) == 0 {
        fraction(b) as nat
    } else {
        (EXP_UNIT + fraction(b)) as nat * pow2((biased_exp(b) - 1) as nat)
    }
}

/// The value of a finite datum scaled by 2^1074.
pub open spec fn scaled_value(b: u64) -> int {
    if sign_field(b) == 0 {
        scaled_magnitude(b) as int
    } else {
        -(scaled_magnitude(b) as int)
    }
}

/// Halving a finite value is exact except at the bottom of the exponent
/// range with an odd significand, where a rounding step is unavoidable.
pub open spec fn halve_is_exact(b: u64) -> bool {
    biased_exp(b) >= 2 || magnitude(b) % 2 == 0
}

/// `m / 2` rounded to nearest, ties to even, for a significand `m`.
pub open spec fn round_half_even(m: u64) -> u64 {
    let q = m >> 1u64;
    if m & 1 == 1 && q & 1 == 1 {
        (q + 1) as u64
    } else {
        q
    }
}

/// The bit pattern of twice a value: a subnormal significand shifts
/// left (carrying, when it grows past the fraction field, into the
/// lowest normal exponent), a normal value steps its exponent up, the
/// topmost finite exponent overflows to the infinity of the same sign,
/// and the non-finite values stay what they are.
pub open spec fn spec_double_bits(b: u64) -> u64 {
    if !is_finite(b) {
        b
    } else if magnitude(b) < EXP_UNIT {
        sign_field(b) | (magnitude(b) << 1u64)
    } else if biased_exp(b) == 2046 {
        sign_field(b) | EXP_MASK
    } else {
        (b + EXP_UNIT) as u64
    }
}

/// The bit pattern of half a value, rounded to nearest with ties to
/// even: a biased exponent of two or more steps down exactly; at the
/// bottom of the range the significand shifts right, the lost bit
/// rounding the result to the even neighbour; non-finite values stay
/// what they are.
pub open spec fn spec_halve_bits(b: u64) -> u64 {
    if !is_finite(b) {
        b
    } else if biased_exp(b) >= 2 {
        (b - EXP_UNIT) as u64
    } else {
        sign_field(b) | round_half_even(magnitude(b))
    }
}

/// Double a binary64 value given as its bit pattern.
pub fn double_bits(b: u64) -> (r: u64)
    ensures
        r == spec_double_bits(b),
{
    let mag = b & MAG_MASK;
    let exp = (b & EXP_MASK) >> 52u64;
    if exp == EXP_SPECIAL {
        b
    } else if mag < EXP_UNIT {
        (b & SIGN_MASK) | (mag << 1u64)
    } else if exp == 2046 {
        (b & SIGN_MASK) | EXP_MASK
    } else {
        proof {
            assert((b & EXP_MASK) >> 52u64 <= 2047) by (bit_vector);
            assert(b + EXP_UNIT <= u64::MAX) by (bit_vector)
                requires
                    (b & EXP_MASK) >> 52u64 < 2046,
            ;
        }
        b + EXP_UNIT
    }
}

/// Halve a binary64 value given as its bit pattern.
pub fn halve_bits(b: u64) -> (r: u64)
    ensures
        r == spec_halve_bits(b),
{
    let mag = b & MAG_MASK;
    let exp = (b & EXP_MASK) >> 52u64;
    if exp == EXP_SPECIAL {
        b
    } else if exp >= 2 {
        proof {
            assert(b >= EXP_UNIT) by (bit_vector)
                requires
                    (b & EXP_MASK) >> 52u64 >= 2,
            ;
        }
        b - EXP_UNIT
    } else {
        let q = mag >> 1u64;
        proof {
            assert(mag >> 1u64 < 0x8000_0000_0000_0000u64) by (bit_vector);
        }
        let half = if (mag & 1) == 1 && (q & 1) == 1 {
            q + 1
        } else {
            q
        };
        (b & SIGN_MASK) | half
    }
}

/// Doubling a finite value below the top finite exponent keeps it
/// finite and its sign, and doubles its scaled value exactly.
pub proof fn lemma_double_value(b: u64)
    requires
        is_finite(b),
        biased_exp(b) < 2046,
    ensures
        is_finite(spec_double_bits(b)),
        sign_field(spec_double_bits(b)) == sign_field(b),
        scaled_value(spec_double_bits(b)) == 2 * scaled_value(b),
{
    lemma2_to64();
    let r = spec_double_bits(b);
    if magnitude(b) < EXP_UNIT {
        let m = magnitude(b);
        assert(biased_exp(b) == 0 && fraction(b) == m && m << 1u64 == 2 * m) by (bit_vector)
            requires
                m == b & MAG_MASK && m < EXP_UNIT,
        ;
        assert(sign_field(r) == sign_field(b) && magnitude(r) == 2 * m && (
        if 2 * m < EXP_UNIT {
            biased_exp(r) == 0 && fraction(r) == 2 * m
        } else {
            biased_exp(r) == 1 && fraction(r) == 2 * m - EXP_UNIT
        })) by (bit_vector)
            requires
                m == b & MAG_MASK && m < EXP_UNIT && r == (b & SIGN_MASK) | (m << 1u64),
        ;
        assert(scaled_magnitude(b) == m);
        if 2 * m < EXP_UNIT {
            assert(scaled_magnitude(r) == fraction(r));
        } else {
            assert(biased_exp(r) == 1);
            assert((biased_exp(r) - 1) as nat == 0);
            assert(pow2(0) == 1);
            assert(scaled_magnitude(r) == (EXP_UNIT + fraction(r)) as nat * pow2(0));
            assert(scaled_magnitude(r) == EXP_UNIT + fraction(r));
        }
        assert(scaled_magnitude(r) == 2 * scaled_magnitude(b));
    } else {
        let e = biased_exp(b);
        let f = fraction(b);
        assert(1 <= e <= 2045) by (bit_vector)
            requires
                e == (b & EXP_MASK) >> 52u64 && (b & MAG_MASK) >= EXP_UNIT && e < 2046,
        ;
        assert(sign_field(r) == sign_field(b) && biased_exp(r) == e + 1 && fraction(r) == f) by (
        bit_vector)
            requires
                e == (b & EXP_MASK) >> 52u64 && f == b & FRAC_MASK && 1 <= e <= 2045 && r == (b
                    + EXP_UNIT) as u64,
        ;
        lemma_pow2_unfold(e as nat);
        let p_small = pow2((e - 1) as nat);
        let p_big = pow2(e as nat);
        assert(p_big == 2 * p_small);
        assert((biased_exp(r) - 1) as nat == e as nat);
        assert(scaled_magnitude(b) == (EXP_UNIT + f) as nat * p_small);
        assert(scaled_magnitude(r) == (EXP_UNIT + f) as nat * p_big);
        assert((EXP_UNIT + f) as nat * p_big == 2 * ((EXP_UNIT + f) as nat * p_small))
            by (nonlinear_arith)
            requires
                p_big == 2 * p_small,
        ;
        assert(scaled_magnitude(r) == 2 * scaled_magnitude(b));
    }
}

/// Halving a finite value whose halving is exact keeps it finite and
/// its sign, and halves its scaled value exactly.
pub proof fn lemma_halve_value(b: u64)
    requires
        is_finite(b),
        halve_is_exact(b),
    ensures
        is_finite(spec_halve_bits(b)),
        sign_field(spec_halve_bits(b)) == sign_field(b),
        2 * scaled_value(spec_halve_bits(b)) == scaled_value(b),
{
    lemma2_to64();
    let r = spec_halve_bits(b);
    if biased_exp(b) >= 2 {
        let e = biased_exp(b);
        let f = fraction(b);
        assert(2 <= e <= 2046) by (bit_vector)
            requires
                e == (b & EXP_MASK) >> 52u64 && 2 <= e && e != EXP_SPECIAL,
        ;
        assert(sign_field(r) == sign_field(b) && biased_exp(r) == e - 1 && fraction(r) == f) by (
        bit_vector)
            requires
                e == (b & EXP_MASK) >> 52u64 && f == b & FRAC_MASK && 2 <= e <= 2046 && r == (b
                    - EXP_UNIT) as u64,
        ;
        lemma_pow2_unfold((e - 1) as nat);
        let p_small = pow2((e - 2) as nat);
        let p_big = pow2((e - 1) as nat);
        assert(p_big == 2 * p_small);
        assert((biased_exp(r) - 1) as nat == (e - 2) as nat);
        assert(scaled_magnitude(b) == (EXP_UNIT + f) as nat * p_big);
        assert(scaled_magnitude(r) == (EXP_UNIT + f) as nat * p_small);
        assert(2 * ((EXP_UNIT + f) as nat * p_small) == (EXP_UNIT + f) as nat * p_big)
            by (nonlinear_arith)
            requires
                p_big == 2 * p_small,
        ;
        assert(scaled_magnitude(b) == 2 * scaled_magnitude(r));
    } else {
        let m = magnitude(b);
        let q = m >> 1u64;
        assert(m & 1 == 0 && q < EXP_UNIT && 2 * q == m) by (bit_vector)
            requires
                m == b & MAG_MASK && q == m >> 1u64 && (b & EXP_MASK) >> 52u64 <= 1 && m % 2 == 0,
        ;
        assert(sign_field(r) == sign_field(b) && biased_exp(r) == 0 && fraction(r) == q) by (
        bit_vector)
            requires
                m == b & MAG_MASK && q == m >> 1u64 && q < EXP_UNIT && m & 1 == 0 && r == (b
                    & SIGN_MASK) | q,
        ;
        assert(((b & EXP_MASK) >> 52u64 == 1 ==> b & FRAC_MASK == m - EXP_UNIT && m >= EXP_UNIT)
            && ((b & EXP_MASK) >> 52u64 == 0 ==> b & FRAC_MASK == m)) by (bit_vector)
            requires
                m == b & MAG_MASK,
        ;
        if biased_exp(b) == 0 {
            assert(scaled_magnitude(b) == fraction(b));
        } else {
            assert(biased_exp(b) == 1);
            assert((biased_exp(b) - 1) as nat == 0);
            assert(pow2(0) == 1);
            assert(scaled_magnitude(b) == (EXP_UNIT + fraction(b)) as nat * pow2(0));
            assert(scaled_magnitude(b) == EXP_UNIT + fraction(b));
        }
        assert(scaled_magnitude(b) == m);
        assert(scaled_magnitude(r) == q);
    }
}

/// An exact halving is undone bit for bit by the doubling that follows
/// it.
pub proof fn lemma_halve_then_double(b: u64)
    requires
        is_finite(b),
        halve_is_exact(b),
    ensures
        spec_double_bits(spec_halve_bits(b)) == b,
{
    assert(spec_double_bits(spec_halve_bits(b)) == b) by (bit_vector)
        requires
            (b & EXP_MASK) >> 52u64 != EXP_SPECIAL && ((b & EXP_MASK) >> 52u64 >= 2 || (b
                & MAG_MASK) % 2 == 0),
    ;
}

} // verus!
