//! Equality on floating-point literals, which are held as the 64 bits of
//! their IEEE-754 binary64 encoding.
use vstd::arithmetic::power2::{
    lemma2_to64, lemma2_to64_rest, lemma_pow2_pos, lemma_pow2_strictly_increases, pow2,
};
use vstd::bits::{lemma_u64_low_bits_mask_is_mod, lemma_u64_shl_is_mul, lemma_u64_shr_is_div};
use vstd::prelude::*;

verus! {

/// The biased exponent field.
pub open spec fn exponent_field(bits: u64) -> u64 {
    (bits >> 52u64) & 0x7ffu64
}

/// The fraction field: the significand without its leading bit.
pub open spec fn fraction_field(bits: u64) -> u64 {
    bits & 0xf_ffff_ffff_ffffu64
}

/// Not a number: all exponent bits set and a fraction that is not zero.
pub open spec fn is_nan(bits: u64) -> bool {
    exponent_field(bits) == 0x7ff && fraction_field(bits) != 0
}

/// Positive or negative zero.
pub open spec fn is_zero(bits: u64) -> bool {
    bits & 0x7fff_ffff_ffff_ffffu64 == 0
}

/// IEEE-754 equality: NaN equals nothing, the two zeros are equal, and
/// otherwise equal numbers have equal encodings.
pub open spec fn float_equal(a: u64, b: u64) -> bool {
    !is_nan(a) && !is_nan(b) && (a == b || (is_zero(a) && is_zero(b)))
}

/// The magnitude of a finite number as an integer, where it is one.
pub open spec fn integral_magnitude(exponent: int, fraction: int) -> Option<int> {
    if exponent == 0 {
        // Zero, or a subnormal number, which lies strictly between 0 and 1.
        if fraction == 0 {
            Some(0)
        } else {
            None
        }
    } else {
        let significand = fraction + pow2(52);
        if exponent >= 1075 {
            Some(significand * pow2((exponent - 1075) as nat))
        } else if significand % pow2((1075 - exponent) as nat) as int == 0 {
            Some(significand / pow2((1075 - exponent) as nat) as int)
        } else {
            None
        }
    }
}

/// The exact value of the number encoded by `bits` where that value is an
/// integer; `None` for a number with a fractional part, an infinity or NaN.
pub open spec fn exact_integer(bits: u64) -> Option<int> {
    if exponent_field(bits) == 0x7ff {
        None
    } else {
        match integral_magnitude(exponent_field(bits) as int, fraction_field(bits) as int) {
            Some(m) => Some(
                if bits >> 63u64 == 1 {
                    -m
                } else {
                    m
                },
            ),
            None => None,
        }
    }
}

/// IEEE-754 equality of two encoded numbers.
pub fn floats_equal(a: u64, b: u64) -> (r: bool)
    ensures
        r == float_equal(a, b),
{
    let a_nan = (a >> 52) & 0x7ff == 0x7ff && a & 0xf_ffff_ffff_ffff != 0;
    let b_nan = (b >> 52) & 0x7ff == 0x7ff && b & 0xf_ffff_ffff_ffff != 0;
    let both_zero = a & 0x7fff_ffff_ffff_ffff == 0 && b & 0x7fff_ffff_ffff_ffff == 0;
    !a_nan && !b_nan && (a == b || both_zero)
}

/// Whether the number encoded by `bits` is exactly the integer `i`.
pub fn float_is_integer(bits: u64, i: i64) -> (r: bool)
    ensures
        r == (exact_integer(bits) == Some(i as int)),
{
    let exponent: u64 = (bits >> 52) & 0x7ff;
    let fraction: u64 = bits & 0xf_ffff_ffff_ffff;
    let negative: bool = bits >> 63 == 1;
    proof {
        lemma2_to64();
        lemma2_to64_rest();
        assert(exponent <= 0x7ff) by (bit_vector)
            requires
                exponent == (bits >> 52) & 0x7ff,
        ;
        assert(fraction < 0x10_0000_0000_0000) by (bit_vector)
            requires
                fraction == bits & 0xf_ffff_ffff_ffff,
        ;
    }
    if exponent == 0x7ff {
        return false;
    }
    if exponent == 0 {
        return fraction == 0 && i == 0;
    }
    let significand: u64 = fraction | 0x10_0000_0000_0000;
    proof {
        assert(significand == fraction + 0x10_0000_0000_0000) by (bit_vector)
            requires
                significand == fraction | 0x10_0000_0000_0000,
                fraction < 0x10_0000_0000_0000,
        ;
    }
    let magnitude: u64;
    if exponent >= 1075 {
        let shift: u64 = exponent - 1075;
        if shift > 11 {
            proof {
                if shift > 12 {
                    lemma_pow2_strictly_increases(12, shift as nat);
                }
                assert(significand * pow2(shift as nat) >= 0x1_0000_0000_0000_0000) by (
                nonlinear_arith)
                    requires
                        significand >= 0x10_0000_0000_0000,
                        pow2(shift as nat) >= 0x1000,
                ;
            }
            return false;
        }
        if shift == 11 {
            proof {
                assert(significand * pow2(11) >= 0x8000_0000_0000_0000);
            }
            return negative && fraction == 0 && i == i64::MIN;
        }
        proof {
            if shift < 10 {
                lemma_pow2_strictly_increases(shift as nat, 10);
            }
            assert(significand * pow2(shift as nat) < 0x8000_0000_0000_0000) by (nonlinear_arith)
                requires
                    significand < 0x20_0000_0000_0000,
                    pow2(shift as nat) <= 0x400,
            ;
            lemma_u64_shl_is_mul(significand, shift);
        }
        magnitude = significand << shift;
    } else {
        let shift: u64 = 1075 - exponent;
        if shift > 52 {
            proof {
                if shift > 53 {
                    lemma_pow2_strictly_increases(53, shift as nat);
                }
                vstd::arithmetic::div_mod::lemma_small_mod(
                    significand as nat,
                    pow2(shift as nat),
                );
            }
            return false;
        }
        proof {
            lemma_pow2_pos(shift as nat);
            if shift < 52 {
                lemma_pow2_strictly_increases(shift as nat, 52);
            }
            lemma_u64_shl_is_mul(1, shift);
            lemma_u64_low_bits_mask_is_mod(significand, shift as nat);
            lemma_u64_shr_is_div(significand, shift);
            assert(significand as nat / pow2(shift as nat) <= significand) by (nonlinear_arith)
                requires
                    pow2(shift as nat) >= 1,
            ;
        }
        if significand & ((1u64 << shift) - 1) != 0 {
            return false;
        }
        magnitude = significand >> shift;
    }
    if negative {
        i == -(magnitude as i64)
    } else {
        i == magnitude as i64
    }
}

} // verus!
