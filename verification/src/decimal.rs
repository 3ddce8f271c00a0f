//! Decimal numbers without floating point.
//!
//! The connector validates a decimal number, stores it and hands it on. So
//! a number is carried in the form in which it arrived, by the bits of its
//! double or by its text, and the host boundary turns it into a double. The
//! one computation, truncating a double to an integer, is done on the bits.

use vstd::arithmetic::power2::{lemma2_to64, lemma_pow2_strictly_increases, pow2};
use vstd::bits::{lemma_u64_shl_is_mul, lemma_u64_shr_is_div};
use vstd::prelude::*;

verus! {

/// A decimal number on its way to the host.
#[derive(Debug, Clone, PartialEq, Eq)]
pub enum Decimal {
    /// A double, by its IEEE-754 bit pattern.
    Bits(u64),
    /// A number still in the text in which the upstream sent it. It stands
    /// for the double that the text spells, and for zero where it spells no
    /// finite number.
    Text(String),
}

/// The mathematical value of a [`Decimal`].
pub ghost enum DecimalModel {
    Bits(u64),
    Text(Seq<char>),
}

impl View for Decimal {
    type V = DecimalModel;

    open spec fn view(&self) -> DecimalModel {
        match self {
            Decimal::Bits(bits) => DecimalModel::Bits(*bits),
            Decimal::Text(text) => DecimalModel::Text(text@),
        }
    }
}

/// Whether the sign bit of a double is set.
pub open spec fn double_negative(bits: u64) -> bool {
    bits >= 0x8000_0000_0000_0000
}

/// The biased exponent of a double: the eleven bits below the sign.
pub open spec fn double_exponent(bits: u64) -> nat {
    (bits as nat / 0x10_0000_0000_0000) % 0x800
}

/// The fraction of a double: its low fifty-two bits.
pub open spec fn double_fraction(bits: u64) -> nat {
    bits as nat % 0x10_0000_0000_0000
}

/// Whether a double is not a number.
pub open spec fn double_is_nan(bits: u64) -> bool {
    double_exponent(bits) == 0x7ff && double_fraction(bits) != 0
}

/// The whole part of the magnitude of a double that is at least one in
/// magnitude: its significand, `2^52 + fraction`, scaled by two to the
/// power of `exponent - 1075` and rounded down.
pub open spec fn whole_magnitude(bits: u64) -> nat
    recommends
        double_exponent(bits) >= 1023,
{
    let significand = 0x10_0000_0000_0000 + double_fraction(bits);
    let exponent = double_exponent(bits);
    if exponent >= 1075 {
        significand * pow2((exponent - 1075) as nat)
    } else {
        significand / pow2((1075 - exponent) as nat)
    }
}

/// A double truncated toward zero to a 64-bit integer: zero for what is not
/// a number, and the nearest bound for what lies outside the range.
pub open spec fn truncated(bits: u64) -> int {
    if double_is_nan(bits) || double_exponent(bits) < 1023 {
        0
    } else if double_negative(bits) {
        if -whole_magnitude(bits) < i64::MIN {
            i64::MIN as int
        } else {
            -whole_magnitude(bits)
        }
    } else {
        if whole_magnitude(bits) > i64::MAX {
            i64::MAX as int
        } else {
            whole_magnitude(bits) as int
        }
    }
}

/// Truncates a double, given by its bits, toward zero to a 64-bit integer.
pub fn truncate_double(bits: u64) -> (r: i64)
    ensures
        r == truncated(bits),
{
    let negative = bits >> 63 == 1;
    let exponent = (bits >> 52) & 0x7ff;
    let fraction = bits & 0xf_ffff_ffff_ffff;
    proof {
        assert((bits >> 63 == 1) == (bits >= 0x8000_0000_0000_0000)) by (bit_vector);
        assert((bits >> 52) & 0x7ff == (bits / 0x10_0000_0000_0000) % 0x800) by (bit_vector);
        assert(bits & 0xf_ffff_ffff_ffff == bits % 0x10_0000_0000_0000) by (bit_vector);
        lemma2_to64();
    }
    if exponent == 0x7ff && fraction != 0 {
        return 0;
    }
    if exponent < 1023 {
        return 0;
    }
    let significand = fraction | 0x10_0000_0000_0000;
    assert(significand == fraction + 0x10_0000_0000_0000) by (bit_vector)
        requires
            significand == fraction | 0x10_0000_0000_0000,
            fraction < 0x10_0000_0000_0000,
    ;
    if exponent >= 1086 {
        proof {
            let scale = pow2((exponent - 1075) as nat);
            if exponent > 1086 {
                lemma_pow2_strictly_increases(11, (exponent - 1075) as nat);
            }
            assert(significand * scale >= 0x8000_0000_0000_0000) by (nonlinear_arith)
                requires
                    significand >= 0x10_0000_0000_0000,
                    scale >= 2048,
            ;
        }
        return if negative {
            i64::MIN
        } else {
            i64::MAX
        };
    }
    let magnitude = if exponent >= 1075 {
        let shift = exponent - 1075;
        proof {
            let scale = pow2(shift as nat);
            if shift < 10 {
                lemma_pow2_strictly_increases(shift as nat, 10);
            }
            assert(significand * scale < 0x8000_0000_0000_0000) by (nonlinear_arith)
                requires
                    significand < 0x20_0000_0000_0000,
                    0 <= scale <= 1024,
            ;
            lemma_u64_shl_is_mul(significand, shift);
        }
        significand << shift
    } else {
        let shift = 1075 - exponent;
        proof {
            lemma_u64_shr_is_div(significand, shift);
            assert(significand >> shift <= significand) by (bit_vector);
        }
        significand >> shift
    };
    if negative {
        -(magnitude as i64)
    } else {
        magnitude as i64
    }
}

} // verus!
