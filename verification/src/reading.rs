//! Exact sensor readings and their conversion to display samples.
//!
//! Both sensors report binary fractions: the CO2 sensor sends binary32
//! words, the barometer sends fixed-point counts. A `Reading` holds such a
//! number exactly, as a signed mantissa times a power of two. The display
//! works on samples in thousandths of the unit.

use vstd::arithmetic::div_mod::lemma_basic_div;
use vstd::arithmetic::power2::{lemma2_to64, lemma2_to64_rest, lemma_pow2_pos, lemma_pow2_strictly_increases, pow2};
use vstd::bits::{lemma_u64_shl_is_mul, lemma_u64_shr_is_div};
use vstd::prelude::*;

verus! {

/// The number `mantissa * 2^exponent`, negated where `negative` is set.
#[derive(Clone, Copy, Debug, PartialEq, Eq, Structural)]
pub struct Reading {
    pub negative: bool,
    pub mantissa: u32,
    pub exponent: i32,
}

/// Largest magnitude a sample can have. The most negative `i32` is never a
/// sample, so it is free to mark an empty slot.
pub const SAMPLE_LIMIT: i32 = 2147483647;

/// Bias of the binary32 exponent field plus the width of its fraction field.
pub const BINARY32_EXPONENT_OFFSET: i32 = 150;

/// The sign bit of a binary32 word.
pub open spec fn binary32_sign(word: u32) -> bool {
    word / 0x8000_0000 == 1
}

/// The 8-bit exponent field of a binary32 word.
pub open spec fn binary32_exponent(word: u32) -> int {
    ((word / 0x80_0000) % 256) as int
}

/// The 23-bit fraction field of a binary32 word.
pub open spec fn binary32_fraction(word: u32) -> int {
    (word % 0x80_0000) as int
}

/// The reading a binary32 word stands for. The leading one is implied
/// wherever the exponent field is not zero, and the value is the resulting
/// mantissa times two to the exponent field less 150. The formula is applied
/// to every word alike: an exponent field of 255 is read as a large number.
pub open spec fn binary32_reading(word: u32) -> Reading {
    Reading {
        negative: binary32_sign(word),
        mantissa: if binary32_exponent(word) != 0 {
            (binary32_fraction(word) + 0x80_0000) as u32
        } else {
            binary32_fraction(word) as u32
        },
        exponent: (binary32_exponent(word) - BINARY32_EXPONENT_OFFSET) as i32,
    }
}

/// A count of `1 / 2^fraction_bits`, as the barometer reports them.
pub open spec fn fixed_point_reading(count: u32, fraction_bits: u8) -> Reading {
    Reading { negative: false, mantissa: count, exponent: (-(fraction_bits as int)) as i32 }
}

impl Reading {
    /// `mantissa * scale * 2^exponent`, rounded down.
    pub open spec fn scaled_magnitude(self, scale: nat) -> nat {
        if self.exponent >= 0 {
            self.mantissa as nat * scale * pow2(self.exponent as nat)
        } else {
            (self.mantissa as nat * scale) / pow2((-self.exponent) as nat)
        }
    }

    /// The reading in thousandths: rounded toward zero, and held to
    /// `SAMPLE_LIMIT` either way.
    pub open spec fn thousandths(self) -> int {
        let scaled = self.scaled_magnitude(1000);
        let held = if scaled > SAMPLE_LIMIT {
            SAMPLE_LIMIT as int
        } else {
            scaled as int
        };
        if self.negative {
            -held
        } else {
            held
        }
    }

    /// Decodes a binary32 word.
    pub fn from_binary32(word: u32) -> (reading: Reading)
        ensures
            reading == binary32_reading(word),
            reading.mantissa < 0x100_0000,
            -150 <= reading.exponent <= 105,
    {
        let sign: u32 = word >> 31;
        let exponent: u32 = (word & 0x7F80_0000) >> 23;
        let fraction: u32 = word & 0x007F_FFFF;
        assert(word >> 31 == word / 0x8000_0000) by (bit_vector);
        assert((word & 0x7F80_0000) >> 23 == (word / 0x80_0000) % 256) by (bit_vector);
        assert(word & 0x007F_FFFF == word % 0x80_0000) by (bit_vector);
        let mantissa: u32 = if exponent != 0 {
            fraction + 0x0080_0000
        } else {
            fraction
        };
        Reading {
            negative: sign == 1,
            mantissa,
            exponent: exponent as i32 - BINARY32_EXPONENT_OFFSET,
        }
    }

    /// The reading for a count of `1 / 2^fraction_bits`.
    pub fn from_fixed_point(count: u32, fraction_bits: u8) -> (reading: Reading)
        ensures
            reading == fixed_point_reading(count, fraction_bits),
    {
        Reading { negative: false, mantissa: count, exponent: -(fraction_bits as i32) }
    }

    /// Converts to a sample in thousandths of the unit.
    pub fn to_thousandths(&self) -> (sample: i32)
        ensures
            sample == self.thousandths(),
            -SAMPLE_LIMIT <= sample <= SAMPLE_LIMIT,
    {
        let scaled: u64 = self.mantissa as u64 * 1000;
        let limit: u64 = SAMPLE_LIMIT as u64;
        let magnitude: u64 = if self.mantissa == 0 {
            proof {
                if self.exponent >= 0 {
                    assert(0 * pow2(self.exponent as nat) == 0) by (nonlinear_arith);
                } else {
                    lemma_pow2_pos((-self.exponent) as nat);
                }
            }
            0
        } else if self.exponent >= 22 {
            proof {
                lemma_large_exponent(scaled as nat, self.exponent as nat);
            }
            limit
        } else if self.exponent >= 0 {
            let shift: u64 = self.exponent as u64;
            proof {
                lemma_small_shift(scaled, shift);
            }
            let shifted: u64 = scaled << shift;
            if shifted > limit {
                limit
            } else {
                shifted
            }
        } else if self.exponent <= -42 {
            proof {
                lemma_vanishing(scaled as nat, (-self.exponent) as nat);
            }
            0
        } else {
            let shift: u64 = (-self.exponent) as u64;
            proof {
                lemma_u64_shr_is_div(scaled, shift);
            }
            let shifted: u64 = scaled >> shift;
            if shifted > limit {
                limit
            } else {
                shifted
            }
        };
        assert(magnitude <= limit);
        if self.negative {
            -(magnitude as i32)
        } else {
            magnitude as i32
        }
    }
}

/// A positive multiple of a thousand times 2^22 or more is past the limit.
proof fn lemma_large_exponent(scaled: nat, exponent: nat)
    requires
        scaled >= 1000,
        exponent >= 22,
    ensures
        scaled * pow2(exponent) > SAMPLE_LIMIT,
{
    lemma2_to64();
    if exponent > 22 {
        lemma_pow2_strictly_increases(22, exponent);
    }
    assert(pow2(exponent) >= 0x40_0000);
    assert(scaled * pow2(exponent) >= 1000 * 0x40_0000) by (nonlinear_arith)
        requires
            scaled >= 1000,
            pow2(exponent) >= 0x40_0000,
    ;
}

/// Below 2^42, a left shift by less than 22 is a multiplication that fits.
proof fn lemma_small_shift(scaled: u64, shift: u64)
    requires
        scaled < 0x400_0000_0000,
        shift < 22,
    ensures
        scaled << shift == scaled * pow2(shift as nat),
{
    lemma2_to64();
    lemma_pow2_strictly_increases(shift as nat, 22);
    assert(scaled * pow2(shift as nat) <= 0x3ff_ffff_ffff * 0x3f_ffff) by (nonlinear_arith)
        requires
            scaled <= 0x3ff_ffff_ffff,
            pow2(shift as nat) <= 0x3f_ffff,
    ;
    lemma_u64_shl_is_mul(scaled, shift);
}

/// Below 2^42, nothing is left after dividing by 2^42 or more.
proof fn lemma_vanishing(scaled: nat, shift: nat)
    requires
        scaled < 0x400_0000_0000,
        shift >= 42,
    ensures
        scaled / pow2(shift) == 0,
{
    lemma2_to64_rest();
    if shift > 42 {
        lemma_pow2_strictly_increases(42, shift);
    }
    assert(pow2(42) == 0x400_0000_0000);
    lemma_basic_div(scaled as int, pow2(shift) as int);
}

} // verus!
