//! The global CPU usage, a percentage, as the metrics provider reports it.
//!
//! The provider hands out a single-precision number. A [`CpuUsage`] keeps its
//! bit pattern and reads the number off it with whole-number arithmetic, so
//! that the bar's fill length and the two-decimal text are exact.
//!
//! A bit pattern has a sign bit, eight bits of exponent `e` and 23 bits of
//! fraction `f`. With `e` from 1 to 254 the number is
//! `(2^23 + f) * 2^(e - 150)`; with `e == 0` it is `f * 2^(-149)`. With
//! `e == 255` it is infinite when `f == 0`, and otherwise no number at all.

use crate::rounding::{round_half_even, rounded_quotient};
use crate::text::{decimal, decimal_string, two_digit_string, two_digits};
use vstd::arithmetic::div_mod::*;
use vstd::arithmetic::power2::*;
use vstd::prelude::*;

verus! {

/// The number of cells between the brackets of the CPU bar.
pub const CPU_BAR_INTERIOR: u64 = 18;

/// Whether the sign bit is set.
pub open spec fn sign_of(bits: u32) -> bool {
    bits >= 0x8000_0000
}

/// The eight exponent bits.
pub open spec fn exponent_of(bits: u32) -> nat {
    (bits as nat / 0x80_0000) % 256
}

/// The 23 fraction bits.
pub open spec fn fraction_of(bits: u32) -> nat {
    bits as nat % 0x80_0000
}

/// Whether the bit pattern stands for no number.
pub open spec fn is_nan(bits: u32) -> bool {
    exponent_of(bits) == 255 && fraction_of(bits) != 0
}

/// Whether the bit pattern stands for an infinity.
pub open spec fn is_infinite(bits: u32) -> bool {
    exponent_of(bits) == 255 && fraction_of(bits) == 0
}

/// The significand: the fraction bits, with the hidden bit where the exponent
/// bits are not all zero.
pub open spec fn significand_of(bits: u32) -> nat {
    if exponent_of(bits) == 0 {
        fraction_of(bits)
    } else {
        fraction_of(bits) + 0x80_0000
    }
}

/// The power of two by which the significand is multiplied.
pub open spec fn power_of(bits: u32) -> int {
    if exponent_of(bits) == 0 {
        -149
    } else {
        exponent_of(bits) - 150
    }
}

/// The numerator of the magnitude of a finite number.
pub open spec fn numerator_of(bits: u32) -> nat {
    if power_of(bits) >= 0 {
        significand_of(bits) * pow2(power_of(bits) as nat)
    } else {
        significand_of(bits)
    }
}

/// The denominator of the magnitude of a finite number, a power of two.
pub open spec fn denominator_of(bits: u32) -> nat {
    if power_of(bits) >= 0 {
        1
    } else {
        pow2((-power_of(bits)) as nat)
    }
}

/// Whether the number lies in `[0, 100]`, the range of a percentage.
pub open spec fn is_percentage(bits: u32) -> bool {
    &&& !is_nan(bits)
    &&& !is_infinite(bits)
    &&& (!sign_of(bits) || numerator_of(bits) == 0)
    &&& numerator_of(bits) <= 100 * denominator_of(bits)
}

/// How many cells of the CPU bar are filled: `floor(usage * 18 / 100)`, held
/// to the bar's interior. A negative number and a pattern that is no number
/// fill nothing; anything above 100 fills the whole interior.
pub open spec fn cpu_fill_of(bits: u32) -> nat {
    if is_nan(bits) || sign_of(bits) {
        0
    } else if is_infinite(bits) {
        CPU_BAR_INTERIOR as nat
    } else {
        let fill = numerator_of(bits) * (CPU_BAR_INTERIOR as nat) / (denominator_of(bits) * 100);
        if fill > CPU_BAR_INTERIOR {
            CPU_BAR_INTERIOR as nat
        } else {
            fill
        }
    }
}

/// The magnitude of a finite number in hundredths, rounded to the nearest,
/// ties to even.
pub open spec fn hundredths_of(bits: u32) -> nat {
    round_half_even(numerator_of(bits) * 100, denominator_of(bits))
}

/// A count of hundredths written with two decimal places.
pub open spec fn fixed2(hundredths: nat) -> Seq<char> {
    decimal(hundredths / 100) + "."@ + two_digits(hundredths % 100)
}

/// The number written with two decimal places: `NaN` for no number, `inf`
/// for an infinity, a leading `-` where the sign bit is set.
pub open spec fn usage_text(bits: u32) -> Seq<char> {
    if is_nan(bits) {
        "NaN"@
    } else {
        let body = if is_infinite(bits) {
            "inf"@
        } else {
            fixed2(hundredths_of(bits))
        };
        if sign_of(bits) {
            "-"@ + body
        } else {
            body
        }
    }
}

/// Computes `2^e`, for every `e` whose power a `u128` holds.
pub fn pow2_exec(e: u32) -> (p: u128)
    requires
        e <= 127,
    ensures
        p == pow2(e as nat),
{
    let mut p: u128 = 1;
    let mut i: u32 = 0;
    proof {
        lemma2_to64();
        lemma2_to64_rest();
        lemma_pow2_adds(64, 63);
    }
    while i < e
        invariant
            i <= e <= 127,
            p == pow2(i as nat),
            pow2(127) == 0x8000_0000_0000_0000_0000_0000_0000_0000,
        decreases e - i,
    {
        proof {
            lemma_pow2_unfold((i + 1) as nat);
            if i + 1 < 127 {
                lemma_pow2_strictly_increases((i + 1) as nat, 127);
            }
        }
        p = p * 2;
        i = i + 1;
    }
    p
}

/// `2^e` for `e` up to 104, the largest power of two by which a significand
/// is multiplied, is at most `2^104`.
proof fn lemma_pow2_within_104(e: nat)
    requires
        e <= 104,
    ensures
        pow2(e) <= 0x1_0000_0000_0000_0000_0000_0000_00,
{
    lemma2_to64();
    lemma2_to64_rest();
    lemma_pow2_adds(64, 40);
    if e < 104 {
        lemma_pow2_strictly_increases(e, 104);
    }
}

/// The global CPU usage of one sample.
#[derive(Clone, Copy, Debug, PartialEq, Eq, Structural)]
pub struct CpuUsage {
    bits: u32,
}

impl CpuUsage {
    /// The bit pattern of the number.
    pub closed spec fn bits_spec(self) -> u32 {
        self.bits
    }

    /// Takes the number by its bit pattern.
    pub fn from_bits(bits: u32) -> (usage: CpuUsage)
        ensures
            usage.bits_spec() == bits,
    {
        CpuUsage { bits }
    }

    /// The bit pattern of the number.
    pub fn bits(&self) -> (bits: u32)
        ensures
            bits == self.bits_spec(),
    {
        self.bits
    }

    /// The fill length of the CPU bar.
    pub fn fill_len(&self) -> (fill: u64)
        ensures
            fill == cpu_fill_of(self.bits_spec()),
            fill <= CPU_BAR_INTERIOR,
    {
        let negative: bool = self.bits >= 0x8000_0000;
        let exponent: u32 = (self.bits / 0x80_0000) % 256;
        let fraction: u32 = self.bits % 0x80_0000;
        if exponent == 255 {
            if fraction != 0 || negative {
                0
            } else {
                CPU_BAR_INTERIOR
            }
        } else if negative {
            0
        } else if exponent >= 150 {
            proof {
                let n = numerator_of(self.bits);
                lemma_pow2_pos((exponent - 150) as nat);
                assert(n >= 0x80_0000) by (nonlinear_arith)
                    requires
                        n == (fraction + 0x80_0000) * pow2((exponent - 150) as nat),
                        pow2((exponent - 150) as nat) > 0,
                ;
                assert(n * 18 / 100 >= 18) by (nonlinear_arith)
                    requires
                        n >= 0x80_0000,
                ;
            }
            CPU_BAR_INTERIOR
        } else {
            let significand: u64 = if exponent == 0 {
                fraction as u64
            } else {
                fraction as u64 + 0x80_0000
            };
            let shift: u32 = if exponent == 0 {
                149
            } else {
                150 - exponent
            };
            if shift >= 40 {
                proof {
                    lemma2_to64_rest();
                    if shift > 40 {
                        lemma_pow2_strictly_increases(40, shift as nat);
                    }
                    lemma_basic_div(significand as int * 18, pow2(shift as nat) as int * 100);
                }
                0
            } else {
                proof {
                    lemma2_to64_rest();
                    lemma_pow2_strictly_increases(shift as nat, 40);
                    lemma_pow2_pos(shift as nat);
                }
                let denominator: u64 = pow2_exec(shift) as u64;
                let fill: u64 = significand * 18 / (denominator * 100);
                if fill > CPU_BAR_INTERIOR {
                    CPU_BAR_INTERIOR
                } else {
                    fill
                }
            }
        }
    }

    /// The number written with two decimal places.
    pub fn text(&self) -> (s: String)
        ensures
            s@ == usage_text(self.bits_spec()),
    {
        let negative: bool = self.bits >= 0x8000_0000;
        let exponent: u32 = (self.bits / 0x80_0000) % 256;
        let fraction: u32 = self.bits % 0x80_0000;
        if exponent == 255 && fraction != 0 {
            return String::from_str("NaN");
        }
        let body: String = if exponent == 255 {
            String::from_str("inf")
        } else if exponent >= 150 {
            let scale: u128 = pow2_exec(exponent - 150);
            proof {
                lemma_pow2_within_104((exponent - 150) as nat);
            }
            assert((fraction + 0x80_0000) * scale < 0x1_0000_0000_0000_0000_0000_0000_0000_0000)
                by (nonlinear_arith)
                requires
                    fraction < 0x80_0000,
                    scale <= 0x1_0000_0000_0000_0000_0000_0000_00,
            ;
            let whole: u128 = (fraction as u128 + 0x80_0000) * scale;
            proof {
                lemma_whole_hundredths(whole as nat);
            }
            fixed2_string(whole, 0)
        } else {
            let significand: u64 = if exponent == 0 {
                fraction as u64
            } else {
                fraction as u64 + 0x80_0000
            };
            let shift: u32 = if exponent == 0 {
                149
            } else {
                150 - exponent
            };
            if shift >= 40 {
                proof {
                    lemma2_to64_rest();
                    if shift > 40 {
                        lemma_pow2_strictly_increases(40, shift as nat);
                    }
                    lemma_basic_div(significand as int * 100, pow2(shift as nat) as int);
                    lemma_small_mod((significand * 100) as nat, pow2(shift as nat));
                }
                fixed2_string(0, 0)
            } else {
                proof {
                    lemma2_to64_rest();
                    lemma_pow2_strictly_increases(shift as nat, 40);
                    lemma_pow2_unfold(shift as nat);
                    lemma_pow2_pos((shift - 1) as nat);
                }
                let denominator: u64 = pow2_exec(shift) as u64;
                let hundredths: u64 = rounded_quotient(significand * 100, denominator);
                assert(hundredths <= significand * 100) by (nonlinear_arith)
                    requires
                        hundredths == round_half_even(
                            (significand * 100) as nat,
                            denominator as nat,
                        ),
                        denominator >= 2,
                ;
                fixed2_string((hundredths / 100) as u128, (hundredths % 100) as u8)
            }
        };
        if negative {
            String::from_str("-").concat(body.as_str())
        } else {
            body
        }
    }
}

/// Writes `whole` and `hundredths` with a point between them.
fn fixed2_string(whole: u128, hundredths: u8) -> (s: String)
    requires
        hundredths < 100,
    ensures
        s@ == decimal(whole as nat) + "."@ + two_digits(hundredths as nat),
{
    let mut s = decimal_string(whole);
    s.append(".");
    s.append(two_digit_string(hundredths).as_str());
    s
}

/// A whole number of units is a hundred times as many hundredths, with
/// nothing to round.
proof fn lemma_whole_hundredths(whole: nat)
    ensures
        round_half_even(whole * 100, 1) == whole * 100,
        (whole * 100) / 100 == whole,
        (whole * 100) % 100 == 0,
{
    assert((whole * 100) / 1 == whole * 100);
    assert((whole * 100) % 1 == 0);
    assert((whole * 100) / 100 == whole) by (nonlinear_arith);
    assert((whole * 100) % 100 == 0) by (nonlinear_arith);
}

/// For a usage in `[0, 100]` the fill length is `floor(usage * 18 / 100)`
/// with nothing cut off, and lies in `[0, 18]`.
pub proof fn lemma_percentage_fill(bits: u32)
    requires
        is_percentage(bits),
    ensures
        cpu_fill_of(bits) == numerator_of(bits) * 18 / (denominator_of(bits) * 100),
        cpu_fill_of(bits) <= CPU_BAR_INTERIOR,
{
    let n = numerator_of(bits);
    let d = denominator_of(bits);
    if power_of(bits) < 0 {
        lemma_pow2_pos((-power_of(bits)) as nat);
    }
    assert(n * 18 / (d * 100) <= 18) by (nonlinear_arith)
        requires
            n <= 100 * d,
            d > 0,
    ;
    if sign_of(bits) {
        assert(0 * 18 / (d * 100) == 0) by (nonlinear_arith)
            requires
                d > 0,
        ;
    }
}

} // verus!
