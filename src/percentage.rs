//! Percentages held exactly, in hundredths of a percent, and the ceiling
//! rounding that turns a raw measurement into one.

use vstd::arithmetic::div_mod::{lemma_fundamental_div_mod, lemma_mod_bound};
use vstd::arithmetic::power2::{lemma2_to64, lemma_pow2_strictly_increases, lemma_pow2_unfold, pow2};
use vstd::prelude::*;

verus! {

/// A percentage with two decimal places: `hundredths == 8000` is 80.00 %.
#[derive(Clone, Copy, Debug, PartialEq, Eq, Structural)]
pub struct Percentage {
    pub hundredths: u64,
}

/// `num / den` rounded up to the next integer (for `num >= 0`, `den > 0`).
pub open spec fn ceil_div(num: int, den: int) -> int {
    (num + den - 1) / den
}

/// The ratio `used / total` as a percentage in hundredths, rounded up.
pub open spec fn ratio_hundredths(used: int, total: int) -> int {
    ceil_div(used * 10000, total)
}

/// Exponent field of an IEEE-754 single-precision bit pattern.
pub open spec fn f32_exponent_field(bits: u32) -> u32 {
    (bits >> 23u32) & 0xffu32
}

/// Fraction field of an IEEE-754 single-precision bit pattern.
pub open spec fn f32_fraction_field(bits: u32) -> u32 {
    bits & 0x7fffffu32
}

/// Sign bit of an IEEE-754 single-precision bit pattern.
pub open spec fn f32_sign_bit(bits: u32) -> bool {
    (bits >> 31u32) == 1u32
}

/// The integer significand: the value's magnitude is
/// `f32_significand(bits) / 2^f32_shift(bits)` for a finite pattern.
pub open spec fn f32_significand(bits: u32) -> int {
    if f32_exponent_field(bits) == 0 {
        f32_fraction_field(bits) as int
    } else {
        f32_fraction_field(bits) + 0x800000
    }
}

/// How far the significand is shifted right: `150 - e` for a normal number
/// with exponent field `e`, and `149` for a subnormal one.
pub open spec fn f32_shift(bits: u32) -> int {
    if f32_exponent_field(bits) == 0 {
        149
    } else {
        150 - f32_exponent_field(bits)
    }
}

/// The patterns that are read as a percentage: finite, not below zero, and
/// below `2^24` (so that the shift is not negative).
pub open spec fn f32_is_readable(bits: u32) -> bool {
    &&& f32_exponent_field(bits) <= 150
    &&& (f32_sign_bit(bits) ==> f32_significand(bits) == 0)
}

/// The value of a readable pattern times one hundred, rounded up.
pub open spec fn f32_hundredths(bits: u32) -> int {
    ceil_div(100 * f32_significand(bits), pow2(f32_shift(bits) as nat) as int)
}

/// `ceil_div` is the ceiling: the least integer whose multiple of `den`
/// reaches `num`. Rounding never goes down, and never goes up by a whole step.
pub proof fn lemma_ceil_div_is_ceiling(num: int, den: int)
    requires
        num >= 0,
        den > 0,
    ensures
        ceil_div(num, den) * den >= num,
        (ceil_div(num, den) - 1) * den < num,
{
    let x = num + den - 1;
    lemma_fundamental_div_mod(x, den);
    lemma_mod_bound(x, den);
    let c = x / den;
    assert(c * den == x - x % den) by (nonlinear_arith)
        requires
            x == den * (x / den) + x % den,
            c == x / den,
    ;
    assert((c - 1) * den == c * den - den) by (nonlinear_arith);
}

impl Percentage {
    /// Whether this is the zero percentage, which a threshold uses to mean
    /// "disabled".
    pub fn is_zero(&self) -> (r: bool)
        ensures
            r == (self.hundredths == 0),
    {
        self.hundredths == 0
    }

    /// Whether this percentage is strictly above `limit`.
    pub fn exceeds(&self, limit: &Percentage) -> (r: bool)
        ensures
            r == (self.hundredths > limit.hundredths),
    {
        self.hundredths > limit.hundredths
    }

    /// The percentage `used / total * 100`, rounded up to two decimal places.
    /// `None` when `total` is zero or the result does not fit in a `u64`.
    pub fn from_ratio(used: u64, total: u64) -> (r: Option<Percentage>)
        ensures
            r is Some <==> (total > 0 && ratio_hundredths(used as int, total as int) <= u64::MAX),
            r matches Some(p) ==> p.hundredths == ratio_hundredths(used as int, total as int),
    {
        if total == 0 {
            return None;
        }
        let num: u128 = used as u128 * 10000;
        let den: u128 = total as u128;
        let c: u128 = (num + den - 1) / den;
        if c > u64::MAX as u128 {
            None
        } else {
            Some(Percentage { hundredths: c as u64 })
        }
    }

    /// The percentage whose IEEE-754 single-precision bit pattern is `bits`,
    /// rounded up to two decimal places. `None` for an infinity, a NaN, a
    /// negative value, or a value of `2^24` or more.
    pub fn from_f32_bits(bits: u32) -> (r: Option<Percentage>)
        ensures
            r is Some <==> f32_is_readable(bits),
            r matches Some(p) ==> p.hundredths == f32_hundredths(bits),
    {
        let exp: u32 = (bits >> 23u32) & 0xffu32;
        let frac: u32 = bits & 0x7fffffu32;
        let negative: bool = (bits >> 31u32) == 1u32;
        assert(frac < 0x800000) by (bit_vector)
            requires
                frac == bits & 0x7fffffu32,
        ;
        if exp > 150 {
            return None;
        }
        let significand: u64 = if exp == 0 {
            frac as u64
        } else {
            frac as u64 + 0x800000
        };
        if negative && significand != 0 {
            return None;
        }
        let shift: u32 = if exp == 0 {
            149
        } else {
            150 - exp
        };
        let num: u64 = significand * 100;
        if shift >= 32 {
            proof {
                lemma2_to64();
                if shift > 32 {
                    lemma_pow2_strictly_increases(32, shift as nat);
                }
                let d = pow2(shift as nat) as int;
                lemma_ceil_div_is_ceiling(num as int, d);
                let c = ceil_div(num as int, d);
                if num == 0 {
                    assert(c == 0) by (nonlinear_arith)
                        requires
                            c * d >= 0,
                            (c - 1) * d < 0,
                            d > 0,
                    ;
                } else {
                    assert(c == 1) by (nonlinear_arith)
                        requires
                            c * d >= num,
                            (c - 1) * d < num,
                            num > 0,
                            d > num,
                    ;
                }
            }
            return Some(Percentage { hundredths: if num == 0 { 0 } else { 1 } });
        }
        let mut d: u64 = 1;
        let mut i: u32 = 0;
        proof {
            lemma2_to64();
        }
        while i < shift
            invariant
                i <= shift,
                shift < 32,
                d == pow2(i as nat),
            decreases shift - i,
        {
            proof {
                lemma_pow2_unfold((i + 1) as nat);
                lemma2_to64();
                lemma_pow2_strictly_increases((i + 1) as nat, 32);
            }
            d = d * 2;
            i = i + 1;
        }
        proof {
            lemma2_to64();
            if shift < 31 {
                lemma_pow2_strictly_increases(shift as nat, 31);
            }
        }
        Some(Percentage { hundredths: (num + d - 1) / d })
    }
}

} // verus!
