//! Conversion of native floating-point seconds values into exact nanosecond
//! durations.
//!
//! Native timestamps arrive from the platform as IEEE 754 binary64 seconds
//! values. The conversion works on the 64-bit pattern of such a value, so the
//! whole computation is exact integer arithmetic: the pattern is decomposed
//! into sign, exponent and mantissa, and the nanosecond count is the floor of
//! the value's exact product with 10^9. Non-finite values, negative values
//! and values whose nanosecond count does not fit a 64-bit seconds count are
//! rejected; such a rejection signals that the platform timer source violated
//! its timestamp contract and is fatal for the firing that saw it.

use vstd::arithmetic::div_mod::{
    lemma_basic_div, lemma_div_is_ordered_by_denominator, lemma_fundamental_div_mod,
    lemma_mod_division_less_than_divisor,
};
use vstd::arithmetic::mul::lemma_mul_inequality;
use vstd::arithmetic::power2::{
    lemma2_to64, lemma2_to64_rest, lemma_pow2_adds, lemma_pow2_pos,
    lemma_pow2_strictly_increases, pow2,
};
use vstd::prelude::*;

verus! {

/// A time value could not be converted. Every variant is a fatal condition
/// for the callback firing that produced it: it signals a platform contract
/// violation, not a recoverable error.
#[derive(Debug, Clone, Copy, PartialEq, Eq, Structural)]
pub enum TimeError {
    /// The input was a NaN or an infinity.
    NonFinite,
    /// The value was negative, or an instant fell before the monotonic epoch.
    Underflow,
    /// The nanosecond count does not fit the duration representation.
    Overflow,
}

pub const NANOS_PER_SEC: u32 = 1_000_000_000;

/// An exact nonnegative duration: whole seconds plus a sub-second nanosecond
/// count below 10^9.
#[derive(Debug, Clone, Copy, PartialEq, Eq, Structural)]
pub struct NanoDuration {
    pub secs: u64,
    pub subsec_nanos: u32,
}

impl View for NanoDuration {
    type V = int;

    /// A duration is modelled by its total nanosecond count.
    open spec fn view(&self) -> int {
        self.secs * (NANOS_PER_SEC as int) + self.subsec_nanos
    }
}

impl NanoDuration {
    /// Well-formed durations keep the sub-second part below one second, so
    /// the total nanosecond count determines both fields.
    pub open spec fn wf(&self) -> bool {
        self.subsec_nanos < NANOS_PER_SEC
    }

    /// The zero duration.
    pub fn zero() -> (d: NanoDuration)
        ensures
            d@ == 0,
            d.wf(),
    {
        NanoDuration { secs: 0, subsec_nanos: 0 }
    }

    /// A duration from whole seconds and a sub-second nanosecond count.
    pub fn new(secs: u64, subsec_nanos: u32) -> (d: NanoDuration)
        requires
            subsec_nanos < NANOS_PER_SEC,
        ensures
            d@ == secs * (NANOS_PER_SEC as int) + subsec_nanos,
            d.wf(),
            d.secs == secs,
            d.subsec_nanos == subsec_nanos,
    {
        NanoDuration { secs, subsec_nanos }
    }

    /// The total nanosecond count.
    pub fn total_nanos(&self) -> (n: u128)
        ensures
            n == self@,
    {
        proof {
            lemma_mul_inequality(self.secs as int, u64::MAX as int, NANOS_PER_SEC as int);
        }
        (self.secs as u128) * (NANOS_PER_SEC as u128) + (self.subsec_nanos as u128)
    }
}

/// The exponent field of a binary64 pattern: bits 52 to 62.
pub open spec fn bits_exp(bits: u64) -> u64 {
    (bits >> 52) & 0x7ff
}

/// The fraction field of a binary64 pattern: bits 0 to 51.
pub open spec fn bits_frac(bits: u64) -> u64 {
    bits & 0x000f_ffff_ffff_ffff
}

/// The sign bit of a binary64 pattern.
pub open spec fn bits_sign(bits: u64) -> u64 {
    bits >> 63
}

/// A pattern is finite unless its exponent field is all ones (NaN, infinity).
pub open spec fn bits_is_finite(bits: u64) -> bool {
    bits_exp(bits) != 0x7ff
}

/// The integer mantissa of the encoded value: the fraction field, with the
/// implicit leading bit added for normal numbers.
pub open spec fn bits_mantissa(bits: u64) -> int {
    if bits_exp(bits) == 0 {
        bits_frac(bits) as int
    } else {
        bits_frac(bits) + 0x0010_0000_0000_0000
    }
}

/// The power-of-two scale of the encoded value: the magnitude encoded by the
/// pattern is `bits_mantissa(bits) * 2^bits_scale(bits)` seconds. Subnormal
/// patterns (exponent field zero) share the scale of the smallest normal
/// exponent.
pub open spec fn bits_scale(bits: u64) -> int {
    if bits_exp(bits) == 0 {
        1 - 1075
    } else {
        bits_exp(bits) - 1075
    }
}

/// A pattern encodes a negative value when its sign bit is set and its
/// magnitude is not zero (so negative zero counts as zero).
pub open spec fn bits_is_neg(bits: u64) -> bool {
    bits_sign(bits) == 1 && bits_mantissa(bits) != 0
}

/// The exact nanosecond count of the magnitude encoded by a finite pattern:
/// the floor of `bits_mantissa(bits) * 2^bits_scale(bits) * 10^9`.
pub open spec fn abs_nanos_of_bits(bits: u64) -> int {
    let m = bits_mantissa(bits);
    let e = bits_scale(bits);
    if e >= 0 {
        m * (NANOS_PER_SEC as int) * (pow2(e as nat) as int)
    } else {
        (m * (NANOS_PER_SEC as int)) / (pow2((-e) as nat) as int)
    }
}

/// The first nanosecond count that no longer fits the duration
/// representation: 2^64 seconds' worth of nanoseconds.
pub open spec fn nanos_limit() -> int {
    0x1_0000_0000_0000_0000 * (NANOS_PER_SEC as int)
}

/// What converting a binary64 seconds pattern to nanoseconds returns:
/// non-finite patterns, negative values and out-of-range nanosecond counts
/// are each rejected with their own condition; every other pattern converts
/// to its exact nanosecond count.
pub open spec fn secs_bits_to_nanos(bits: u64) -> Result<int, TimeError> {
    if !bits_is_finite(bits) {
        Err(TimeError::NonFinite)
    } else if bits_is_neg(bits) {
        Err(TimeError::Underflow)
    } else if abs_nanos_of_bits(bits) >= nanos_limit() {
        Err(TimeError::Overflow)
    } else {
        Ok(abs_nanos_of_bits(bits))
    }
}

/// 2^e, computed by repeated doubling.
fn pow2_u128(e: u64) -> (r: u128)
    requires
        e < 96,
    ensures
        r == pow2(e as nat),
{
    proof {
        lemma2_to64();
    }
    let mut i: u64 = 0;
    let mut acc: u128 = 1;
    while i < e
        invariant
            i <= e,
            e < 96,
            acc == pow2(i as nat),
        decreases e - i,
    {
        proof {
            lemma2_to64();
            lemma2_to64_rest();
            lemma_pow2_adds(i as nat, 1);
            assert(pow2((i + 1) as nat) == pow2(i as nat) * 2);
            lemma_pow2_strictly_increases((i + 1) as nat, 127);
            lemma_pow2_adds(63, 64);
            assert(pow2(127) == 0x8000_0000_0000_0000 * 0x1_0000_0000_0000_0000);
            assert(acc * 2 < 0x1_0000_0000_0000_0000_0000_0000_0000_0000);
        }
        acc = acc * 2;
        i = i + 1;
    }
    acc
}

/// Converts a binary64 seconds pattern into an exact nanosecond duration, as
/// [`secs_bits_to_nanos`] states: the nanosecond count is the floor of the
/// encoded magnitude times 10^9, and NaN, infinities, negative values and
/// counts of 2^64 seconds or more are rejected.
pub fn from_secs_bits(bits: u64) -> (r: Result<NanoDuration, TimeError>)
    ensures
        match r {
            Ok(d) => secs_bits_to_nanos(bits) == Ok::<int, TimeError>(d@) && d.wf(),
            Err(e) => secs_bits_to_nanos(bits) == Err::<int, TimeError>(e),
        },
{
    let exp: u64 = (bits >> 52) & 0x7ff;
    let frac: u64 = bits & 0x000f_ffff_ffff_ffff;
    let sign: u64 = bits >> 63;
    proof {
        assert((bits >> 52) & 0x7ff < 0x800) by (bit_vector);
        assert(bits & 0x000f_ffff_ffff_ffff < 0x0010_0000_0000_0000) by (bit_vector);
        assert(bits >> 63 == 0 || bits >> 63 == 1) by (bit_vector);
    }
    if exp == 0x7ff {
        return Err(TimeError::NonFinite);
    }
    let m: u64 = if exp == 0 {
        frac
    } else {
        frac + 0x0010_0000_0000_0000
    };
    if sign == 1 && m != 0 {
        return Err(TimeError::Underflow);
    }
    if m == 0 {
        proof {
            lemma_pow2_pos(1074);
            lemma_basic_div(0, pow2(1074) as int);
        }
        return Ok(NanoDuration::zero());
    }
    if exp >= 1087 {
        proof {
            let e = bits_scale(bits);
            assert(e >= 12);
            lemma2_to64();
            if e > 12 {
                lemma_pow2_strictly_increases(12, e as nat);
            }
            lemma_mul_inequality(
                0x0010_0000_0000_0000,
                m as int,
                NANOS_PER_SEC as int,
            );
            // (2^52 * 10^9) * pow2(e) >= (2^52 * 10^9) * 2^12 == nanos_limit()
            lemma_mul_inequality(
                pow2(12) as int,
                pow2(e as nat) as int,
                0x0010_0000_0000_0000 * (NANOS_PER_SEC as int),
            );
            // m * 10^9 * pow2(e) >= (2^52 * 10^9) * pow2(e)
            lemma_mul_inequality(
                0x0010_0000_0000_0000 * (NANOS_PER_SEC as int),
                m * (NANOS_PER_SEC as int),
                pow2(e as nat) as int,
            );
            assert(abs_nanos_of_bits(bits) == m * (NANOS_PER_SEC as int) * (pow2(e as nat) as int));
            assert(abs_nanos_of_bits(bits) >= nanos_limit());
        }
        return Err(TimeError::Overflow);
    }
    proof {
        lemma_mul_inequality(m as int, 0x0020_0000_0000_0000, NANOS_PER_SEC as int);
    }
    let mn: u128 = (m as u128) * (NANOS_PER_SEC as u128);
    let total: u128;
    if exp >= 1075 {
        let sh: u64 = exp - 1075;
        let p: u128 = pow2_u128(sh);
        proof {
            lemma2_to64();
            if sh < 11 {
                lemma_pow2_strictly_increases(sh as nat, 11);
            }
            // m * pow2(sh) < 2^53 * 2^11 == 2^64, so the product stays
            // below 2^64 seconds' worth of nanoseconds
            assert(m * (NANOS_PER_SEC as int) * (pow2(sh as nat) as int) < nanos_limit()
                && m * (NANOS_PER_SEC as int) * (pow2(sh as nat) as int) < 0x1_0000_0000_0000_0000_0000_0000_0000_0000)
                by (nonlinear_arith)
                requires
                    0 < m < 0x0020_0000_0000_0000,
                    0 < pow2(sh as nat) <= 0x800,
                    nanos_limit() == 0x1_0000_0000_0000_0000 * (NANOS_PER_SEC as int),
                    NANOS_PER_SEC == 1_000_000_000u32,
            ;
        }
        total = mn * p;
    } else {
        let sh: u64 = if exp == 0 {
            1074
        } else {
            1075 - exp
        };
        if sh >= 96 {
            proof {
                lemma2_to64();
                lemma2_to64_rest();
                lemma_pow2_adds(19, 64);
                lemma_pow2_strictly_increases(83, sh as nat);
                lemma_basic_div(mn as int, pow2(sh as nat) as int);
            }
            total = 0;
        } else {
            let p: u128 = pow2_u128(sh);
            proof {
                lemma_pow2_pos(sh as nat);
                lemma_div_is_ordered_by_denominator(mn as int, 1, pow2(sh as nat) as int);
            }
            total = mn / p;
        }
    }
    assert(total == abs_nanos_of_bits(bits));
    assert(total < nanos_limit());
    let secs_part: u128 = total / (NANOS_PER_SEC as u128);
    let nanos_part: u128 = total % (NANOS_PER_SEC as u128);
    proof {
        lemma_fundamental_div_mod(total as int, NANOS_PER_SEC as int);
        lemma_mod_division_less_than_divisor(total as int, NANOS_PER_SEC as int);
        assert(secs_part < 0x1_0000_0000_0000_0000) by {
            if (total as int) / (NANOS_PER_SEC as int) >= 0x1_0000_0000_0000_0000 {
                lemma_mul_inequality(
                    0x1_0000_0000_0000_0000,
                    (total as int) / (NANOS_PER_SEC as int),
                    NANOS_PER_SEC as int,
                );
            }
        }
    }
    Ok(NanoDuration::new(secs_part as u64, nanos_part as u32))
}

} // verus!
