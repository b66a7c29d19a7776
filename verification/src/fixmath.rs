//! Fixed-point arithmetic for the decoder.
//!
//! Costs and log-durations are held in millinats: thousandths of a
//! natural-log unit. The logarithm is computed from the position of the
//! leading bit and a short arctanh series on the mantissa, all in
//! integer arithmetic, so it is exact and deterministic.

use vstd::prelude::*;
use vstd::arithmetic::div_mod::lemma_div_is_ordered;
use vstd::arithmetic::div_mod::lemma_div_multiples_vanish;
use vstd::arithmetic::div_mod::lemma_fundamental_div_mod;
use vstd::arithmetic::div_mod::lemma_multiply_divide_lt;
use vstd::arithmetic::mul::lemma_mul_inequality;
use vstd::arithmetic::mul::lemma_mul_upper_bound;
use vstd::arithmetic::power2::lemma2_to64;
use vstd::arithmetic::power2::lemma2_to64_rest;
use vstd::arithmetic::power2::lemma_pow2_adds;
use vstd::arithmetic::power2::lemma_pow2_pos;
use vstd::arithmetic::power2::lemma_pow2_strictly_increases;
use vstd::arithmetic::power2::pow2;

verus! {

/// ln 3 in millinats; a dash is three units long, so this offset
/// separates the dot and dash hypotheses in log space.
pub const LN3_MILLI: i64 = 1099;

/// ln 2 in millinats; a gap twice the unit time is suspiciously long
/// for an intra-character gap.
pub const LN2_MILLI: i64 = 693;

/// ln 4 in millinats; a gap four times the unit time should probably
/// have closed a character.
pub const LN4_MILLI: i64 = 1386;

/// `ln_micros` of the smallest argument (one microsecond): minus ln of
/// one million, in millinats.
pub const LN_MICROS_FLOOR: i64 = -13816;

/// A safe upper bound of `ln_micros` over the whole `u64` range.
pub const LN_MICROS_CEIL: i64 = 32000;

/// Floor of the base-two logarithm.
pub open spec fn spec_log2(n: int) -> nat
    decreases n,
{
    if n < 2 {
        0
    } else {
        (1 + spec_log2(n / 2)) as nat
    }
}

/// The mantissa of `n` scaled to 16 fractional bits: `n / 2^log2(n)`
/// as a Q16 value in `[65536, 131072)`.
pub open spec fn spec_mant_q16(n: int) -> int {
    n * 65536 / pow2(spec_log2(n)) as int
}

/// ln of a Q16 mantissa `m` in `[65536, 131072)`, as a Q16 value:
/// `2 * artanh((m - 1) / (m + 1))` by a three-term series.
pub open spec fn spec_ln_mant_q16(m: int) -> int {
    let t = (m - 65536) * 65536 / (m + 65536);
    let t2 = t * t / 65536;
    let t3 = t2 * t / 65536;
    let t5 = t3 * t2 / 65536;
    2 * (t + t3 / 3 + t5 / 5)
}

/// ln of a duration given in microseconds, in millinats relative to one
/// second: `ln(us) - ln(1_000_000)`, computed in fixed point. 45426 is
/// ln 2 in Q16 and 13816 is ln of one million in millinats.
pub open spec fn spec_ln_micros(us: int) -> int {
    (spec_log2(us) * 45426 + spec_ln_mant_q16(spec_mant_q16(us))) * 1000 / 65536 - 13816
}

/// `pow2(spec_log2(n)) <= n < pow2(spec_log2(n) + 1)` for positive `n`.
proof fn lemma_log2_bounds(n: int)
    requires
        n >= 1,
    ensures
        pow2(spec_log2(n)) <= n < pow2(spec_log2(n) + 1),
    decreases n,
{
    lemma2_to64();
    if n < 2 {
        assert(spec_log2(n) == 0);
    } else {
        lemma_log2_bounds(n / 2);
        let l = spec_log2(n / 2);
        lemma_pow2_adds(l, 1);
        lemma_pow2_adds(l + 1, 1);
    }
}

/// Arguments that fit in 64 bits have a base-two logarithm below 64.
proof fn lemma_log2_u64(n: u64)
    requires
        n >= 1,
    ensures
        spec_log2(n as int) <= 63,
{
    lemma_log2_bounds(n as int);
    if spec_log2(n as int) > 63 {
        assert(pow2(64) == 0x10000000000000000) by {
            lemma_pow2_adds(63, 1);
            lemma2_to64();
            lemma2_to64_rest();
        }
        if spec_log2(n as int) > 64 {
            lemma_pow2_strictly_increases(64, spec_log2(n as int));
        }
    }
}

/// ln of a duration in microseconds, in millinats relative to one
/// second. Deterministic fixed-point arithmetic; monotone enough for
/// classification and accurate to a few thousandths of a nat.
pub fn ln_micros(us: u64) -> (r: i64)
    requires
        us >= 1,
    ensures
        r == spec_ln_micros(us as int),
        LN_MICROS_FLOOR <= r <= LN_MICROS_CEIL,
{
    proof {
        lemma_log2_u64(us);
        lemma_log2_bounds(us as int);
        lemma2_to64();
        lemma2_to64_rest();
    }

    // Position of the leading bit.
    let mut x: u64 = us;
    let mut k: u64 = 0;
    while x >= 2
        invariant
            x >= 1,
            spec_log2(x as int) + k == spec_log2(us as int),
            k <= spec_log2(us as int),
            spec_log2(us as int) <= 63,
        decreases x,
    {
        x = x / 2;
        k = k + 1;
    }
    proof {
        assert(spec_log2(x as int) == 0);
        assert(k == spec_log2(us as int));
    }

    // 2^k, to scale the mantissa.
    let mut p2: u64 = 1;
    let mut j: u64 = 0;
    while j < k
        invariant
            j <= k,
            k <= 63,
            p2 == pow2(j as nat),
        decreases k - j,
    {
        proof {
            if j < 63 {
                lemma_pow2_strictly_increases(j as nat, 63);
            }
            lemma2_to64_rest();
            lemma_pow2_adds(j as nat, 1);
            lemma2_to64();
        }
        p2 = p2 * 2;
        j = j + 1;
    }

    // Mantissa in Q16: us / 2^k, in [65536, 131072).
    let ghost p2i = pow2(k as nat) as int;
    let num: u128 = (us as u128) * 65536;
    let m128: u128 = num / (p2 as u128);
    proof {
        lemma_pow2_pos(k as nat);
        assert(m128 >= 65536) by {
            lemma_mul_inequality(p2i, us as int, 65536);
            lemma_div_is_ordered(p2i * 65536, (us as int) * 65536, p2i);
            lemma_div_multiples_vanish(65536, p2i);
        }
        assert(m128 < 131072) by {
            assert((us as int) * 65536 < p2i * 131072) by {
                assert(us as int <= 2 * p2i - 1) by {
                    lemma_pow2_adds(k as nat, 1);
                    lemma2_to64();
                }
                lemma_mul_inequality(us as int, 2 * p2i - 1, 65536);
            }
            lemma_multiply_divide_lt((us as int) * 65536, p2i, 131072);
        }
    }
    let m: u64 = m128 as u64;
    proof {
        assert(m == spec_mant_q16(us as int));
    }

    // Three-term arctanh series for ln of the mantissa, in Q16.
    let tnum: u64 = (m - 65536) * 65536;
    let tden: u64 = m + 65536;
    let t: u64 = tnum / tden;
    proof {
        assert(t < 32768) by {
            assert(tnum < tden as int * 32768) by {
                lemma_mul_inequality(131072, tden as int, 32768);
            }
            lemma_multiply_divide_lt(tnum as int, tden as int, 32768);
        }
    }
    proof {
        assert((t as int) * (t as int) < (65536 * 16384)) by {
            lemma_mul_upper_bound(t as int, 32767, t as int, 32767);
        }
    }
    let t2: u64 = (t * t) / 65536;
    proof {
        assert(t2 < 16384) by {
            lemma_multiply_divide_lt((t as int) * (t as int), 65536, 16384);
        }
        assert((t2 as int) * (t as int) < (65536 * 8192)) by {
            lemma_mul_upper_bound(t2 as int, 16383, t as int, 32767);
        }
    }
    let t3: u64 = (t2 * t) / 65536;
    proof {
        assert(t3 < 8192) by {
            lemma_multiply_divide_lt((t2 as int) * (t as int), 65536, 8192);
        }
        assert((t3 as int) * (t2 as int) < (65536 * 2048)) by {
            lemma_mul_upper_bound(t3 as int, 8191, t2 as int, 16383);
        }
    }
    let t5: u64 = (t3 * t2) / 65536;
    proof {
        assert(t5 < 2048) by {
            lemma_multiply_divide_lt((t3 as int) * (t2 as int), 65536, 2048);
        }
    }
    let lnm: u64 = 2 * (t + t3 / 3 + t5 / 5);
    proof {
        assert(lnm == spec_ln_mant_q16(spec_mant_q16(us as int)));
        assert(lnm <= 86010);
    }

    // Combine: ln(us) = k * ln2 + ln(mantissa), then rescale from Q16
    // to millinats and shift to seconds.
    let total: u64 = k * 45426 + lnm;
    let milli: u64 = total * 1000 / 65536;
    proof {
        assert(total <= 63 * 45426 + 86010);
        assert(milli <= (63 * 45426 + 86010) * 1000 / 65536) by {
            lemma_div_is_ordered((total as int) * 1000, (63 * 45426 + 86010) * 1000int, 65536);
        }
    }
    (milli as i64) - 13816
}

/// Saturating signed addition, used when accumulating costs.
pub open spec fn spec_sat_add(a: int, b: int) -> int {
    if a + b > i64::MAX {
        i64::MAX as int
    } else if a + b < i64::MIN {
        i64::MIN as int
    } else {
        a + b
    }
}

/// Add two costs, saturating at the representation limits.
pub fn sat_add(a: i64, b: i64) -> (r: i64)
    ensures
        r == spec_sat_add(a as int, b as int),
{
    match a.checked_add(b) {
        Some(s) => s,
        None => if a > 0 {
            i64::MAX
        } else {
            i64::MIN
        },
    }
}

/// The distance between two signed values, as a non-negative quantity.
pub open spec fn spec_abs_diff(a: int, b: int) -> int {
    if a >= b {
        a - b
    } else {
        b - a
    }
}

/// Distance between two costs that both lie well inside the `i64`
/// range.
pub fn abs_diff(a: i64, b: i64) -> (r: i64)
    requires
        -0x2000_0000_0000_0000 <= a <= 0x2000_0000_0000_0000,
        -0x2000_0000_0000_0000 <= b <= 0x2000_0000_0000_0000,
    ensures
        r == spec_abs_diff(a as int, b as int),
        r >= 0,
{
    if a >= b {
        a - b
    } else {
        b - a
    }
}

} // verus!
