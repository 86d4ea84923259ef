//! Bit patterns of single-precision floating-point numbers.
//!
//! GPU buffers hold 32-bit floats. This library never computes with floats:
//! it carries each one as its IEEE-754 binary32 bit pattern in a `u32`, and
//! this module produces the pattern of an unsigned integer, rounded to
//! nearest with ties to even.

use vstd::arithmetic::power2::{lemma2_to64, lemma_pow2_adds, lemma_pow2_pos, lemma_pow2_unfold, pow2};
use vstd::prelude::*;

verus! {

/// The pattern of `0.5`.
pub const HALF: u32 = 0x3f00_0000;

/// The pattern of `-0.5`.
pub const NEG_HALF: u32 = 0xbf00_0000;

/// Position of the highest set bit of `n`; 0 for `n <= 1`.
pub open spec fn floor_log2(n: nat) -> nat
    decreases n,
{
    if n <= 1 {
        0
    } else {
        1 + floor_log2(n / 2)
    }
}

/// The 24-bit significand of the float nearest to `n >= 1`, hidden bit
/// included: `n` scaled so that its highest set bit is bit 23, rounded to
/// nearest, ties to even. A rounding that carries gives `0x100_0000`.
pub open spec fn significand(n: nat) -> nat {
    let k = floor_log2(n);
    if k <= 23 {
        n * pow2((23 - k) as nat)
    } else {
        let unit = pow2((k - 23) as nat);
        let quotient = n / unit;
        let rest = n % unit;
        if 2 * rest > unit || (2 * rest == unit && quotient % 2 == 1) {
            quotient + 1
        } else {
            quotient
        }
    }
}

/// The binary32 pattern of the float nearest to `n`. For `n >= 1` the biased
/// exponent `127 + floor_log2(n)` stands above bit 23 and the significand
/// without its hidden bit below; a significand that carried to `0x100_0000`
/// raises the exponent by one and leaves a zero fraction.
pub open spec fn f32_bits(n: nat) -> nat {
    if n == 0 {
        0
    } else {
        (126 + floor_log2(n)) * 0x80_0000 + significand(n)
    }
}

/// A number between two consecutive powers of two has the lower exponent as
/// its `floor_log2`.
pub proof fn lemma_floor_log2_bounds(n: nat, k: nat)
    requires
        pow2(k) <= n < pow2(k + 1),
    ensures
        floor_log2(n) == k,
    decreases k,
{
    lemma2_to64();
    if k == 0 {
        assert(n == 1);
    } else {
        lemma_pow2_unfold(k);
        lemma_pow2_unfold(k + 1);
        lemma_pow2_pos((k - 1) as nat);
        lemma_floor_log2_bounds(n / 2, (k - 1) as nat);
    }
}

/// A nonzero number lies between the power of two its `floor_log2` names and
/// the next.
pub proof fn lemma_floor_log2_brackets(n: nat)
    requires
        n >= 1,
    ensures
        pow2(floor_log2(n)) <= n < pow2(floor_log2(n) + 1),
    decreases n,
{
    lemma2_to64();
    if n > 1 {
        lemma_floor_log2_brackets(n / 2);
        lemma_pow2_unfold(floor_log2(n));
        lemma_pow2_unfold(floor_log2(n) + 1);
    }
}

/// The significand of a nonzero number has its highest bit at bit 23, or
/// is `0x100_0000` after a carry. Scaled back, it is the number itself
/// where 24 bits hold it, and else within half a unit in the last place of
/// it.
pub proof fn lemma_significand_is_nearest(n: nat)
    requires
        n >= 1,
    ensures
        0x80_0000 <= significand(n) <= 0x100_0000,
        floor_log2(n) <= 23 ==> significand(n) == n * pow2((23 - floor_log2(n)) as nat),
        floor_log2(n) <= 23 ==> significand(n) < 0x100_0000,
        floor_log2(n) > 23 ==> 2 * (significand(n) * pow2((floor_log2(n) - 23) as nat) - n)
            <= pow2((floor_log2(n) - 23) as nat),
        floor_log2(n) > 23 ==> 2 * (n - significand(n) * pow2((floor_log2(n) - 23) as nat))
            <= pow2((floor_log2(n) - 23) as nat),
{
    let k = floor_log2(n);
    lemma2_to64();
    lemma_floor_log2_brackets(n);
    if k <= 23 {
        let scale = pow2((23 - k) as nat);
        lemma_pow2_pos((23 - k) as nat);
        lemma_pow2_adds(k, (23 - k) as nat);
        lemma_pow2_adds(k + 1, (23 - k) as nat);
        assert(pow2(k) * scale <= n * scale < pow2(k + 1) * scale) by (nonlinear_arith)
            requires
                pow2(k) <= n < pow2(k + 1),
                scale > 0,
        ;
    } else {
        let unit = pow2((k - 23) as nat);
        lemma_pow2_pos((k - 23) as nat);
        lemma_pow2_adds((k - 23) as nat, 23);
        lemma_pow2_adds((k - 23) as nat, 24);
        let q = n / unit;
        let rest = n % unit;
        assert(n == q * unit + rest && 0 <= rest < unit && 0x80_0000 <= q < 0x100_0000)
            by (nonlinear_arith)
            requires
                unit * 0x80_0000 <= n < unit * 0x100_0000,
                unit > 0,
                q == n / unit,
                rest == n % unit,
        ;
        assert((q + 1) * unit == q * unit + unit) by (nonlinear_arith);
    }
}

/// The patterns of `1.0`, `30.0` and `100.0`.
pub proof fn lemma_f32_bits_examples()
    ensures
        f32_bits(0) == 0,
        f32_bits(1) == 0x3f80_0000,
        f32_bits(30) == 0x41f0_0000,
        f32_bits(100) == 0x42c8_0000,
{
    lemma2_to64();
    lemma_floor_log2_bounds(1, 0);
    lemma_floor_log2_bounds(30, 4);
    lemma_floor_log2_bounds(100, 6);
}

/// `2^e` for `e <= 31`.
fn power_of_two(e: u32) -> (p: u64)
    requires
        e <= 31,
    ensures
        p == pow2(e as nat),
        1 <= p <= 0x8000_0000,
{
    let mut p: u64 = 1;
    let mut i: u32 = 0;
    proof {
        lemma2_to64();
    }
    while i < e
        invariant
            i <= e <= 31,
            p == pow2(i as nat),
            1 <= p <= pow2(31),
            pow2(31) == 0x8000_0000,
        decreases e - i,
    {
        proof {
            lemma_pow2_unfold((i + 1) as nat);
            if i + 1 < 31 {
                vstd::arithmetic::power2::lemma_pow2_strictly_increases((i + 1) as nat, 31);
            }
        }
        p = p * 2;
        i = i + 1;
    }
    p
}

/// Exponent of the highest set bit of a nonzero `n`.
fn highest_bit(n: u32) -> (k: u32)
    requires
        n > 0,
    ensures
        k <= 31,
        k == floor_log2(n as nat),
        pow2(k as nat) <= n < pow2((k + 1) as nat),
{
    let mut k: u32 = 0;
    let mut top: u64 = 1;
    proof {
        lemma2_to64();
    }
    while top * 2 <= n as u64
        invariant
            top == pow2(k as nat),
            1 <= top <= n,
            k <= 31,
            pow2(32) == 0x1_0000_0000,
        decreases n - top,
    {
        proof {
            lemma_pow2_unfold((k + 1) as nat);
            if k + 1 >= 32 {
                vstd::arithmetic::power2::lemma_pow2_strictly_increases(32, (k + 2) as nat);
                if k + 1 > 32 {
                    vstd::arithmetic::power2::lemma_pow2_strictly_increases(32, (k + 1) as nat);
                }
            }
        }
        top = top * 2;
        k = k + 1;
    }
    proof {
        lemma_pow2_unfold((k + 1) as nat);
        lemma_floor_log2_bounds(n as nat, k as nat);
    }
    k
}

/// The binary32 bit pattern of `n` converted to a float, rounded to nearest
/// with ties to even.
pub fn f32_bits_of(n: u32) -> (bits: u32)
    ensures
        bits == f32_bits(n as nat),
{
    if n == 0 {
        return 0;
    }
    let k = highest_bit(n);
    proof {
        lemma2_to64();
    }
    let sig: u64 = if k <= 23 {
        let scale = power_of_two(23 - k);
        proof {
            lemma_pow2_adds((k + 1) as nat, (23 - k) as nat);
            assert(n * scale < pow2((k + 1) as nat) * scale) by (nonlinear_arith)
                requires
                    n < pow2((k + 1) as nat),
                    scale > 0,
            ;
        }
        n as u64 * scale
    } else {
        let unit = power_of_two(k - 23);
        let quotient = n as u64 / unit;
        let rest = n as u64 % unit;
        proof {
            lemma_pow2_adds((k - 23) as nat, 24);
            assert((n as int) / (unit as int) < 0x100_0000) by (nonlinear_arith)
                requires
                    n < unit * 0x100_0000,
                    unit > 0,
            ;
        }
        if 2 * rest > unit || (2 * rest == unit && quotient % 2 == 1) {
            quotient + 1
        } else {
            quotient
        }
    };
    let exponent: u64 = 126 + k as u64;
    (exponent * 0x80_0000 + sig) as u32
}

} // verus!
