//! The slider's live value and the whole number that is reported for it.
//!
//! The window holds the value as a single-precision number. It reaches this
//! crate as that number's 32 bits: one sign bit, eight bits of exponent and 23
//! bits of fraction. The number reported is the nearest whole number, a half
//! going away from zero, kept inside the range of `u32`.
use vstd::arithmetic::div_mod::*;
use vstd::arithmetic::mul::*;
use vstd::arithmetic::power2::*;
use vstd::bits::*;
use vstd::prelude::*;

verus! {

/// Whether the sign bit is set.
pub open spec fn is_negative(bits: u32) -> bool {
    bits >= 0x8000_0000
}

/// The eight bits of the exponent.
pub open spec fn exponent_field(bits: u32) -> nat {
    ((bits as nat) / 0x80_0000) % 0x100
}

/// The 23 bits of the fraction.
pub open spec fn fraction_field(bits: u32) -> nat {
    (bits as nat) % 0x80_0000
}

/// The bits stand for no number at all.
pub open spec fn is_nan(bits: u32) -> bool {
    exponent_field(bits) == 255 && fraction_field(bits) != 0
}

/// The bits stand for an infinity.
pub open spec fn is_infinite(bits: u32) -> bool {
    exponent_field(bits) == 255 && fraction_field(bits) == 0
}

/// For bits that stand for a finite number: its size without the sign is
/// `significand(bits) * 2^scale(bits)`.
pub open spec fn significand(bits: u32) -> nat {
    if exponent_field(bits) == 0 {
        fraction_field(bits)
    } else {
        0x80_0000 + fraction_field(bits)
    }
}

/// The power of two that the significand is multiplied by.
pub open spec fn scale(bits: u32) -> int {
    if exponent_field(bits) == 0 {
        -149
    } else {
        exponent_field(bits) - 150
    }
}

/// The whole number nearest to `m * 2^e`, a half going up.
pub open spec fn nearest_whole(m: nat, e: int) -> nat {
    if e >= 0 {
        m * pow2(e as nat)
    } else {
        (2 * m + pow2((-e) as nat)) / (2 * pow2((-e) as nat))
    }
}

/// The whole number reported for a live value: nothing counts as zero, a
/// value below zero as zero, and a value past the range of `u32` as its
/// largest number.
pub open spec fn rounded(bits: u32) -> u32 {
    if is_nan(bits) || is_negative(bits) {
        0
    } else if is_infinite(bits) {
        u32::MAX
    } else {
        let whole = nearest_whole(significand(bits), scale(bits));
        if whole > u32::MAX {
            u32::MAX
        } else {
            whole as u32
        }
    }
}

/// A number below a half has zero as its nearest whole number.
proof fn lemma_small_rounds_to_zero(m: nat, k: nat)
    requires
        m < 0x100_0000,
        k >= 25,
    ensures
        nearest_whole(m, -(k as int)) == 0,
{
    lemma2_to64();
    if k > 25 {
        lemma_pow2_strictly_increases(25, k);
    }
    let d = pow2(k) as int;
    assert(0 <= 2 * m + d < 2 * d);
    lemma_basic_div(2 * m + d, 2 * d);
}

/// A number of at least 2^32 lies past the range of `u32`.
proof fn lemma_large_is_past_range(m: nat, e: nat)
    requires
        m >= 0x80_0000,
        e >= 9,
    ensures
        nearest_whole(m, e as int) > u32::MAX,
{
    lemma2_to64();
    if e > 9 {
        lemma_pow2_strictly_increases(9, e);
    }
    let p = pow2(e) as int;
    assert(m * p >= 0x80_0000 * 512) by (nonlinear_arith)
        requires
            m >= 0x80_0000,
            p >= 512,
    ;
}

/// Rounding `m / 2^k` is adding half of `2^k` and dropping the last `k` bits.
proof fn lemma_half_up(m: nat, k: nat)
    requires
        1 <= k,
    ensures
        pow2(k) == 2 * pow2((k - 1) as nat),
        nearest_whole(m, -(k as int)) == (m + pow2((k - 1) as nat)) / pow2(k),
{
    lemma_pow2_unfold(k);
    lemma_pow2_pos(k);
    let h = pow2((k - 1) as nat) as int;
    let d = pow2(k) as int;
    let x = 2 * m + d;
    assert(x == 2 * (m + h));
    lemma_div_denominator(x, 2, d);
    assert(x / 2 == m + h) by {
        lemma_div_multiples_vanish(m + h, 2);
        lemma_mul_is_commutative(2, m + h);
    }
}

/// The whole number that is reported for the live value with these bits.
pub fn round_to_u32(bits: u32) -> (whole: u32)
    ensures
        whole == rounded(bits),
{
    let negative = bits >= 0x8000_0000;
    let exponent: u32 = (bits >> 23) & 0xFF;
    let fraction: u32 = bits & 0x7F_FFFF;
    proof {
        assert((bits >> 23) & 0xFF == (bits / 0x80_0000) % 0x100) by (bit_vector);
        assert(bits & 0x7F_FFFF == bits % 0x80_0000) by (bit_vector);
        assert(exponent == exponent_field(bits));
        assert(fraction == fraction_field(bits));
    }
    if exponent == 255 {
        return if fraction == 0 && !negative {
            u32::MAX
        } else {
            0
        };
    }
    if negative {
        return 0;
    }
    if exponent < 126 {
        proof {
            lemma_small_rounds_to_zero(significand(bits), (-scale(bits)) as nat);
        }
        return 0;
    }
    let sig: u32 = 0x80_0000 | fraction;
    proof {
        assert(0x80_0000u32 | fraction == 0x80_0000 + fraction) by (bit_vector)
            requires
                fraction < 0x80_0000,
        ;
        assert(sig == significand(bits));
    }
    if exponent >= 159 {
        proof {
            lemma_large_is_past_range(significand(bits), scale(bits) as nat);
        }
        return u32::MAX;
    }
    if exponent >= 150 {
        let shift: u32 = exponent - 150;
        proof {
            lemma2_to64();
            lemma_pow2_strictly_increases(shift as nat, 9);
            let p = pow2(shift as nat) as int;
            assert(sig * p <= 0xFF_FFFF * 256) by (nonlinear_arith)
                requires
                    0 <= sig <= 0xFF_FFFF,
                    0 <= p <= 256,
            ;
            lemma_u32_shl_is_mul(sig, shift);
        }
        return sig << shift;
    }
    let shift: u32 = 150 - exponent;
    let half: u32 = 1u32 << (shift - 1);
    proof {
        lemma2_to64();
        lemma_half_up(sig as nat, shift as nat);
        lemma_u32_pow2_no_overflow((shift - 1) as nat);
        lemma_u32_shl_is_mul(1u32, (shift - 1) as u32);
        assert(half == pow2((shift - 1) as nat));
        if shift < 24 {
            lemma_pow2_strictly_increases((shift - 1) as nat, 23);
        }
        assert(half <= 0x80_0000);
        lemma_u32_shr_is_div((sig + half) as u32, shift);
        let whole = (sig + half) as nat / pow2(shift as nat);
        assert(whole <= sig + half) by {
            lemma_pow2_pos(shift as nat);
            lemma_div_nonincreasing((sig + half) as int, pow2(shift as nat) as int);
        }
    }
    (sig + half) >> shift
}

} // verus!
