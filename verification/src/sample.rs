//! Gray samples from single-precision bit patterns.
//!
//! The kernel writes one IEEE 754 binary32 value per grid cell. A cell is
//! shown as the 8-bit sample obtained by multiplying its value by 255 in
//! single precision (round to nearest, ties to even) and then cutting the
//! product down to an integer in `0..=255`: the fraction is dropped, a
//! product below 0 gives 0, one above 255 gives 255, and a NaN gives 0.
//! Everything here works on the bit pattern of the value.

use vstd::prelude::*;
use vstd::arithmetic::power2::{
    pow2, lemma2_to64, lemma_pow2_adds, lemma_pow2_pos, lemma_pow2_strictly_increases,
};
use vstd::arithmetic::div_mod::{
    lemma_basic_div, lemma_div_denominator, lemma_div_is_ordered,
    lemma_div_is_ordered_by_denominator, lemma_div_plus_one, lemma_div_pos_is_pos,
};
use vstd::bits::lemma_u64_shr_is_div;

verus! {

/// Bit pattern of the value 0.0.
pub const ZERO_BITS: u32 = 0;

/// Bit pattern of the value 1.0.
pub const ONE_BITS: u32 = 0x3f80_0000;

/// The sign bit is set.
pub open spec fn is_negative(bits: u32) -> bool {
    bits >= 0x8000_0000
}

/// The biased exponent field, in `0..=255`.
pub open spec fn exponent(bits: u32) -> int {
    (bits as int / 0x80_0000) % 0x100
}

/// The fraction field, in `0..2^23`.
pub open spec fn fraction(bits: u32) -> int {
    bits as int % 0x80_0000
}

/// The pattern is a NaN.
pub open spec fn is_nan(bits: u32) -> bool {
    exponent(bits) == 255 && fraction(bits) != 0
}

/// The pattern is an infinity.
pub open spec fn is_infinite(bits: u32) -> bool {
    exponent(bits) == 255 && fraction(bits) == 0
}

/// The integer `m` of a finite pattern whose magnitude is `m * 2^scale`.
pub open spec fn significand(bits: u32) -> int {
    if exponent(bits) == 0 {
        fraction(bits)
    } else {
        fraction(bits) + 0x80_0000
    }
}

/// The power of two of a finite pattern whose magnitude is
/// `significand * 2^scale`.
pub open spec fn scale(bits: u32) -> int {
    if exponent(bits) == 0 {
        -149
    } else {
        exponent(bits) - 150
    }
}

/// How many low bits of `n` do not fit into a significand of 24 bits, for
/// `0 <= n < 2^32`.
pub open spec fn excess_bits(n: int) -> nat {
    if n < 0x100_0000 {
        0
    } else if n < 0x200_0000 {
        1
    } else if n < 0x400_0000 {
        2
    } else if n < 0x800_0000 {
        3
    } else if n < 0x1000_0000 {
        4
    } else if n < 0x2000_0000 {
        5
    } else if n < 0x4000_0000 {
        6
    } else if n < 0x8000_0000 {
        7
    } else {
        8
    }
}

/// `n / d` rounded to the nearest integer, a tie going to the even one.
pub open spec fn round_half_even(n: int, d: int) -> int {
    let q = n / d;
    let r = n % d;
    if 2 * r > d || (2 * r == d && q % 2 == 1) {
        q + 1
    } else {
        q
    }
}

/// The integer part of `m * 2^y`, for `m >= 0`.
pub open spec fn scaled_floor(m: int, y: int) -> int {
    if y >= 0 {
        m * pow2(y as nat)
    } else {
        m / (pow2((-y) as nat) as int)
    }
}

/// The gray sample of a cell whose value has the bit pattern `bits`.
///
/// For a finite value that is not negative, the exact product with 255 is
/// `n * 2^scale` with `n = 255 * significand`. Rounding it to 24 significant
/// bits gives `m * 2^(scale + s)`, of which the integer part is taken.
pub open spec fn sample(bits: u32) -> int {
    if is_negative(bits) || is_nan(bits) {
        0
    } else if is_infinite(bits) {
        255
    } else {
        let n = 255 * significand(bits);
        let s = excess_bits(n);
        let m = round_half_even(n, pow2(s) as int);
        let v = scaled_floor(m, scale(bits) + s);
        if v > 255 {
            255
        } else {
            v
        }
    }
}

/// The rounded significand of a product stays within 25 bits and does not
/// fall below the quotient it was rounded from.
proof fn lemma_rounded_bounds(n: int)
    requires
        0 <= n < 0x1_0000_0000,
    ensures
        n / (pow2(excess_bits(n)) as int) <= round_half_even(n, pow2(excess_bits(n)) as int)
            <= 0x100_0000,
{
    lemma2_to64();
    let s = excess_bits(n);
    let d = pow2(s) as int;
    if s == 0 {
        assert(d == 0x1);
        assert(n / 0x1 < 0x100_0000);
    } else if s == 1 {
        assert(d == 0x2);
        assert(n / 0x2 < 0x100_0000);
    } else if s == 2 {
        assert(d == 0x4);
        assert(n / 0x4 < 0x100_0000);
    } else if s == 3 {
        assert(d == 0x8);
        assert(n / 0x8 < 0x100_0000);
    } else if s == 4 {
        assert(d == 0x10);
        assert(n / 0x10 < 0x100_0000);
    } else if s == 5 {
        assert(d == 0x20);
        assert(n / 0x20 < 0x100_0000);
    } else if s == 6 {
        assert(d == 0x40);
        assert(n / 0x40 < 0x100_0000);
    } else if s == 7 {
        assert(d == 0x80);
        assert(n / 0x80 < 0x100_0000);
    } else {
        assert(d == 0x100);
        assert(n / 0x100 < 0x100_0000);
    }
}

/// A value of at least 1.0 that is finite gives the full sample.
pub proof fn lemma_sample_saturates(bits: u32)
    requires
        !is_negative(bits),
        127 <= exponent(bits) < 255,
    ensures
        sample(bits) == 255,
{
    lemma2_to64();
    let n = 255 * significand(bits);
    let s = excess_bits(n);
    let m = round_half_even(n, pow2(s) as int);
    let y = scale(bits) + s;
    lemma_rounded_bounds(n);
    assert(0x80_0000 <= significand(bits) < 0x100_0000);
    assert(s == 7 || s == 8);
    if s == 7 {
        assert(m >= n / 128);
        assert(m >= 0xff_0000);
    } else {
        assert(m >= n / 256);
        assert(m >= 0x80_0000);
    }
    if y >= 0 {
        lemma_pow2_pos(y as nat);
        assert(m * pow2(y as nat) >= m) by (nonlinear_arith)
            requires
                m >= 0,
                pow2(y as nat) >= 1,
        ;
    } else {
        let t = (-y) as nat;
        lemma_pow2_pos(t);
        if s == 7 {
            assert(t <= 16);
            if t < 16 {
                lemma_pow2_strictly_increases(t, 16);
            }
            lemma_div_is_ordered_by_denominator(m, pow2(t) as int, 0x1_0000);
            assert(m / 0x1_0000 >= 255);
        } else {
            assert(t <= 15);
            if t < 15 {
                lemma_pow2_strictly_increases(t, 15);
            }
            lemma_div_is_ordered_by_denominator(m, pow2(t) as int, 0x8000);
            assert(m / 0x8000 >= 256);
        }
    }
}

/// A value below 2^-9 that is not negative gives the empty sample.
pub proof fn lemma_sample_vanishes(bits: u32)
    requires
        !is_negative(bits),
        exponent(bits) < 118,
    ensures
        sample(bits) == 0,
{
    lemma2_to64();
    let n = 255 * significand(bits);
    let s = excess_bits(n);
    let m = round_half_even(n, pow2(s) as int);
    let y = scale(bits) + s;
    lemma_rounded_bounds(n);
    assert(0 <= m) by {
        lemma_pow2_pos(s);
    }
    assert(y <= -25);
    let t = (-y) as nat;
    if t > 25 {
        lemma_pow2_strictly_increases(25, t);
    }
    assert(pow2(t) > m);
    lemma_basic_div(m, pow2(t) as int);
}

/// The value 1.0 gives the full sample and the value 0.0 the empty one.
pub proof fn lemma_sample_of_one_and_zero()
    ensures
        sample(ONE_BITS) == 255,
        sample(ZERO_BITS) == 0,
{
    lemma_sample_saturates(ONE_BITS);
    lemma_sample_vanishes(ZERO_BITS);
}

/// Every sample is an 8-bit value.
pub proof fn lemma_sample_range(bits: u32)
    ensures
        0 <= sample(bits) <= 255,
{
    if !is_negative(bits) && exponent(bits) != 255 {
        let n = 255 * significand(bits);
        let s = excess_bits(n);
        let m = round_half_even(n, pow2(s) as int);
        let y = scale(bits) + s;
        lemma_rounded_bounds(n);
        lemma_pow2_pos(s);
        assert(0 <= n / (pow2(s) as int));
        if y >= 0 {
            lemma_pow2_pos(y as nat);
            assert(m * pow2(y as nat) >= 0) by (nonlinear_arith)
                requires
                    m >= 0,
                    pow2(y as nat) >= 1,
            ;
        } else {
            lemma_pow2_pos((-y) as nat);
            assert(m / (pow2((-y) as nat) as int) >= 0);
        }
    }
}

/// For a value from 0 up to 1, 1 left out, the sample is the integer part
/// of the exact product of the value and 255, or one more: one more only
/// where rounding to single precision lifted the product to the next
/// integer.
pub proof fn lemma_sample_is_truncated_product(bits: u32)
    requires
        !is_negative(bits),
        exponent(bits) < 127,
    ensures
        ({
            let exact = scaled_floor(255 * significand(bits), scale(bits));
            0 <= exact < 255 && exact <= sample(bits) <= exact + 1
        }),
{
    lemma2_to64();
    let n = 255 * significand(bits);
    let s = excess_bits(n);
    let d = pow2(s) as int;
    let q = n / d;
    let m = round_half_even(n, d);
    let y = scale(bits) + s;
    let t = (-y) as nat;
    let e = pow2(t) as int;
    let whole = pow2((-scale(bits)) as nat) as int;
    lemma_rounded_bounds(n);
    lemma_pow2_pos(s);
    lemma_pow2_pos(t);
    assert(y <= -16);
    assert(s + t == -scale(bits));
    assert(whole == d * e) by {
        lemma_pow2_adds(s, t);
    }
    assert(q / e == n / whole) by {
        lemma_div_denominator(n, d, e);
    }
    assert(q <= m <= q + 1);
    assert(0 <= q) by {
        lemma_div_pos_is_pos(n, d);
    }
    assert(q / e <= m / e) by {
        lemma_div_is_ordered(q, m, e);
    }
    assert(m / e <= q / e + 1) by {
        lemma_div_is_ordered(m, q + e, e);
        lemma_div_plus_one(q, e);
    }
    assert(0 <= n / whole < 255) by {
        lemma_pow2_pos((-scale(bits)) as nat);
        lemma_div_pos_is_pos(n, whole);
        if -scale(bits) > 24 {
            lemma_pow2_strictly_increases(24, (-scale(bits)) as nat);
        }
        lemma_div_is_ordered_by_denominator(n, 0x100_0000, whole);
        assert(n / 0x100_0000 < 255);
    }
}

/// Converts the bit pattern of a cell's value into its gray sample.
pub fn sample_of_bits(bits: u32) -> (value: u8)
    ensures
        value == sample(bits),
{
    let exp: u32 = (bits >> 23) & 0xff;
    let frac: u32 = bits & 0x7f_ffff;
    proof {
        assert(exp == (bits / 0x80_0000) % 0x100) by (bit_vector)
            requires
                exp == (bits >> 23) & 0xff,
        ;
        assert(frac == bits % 0x80_0000) by (bit_vector)
            requires
                frac == bits & 0x7f_ffff,
        ;
    }
    if bits >= 0x8000_0000 {
        return 0;
    }
    if exp == 255 {
        return if frac == 0 {
            255
        } else {
            0
        };
    }
    if exp >= 127 {
        proof {
            lemma_sample_saturates(bits);
        }
        return 255;
    }
    if exp < 118 {
        proof {
            lemma_sample_vanishes(bits);
        }
        return 0;
    }
    let n: u64 = 255 * (frac as u64 + 0x80_0000);
    let s: u32 = if n < 0x8000_0000 {
        7
    } else {
        8
    };
    let d: u64 = if s == 7 {
        128
    } else {
        256
    };
    let q: u64 = n / d;
    let r: u64 = n % d;
    let m: u64 = if 2 * r > d || (2 * r == d && q % 2 == 1) {
        q + 1
    } else {
        q
    };
    let t: u32 = 150 - exp - s;
    let v: u64 = m >> (t as u64);
    proof {
        lemma2_to64();
        assert(s == excess_bits(n as int));
        assert(d == pow2(s as nat));
        assert(m == round_half_even(n as int, pow2(s as nat) as int));
        lemma_u64_shr_is_div(m, t as u64);
        assert(scale(bits) + s == -(t as int));
        assert(v == scaled_floor(m as int, scale(bits) + s));
    }
    if v > 255 {
        255
    } else {
        v as u8
    }
}

} // verus!
