//! Single-precision numbers as bit patterns.
//!
//! Every coordinate, length and cell size of this library is carried as the
//! 32 bits of its IEEE 754 binary32 encoding: one sign bit, eight exponent
//! bits and twenty-three fraction bits. This module gives those bits their
//! meaning (`scaled`, the encoded value as an exact integer multiple of the
//! smallest subnormal step), a cheap key that orders them (`ordinal`), the
//! proof that both agree, and the comparisons the rest of the library runs.

use vstd::prelude::*;
use vstd::arithmetic::power2::{pow2, lemma_pow2_pos, lemma_pow2_unfold, lemma_pow2_strictly_increases};
use vstd::arithmetic::mul::{lemma_mul_inequality, lemma_mul_strict_inequality, lemma_mul_is_commutative};

verus! {

/// The sign bit.
pub const SIGN_BIT: u32 = 0x8000_0000;

/// The bits of positive infinity: exponent all ones, fraction zero.
pub const INFINITY: u32 = 0x7f80_0000;

/// Whether the sign bit is set.
pub open spec fn is_negative(bits: u32) -> bool {
    bits >= SIGN_BIT
}

/// The pattern without its sign bit.
pub open spec fn magnitude(bits: u32) -> int {
    if bits >= SIGN_BIT {
        bits - SIGN_BIT
    } else {
        bits as int
    }
}

/// Whether the pattern encodes no number at all (exponent all ones,
/// fraction not zero).
pub open spec fn is_nan(bits: u32) -> bool {
    magnitude(bits) > INFINITY
}

/// A key that orders patterns as the numbers they encode are ordered: the
/// magnitude, negated where the sign bit is set. Both zeros have key zero.
pub open spec fn ordinal(bits: u32) -> int {
    if is_negative(bits) {
        -magnitude(bits)
    } else {
        magnitude(bits)
    }
}

/// The absolute value that a magnitude encodes, multiplied by two to the
/// power 149 so that it is an integer. A subnormal is its fraction; a normal
/// number is its 24-bit significand shifted by its exponent. Infinity takes
/// the value that the next exponent would start with.
pub open spec fn scaled_magnitude(m: int) -> int {
    let exponent = m / 0x80_0000;
    let fraction = m % 0x80_0000;
    if exponent == 0 {
        fraction
    } else {
        (0x80_0000 + fraction) * pow2((exponent - 1) as nat)
    }
}

/// The encoded value multiplied by two to the power 149, for every pattern
/// that is a number.
pub open spec fn scaled(bits: u32) -> int {
    if is_negative(bits) {
        -scaled_magnitude(magnitude(bits))
    } else {
        scaled_magnitude(magnitude(bits))
    }
}

/// Whether the pattern encodes a number greater than zero (infinity counts).
pub open spec fn is_positive(bits: u32) -> bool {
    0 < bits <= INFINITY
}

/// The smaller of two patterns, where a pattern that is no number loses to
/// one that is, and of two equal numbers the first is kept.
pub open spec fn lower_of(a: u32, b: u32) -> u32 {
    if is_nan(b) {
        a
    } else if is_nan(a) {
        b
    } else if ordinal(b) < ordinal(a) {
        b
    } else {
        a
    }
}

/// The larger of two patterns, where a pattern that is no number loses to
/// one that is, and of two equal numbers the first is kept.
pub open spec fn upper_of(a: u32, b: u32) -> u32 {
    if is_nan(b) {
        a
    } else if is_nan(a) {
        b
    } else if ordinal(a) < ordinal(b) {
        b
    } else {
        a
    }
}

/// A larger magnitude encodes a larger absolute value.
pub proof fn lemma_scaled_magnitude_increases(m1: int, m2: int)
    requires
        0 <= m1 < m2,
    ensures
        0 <= scaled_magnitude(m1) < scaled_magnitude(m2),
{
    let h: int = 0x80_0000;
    let e1 = m1 / h;
    let f1 = m1 % h;
    let e2 = m2 / h;
    let f2 = m2 % h;
    assert(0 <= e1 <= e2);
    if e1 > 0 {
        lemma_pow2_pos((e1 - 1) as nat);
        lemma_mul_strict_inequality(0, h + f1, pow2((e1 - 1) as nat) as int);
        lemma_mul_is_commutative(0, pow2((e1 - 1) as nat) as int);
    }
    if e1 == e2 {
        assert(f1 < f2);
        if e1 > 0 {
            lemma_mul_strict_inequality(h + f1, h + f2, pow2((e1 - 1) as nat) as int);
        }
    } else {
        let w2 = pow2((e2 - 1) as nat) as int;
        lemma_pow2_pos((e2 - 1) as nat);
        lemma_mul_inequality(h, h + f2, w2);
        assert(h * w2 <= scaled_magnitude(m2));
        if e1 == 0 {
            lemma_mul_inequality(1, w2, h);
            lemma_mul_is_commutative(w2, h);
            assert(f1 < h * w2);
        } else {
            let w1 = pow2((e1 - 1) as nat) as int;
            lemma_mul_strict_inequality(h + f1, 2 * h, w1);
            lemma_pow2_unfold(e1 as nat);
            assert((2 * h) * w1 == h * pow2(e1 as nat)) by (nonlinear_arith)
                requires
                    pow2(e1 as nat) == 2 * w1,
            ;
            if e1 < e2 - 1 {
                lemma_pow2_strictly_increases(e1 as nat, (e2 - 1) as nat);
            }
            lemma_mul_inequality(pow2(e1 as nat) as int, w2, h);
            lemma_mul_is_commutative(pow2(e1 as nat) as int, h);
            lemma_mul_is_commutative(w2, h);
        }
    }
}

/// The key orders patterns exactly as their values are ordered, and two
/// patterns have one key exactly when they encode one value.
pub proof fn lemma_ordinal_orders_values(a: u32, b: u32)
    ensures
        ordinal(a) < ordinal(b) <==> scaled(a) < scaled(b),
        ordinal(a) == ordinal(b) <==> scaled(a) == scaled(b),
        ordinal(a) <= ordinal(b) <==> scaled(a) <= scaled(b),
{
    let ma = magnitude(a);
    let mb = magnitude(b);
    assert(scaled_magnitude(0) == 0);
    if ma > 0 {
        lemma_scaled_magnitude_increases(0, ma);
    }
    if mb > 0 {
        lemma_scaled_magnitude_increases(0, mb);
    }
    if ma < mb {
        lemma_scaled_magnitude_increases(ma, mb);
    }
    if mb < ma {
        lemma_scaled_magnitude_increases(mb, ma);
    }
}

/// Whether the pattern encodes no number.
pub fn not_a_number(bits: u32) -> (r: bool)
    ensures
        r == is_nan(bits),
{
    if bits >= SIGN_BIT {
        bits - SIGN_BIT > INFINITY
    } else {
        bits > INFINITY
    }
}

/// Whether the pattern encodes a number greater than zero.
pub fn positive(bits: u32) -> (r: bool)
    ensures
        r == is_positive(bits),
        r <==> !is_nan(bits) && scaled(bits) > 0,
{
    proof {
        assert(scaled_magnitude(0) == 0);
        if magnitude(bits) > 0 {
            lemma_scaled_magnitude_increases(0, magnitude(bits));
        }
    }
    0 < bits && bits <= INFINITY
}

/// Whether the first pattern encodes a smaller value than the second.
pub fn precedes(a: u32, b: u32) -> (r: bool)
    ensures
        r == (ordinal(a) < ordinal(b)),
        r == (scaled(a) < scaled(b)),
{
    proof {
        lemma_ordinal_orders_values(a, b);
    }
    let ka: i64 = if a >= SIGN_BIT {
        -((a - SIGN_BIT) as i64)
    } else {
        a as i64
    };
    let kb: i64 = if b >= SIGN_BIT {
        -((b - SIGN_BIT) as i64)
    } else {
        b as i64
    };
    ka < kb
}

/// The smaller of two patterns; see `lower_of`.
pub fn lower(a: u32, b: u32) -> (m: u32)
    ensures
        m == lower_of(a, b),
{
    if not_a_number(b) {
        a
    } else if not_a_number(a) {
        b
    } else if precedes(b, a) {
        b
    } else {
        a
    }
}

/// The larger of two patterns; see `upper_of`.
pub fn upper(a: u32, b: u32) -> (m: u32)
    ensures
        m == upper_of(a, b),
{
    if not_a_number(b) {
        a
    } else if not_a_number(a) {
        b
    } else if precedes(a, b) {
        b
    } else {
        a
    }
}

} // verus!
