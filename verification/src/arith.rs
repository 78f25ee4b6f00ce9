//! Two's-complement readings of 32-bit words: signed comparison, checked
//! signed addition and subtraction, truncated signed division, and
//! sub-word sign extension.

use vstd::prelude::*;

verus! {

/// The signed (two's-complement) reading of a 32-bit word.
pub open spec fn as_signed(x: u32) -> int {
    if x < 0x80000000 {
        x as int
    } else {
        x as int - 0x100000000
    }
}

/// The 32-bit word holding `a + b` modulo 2^32.
pub open spec fn wrap_add(a: u32, b: u32) -> u32 {
    vstd::wrapping::u32_specs::wrapping_add(a, b)
}

/// The 32-bit word holding `a - b` modulo 2^32.
pub open spec fn wrap_sub(a: u32, b: u32) -> u32 {
    vstd::wrapping::u32_specs::wrapping_sub(a, b)
}

/// Whether `x < y` read as signed words.
pub open spec fn signed_lt(x: u32, y: u32) -> bool {
    as_signed(x) < as_signed(y)
}

/// Whether adding `a` and `b` as signed words overflows 32 bits.
pub open spec fn signed_add_overflows(a: u32, b: u32) -> bool {
    as_signed(a) + as_signed(b) > 0x7FFFFFFF || as_signed(a) + as_signed(b) < -0x80000000
}

/// Whether subtracting `b` from `a` as signed words overflows 32 bits.
pub open spec fn signed_sub_overflows(a: u32, b: u32) -> bool {
    as_signed(a) - as_signed(b) > 0x7FFFFFFF || as_signed(a) - as_signed(b) < -0x80000000
}

/// The two's-complement negation of `x`.
pub open spec fn u32_neg(x: u32) -> u32 {
    if x == 0 {
        0
    } else {
        (0x100000000 - x) as u32
    }
}

/// The magnitude of the signed reading of `x` (2^31 for the minimum).
pub open spec fn u32_abs_signed(x: u32) -> u32 {
    if x >= 0x80000000 {
        (0x100000000 - x) as u32
    } else {
        x
    }
}

/// The truncated signed quotient of `n / d`, as a 32-bit word.
pub open spec fn signed_div_quotient(n: u32, d: u32) -> u32
    recommends
        d != 0,
        !(n == 0x80000000 && d == 0xFFFFFFFF),
{
    let q = (u32_abs_signed(n) as int / u32_abs_signed(d) as int) as u32;
    if (n >= 0x80000000) != (d >= 0x80000000) {
        u32_neg(q)
    } else {
        q
    }
}

/// The remainder of the truncated signed division `n / d` (it carries the
/// numerator's sign), as a 32-bit word.
pub open spec fn signed_div_remainder(n: u32, d: u32) -> u32
    recommends
        d != 0,
        !(n == 0x80000000 && d == 0xFFFFFFFF),
{
    let r = (u32_abs_signed(n) as int % u32_abs_signed(d) as int) as u32;
    if n >= 0x80000000 {
        u32_neg(r)
    } else {
        r
    }
}

/// The byte in bits 0..7 of `v`, sign-extended to 32 bits.
pub open spec fn sign_extend_byte(v: u32) -> u32 {
    let b = v % 0x100;
    if b >= 0x80 {
        (b + 0xFFFFFF00) as u32
    } else {
        b
    }
}

/// The halfword in bits 0..15 of `v`, sign-extended to 32 bits.
pub open spec fn sign_extend_half(v: u32) -> u32 {
    let h = v % 0x10000;
    if h >= 0x8000 {
        (h + 0xFFFF0000) as u32
    } else {
        h
    }
}

/// `x` shifted right by `sh` bits, the sign bit replicated into the
/// vacated positions.
pub open spec fn shift_right_arithmetic(x: u32, sh: u32) -> u32
    recommends
        sh < 32,
{
    if sh == 0 {
        x
    } else if x >= 0x80000000 {
        (x >> sh) | (0xFFFFFFFFu32 << ((32 - sh) as u32))
    } else {
        x >> sh
    }
}

/// `x` shifted right by `sh` bits, the sign bit replicated into the
/// vacated positions.
pub fn arithmetic_shift_right(x: u32, sh: u32) -> (r: u32)
    requires
        sh < 32,
    ensures
        r == shift_right_arithmetic(x, sh),
{
    if sh == 0 {
        x
    } else if x >= 0x80000000 {
        (x >> sh) | (0xFFFFFFFFu32 << (32 - sh))
    } else {
        x >> sh
    }
}

/// Whether `x < y` read as signed words.
pub fn signed_less_than(x: u32, y: u32) -> (r: bool)
    ensures
        r == signed_lt(x, y),
{
    if (x >= 0x80000000) == (y >= 0x80000000) {
        x < y
    } else {
        x >= 0x80000000
    }
}

/// Add `a` and `b` as signed words, refusing the sums that overflow.
pub fn checked_signed_add(a: u32, b: u32) -> (r: Option<u32>)
    ensures
        r == (if signed_add_overflows(a, b) {
            Option::<u32>::None
        } else {
            Some(wrap_add(a, b))
        }),
{
    let sum = a.wrapping_add(b);
    let a_neg = a >= 0x80000000;
    let b_neg = b >= 0x80000000;
    let sum_neg = sum >= 0x80000000;
    if a_neg == b_neg && sum_neg != a_neg {
        None
    } else {
        Some(sum)
    }
}

/// Subtract `b` from `a` as signed words, refusing the differences that
/// overflow.
pub fn checked_signed_sub(a: u32, b: u32) -> (r: Option<u32>)
    ensures
        r == (if signed_sub_overflows(a, b) {
            Option::<u32>::None
        } else {
            Some(wrap_sub(a, b))
        }),
{
    let diff = a.wrapping_sub(b);
    let a_neg = a >= 0x80000000;
    let b_neg = b >= 0x80000000;
    let diff_neg = diff >= 0x80000000;
    if a_neg != b_neg && diff_neg != a_neg {
        None
    } else {
        Some(diff)
    }
}

/// The two's-complement negation of `x`.
pub fn negate(x: u32) -> (r: u32)
    ensures
        r == u32_neg(x),
{
    0u32.wrapping_sub(x)
}

/// The magnitude of the signed reading of `x`.
pub fn abs_signed(x: u32) -> (r: u32)
    ensures
        r == u32_abs_signed(x),
{
    if x >= 0x80000000 {
        0u32.wrapping_sub(x)
    } else {
        x
    }
}

/// The truncated signed quotient and remainder of `n / d`.
pub fn signed_divide(n: u32, d: u32) -> (r: (u32, u32))
    requires
        d != 0,
        !(n == 0x80000000 && d == 0xFFFFFFFF),
    ensures
        r.0 == signed_div_quotient(n, d),
        r.1 == signed_div_remainder(n, d),
{
    let magnitude_n = abs_signed(n);
    let magnitude_d = abs_signed(d);
    let q = magnitude_n / magnitude_d;
    let rem = magnitude_n % magnitude_d;
    let quotient = if (n >= 0x80000000) != (d >= 0x80000000) {
        negate(q)
    } else {
        q
    };
    let remainder = if n >= 0x80000000 {
        negate(rem)
    } else {
        rem
    };
    (quotient, remainder)
}

/// The byte in bits 0..7 of `v`, sign-extended to 32 bits.
pub fn extend_byte_signed(v: u32) -> (r: u32)
    ensures
        r == sign_extend_byte(v),
{
    let b = v % 0x100;
    if b >= 0x80 {
        b + 0xFFFFFF00
    } else {
        b
    }
}

/// The halfword in bits 0..15 of `v`, sign-extended to 32 bits.
pub fn extend_half_signed(v: u32) -> (r: u32)
    ensures
        r == sign_extend_half(v),
{
    let h = v % 0x10000;
    if h >= 0x8000 {
        h + 0xFFFF0000
    } else {
        h
    }
}

} // verus!
