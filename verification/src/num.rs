//! The integer conversions that scheduling relies on.
//!
//! Cards, timestamps and day counts are kept in integers of different widths. A
//! value that is too large for its target loses its high bits; the one exception
//! is the ease factor, which stops at the largest value that fits.
use vstd::prelude::*;

verus! {

/// The low 32 bits of `x`, read as an unsigned number.
pub open spec fn wrap_u32(x: int) -> u32 {
    (x % 0x1_0000_0000) as u32
}

/// The low 32 bits of `x`, read as a signed number.
pub open spec fn wrap_i32(x: int) -> i32 {
    if x % 0x1_0000_0000 < 0x8000_0000 {
        (x % 0x1_0000_0000) as i32
    } else {
        (x % 0x1_0000_0000 - 0x1_0000_0000) as i32
    }
}

/// The low 64 bits of `x`, read as an unsigned number.
pub open spec fn wrap_u64(x: int) -> u64 {
    (x % 0x1_0000_0000_0000_0000) as u64
}

/// `x`, or the largest 16-bit number where `x` is larger.
pub open spec fn clamp_u16(x: u32) -> u16 {
    if x <= 0xffff {
        x as u16
    } else {
        0xffff
    }
}

/// The larger of `x` and zero.
pub open spec fn at_least_zero(x: int) -> int {
    if x < 0 {
        0
    } else {
        x
    }
}

/// The low 64 bits of a signed number.
pub fn i64_to_u64(x: i64) -> (low: u64)
    ensures
        low == wrap_u64(x as int),
{
    let low: u64 = #[verifier::truncate] (x as u64);
    assert(x >= 0 ==> low == x) by (bit_vector)
        requires
            low == x as u64,
    ;
    assert(x < 0 ==> low == x + 0x1_0000_0000_0000_0000) by (bit_vector)
        requires
            low == x as u64,
    ;
    low
}

/// The low 32 bits of a signed number.
pub fn i64_to_u32(x: i64) -> (low: u32)
    ensures
        low == wrap_u32(x as int),
{
    let bits: u64 = i64_to_u64(x);
    let low: u32 = #[verifier::truncate] (bits as u32);
    assert(low == bits % 0x1_0000_0000) by (bit_vector)
        requires
            low == bits as u32,
    ;
    low
}

/// An unsigned number read as a signed one of the same width.
pub fn u32_to_i32(x: u32) -> (signed: i32)
    ensures
        signed == wrap_i32(x as int),
{
    let signed: i32 = #[verifier::truncate] (x as i32);
    assert(x < 0x8000_0000 ==> signed == x) by (bit_vector)
        requires
            signed == x as i32,
    ;
    assert(x >= 0x8000_0000 ==> signed == x - 0x1_0000_0000) by (bit_vector)
        requires
            signed == x as i32,
    ;
    signed
}

/// The low 32 bits of a signed number, read as a signed number.
pub fn i64_to_i32(x: i64) -> (low: i32)
    ensures
        low == wrap_i32(x as int),
{
    u32_to_i32(i64_to_u32(x))
}

/// The number that is kept of `x` where only 16 bits are stored.
pub fn u32_to_u16(x: u32) -> (kept: u16)
    ensures
        kept == clamp_u16(x),
{
    if x <= 0xffff {
        x as u16
    } else {
        0xffff
    }
}

} // verus!
