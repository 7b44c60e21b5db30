//! Scalars on their way across the boundary. The host has only signed
//! integers and bytes; the store counts with unsigned ones.
use vstd::prelude::*;

verus! {

/// The unsigned number that the host's 64 bits stand for.
pub open spec fn unsigned_of(value: i64) -> int {
    if value >= 0 {
        value as int
    } else {
        value + 0x1_0000_0000_0000_0000
    }
}

/// The signed number that the host reads in the store's 64 bits.
pub open spec fn signed_of(value: u64) -> int {
    if value <= i64::MAX {
        value as int
    } else {
        value - 0x1_0000_0000_0000_0000
    }
}

/// Reads a position or a length that the host passed as a signed integer.
/// The bits are kept: a negative argument becomes a number of at least
/// 2^63, which lies past the end of every list.
pub fn index_from_host(value: i64) -> (r: u64)
    ensures
        r == unsigned_of(value),
        value >= 0 ==> r == value,
        value < 0 ==> r > i64::MAX,
{
    if value >= 0 {
        value as u64
    } else {
        let low: u64 = (value - i64::MIN) as u64;
        low + 0x8000_0000_0000_0000u64
    }
}

/// Hands a length to the host as a signed integer, keeping the bits.
pub fn length_to_host(length: u64) -> (r: i64)
    ensures
        r == signed_of(length),
        length <= i64::MAX ==> r == length,
        unsigned_of(r) == length,
{
    if length <= 0x7fff_ffff_ffff_ffffu64 {
        length as i64
    } else {
        let low: i64 = (length - 0x8000_0000_0000_0000u64) as i64;
        low + i64::MIN
    }
}

/// Hands a tree height to the host as a 32-bit signed integer.
pub fn height_to_host(height: u8) -> (r: i32)
    ensures
        r == height,
{
    height as i32
}

/// Hands a truth value to the host as one byte: one for true, zero for false.
pub fn boolean_to_host(value: bool) -> (r: u8)
    ensures
        r == (if value { 1u8 } else { 0u8 }),
{
    if value {
        1
    } else {
        0
    }
}

} // verus!
