//! Little-endian integer fields at fixed positions of a byte buffer.

use vstd::prelude::*;

verus! {

/// Whether the `width` bytes starting at `at` all lie inside `bytes`.
pub open spec fn has_field(bytes: Seq<u8>, at: int, width: int) -> bool {
    0 <= at && at + width <= bytes.len()
}

/// The unsigned value of the two bytes starting at `at`, least significant
/// byte first.
pub open spec fn le_u16(bytes: Seq<u8>, at: int) -> int {
    bytes[at] + 0x100 * bytes[at + 1]
}

/// The unsigned value of the four bytes starting at `at`, least significant
/// byte first.
pub open spec fn le_u32(bytes: Seq<u8>, at: int) -> int {
    bytes[at] + 0x100 * bytes[at + 1] + 0x1_0000 * bytes[at + 2] + 0x100_0000 * bytes[at + 3]
}

/// The two's complement value of the four bytes starting at `at`, least
/// significant byte first.
pub open spec fn le_i32(bytes: Seq<u8>, at: int) -> int {
    let unsigned = le_u32(bytes, at);
    if unsigned < 0x8000_0000 {
        unsigned
    } else {
        unsigned - 0x1_0000_0000
    }
}

/// Reads the 16-bit unsigned field at `at`, or nothing when the buffer ends
/// before the field does.
pub fn read_u16(bytes: &[u8], at: usize) -> (value: Option<u16>)
    ensures
        value is Some <==> has_field(bytes@, at as int, 2),
        value matches Some(v) ==> v == le_u16(bytes@, at as int),
{
    let len: usize = bytes.len();
    if len < 2 || at > len - 2 {
        return None;
    }
    let low: u16 = bytes[at] as u16;
    let high: u16 = bytes[at + 1] as u16;
    Some(low + 0x100 * high)
}

/// Reads the 32-bit unsigned field at `at`, or nothing when the buffer ends
/// before the field does.
pub fn read_u32(bytes: &[u8], at: usize) -> (value: Option<u32>)
    ensures
        value is Some <==> has_field(bytes@, at as int, 4),
        value matches Some(v) ==> v == le_u32(bytes@, at as int),
{
    let len: usize = bytes.len();
    if len < 4 || at > len - 4 {
        return None;
    }
    let b0: u32 = bytes[at] as u32;
    let b1: u32 = bytes[at + 1] as u32;
    let b2: u32 = bytes[at + 2] as u32;
    let b3: u32 = bytes[at + 3] as u32;
    Some(b0 + 0x100 * b1 + 0x1_0000 * b2 + 0x100_0000 * b3)
}

/// Reads the 32-bit signed field at `at`, or nothing when the buffer ends
/// before the field does.
pub fn read_i32(bytes: &[u8], at: usize) -> (value: Option<i32>)
    ensures
        value is Some <==> has_field(bytes@, at as int, 4),
        value matches Some(v) ==> v == le_i32(bytes@, at as int),
{
    match read_u32(bytes, at) {
        Some(unsigned) => {
            if unsigned < 0x8000_0000 {
                Some(unsigned as i32)
            } else {
                let above: i32 = (unsigned - 0x8000_0000) as i32;
                Some(above + i32::MIN)
            }
        },
        None => None,
    }
}

} // verus!
