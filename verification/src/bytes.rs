//! Little-endian integers read out of raw byte buffers.

use vstd::prelude::*;

verus! {

/// The little-endian `u32` at byte offset `i` of `b`.
pub open spec fn le_u32_at(b: Seq<u8>, i: int) -> u32 {
    (b[i] + 0x100 * b[i + 1] + 0x1_0000 * b[i + 2] + 0x100_0000 * b[i + 3]) as u32
}

/// The little-endian `u64` at byte offset `i` of `b`.
pub open spec fn le_u64_at(b: Seq<u8>, i: int) -> u64 {
    (le_u32_at(b, i) + 0x1_0000_0000 * le_u32_at(b, i + 4)) as u64
}

/// Reads the little-endian `u32` at byte offset `i`.
pub fn read_le_u32(b: &[u8], i: usize) -> (v: u32)
    requires
        i + 4 <= b@.len(),
    ensures
        v == le_u32_at(b@, i as int),
{
    let b0 = b[i] as u32;
    let b1 = b[i + 1] as u32;
    let b2 = b[i + 2] as u32;
    let b3 = b[i + 3] as u32;
    b0 + 0x100 * b1 + 0x1_0000 * b2 + 0x100_0000 * b3
}

/// Reads the little-endian `u64` at byte offset `i`.
pub fn read_le_u64(b: &[u8], i: usize) -> (v: u64)
    requires
        i + 8 <= b@.len(),
    ensures
        v == le_u64_at(b@, i as int),
{
    // The slice's length is a `usize`, which bounds `i + 4` below.
    let _len = b.len();
    let lo = read_le_u32(b, i) as u64;
    let hi = read_le_u32(b, i + 4) as u64;
    lo + 0x1_0000_0000 * hi
}

/// Reads the little-endian `u16` at byte offset `i`.
pub fn read_le_u16(b: &[u8], i: usize) -> (v: u16)
    requires
        i + 2 <= b@.len(),
    ensures
        v == crate::wide::le_u16_at(b@, i as int),
{
    b[i] as u16 + 256 * (b[i + 1] as u16)
}

} // verus!
