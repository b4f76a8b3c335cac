//! Reading fixed-width fields out of a byte buffer.
use vstd::prelude::*;

verus! {

/// Width in bytes of every integer and tag field of the header.
pub const I32_SIZE: usize = 4;

/// The unsigned value of four bytes stored least significant first.
pub open spec fn le_u32(b0: u8, b1: u8, b2: u8, b3: u8) -> int {
    b0 as int + 256 * (b1 as int) + 65536 * (b2 as int) + 16777216 * (b3 as int)
}

/// The two's-complement reading of a 32-bit unsigned value.
pub open spec fn as_signed32(u: int) -> int {
    if u < 0x8000_0000 {
        u
    } else {
        u - 0x1_0000_0000
    }
}

/// The signed little-endian 32-bit integer stored in `s` at `start`.
pub open spec fn i32_at(s: Seq<u8>, start: int) -> int {
    as_signed32(le_u32(s[start], s[start + 1], s[start + 2], s[start + 3]))
}

/// Whether four bytes starting at `start` lie inside `s`.
pub open spec fn field_fits(s: Seq<u8>, start: int) -> bool {
    0 <= start && start + 4 <= s.len()
}

/// Reads the signed little-endian 32-bit integer at `start`.
pub fn get_i32_from_bytes(bytes: &[u8], start: usize) -> (r: i32)
    requires
        field_fits(bytes@, start as int),
    ensures
        r as int == i32_at(bytes@, start as int),
{
    let b0 = bytes[start];
    let b1 = bytes[start + 1];
    let b2 = bytes[start + 2];
    let b3 = bytes[start + 3];
    let u: u32 = (b0 as u32) + (b1 as u32) * 256 + (b2 as u32) * 65536 + (b3 as u32)
        * 16777216;
    if u < 0x8000_0000 {
        u as i32
    } else {
        let low: i32 = (u - 0x8000_0000) as i32;
        low - 0x7fff_ffff - 1
    }
}

/// Copies the four bytes at `start` into a tag.
pub fn get_bytes_4(bytes: &[u8], start: usize) -> (r: [u8; I32_SIZE])
    requires
        field_fits(bytes@, start as int),
    ensures
        r@ == bytes@.subrange(start as int, start as int + 4),
{
    let r = [bytes[start], bytes[start + 1], bytes[start + 2], bytes[start + 3]];
    assert(r@ =~= bytes@.subrange(start as int, start as int + 4));
    r
}

} // verus!
