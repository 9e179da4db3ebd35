//! Little-endian integer reads and range copies over a byte buffer.

use vstd::prelude::*;

verus! {

/// Little-endian value of the two bytes of `s` at `start` and `start + 1`.
pub open spec fn le16_at(s: Seq<u8>, start: int) -> int {
    s[start] + 0x100 * s[start + 1]
}

/// Little-endian value of the eight bytes of `s` starting at `start`.
pub open spec fn le64_at(s: Seq<u8>, start: int) -> int {
    s[start] + 0x100 * s[start + 1] + 0x1_0000 * s[start + 2] + 0x100_0000 * s[start + 3]
        + 0x1_0000_0000 * s[start + 4] + 0x100_0000_0000 * s[start + 5]
        + 0x1_0000_0000_0000 * s[start + 6] + 0x100_0000_0000_0000 * s[start + 7]
}

/// Reads an unsigned 16-bit little-endian value at `pos`.
pub fn read_u16_le(bytes: &Vec<u8>, pos: usize) -> (r: u16)
    requires
        pos + 2 <= bytes@.len(),
    ensures
        r == le16_at(bytes@, pos as int),
{
    // Pins the buffer length to a usize, so index arithmetic cannot overflow.
    let _n: usize = bytes.len();
    let lo = bytes[pos];
    let hi = bytes[pos + 1];
    lo as u16 + 0x100 * hi as u16
}

/// Reads an unsigned 64-bit little-endian value at `pos`.
pub fn read_u64_le(bytes: &Vec<u8>, pos: usize) -> (r: u64)
    requires
        pos + 8 <= bytes@.len(),
    ensures
        r == le64_at(bytes@, pos as int),
{
    // Pins the buffer length to a usize, so index arithmetic cannot overflow.
    let _n: usize = bytes.len();
    bytes[pos] as u64 + 0x100 * bytes[pos + 1] as u64 + 0x1_0000 * bytes[pos + 2] as u64
        + 0x100_0000 * bytes[pos + 3] as u64 + 0x1_0000_0000 * bytes[pos + 4] as u64
        + 0x100_0000_0000 * bytes[pos + 5] as u64 + 0x1_0000_0000_0000 * bytes[pos + 6] as u64
        + 0x100_0000_0000_0000 * bytes[pos + 7] as u64
}

/// Copies `bytes[from..to]` into a fresh buffer.
pub fn copy_range(bytes: &Vec<u8>, from: usize, to: usize) -> (r: Vec<u8>)
    requires
        from <= to,
        to <= bytes@.len(),
    ensures
        r@ == bytes@.subrange(from as int, to as int),
{
    let mut r: Vec<u8> = Vec::new();
    let mut i: usize = from;
    while i < to
        invariant
            from <= i <= to <= bytes@.len(),
            r@ == bytes@.subrange(from as int, i as int),
        decreases to - i,
    {
        r.push(bytes[i]);
        i = i + 1;
        proof {
            assert(bytes@.subrange(from as int, i as int) =~= bytes@.subrange(
                from as int,
                i - 1,
            ).push(bytes@[i - 1]));
        }
    }
    r
}

} // verus!
