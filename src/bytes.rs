use vstd::prelude::*;

verus! {

/// Value of the little-endian 16-bit integer stored at `p` in `s`.
pub open spec fn le16(s: Seq<u8>, p: int) -> int {
    s[p] as int + 256 * s[p + 1] as int
}

/// Value of the little-endian 32-bit integer stored at `p` in `s`.
pub open spec fn le32(s: Seq<u8>, p: int) -> int {
    le16(s, p) + 65536 * le16(s, p + 2)
}

/// Value of the little-endian 64-bit integer stored at `p` in `s`.
pub open spec fn le64(s: Seq<u8>, p: int) -> int {
    le32(s, p) + 4294967296 * le32(s, p + 4)
}

/// Reads a little-endian `u16` at `p`.
pub fn read_u16(b: &[u8], p: usize) -> (r: u16)
    requires
        p + 2 <= b@.len(),
    ensures
        r as int == le16(b@, p as int),
{
    let b0 = b[p] as u16;
    let b1 = b[p + 1] as u16;
    b0 + 256 * b1
}

/// Reads a little-endian `u32` at `p`.
pub fn read_u32(b: &[u8], p: usize) -> (r: u32)
    requires
        p + 4 <= b@.len(),
    ensures
        r as int == le32(b@, p as int),
{
    // The call makes known that the slice's length fits in a usize.
    let _ = b.len();
    let lo = read_u16(b, p) as u32;
    let hi = (b[p + 2] as u32) + 256 * (b[p + 3] as u32);
    lo + 65536 * hi
}

/// Reads a little-endian `u64` at `p`.
pub fn read_u64(b: &[u8], p: usize) -> (r: u64)
    requires
        p + 8 <= b@.len(),
    ensures
        r as int == le64(b@, p as int),
{
    // The call makes known that the slice's length fits in a usize.
    let _ = b.len();
    let lo = read_u32(b, p) as u64;
    let hi = read_u32(b, p + 4) as u64;
    lo + 4294967296 * hi
}

} // verus!
