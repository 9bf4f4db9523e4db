//! Little-endian integer views of byte sequences, and the executable reads that match them.
use vstd::prelude::*;

verus! {

/// The value of the two bytes at `i`, least significant first.
pub open spec fn le16(b: Seq<u8>, i: int) -> int {
    b[i] as int + 256 * (b[i + 1] as int)
}

/// The value of the four bytes at `i`, least significant first.
pub open spec fn le32(b: Seq<u8>, i: int) -> int {
    le16(b, i) + 65536 * le16(b, i + 2)
}

/// The value of the eight bytes at `i`, least significant first.
pub open spec fn le64(b: Seq<u8>, i: int) -> int {
    le32(b, i) + 4294967296 * le32(b, i + 4)
}

/// The two bytes of `x`, least significant first.
pub open spec fn le16_bytes(x: u16) -> Seq<u8> {
    seq![(x % 256) as u8, (x / 256) as u8]
}

/// Reading back the two bytes of `x` gives `x`.
pub proof fn lemma_le16_bytes(x: u16)
    ensures
        le16(le16_bytes(x), 0) == x,
{
}

/// Reads a little-endian `u16` at index `i`.
pub fn get_le16(b: &[u8], i: usize) -> (r: u16)
    requires
        i + 2 <= b@.len(),
    ensures
        r as int == le16(b@, i as int),
{
    b[i] as u16 + (b[i + 1] as u16) * 256
}

/// Reads a little-endian `u32` at index `i`.
pub fn get_le32(b: &[u8], i: usize) -> (r: u32)
    requires
        i + 4 <= b@.len(),
    ensures
        r as int == le32(b@, i as int),
{
    let _n = b.len();
    let lo = get_le16(b, i);
    let hi = get_le16(b, i + 2);
    lo as u32 + (hi as u32) * 65536
}

/// Reads a little-endian `u64` at index `i`.
pub fn get_le64(b: &[u8], i: usize) -> (r: u64)
    requires
        i + 8 <= b@.len(),
    ensures
        r as int == le64(b@, i as int),
{
    let _n = b.len();
    let lo = get_le32(b, i);
    let hi = get_le32(b, i + 4);
    lo as u64 + (hi as u64) * 4294967296
}

/// A copy of the bytes of `v` from `a` up to `b`.
pub fn copy_range(v: &Vec<u8>, a: usize, b: usize) -> (r: Vec<u8>)
    requires
        a <= b <= v@.len(),
    ensures
        r@ == v@.subrange(a as int, b as int),
{
    let mut out: Vec<u8> = Vec::new();
    let mut i: usize = a;
    while i < b
        invariant
            a <= i <= b <= v@.len(),
            out@ == v@.subrange(a as int, i as int),
        decreases b - i,
    {
        out.push(v[i]);
        i = i + 1;
        assert(out@ =~= v@.subrange(a as int, i as int));
    }
    out
}

} // verus!
