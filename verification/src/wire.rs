//! Reading big-endian fields out of a raw frame.

use vstd::prelude::*;

verus! {

/// The 16-bit big-endian value stored at byte offset `i` of `b`.
pub open spec fn be16(b: Seq<u8>, i: int) -> int
    recommends
        0 <= i,
        i + 2 <= b.len(),
{
    b[i] * 256 + b[i + 1]
}

/// Reads the 16-bit big-endian value at offset `i` of `data`.
pub fn read_be16(data: &[u8], i: usize) -> (r: u16)
    requires
        i + 2 <= data@.len(),
    ensures
        r as int == be16(data@, i as int),
{
    (data[i] as u16) * 256 + (data[i + 1] as u16)
}

} // verus!
