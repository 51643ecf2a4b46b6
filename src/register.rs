//! Sixteen-bit two's-complement readings assembled from register bytes.
use vstd::prelude::*;

verus! {

/// The signed 16-bit value whose high byte is `hi` and low byte is `lo`.
pub open spec fn spec_i16_from_bytes(hi: u8, lo: u8) -> int {
    let u = hi as int * 256 + lo as int;
    if u >= 32768 {
        u - 65536
    } else {
        u
    }
}

/// Assembles a signed 16-bit reading from its high and low bytes.
pub fn i16_from_bytes(hi: u8, lo: u8) -> (r: i16)
    ensures
        r as int == spec_i16_from_bytes(hi, lo),
{
    let u: i32 = (hi as i32) * 256 + (lo as i32);
    if u >= 32768 {
        (u - 65536) as i16
    } else {
        u as i16
    }
}

} // verus!
