//! Axis remapping between the sensor frame (X right, Y up, Z forward), the
//! filter frame (X right, Y back, Z up) and the render frame (Y up, Z forward).
//!
//! Components are single-precision bit patterns; negating one flips its sign
//! bit, which is exactly what IEEE-754 negation does.
use vstd::prelude::*;
use crate::frame::{Axes, RawFrame};

verus! {

/// The sign bit of a single-precision value.
pub const SIGN_BIT: u32 = 0x8000_0000;

/// An orientation quaternion (w, x, y, z) as single-precision bit patterns.
#[derive(Clone, Copy, Debug, PartialEq, Eq, Structural)]
pub struct QuatBits {
    pub w: u32,
    pub x: u32,
    pub y: u32,
    pub z: u32,
}

/// The bit pattern of the negation of the value with bit pattern `b`.
pub open spec fn neg_bits(b: u32) -> u32 {
    b ^ SIGN_BIT
}

/// The sensor-frame vector `v` in the filter frame: `(v.x, -v.z, v.y)`.
pub open spec fn spec_to_filter_frame(v: Axes) -> Axes {
    Axes { x: v.x, y: neg_bits(v.z), z: v.y }
}

/// The filter-frame orientation `q` in the render frame: `(q.w, q.x, q.z, -q.y)`.
pub open spec fn spec_to_render_frame(q: QuatBits) -> QuatBits {
    QuatBits { w: q.w, x: q.x, y: q.z, z: neg_bits(q.y) }
}

/// Negates a single-precision value given by its bit pattern.
pub fn negate(b: u32) -> (r: u32)
    ensures
        r == neg_bits(b),
{
    b ^ SIGN_BIT
}

/// Maps a sensor-frame vector into the filter frame.
pub fn to_filter_frame(v: Axes) -> (r: Axes)
    ensures
        r == spec_to_filter_frame(v),
{
    Axes { x: v.x, y: negate(v.z), z: v.y }
}

/// Maps all three readings of a frame into the filter frame, by the same rule.
pub fn frame_to_filter(f: RawFrame) -> (r: RawFrame)
    ensures
        r.accel == spec_to_filter_frame(f.accel),
        r.gyro == spec_to_filter_frame(f.gyro),
        r.mag == spec_to_filter_frame(f.mag),
{
    RawFrame {
        accel: to_filter_frame(f.accel),
        gyro: to_filter_frame(f.gyro),
        mag: to_filter_frame(f.mag),
    }
}

/// Maps a filter-frame orientation into the render frame.
pub fn to_render_frame(q: QuatBits) -> (r: QuatBits)
    ensures
        r == spec_to_render_frame(q),
{
    QuatBits { w: q.w, x: q.x, y: q.z, z: negate(q.y) }
}

/// Negating twice gives back the same bit pattern.
pub proof fn lemma_neg_involutive(b: u32)
    ensures
        neg_bits(neg_bits(b)) == b,
{
    assert((b ^ 0x8000_0000u32) ^ 0x8000_0000u32 == b) by (bit_vector);
}

/// The render mapping undoes the filter mapping: a quaternion whose vector
/// part is a sensor-frame vector taken into the filter frame comes back to
/// that vector, with the scalar part untouched.
pub proof fn lemma_render_undoes_filter(w: u32, v: Axes)
    ensures
        ({
            let f = spec_to_filter_frame(v);
            spec_to_render_frame(QuatBits { w, x: f.x, y: f.y, z: f.z })
        }) == (QuatBits { w, x: v.x, y: v.y, z: v.z }),
{
    lemma_neg_involutive(v.z);
}

} // verus!
