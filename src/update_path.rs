//! Which way one sample enters the orientation estimate.
//!
//! The arithmetic of the filter is floating point and lives with the caller;
//! the caller reports the three facts that decide the way, and follows the
//! way chosen here.
use vstd::prelude::*;

verus! {

/// How one sample is folded into the orientation estimate.
#[derive(Clone, Copy, Debug, PartialEq, Eq, Structural)]
pub enum UpdatePath {
    /// The interval is out of range: the estimate stays exactly as it was.
    Skip,
    /// Integrate the gyroscope rate alone.
    GyroOnly,
    /// Integrate the gyroscope rate with the gradient-descent correction
    /// from the accelerometer and magnetometer (which itself falls back to
    /// the gyroscope rate alone when its step is zero).
    Corrected,
}

/// The way for a sample whose interval lies strictly between zero and one
/// second (`dt_in_range`) and whose accelerometer and magnetometer readings
/// are non-zero (`accel_nonzero`, `mag_nonzero`).
pub open spec fn spec_update_path(dt_in_range: bool, accel_nonzero: bool, mag_nonzero: bool) -> UpdatePath {
    if !dt_in_range {
        UpdatePath::Skip
    } else if accel_nonzero && mag_nonzero {
        UpdatePath::Corrected
    } else {
        UpdatePath::GyroOnly
    }
}

/// Chooses how a sample is folded into the estimate. An interval out of
/// range rejects the sample whatever the readings; a zero accelerometer or
/// magnetometer reading leaves the gyroscope alone to drive the update.
pub fn update_path(dt_in_range: bool, accel_nonzero: bool, mag_nonzero: bool) -> (r: UpdatePath)
    ensures
        r == spec_update_path(dt_in_range, accel_nonzero, mag_nonzero),
        (r == UpdatePath::Skip) <==> !dt_in_range,
        (r == UpdatePath::Corrected) <==> (dt_in_range && accel_nonzero && mag_nonzero),
{
    if !dt_in_range {
        UpdatePath::Skip
    } else if accel_nonzero && mag_nonzero {
        UpdatePath::Corrected
    } else {
        UpdatePath::GyroOnly
    }
}

} // verus!
