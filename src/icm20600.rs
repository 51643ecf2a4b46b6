//! The ICM-20600 accelerometer and gyroscope: its bus address, start-up
//! sequence and the layout of a motion reading. The bus transfers themselves
//! are the caller's.
use vstd::prelude::*;
use crate::register::{i16_from_bytes, spec_i16_from_bytes};

verus! {

/// Bus address of the chip.
pub const ICM20600_ADDR: u8 = 0x69;

/// Power management register 1.
pub const REG_PWR_MGMT_1: u8 = 0x6B;

/// First register of a motion reading (ACCEL_XOUT_H).
pub const REG_ACCEL_XOUT_H: u8 = 0x3B;

/// Value written to power management 1 to reset the chip.
pub const DEVICE_RESET: u8 = 0x80;

/// Value written to power management 1 to wake the chip with automatic clock selection.
pub const WAKE_AUTO_CLOCK: u8 = 0x01;

/// Bytes read from `REG_ACCEL_XOUT_H` on: three big-endian accelerometer
/// axes, the temperature, three big-endian gyroscope axes.
pub const MOTION_READ_LEN: usize = 14;

/// The motion sensor on the bus.
pub struct Icm20600 {
    addr: u8,
}

impl Icm20600 {
    /// The bus address this driver talks to.
    pub closed spec fn spec_address(&self) -> u8 {
        self.addr
    }

    /// A driver for the chip at its fixed bus address.
    pub fn new() -> (r: Self)
        ensures
            r.spec_address() == ICM20600_ADDR,
    {
        Icm20600 { addr: ICM20600_ADDR }
    }

    /// The bus address this driver talks to.
    pub fn address(&self) -> (r: u8)
        ensures
            r == self.spec_address(),
    {
        self.addr
    }

    /// The register writes that start the chip, in order: a reset (after which
    /// the caller waits), then wake-up with automatic clock selection.
    pub fn init_writes(&self) -> (r: Vec<(u8, u8)>)
        ensures
            r@ == seq![(REG_PWR_MGMT_1, DEVICE_RESET), (REG_PWR_MGMT_1, WAKE_AUTO_CLOCK)],
    {
        let mut w: Vec<(u8, u8)> = Vec::new();
        w.push((REG_PWR_MGMT_1, DEVICE_RESET));
        w.push((REG_PWR_MGMT_1, WAKE_AUTO_CLOCK));
        assert(w@ =~= seq![(REG_PWR_MGMT_1, DEVICE_RESET), (REG_PWR_MGMT_1, WAKE_AUTO_CLOCK)]);
        w
    }

    /// The accelerometer and gyroscope readings (x, y, z each) held in the
    /// bytes read from `REG_ACCEL_XOUT_H`; each axis is big-endian and the
    /// temperature in bytes 6 and 7 is skipped.
    pub fn decode_accel_gyro(buf: &[u8; 14]) -> (r: ([i16; 3], [i16; 3]))
        ensures
            r.0[0] as int == spec_i16_from_bytes(buf[0], buf[1]),
            r.0[1] as int == spec_i16_from_bytes(buf[2], buf[3]),
            r.0[2] as int == spec_i16_from_bytes(buf[4], buf[5]),
            r.1[0] as int == spec_i16_from_bytes(buf[8], buf[9]),
            r.1[1] as int == spec_i16_from_bytes(buf[10], buf[11]),
            r.1[2] as int == spec_i16_from_bytes(buf[12], buf[13]),
    {
        let ax = i16_from_bytes(buf[0], buf[1]);
        let ay = i16_from_bytes(buf[2], buf[3]);
        let az = i16_from_bytes(buf[4], buf[5]);
        let gx = i16_from_bytes(buf[8], buf[9]);
        let gy = i16_from_bytes(buf[10], buf[11]);
        let gz = i16_from_bytes(buf[12], buf[13]);
        ([ax, ay, az], [gx, gy, gz])
    }
}

} // verus!
