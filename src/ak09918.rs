//! The AK09918 magnetometer: its bus address, start-up sequence and the
//! layout of a field reading. The bus transfers themselves are the caller's.
use vstd::prelude::*;
use crate::register::{i16_from_bytes, spec_i16_from_bytes};

verus! {

/// Bus address of the chip.
pub const AK09918_ADDR: u8 = 0x0C;

/// First register of a field reading (HXL).
pub const REG_HXL: u8 = 0x11;

/// Control register 2: measurement mode.
pub const REG_CNTL2: u8 = 0x31;

/// Control register 3: soft reset.
pub const REG_CNTL3: u8 = 0x32;

/// Value written to control register 3 to reset the chip.
pub const SOFT_RESET: u8 = 0x01;

/// Continuous measurement mode at 100 Hz.
pub const MODE_CONTINUOUS_100HZ: u8 = 0x08;

/// Bytes read from `REG_HXL` on: three little-endian axes, a dummy byte and
/// the second status register.
pub const MAG_READ_LEN: usize = 8;

/// The magnetometer on the bus.
pub struct Ak09918 {
    addr: u8,
}

impl Ak09918 {
    /// The bus address this driver talks to.
    pub closed spec fn spec_address(&self) -> u8 {
        self.addr
    }

    /// A driver for the chip at its fixed bus address.
    pub fn new() -> (r: Self)
        ensures
            r.spec_address() == AK09918_ADDR,
    {
        Ak09918 { addr: AK09918_ADDR }
    }

    /// The bus address this driver talks to.
    pub fn address(&self) -> (r: u8)
        ensures
            r == self.spec_address(),
    {
        self.addr
    }

    /// The register writes that start the chip, in order: a soft reset (after
    /// which the caller waits), then continuous measurement at 100 Hz.
    pub fn init_writes(&self) -> (r: Vec<(u8, u8)>)
        ensures
            r@ == seq![(REG_CNTL3, SOFT_RESET), (REG_CNTL2, MODE_CONTINUOUS_100HZ)],
    {
        let mut w: Vec<(u8, u8)> = Vec::new();
        w.push((REG_CNTL3, SOFT_RESET));
        w.push((REG_CNTL2, MODE_CONTINUOUS_100HZ));
        assert(w@ =~= seq![(REG_CNTL3, SOFT_RESET), (REG_CNTL2, MODE_CONTINUOUS_100HZ)]);
        w
    }

    /// The field reading (x, y, z) held in the bytes read from `REG_HXL`;
    /// each axis is little-endian.
    pub fn decode_mag(buf: &[u8; 8]) -> (r: [i16; 3])
        ensures
            r[0] as int == spec_i16_from_bytes(buf[1], buf[0]),
            r[1] as int == spec_i16_from_bytes(buf[3], buf[2]),
            r[2] as int == spec_i16_from_bytes(buf[5], buf[4]),
    {
        let mx = i16_from_bytes(buf[1], buf[0]);
        let my = i16_from_bytes(buf[3], buf[2]);
        let mz = i16_from_bytes(buf[5], buf[4]);
        [mx, my, mz]
    }
}

} // verus!
