//! The decoded measurement and the error taxonomy of the acquisition core.

use vstd::prelude::*;

verus! {

/// One decoded sensor measurement, constructed only from a complete 12-byte
/// payload.
///
/// The device reports temperature and humidity with one-tenth precision, so
/// both are held here as exact counts of tenths; dividing by ten gives the
/// physical value in degrees or percent. Pressure and gas are signed 32-bit
/// integers in device-native units.
#[derive(Clone, Copy, Debug, PartialEq, Eq, Structural)]
pub struct Readings {
    /// Temperature in tenths of a degree, sign already applied.
    pub temperature_tenths: i32,
    /// Relative humidity in tenths of a percent; never negative.
    pub humidity_tenths: u32,
    /// Air pressure in device-native units.
    pub air_pressure: i32,
    /// Gas reading in device-native units.
    pub gas: i32,
}

impl Readings {
    /// Ranges that every reading decoded from a payload satisfies: the
    /// temperature magnitude is at most 127 whole degrees plus 25.5 tenths of
    /// fraction, and humidity at most 255 whole percent plus the same
    /// fraction.
    pub open spec fn wf(self) -> bool {
        &&& -1525 <= self.temperature_tenths <= 1525
        &&& self.humidity_tenths <= 2805
    }
}

/// How an acquisition can fail. Every protocol step failure surfaces as
/// exactly one of these kinds; no retry happens inside the core.
#[derive(Clone, Copy, Debug, PartialEq, Eq, Structural)]
pub enum SensorError {
    /// The ready line cannot be initialized or read.
    IoUnavailable,
    /// The bus cannot be opened or the device cannot be addressed.
    BusUnavailable,
    /// A command byte write failed.
    BusWriteError,
    /// The block read failed or returned fewer than the full payload.
    BusReadError,
}

} // verus!
