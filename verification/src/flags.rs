//! Raw 16-bit status words carried by the state packets.

use vstd::prelude::*;

verus! {

/// The system status word of the system-state and status packets, kept as
/// a raw 16-bit mask.  Every bit position is defined, so the word
/// round-trips through the wire format unchanged.
#[derive(Debug, Clone, Copy, PartialEq, Eq, Structural, Hash)]
pub struct SystemStatusFlags {
    pub bits: u16,
}

impl SystemStatusFlags {
    pub const SYSTEM_FAILURE: u16 = 0x0001;

    pub const ACCELEROMETER_SENSOR_FAILURE: u16 = 0x0002;

    pub const GYROSCOPE_SENSOR_FAILURE: u16 = 0x0004;

    pub const MAGNETOMETER_SENSOR_FAILURE: u16 = 0x0008;

    pub const PRESSURE_SENSOR_FAILURE: u16 = 0x0010;

    pub const GNSS_FAILURE: u16 = 0x0020;

    pub const ACCELEROMETER_OVER_RANGE: u16 = 0x0040;

    pub const GYROSCOPE_OVER_RANGE: u16 = 0x0080;

    pub const MAGNETOMETER_OVER_RANGE: u16 = 0x0100;

    pub const PRESSURE_OVER_RANGE: u16 = 0x0200;

    pub const MINIMUM_TEMPERATURE_ALARM: u16 = 0x0400;

    pub const MAXIMUM_TEMPERATURE_ALARM: u16 = 0x0800;

    pub const LOW_VOLTAGE_ALARM: u16 = 0x1000;

    pub const HIGH_VOLTAGE_ALARM: u16 = 0x2000;

    pub const GNSS_ANTENNA_DISCONNECTED: u16 = 0x4000;

    pub const SERIAL_PORT_OVERFLOW_ALARM: u16 = 0x8000;

    /// A word with no bit set.
    pub fn empty() -> (r: SystemStatusFlags)
        ensures
            r.bits == 0,
    {
        SystemStatusFlags { bits: 0 }
    }

    /// Wraps a raw word.  Every bit is defined, so nothing is dropped.
    pub fn from_bits_truncate(bits: u16) -> (r: SystemStatusFlags)
        ensures
            r.bits == bits,
    {
        SystemStatusFlags { bits }
    }

    /// The raw word.
    pub fn bits(&self) -> (r: u16)
        ensures
            r == self.bits,
    {
        self.bits
    }

    /// Whether every bit of `mask` is set.
    pub fn contains(&self, mask: u16) -> (r: bool)
        ensures
            r == (self.bits & mask == mask),
    {
        self.bits & mask == mask
    }

    /// The bitwise union of the two words.
    pub fn union(&self, other: SystemStatusFlags) -> (r: SystemStatusFlags)
        ensures
            r.bits == self.bits | other.bits,
    {
        SystemStatusFlags { bits: self.bits | other.bits }
    }

    /// The bits set in both words.
    pub fn intersection(&self, other: SystemStatusFlags) -> (r: SystemStatusFlags)
        ensures
            r.bits == self.bits & other.bits,
    {
        SystemStatusFlags { bits: self.bits & other.bits }
    }

    /// The bits set here and not in `other`.
    pub fn difference(&self, other: SystemStatusFlags) -> (r: SystemStatusFlags)
        ensures
            r.bits == self.bits & !other.bits,
    {
        SystemStatusFlags { bits: self.bits & !other.bits }
    }
}

/// The filter status word: boolean flags on bits 0 to 3 and 7 to 15, and
/// the three-bit GNSS fix type on bits 4 to 6.
#[derive(Debug, Clone, Copy, PartialEq, Eq, Structural, Hash)]
pub struct FilterStatusFlags {
    pub bits: u16,
}

impl FilterStatusFlags {
    pub const ORIENTATION_FILTER_INITIALISED: u16 = 0x0001;

    pub const NAVIGATION_FILTER_INITIALISED: u16 = 0x0002;

    pub const HEADING_INITIALISED: u16 = 0x0004;

    pub const UTC_TIME_INITIALISED: u16 = 0x0008;

    /// Bits 4 to 6 carry the GNSS fix type as a small integer.
    pub const GNSS_FIX_TYPE_MASK: u16 = 0x0070;

    pub const EVENT1_FLAG: u16 = 0x0080;

    pub const EVENT2_FLAG: u16 = 0x0100;

    pub const INTERNAL_GNSS_ENABLED: u16 = 0x0200;

    pub const DUAL_ANTENNA_HEADING_ACTIVE: u16 = 0x0400;

    pub const VELOCITY_HEADING_ENABLED: u16 = 0x0800;

    pub const ATMOSPHERIC_ALTITUDE_ENABLED: u16 = 0x1000;

    pub const EXTERNAL_POSITION_ACTIVE: u16 = 0x2000;

    pub const EXTERNAL_VELOCITY_ACTIVE: u16 = 0x4000;

    pub const EXTERNAL_HEADING_ACTIVE: u16 = 0x8000;

    /// A word with no bit set.
    pub fn empty() -> (r: FilterStatusFlags)
        ensures
            r.bits == 0,
    {
        FilterStatusFlags { bits: 0 }
    }

    /// Wraps a raw word.  Every bit is defined, so nothing is dropped.
    pub fn from_bits_truncate(bits: u16) -> (r: FilterStatusFlags)
        ensures
            r.bits == bits,
    {
        FilterStatusFlags { bits }
    }

    /// The raw word.
    pub fn bits(&self) -> (r: u16)
        ensures
            r == self.bits,
    {
        self.bits
    }

    /// Whether every bit of `mask` is set.
    pub fn contains(&self, mask: u16) -> (r: bool)
        ensures
            r == (self.bits & mask == mask),
    {
        self.bits & mask == mask
    }

    /// The bitwise union of the two words.
    pub fn union(&self, other: FilterStatusFlags) -> (r: FilterStatusFlags)
        ensures
            r.bits == self.bits | other.bits,
    {
        FilterStatusFlags { bits: self.bits | other.bits }
    }

    /// The GNSS fix type packed into bits 4 to 6.
    pub fn gnss_fix_type(self) -> (r: u8)
        ensures
            r == ((self.bits >> 4) & 7) as u8,
            r < 8,
    {
        let b: u16 = self.bits;
        let r: u8 = ((b >> 4) & 7) as u8;
        assert((b >> 4) & 7 < 8) by (bit_vector);
        r
    }
}

} // verus!
