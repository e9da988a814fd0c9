//! Ergonomic state packet types: status words promoted to independent
//! booleans plus an explicit GNSS fix type, exactly as the wire bits lay
//! them out.

use crate::flags::{FilterStatusFlags, SystemStatusFlags};
use crate::state::{
    EulerOrientationStdDevPacket, ExternalTimePacket, RawSensorsPacket, StatusPacket,
    SystemStatePacket, UnixTimePacket,
};
use vstd::prelude::*;

verus! {

/// The system status word as independent booleans, one per defined bit.
#[derive(Debug, Clone, Copy, PartialEq, Eq, Structural)]
pub struct SystemStatus {
    pub system_failure: bool,
    pub accelerometer_sensor_failure: bool,
    pub gyroscope_sensor_failure: bool,
    pub magnetometer_sensor_failure: bool,
    pub pressure_sensor_failure: bool,
    pub gnss_failure: bool,
    pub accelerometer_over_range: bool,
    pub gyroscope_over_range: bool,
    pub magnetometer_over_range: bool,
    pub pressure_over_range: bool,
    pub minimum_temperature_alarm: bool,
    pub maximum_temperature_alarm: bool,
    pub low_voltage_alarm: bool,
    pub high_voltage_alarm: bool,
    pub gnss_antenna_disconnected: bool,
    pub serial_port_overflow_alarm: bool,
}

impl SystemStatus {
    /// The booleans read from a raw status word.
    pub open spec fn spec_from_bits(bits: u16) -> SystemStatus {
        SystemStatus {
            system_failure: bits & 0x1 != 0,
            accelerometer_sensor_failure: bits & 0x2 != 0,
            gyroscope_sensor_failure: bits & 0x4 != 0,
            magnetometer_sensor_failure: bits & 0x8 != 0,
            pressure_sensor_failure: bits & 0x10 != 0,
            gnss_failure: bits & 0x20 != 0,
            accelerometer_over_range: bits & 0x40 != 0,
            gyroscope_over_range: bits & 0x80 != 0,
            magnetometer_over_range: bits & 0x100 != 0,
            pressure_over_range: bits & 0x200 != 0,
            minimum_temperature_alarm: bits & 0x400 != 0,
            maximum_temperature_alarm: bits & 0x800 != 0,
            low_voltage_alarm: bits & 0x1000 != 0,
            high_voltage_alarm: bits & 0x2000 != 0,
            gnss_antenna_disconnected: bits & 0x4000 != 0,
            serial_port_overflow_alarm: bits & 0x8000 != 0,
        }
    }

    /// The raw status word these booleans encode.
    pub open spec fn spec_to_bits(self) -> u16 {
        (if self.system_failure { 0x1u16 } else { 0u16 }) | (if self.accelerometer_sensor_failure { 0x2u16 } else { 0u16 }) | (if self.gyroscope_sensor_failure { 0x4u16 } else { 0u16 }) | (if self.magnetometer_sensor_failure { 0x8u16 } else { 0u16 }) | (if self.pressure_sensor_failure { 0x10u16 } else { 0u16 }) | (if self.gnss_failure { 0x20u16 } else { 0u16 }) | (if self.accelerometer_over_range { 0x40u16 } else { 0u16 }) | (if self.gyroscope_over_range { 0x80u16 } else { 0u16 }) | (if self.magnetometer_over_range { 0x100u16 } else { 0u16 }) | (if self.pressure_over_range { 0x200u16 } else { 0u16 }) | (if self.minimum_temperature_alarm { 0x400u16 } else { 0u16 }) | (if self.maximum_temperature_alarm { 0x800u16 } else { 0u16 }) | (if self.low_voltage_alarm { 0x1000u16 } else { 0u16 }) | (if self.high_voltage_alarm { 0x2000u16 } else { 0u16 }) | (if self.gnss_antenna_disconnected { 0x4000u16 } else { 0u16 }) | (if self.serial_port_overflow_alarm { 0x8000u16 } else { 0u16 })
    }

    /// Reads every defined bit of a status word.
    pub fn from_flags(flags: SystemStatusFlags) -> (r: SystemStatus)
        ensures
            r == Self::spec_from_bits(flags.bits),
    {
        let bits: u16 = flags.bits;
        SystemStatus {
            system_failure: bits & 0x1 != 0,
            accelerometer_sensor_failure: bits & 0x2 != 0,
            gyroscope_sensor_failure: bits & 0x4 != 0,
            magnetometer_sensor_failure: bits & 0x8 != 0,
            pressure_sensor_failure: bits & 0x10 != 0,
            gnss_failure: bits & 0x20 != 0,
            accelerometer_over_range: bits & 0x40 != 0,
            gyroscope_over_range: bits & 0x80 != 0,
            magnetometer_over_range: bits & 0x100 != 0,
            pressure_over_range: bits & 0x200 != 0,
            minimum_temperature_alarm: bits & 0x400 != 0,
            maximum_temperature_alarm: bits & 0x800 != 0,
            low_voltage_alarm: bits & 0x1000 != 0,
            high_voltage_alarm: bits & 0x2000 != 0,
            gnss_antenna_disconnected: bits & 0x4000 != 0,
            serial_port_overflow_alarm: bits & 0x8000 != 0,
        }
    }

    /// Packs the booleans back into a status word.
    pub fn to_flags(&self) -> (r: SystemStatusFlags)
        ensures
            r.bits == self.spec_to_bits(),
    {
        let bits: u16 = (if self.system_failure { 0x1u16 } else { 0u16 }) | (if self.accelerometer_sensor_failure { 0x2u16 } else { 0u16 }) | (if self.gyroscope_sensor_failure { 0x4u16 } else { 0u16 }) | (if self.magnetometer_sensor_failure { 0x8u16 } else { 0u16 }) | (if self.pressure_sensor_failure { 0x10u16 } else { 0u16 }) | (if self.gnss_failure { 0x20u16 } else { 0u16 }) | (if self.accelerometer_over_range { 0x40u16 } else { 0u16 }) | (if self.gyroscope_over_range { 0x80u16 } else { 0u16 }) | (if self.magnetometer_over_range { 0x100u16 } else { 0u16 }) | (if self.pressure_over_range { 0x200u16 } else { 0u16 }) | (if self.minimum_temperature_alarm { 0x400u16 } else { 0u16 }) | (if self.maximum_temperature_alarm { 0x800u16 } else { 0u16 }) | (if self.low_voltage_alarm { 0x1000u16 } else { 0u16 }) | (if self.high_voltage_alarm { 0x2000u16 } else { 0u16 }) | (if self.gnss_antenna_disconnected { 0x4000u16 } else { 0u16 }) | (if self.serial_port_overflow_alarm { 0x8000u16 } else { 0u16 });
        SystemStatusFlags { bits }
    }

    /// Whether no failure or alarm bit is set.
    pub fn is_healthy(&self) -> (r: bool)
        ensures
            r == (!self.system_failure && !self.accelerometer_sensor_failure && !self.gyroscope_sensor_failure && !self.magnetometer_sensor_failure && !self.pressure_sensor_failure && !self.gnss_failure && !self.accelerometer_over_range && !self.gyroscope_over_range && !self.magnetometer_over_range && !self.pressure_over_range && !self.minimum_temperature_alarm && !self.maximum_temperature_alarm && !self.low_voltage_alarm && !self.high_voltage_alarm && !self.gnss_antenna_disconnected && !self.serial_port_overflow_alarm),
    {
        let r: bool = !self.system_failure && !self.accelerometer_sensor_failure && !self.gyroscope_sensor_failure && !self.magnetometer_sensor_failure && !self.pressure_sensor_failure && !self.gnss_failure && !self.accelerometer_over_range && !self.gyroscope_over_range && !self.magnetometer_over_range && !self.pressure_over_range && !self.minimum_temperature_alarm && !self.maximum_temperature_alarm && !self.low_voltage_alarm && !self.high_voltage_alarm && !self.gnss_antenna_disconnected && !self.serial_port_overflow_alarm;
        r
    }
}

/// Reading a status word and packing it again gives the word back:
/// the defined bits cover all sixteen positions.
pub proof fn lemma_system_status_bits_roundtrip(bits: u16)
    ensures
        SystemStatus::spec_from_bits(bits).spec_to_bits() == bits,
{
    assert(((if bits & 0x1 != 0 { 0x1u16 } else { 0u16 }) | (if bits & 0x2 != 0 { 0x2u16 } else { 0u16 }) | (if bits & 0x4 != 0 { 0x4u16 } else { 0u16 }) | (if bits & 0x8 != 0 { 0x8u16 } else { 0u16 }) | (if bits & 0x10 != 0 { 0x10u16 } else { 0u16 }) | (if bits & 0x20 != 0 { 0x20u16 } else { 0u16 }) | (if bits & 0x40 != 0 { 0x40u16 } else { 0u16 }) | (if bits & 0x80 != 0 { 0x80u16 } else { 0u16 }) | (if bits & 0x100 != 0 { 0x100u16 } else { 0u16 }) | (if bits & 0x200 != 0 { 0x200u16 } else { 0u16 }) | (if bits & 0x400 != 0 { 0x400u16 } else { 0u16 }) | (if bits & 0x800 != 0 { 0x800u16 } else { 0u16 }) | (if bits & 0x1000 != 0 { 0x1000u16 } else { 0u16 }) | (if bits & 0x2000 != 0 { 0x2000u16 } else { 0u16 }) | (if bits & 0x4000 != 0 { 0x4000u16 } else { 0u16 }) | (if bits & 0x8000 != 0 { 0x8000u16 } else { 0u16 })) == bits) by (bit_vector);
}

/// The GNSS fix type carried on bits 4 to 6 of the filter status word.
#[derive(Debug, Clone, Copy, PartialEq, Eq, Structural, Hash)]
pub enum GnssFixType {
    NoFix,
    Fix2D,
    Fix3D,
    SbassFix,
    DifferentialFix,
    OmnistarFix,
    RtkFloat,
    RtkFixed,
}

/// The three-bit field value of a fix type.
pub open spec fn spec_fix_type_u8(f: GnssFixType) -> u8 {
    match f {
        GnssFixType::NoFix => 0u8,
        GnssFixType::Fix2D => 1u8,
        GnssFixType::Fix3D => 2u8,
        GnssFixType::SbassFix => 3u8,
        GnssFixType::DifferentialFix => 4u8,
        GnssFixType::OmnistarFix => 5u8,
        GnssFixType::RtkFloat => 6u8,
        GnssFixType::RtkFixed => 7u8,
    }
}

/// Converts a fix type to its three-bit field value.
pub fn fix_type_to_u8(f: GnssFixType) -> (r: u8)
    ensures
        r == spec_fix_type_u8(f),
        r < 8,
{
    match f {
        GnssFixType::NoFix => 0,
        GnssFixType::Fix2D => 1,
        GnssFixType::Fix3D => 2,
        GnssFixType::SbassFix => 3,
        GnssFixType::DifferentialFix => 4,
        GnssFixType::OmnistarFix => 5,
        GnssFixType::RtkFloat => 6,
        GnssFixType::RtkFixed => 7,
    }
}

/// Converts a three-bit field value to the fix type.
pub fn fix_type_from_u8(b: u8) -> (r: GnssFixType)
    requires
        b < 8,
    ensures
        spec_fix_type_u8(r) == b,
{
    match b {
        0u8 => GnssFixType::NoFix,
        1u8 => GnssFixType::Fix2D,
        2u8 => GnssFixType::Fix3D,
        3u8 => GnssFixType::SbassFix,
        4u8 => GnssFixType::DifferentialFix,
        5u8 => GnssFixType::OmnistarFix,
        6u8 => GnssFixType::RtkFloat,
        _ => GnssFixType::RtkFixed,
    }
}

/// The filter status word as independent booleans plus the explicit
/// GNSS fix type, so toggling one flag can never corrupt another.
#[derive(Debug, Clone, Copy, PartialEq, Eq, Structural)]
pub struct FilterStatus {
    pub orientation_filter_initialised: bool,
    pub navigation_filter_initialised: bool,
    pub heading_initialised: bool,
    pub utc_time_initialised: bool,
    pub gnss_fix_type: GnssFixType,
    pub event1_flag: bool,
    pub event2_flag: bool,
    pub internal_gnss_enabled: bool,
    pub dual_antenna_heading_active: bool,
    pub velocity_heading_enabled: bool,
    pub atmospheric_altitude_enabled: bool,
    pub external_position_active: bool,
    pub external_velocity_active: bool,
    pub external_heading_active: bool,
}

impl FilterStatus {
    /// The fields read from a raw filter status word.
    pub open spec fn spec_from_bits(bits: u16) -> FilterStatus {
        FilterStatus {
            orientation_filter_initialised: bits & 0x1 != 0,
            navigation_filter_initialised: bits & 0x2 != 0,
            heading_initialised: bits & 0x4 != 0,
            utc_time_initialised: bits & 0x8 != 0,
            gnss_fix_type: spec_fix_type_of_bits(bits),
            event1_flag: bits & 0x80 != 0,
            event2_flag: bits & 0x100 != 0,
            internal_gnss_enabled: bits & 0x200 != 0,
            dual_antenna_heading_active: bits & 0x400 != 0,
            velocity_heading_enabled: bits & 0x800 != 0,
            atmospheric_altitude_enabled: bits & 0x1000 != 0,
            external_position_active: bits & 0x2000 != 0,
            external_velocity_active: bits & 0x4000 != 0,
            external_heading_active: bits & 0x8000 != 0,
        }
    }

    /// The raw filter status word these fields encode.
    pub open spec fn spec_to_bits(self) -> u16 {
        (if self.orientation_filter_initialised { 0x1u16 } else { 0u16 }) | (if self.navigation_filter_initialised { 0x2u16 } else { 0u16 }) | (if self.heading_initialised { 0x4u16 } else { 0u16 }) | (if self.utc_time_initialised { 0x8u16 } else { 0u16 }) | ((spec_fix_type_u8(self.gnss_fix_type) as u16) << 4) | (if self.event1_flag { 0x80u16 } else { 0u16 }) | (if self.event2_flag { 0x100u16 } else { 0u16 }) | (if self.internal_gnss_enabled { 0x200u16 } else { 0u16 }) | (if self.dual_antenna_heading_active { 0x400u16 } else { 0u16 }) | (if self.velocity_heading_enabled { 0x800u16 } else { 0u16 }) | (if self.atmospheric_altitude_enabled { 0x1000u16 } else { 0u16 }) | (if self.external_position_active { 0x2000u16 } else { 0u16 }) | (if self.external_velocity_active { 0x4000u16 } else { 0u16 }) | (if self.external_heading_active { 0x8000u16 } else { 0u16 })
    }

    /// Reads every field of a filter status word.
    pub fn from_flags(flags: FilterStatusFlags) -> (r: FilterStatus)
        ensures
            r == Self::spec_from_bits(flags.bits),
    {
        let bits: u16 = flags.bits;
        let fix: u8 = flags.gnss_fix_type();
        proof {
            assert(((bits >> 4) & 7) < 8) by (bit_vector);
        }
        FilterStatus {
            orientation_filter_initialised: bits & 0x1 != 0,
            navigation_filter_initialised: bits & 0x2 != 0,
            heading_initialised: bits & 0x4 != 0,
            utc_time_initialised: bits & 0x8 != 0,
            gnss_fix_type: fix_type_from_u8(fix),
            event1_flag: bits & 0x80 != 0,
            event2_flag: bits & 0x100 != 0,
            internal_gnss_enabled: bits & 0x200 != 0,
            dual_antenna_heading_active: bits & 0x400 != 0,
            velocity_heading_enabled: bits & 0x800 != 0,
            atmospheric_altitude_enabled: bits & 0x1000 != 0,
            external_position_active: bits & 0x2000 != 0,
            external_velocity_active: bits & 0x4000 != 0,
            external_heading_active: bits & 0x8000 != 0,
        }
    }

    /// Packs the fields back into a filter status word.
    pub fn to_flags(&self) -> (r: FilterStatusFlags)
        ensures
            r.bits == self.spec_to_bits(),
    {
        let bits: u16 = (if self.orientation_filter_initialised { 0x1u16 } else { 0u16 }) | (if self.navigation_filter_initialised { 0x2u16 } else { 0u16 }) | (if self.heading_initialised { 0x4u16 } else { 0u16 }) | (if self.utc_time_initialised { 0x8u16 } else { 0u16 }) | ((fix_type_to_u8(self.gnss_fix_type) as u16) << 4) | (if self.event1_flag { 0x80u16 } else { 0u16 }) | (if self.event2_flag { 0x100u16 } else { 0u16 }) | (if self.internal_gnss_enabled { 0x200u16 } else { 0u16 }) | (if self.dual_antenna_heading_active { 0x400u16 } else { 0u16 }) | (if self.velocity_heading_enabled { 0x800u16 } else { 0u16 }) | (if self.atmospheric_altitude_enabled { 0x1000u16 } else { 0u16 }) | (if self.external_position_active { 0x2000u16 } else { 0u16 }) | (if self.external_velocity_active { 0x4000u16 } else { 0u16 }) | (if self.external_heading_active { 0x8000u16 } else { 0u16 });
        FilterStatusFlags { bits }
    }

    /// Whether all four initialisation flags are set.
    pub fn is_fully_initialised(&self) -> (r: bool)
        ensures
            r == (self.orientation_filter_initialised && self.navigation_filter_initialised
                && self.heading_initialised && self.utc_time_initialised),
    {
        self.orientation_filter_initialised && self.navigation_filter_initialised
            && self.heading_initialised && self.utc_time_initialised
    }
}

/// The fix type encoded on bits 4 to 6 of a raw word.
pub open spec fn spec_fix_type_of_bits(bits: u16) -> GnssFixType {
    match (bits >> 4) & 7 {
        0u16 => GnssFixType::NoFix,
        1u16 => GnssFixType::Fix2D,
        2u16 => GnssFixType::Fix3D,
        3u16 => GnssFixType::SbassFix,
        4u16 => GnssFixType::DifferentialFix,
        5u16 => GnssFixType::OmnistarFix,
        6u16 => GnssFixType::RtkFloat,
        _ => GnssFixType::RtkFixed,
    }
}

/// The system state packet with its status words promoted; quantity fields keep their IEEE-754 bit patterns.
#[derive(Debug, Clone, Copy, PartialEq, Eq, Structural)]
pub struct SystemState {
    pub system_status: SystemStatus,
    pub filter_status: FilterStatus,
    pub unix_time_seconds: u32,
    pub microseconds: u32,
    pub latitude: u64,
    pub longitude: u64,
    pub height: u64,
    pub velocity_north: u32,
    pub velocity_east: u32,
    pub velocity_down: u32,
    pub body_acceleration_x: u32,
    pub body_acceleration_y: u32,
    pub body_acceleration_z: u32,
    pub g_force: u32,
    pub roll: u32,
    pub pitch: u32,
    pub heading: u32,
    pub angular_velocity_x: u32,
    pub angular_velocity_y: u32,
    pub angular_velocity_z: u32,
    pub latitude_std_dev: u32,
    pub longitude_std_dev: u32,
    pub height_std_dev: u32,
}

impl SystemState {
    /// Promotes a wire packet to the ergonomic form.
    pub fn from_wire(p: SystemStatePacket) -> (r: SystemState)
        ensures
            r.system_status == SystemStatus::spec_from_bits(p.system_status.bits),
            r.filter_status == FilterStatus::spec_from_bits(p.filter_status.bits),
            r.unix_time_seconds == p.unix_time_seconds,
            r.microseconds == p.microseconds,
            r.latitude == p.latitude,
            r.longitude == p.longitude,
            r.height == p.height,
            r.velocity_north == p.velocity_north,
            r.velocity_east == p.velocity_east,
            r.velocity_down == p.velocity_down,
            r.body_acceleration_x == p.body_acceleration_x,
            r.body_acceleration_y == p.body_acceleration_y,
            r.body_acceleration_z == p.body_acceleration_z,
            r.g_force == p.g_force,
            r.roll == p.roll,
            r.pitch == p.pitch,
            r.heading == p.heading,
            r.angular_velocity_x == p.angular_velocity_x,
            r.angular_velocity_y == p.angular_velocity_y,
            r.angular_velocity_z == p.angular_velocity_z,
            r.latitude_std_dev == p.latitude_std_dev,
            r.longitude_std_dev == p.longitude_std_dev,
            r.height_std_dev == p.height_std_dev,
    {
        SystemState {
            system_status: SystemStatus::from_flags(p.system_status),
            filter_status: FilterStatus::from_flags(p.filter_status),
            unix_time_seconds: p.unix_time_seconds,
            microseconds: p.microseconds,
            latitude: p.latitude,
            longitude: p.longitude,
            height: p.height,
            velocity_north: p.velocity_north,
            velocity_east: p.velocity_east,
            velocity_down: p.velocity_down,
            body_acceleration_x: p.body_acceleration_x,
            body_acceleration_y: p.body_acceleration_y,
            body_acceleration_z: p.body_acceleration_z,
            g_force: p.g_force,
            roll: p.roll,
            pitch: p.pitch,
            heading: p.heading,
            angular_velocity_x: p.angular_velocity_x,
            angular_velocity_y: p.angular_velocity_y,
            angular_velocity_z: p.angular_velocity_z,
            latitude_std_dev: p.latitude_std_dev,
            longitude_std_dev: p.longitude_std_dev,
            height_std_dev: p.height_std_dev,
        }
    }

    /// Lowers the ergonomic form back to the wire packet.
    pub fn to_wire(&self) -> (r: SystemStatePacket)
        ensures
            r.system_status.bits == self.system_status.spec_to_bits(),
            r.filter_status.bits == self.filter_status.spec_to_bits(),
            r.unix_time_seconds == self.unix_time_seconds,
            r.microseconds == self.microseconds,
            r.latitude == self.latitude,
            r.longitude == self.longitude,
            r.height == self.height,
            r.velocity_north == self.velocity_north,
            r.velocity_east == self.velocity_east,
            r.velocity_down == self.velocity_down,
            r.body_acceleration_x == self.body_acceleration_x,
            r.body_acceleration_y == self.body_acceleration_y,
            r.body_acceleration_z == self.body_acceleration_z,
            r.g_force == self.g_force,
            r.roll == self.roll,
            r.pitch == self.pitch,
            r.heading == self.heading,
            r.angular_velocity_x == self.angular_velocity_x,
            r.angular_velocity_y == self.angular_velocity_y,
            r.angular_velocity_z == self.angular_velocity_z,
            r.latitude_std_dev == self.latitude_std_dev,
            r.longitude_std_dev == self.longitude_std_dev,
            r.height_std_dev == self.height_std_dev,
    {
        SystemStatePacket {
            system_status: self.system_status.to_flags(),
            filter_status: self.filter_status.to_flags(),
            unix_time_seconds: self.unix_time_seconds,
            microseconds: self.microseconds,
            latitude: self.latitude,
            longitude: self.longitude,
            height: self.height,
            velocity_north: self.velocity_north,
            velocity_east: self.velocity_east,
            velocity_down: self.velocity_down,
            body_acceleration_x: self.body_acceleration_x,
            body_acceleration_y: self.body_acceleration_y,
            body_acceleration_z: self.body_acceleration_z,
            g_force: self.g_force,
            roll: self.roll,
            pitch: self.pitch,
            heading: self.heading,
            angular_velocity_x: self.angular_velocity_x,
            angular_velocity_y: self.angular_velocity_y,
            angular_velocity_z: self.angular_velocity_z,
            latitude_std_dev: self.latitude_std_dev,
            longitude_std_dev: self.longitude_std_dev,
            height_std_dev: self.height_std_dev,
        }
    }
}

/// The Unix time packet.
#[derive(Debug, Clone, Copy, PartialEq, Eq, Structural)]
pub struct UnixTime {
    pub unix_time_seconds: u32,
    pub microseconds: u32,
}

impl UnixTime {
    /// Promotes a wire packet to the ergonomic form.
    pub fn from_wire(p: UnixTimePacket) -> (r: UnixTime)
        ensures
            r.unix_time_seconds == p.unix_time_seconds,
            r.microseconds == p.microseconds,
    {
        UnixTime {
            unix_time_seconds: p.unix_time_seconds,
            microseconds: p.microseconds,
        }
    }

    /// Lowers the ergonomic form back to the wire packet.
    pub fn to_wire(&self) -> (r: UnixTimePacket)
        ensures
            r.unix_time_seconds == self.unix_time_seconds,
            r.microseconds == self.microseconds,
    {
        UnixTimePacket {
            unix_time_seconds: self.unix_time_seconds,
            microseconds: self.microseconds,
        }
    }
}

/// The status packet with both words promoted.
#[derive(Debug, Clone, Copy, PartialEq, Eq, Structural)]
pub struct Status {
    pub system_status: SystemStatus,
    pub filter_status: FilterStatus,
}

impl Status {
    /// Promotes a wire packet to the ergonomic form.
    pub fn from_wire(p: StatusPacket) -> (r: Status)
        ensures
            r.system_status == SystemStatus::spec_from_bits(p.system_status.bits),
            r.filter_status == FilterStatus::spec_from_bits(p.filter_status.bits),
    {
        Status {
            system_status: SystemStatus::from_flags(p.system_status),
            filter_status: FilterStatus::from_flags(p.filter_status),
        }
    }

    /// Lowers the ergonomic form back to the wire packet.
    pub fn to_wire(&self) -> (r: StatusPacket)
        ensures
            r.system_status.bits == self.system_status.spec_to_bits(),
            r.filter_status.bits == self.filter_status.spec_to_bits(),
    {
        StatusPacket {
            system_status: self.system_status.to_flags(),
            filter_status: self.filter_status.to_flags(),
        }
    }
}

/// The Euler orientation standard deviation packet; fields hold IEEE-754 bit patterns.
#[derive(Debug, Clone, Copy, PartialEq, Eq, Structural)]
pub struct EulerOrientationStdDev {
    pub roll_std_dev: u32,
    pub pitch_std_dev: u32,
    pub heading_std_dev: u32,
}

impl EulerOrientationStdDev {
    /// Promotes a wire packet to the ergonomic form.
    pub fn from_wire(p: EulerOrientationStdDevPacket) -> (r: EulerOrientationStdDev)
        ensures
            r.roll_std_dev == p.roll_std_dev,
            r.pitch_std_dev == p.pitch_std_dev,
            r.heading_std_dev == p.heading_std_dev,
    {
        EulerOrientationStdDev {
            roll_std_dev: p.roll_std_dev,
            pitch_std_dev: p.pitch_std_dev,
            heading_std_dev: p.heading_std_dev,
        }
    }

    /// Lowers the ergonomic form back to the wire packet.
    pub fn to_wire(&self) -> (r: EulerOrientationStdDevPacket)
        ensures
            r.roll_std_dev == self.roll_std_dev,
            r.pitch_std_dev == self.pitch_std_dev,
            r.heading_std_dev == self.heading_std_dev,
    {
        EulerOrientationStdDevPacket {
            roll_std_dev: self.roll_std_dev,
            pitch_std_dev: self.pitch_std_dev,
            heading_std_dev: self.heading_std_dev,
        }
    }
}

/// The raw sensors packet without its reserved fields; values hold
/// IEEE-754 bit patterns.
#[derive(Debug, Clone, Copy, PartialEq, Eq, Structural)]
pub struct RawSensors {
    pub accelerometer_x: u32,
    pub accelerometer_y: u32,
    pub accelerometer_z: u32,
    pub gyroscope_x: u32,
    pub gyroscope_y: u32,
    pub gyroscope_z: u32,
    pub imu_temperature: u32,
    pub pressure: u32,
    pub pressure_temperature: u32,
}

impl RawSensors {
    /// Promotes a wire packet, dropping the reserved fields.
    pub fn from_wire(p: RawSensorsPacket) -> (r: RawSensors)
        ensures
            r.accelerometer_x == p.accelerometer_x,
            r.accelerometer_y == p.accelerometer_y,
            r.accelerometer_z == p.accelerometer_z,
            r.gyroscope_x == p.gyroscope_x,
            r.gyroscope_y == p.gyroscope_y,
            r.gyroscope_z == p.gyroscope_z,
            r.imu_temperature == p.imu_temperature,
            r.pressure == p.pressure,
            r.pressure_temperature == p.pressure_temperature,
    {
        RawSensors {
            accelerometer_x: p.accelerometer_x,
            accelerometer_y: p.accelerometer_y,
            accelerometer_z: p.accelerometer_z,
            gyroscope_x: p.gyroscope_x,
            gyroscope_y: p.gyroscope_y,
            gyroscope_z: p.gyroscope_z,
            imu_temperature: p.imu_temperature,
            pressure: p.pressure,
            pressure_temperature: p.pressure_temperature,
        }
    }

    /// Lowers to the wire packet, zero-filling the reserved fields.
    pub fn to_wire(&self) -> (r: RawSensorsPacket)
        ensures
            r.accelerometer_x == self.accelerometer_x,
            r.accelerometer_y == self.accelerometer_y,
            r.accelerometer_z == self.accelerometer_z,
            r.gyroscope_x == self.gyroscope_x,
            r.gyroscope_y == self.gyroscope_y,
            r.gyroscope_z == self.gyroscope_z,
            r.imu_temperature == self.imu_temperature,
            r.pressure == self.pressure,
            r.pressure_temperature == self.pressure_temperature,
            r.reserved1 == 0 && r.reserved2 == 0 && r.reserved3 == 0,
    {
        RawSensorsPacket {
            accelerometer_x: self.accelerometer_x,
            accelerometer_y: self.accelerometer_y,
            accelerometer_z: self.accelerometer_z,
            gyroscope_x: self.gyroscope_x,
            gyroscope_y: self.gyroscope_y,
            gyroscope_z: self.gyroscope_z,
            reserved1: 0,
            reserved2: 0,
            reserved3: 0,
            imu_temperature: self.imu_temperature,
            pressure: self.pressure,
            pressure_temperature: self.pressure_temperature,
        }
    }
}

impl SystemStatus {
    /// Reads every defined bit of a raw status word.
    pub fn new(raw_value: u16) -> (r: SystemStatus)
        ensures
            r == SystemStatus::spec_from_bits(raw_value),
    {
        SystemStatus::from_flags(SystemStatusFlags { bits: raw_value })
    }

    /// Whether the system failure flag is set.
    pub fn system_failure(&self) -> (r: bool)
        ensures
            r == self.system_failure,
    {
        self.system_failure
    }

    /// Whether the accelerometer sensor failure flag is set.
    pub fn accelerometer_sensor_failure(&self) -> (r: bool)
        ensures
            r == self.accelerometer_sensor_failure,
    {
        self.accelerometer_sensor_failure
    }

    /// Whether the gyroscope sensor failure flag is set.
    pub fn gyroscope_sensor_failure(&self) -> (r: bool)
        ensures
            r == self.gyroscope_sensor_failure,
    {
        self.gyroscope_sensor_failure
    }

    /// Whether the pressure sensor failure flag is set.
    pub fn pressure_sensor_failure(&self) -> (r: bool)
        ensures
            r == self.pressure_sensor_failure,
    {
        self.pressure_sensor_failure
    }

    /// Whether the accelerometer over range flag is set.
    pub fn accelerometer_over_range(&self) -> (r: bool)
        ensures
            r == self.accelerometer_over_range,
    {
        self.accelerometer_over_range
    }

    /// Whether the gyroscope over range flag is set.
    pub fn gyroscope_over_range(&self) -> (r: bool)
        ensures
            r == self.gyroscope_over_range,
    {
        self.gyroscope_over_range
    }

    /// Whether the pressure over range flag is set.
    pub fn pressure_over_range(&self) -> (r: bool)
        ensures
            r == self.pressure_over_range,
    {
        self.pressure_over_range
    }

    /// Whether the minimum temperature alarm flag is set.
    pub fn minimum_temperature_alarm(&self) -> (r: bool)
        ensures
            r == self.minimum_temperature_alarm,
    {
        self.minimum_temperature_alarm
    }

    /// Whether the maximum temperature alarm flag is set.
    pub fn maximum_temperature_alarm(&self) -> (r: bool)
        ensures
            r == self.maximum_temperature_alarm,
    {
        self.maximum_temperature_alarm
    }

    /// Whether the high voltage alarm flag is set.
    pub fn high_voltage_alarm(&self) -> (r: bool)
        ensures
            r == self.high_voltage_alarm,
    {
        self.high_voltage_alarm
    }

    /// Whether the magnetometer sensor failure flag is set.
    pub fn magnetometer_sensor_failure(&self) -> (r: bool)
        ensures
            r == self.magnetometer_sensor_failure,
    {
        self.magnetometer_sensor_failure
    }

    /// Whether the gnss failure flag is set.
    pub fn gnss_failure(&self) -> (r: bool)
        ensures
            r == self.gnss_failure,
    {
        self.gnss_failure
    }

    /// Whether the magnetometer over range flag is set.
    pub fn magnetometer_over_range(&self) -> (r: bool)
        ensures
            r == self.magnetometer_over_range,
    {
        self.magnetometer_over_range
    }

    /// Whether the low voltage alarm flag is set.
    pub fn low_voltage_alarm(&self) -> (r: bool)
        ensures
            r == self.low_voltage_alarm,
    {
        self.low_voltage_alarm
    }

    /// Whether the gnss antenna disconnected flag is set.
    pub fn gnss_antenna_disconnected(&self) -> (r: bool)
        ensures
            r == self.gnss_antenna_disconnected,
    {
        self.gnss_antenna_disconnected
    }

    /// Whether the serial port overflow alarm flag is set.
    pub fn serial_port_overflow_alarm(&self) -> (r: bool)
        ensures
            r == self.serial_port_overflow_alarm,
    {
        self.serial_port_overflow_alarm
    }
}

impl FilterStatus {
    /// Reads every field of a raw filter status word.
    pub fn new(raw_value: u16) -> (r: FilterStatus)
        ensures
            r == FilterStatus::spec_from_bits(raw_value),
    {
        FilterStatus::from_flags(FilterStatusFlags { bits: raw_value })
    }

    /// Whether the orientation filter initialised flag is set.
    pub fn orientation_filter_initialised(&self) -> (r: bool)
        ensures
            r == self.orientation_filter_initialised,
    {
        self.orientation_filter_initialised
    }

    /// Whether the navigation filter initialised flag is set.
    pub fn navigation_filter_initialised(&self) -> (r: bool)
        ensures
            r == self.navigation_filter_initialised,
    {
        self.navigation_filter_initialised
    }

    /// Whether the heading initialised flag is set.
    pub fn heading_initialised(&self) -> (r: bool)
        ensures
            r == self.heading_initialised,
    {
        self.heading_initialised
    }

    /// Whether the utc time initialised flag is set.
    pub fn utc_time_initialised(&self) -> (r: bool)
        ensures
            r == self.utc_time_initialised,
    {
        self.utc_time_initialised
    }

    /// Whether the internal gnss enabled flag is set.
    pub fn internal_gnss_enabled(&self) -> (r: bool)
        ensures
            r == self.internal_gnss_enabled,
    {
        self.internal_gnss_enabled
    }

    /// Whether the velocity heading enabled flag is set.
    pub fn velocity_heading_enabled(&self) -> (r: bool)
        ensures
            r == self.velocity_heading_enabled,
    {
        self.velocity_heading_enabled
    }

    /// Whether the atmospheric altitude enabled flag is set.
    pub fn atmospheric_altitude_enabled(&self) -> (r: bool)
        ensures
            r == self.atmospheric_altitude_enabled,
    {
        self.atmospheric_altitude_enabled
    }

    /// Whether the external position active flag is set.
    pub fn external_position_active(&self) -> (r: bool)
        ensures
            r == self.external_position_active,
    {
        self.external_position_active
    }

    /// Whether the external velocity active flag is set.
    pub fn external_velocity_active(&self) -> (r: bool)
        ensures
            r == self.external_velocity_active,
    {
        self.external_velocity_active
    }

    /// Whether the external heading active flag is set.
    pub fn external_heading_active(&self) -> (r: bool)
        ensures
            r == self.external_heading_active,
    {
        self.external_heading_active
    }

    /// Whether the event1 flag flag is set.
    pub fn event1_flag(&self) -> (r: bool)
        ensures
            r == self.event1_flag,
    {
        self.event1_flag
    }

    /// Whether the event2 flag flag is set.
    pub fn event2_flag(&self) -> (r: bool)
        ensures
            r == self.event2_flag,
    {
        self.event2_flag
    }

    /// Whether the dual antenna heading active flag is set.
    pub fn dual_antenna_heading_active(&self) -> (r: bool)
        ensures
            r == self.dual_antenna_heading_active,
    {
        self.dual_antenna_heading_active
    }
}

impl SystemStatus {
    /// The labels of the set flags, in bit order.
    pub open spec fn spec_active_flags(self) -> Seq<Seq<char>> {
        (if self.system_failure { seq!["System Failure"@] } else { Seq::<Seq<char>>::empty() })
            + (if self.accelerometer_sensor_failure { seq!["Accelerometer Sensor Failure"@] } else { Seq::<Seq<char>>::empty() })
            + (if self.gyroscope_sensor_failure { seq!["Gyroscope Sensor Failure"@] } else { Seq::<Seq<char>>::empty() })
            + (if self.magnetometer_sensor_failure { seq!["Magnetometer Sensor Failure"@] } else { Seq::<Seq<char>>::empty() })
            + (if self.pressure_sensor_failure { seq!["Pressure Sensor Failure"@] } else { Seq::<Seq<char>>::empty() })
            + (if self.gnss_failure { seq!["GNSS Failure"@] } else { Seq::<Seq<char>>::empty() })
            + (if self.accelerometer_over_range { seq!["Accelerometer Over Range"@] } else { Seq::<Seq<char>>::empty() })
            + (if self.gyroscope_over_range { seq!["Gyroscope Over Range"@] } else { Seq::<Seq<char>>::empty() })
            + (if self.magnetometer_over_range { seq!["Magnetometer Over Range"@] } else { Seq::<Seq<char>>::empty() })
            + (if self.pressure_over_range { seq!["Pressure Over Range"@] } else { Seq::<Seq<char>>::empty() })
            + (if self.minimum_temperature_alarm { seq!["Minimum Temperature Alarm"@] } else { Seq::<Seq<char>>::empty() })
            + (if self.maximum_temperature_alarm { seq!["Maximum Temperature Alarm"@] } else { Seq::<Seq<char>>::empty() })
            + (if self.low_voltage_alarm { seq!["Low Voltage Alarm"@] } else { Seq::<Seq<char>>::empty() })
            + (if self.high_voltage_alarm { seq!["High Voltage Alarm"@] } else { Seq::<Seq<char>>::empty() })
            + (if self.gnss_antenna_disconnected { seq!["GNSS Antenna Disconnected"@] } else { Seq::<Seq<char>>::empty() })
            + (if self.serial_port_overflow_alarm { seq!["Serial Port Overflow Alarm"@] } else { Seq::<Seq<char>>::empty() })
    }

}
impl FilterStatus {
    /// The labels of the set flags, in bit order.
    pub open spec fn spec_active_flags(self) -> Seq<Seq<char>> {
        (if self.orientation_filter_initialised { seq!["Orientation Filter Initialised"@] } else { Seq::<Seq<char>>::empty() })
            + (if self.navigation_filter_initialised { seq!["Navigation Filter Initialised"@] } else { Seq::<Seq<char>>::empty() })
            + (if self.heading_initialised { seq!["Heading Initialised"@] } else { Seq::<Seq<char>>::empty() })
            + (if self.utc_time_initialised { seq!["UTC Time Initialised"@] } else { Seq::<Seq<char>>::empty() })
            + (if self.event1_flag { seq!["Event 1 Occurred"@] } else { Seq::<Seq<char>>::empty() })
            + (if self.event2_flag { seq!["Event 2 Occurred"@] } else { Seq::<Seq<char>>::empty() })
            + (if self.internal_gnss_enabled { seq!["Internal GNSS Enabled"@] } else { Seq::<Seq<char>>::empty() })
            + (if self.dual_antenna_heading_active { seq!["Dual Antenna Heading Active"@] } else { Seq::<Seq<char>>::empty() })
            + (if self.velocity_heading_enabled { seq!["Velocity Heading Enabled"@] } else { Seq::<Seq<char>>::empty() })
            + (if self.atmospheric_altitude_enabled { seq!["Atmospheric Altitude Enabled"@] } else { Seq::<Seq<char>>::empty() })
            + (if self.external_position_active { seq!["External Position Active"@] } else { Seq::<Seq<char>>::empty() })
            + (if self.external_velocity_active { seq!["External Velocity Active"@] } else { Seq::<Seq<char>>::empty() })
            + (if self.external_heading_active { seq!["External Heading Active"@] } else { Seq::<Seq<char>>::empty() })
    }

}

/// Appends `label` to the list exactly when `cond` holds.
pub(crate) fn push_flag(flags: &mut Vec<String>, cond: bool, label: &str)
    ensures
        final(flags).deep_view() == old(flags).deep_view() + (if cond {
            seq![label@]
        } else {
            Seq::<Seq<char>>::empty()
        }),
{
    if cond {
        flags.push(label.to_string());
        proof {
            assert(flags.deep_view() =~= old(flags).deep_view() + seq![label@]);
        }
    } else {
        proof {
            assert(flags.deep_view() =~= old(flags).deep_view() + Seq::<Seq<char>>::empty());
        }
    }
}

impl SystemStatus {
    /// Lists a label for every set flag, in bit order.
    #[verifier::rlimit(50)]
    #[verifier::spinoff_prover]
    pub fn get_active_flags(&self) -> (r: Vec<String>)
        ensures
            r.deep_view() == self.spec_active_flags(),
    {
        let mut flags: Vec<String> = Vec::new();
        proof {
            assert(flags.deep_view() =~= Seq::<Seq<char>>::empty());
        }
        push_flag(&mut flags, self.system_failure, "System Failure");
        push_flag(&mut flags, self.accelerometer_sensor_failure, "Accelerometer Sensor Failure");
        push_flag(&mut flags, self.gyroscope_sensor_failure, "Gyroscope Sensor Failure");
        push_flag(&mut flags, self.magnetometer_sensor_failure, "Magnetometer Sensor Failure");
        push_flag(&mut flags, self.pressure_sensor_failure, "Pressure Sensor Failure");
        push_flag(&mut flags, self.gnss_failure, "GNSS Failure");
        push_flag(&mut flags, self.accelerometer_over_range, "Accelerometer Over Range");
        push_flag(&mut flags, self.gyroscope_over_range, "Gyroscope Over Range");
        push_flag(&mut flags, self.magnetometer_over_range, "Magnetometer Over Range");
        push_flag(&mut flags, self.pressure_over_range, "Pressure Over Range");
        push_flag(&mut flags, self.minimum_temperature_alarm, "Minimum Temperature Alarm");
        push_flag(&mut flags, self.maximum_temperature_alarm, "Maximum Temperature Alarm");
        push_flag(&mut flags, self.low_voltage_alarm, "Low Voltage Alarm");
        push_flag(&mut flags, self.high_voltage_alarm, "High Voltage Alarm");
        push_flag(&mut flags, self.gnss_antenna_disconnected, "GNSS Antenna Disconnected");
        push_flag(&mut flags, self.serial_port_overflow_alarm, "Serial Port Overflow Alarm");
        proof {
            assert(flags.deep_view() =~= self.spec_active_flags());
        }
        flags
    }
}
impl FilterStatus {
    /// Lists a label for every set flag, in bit order.
    #[verifier::rlimit(50)]
    #[verifier::spinoff_prover]
    pub fn get_active_flags(&self) -> (r: Vec<String>)
        ensures
            r.deep_view() == self.spec_active_flags(),
    {
        let mut flags: Vec<String> = Vec::new();
        proof {
            assert(flags.deep_view() =~= Seq::<Seq<char>>::empty());
        }
        push_flag(&mut flags, self.orientation_filter_initialised, "Orientation Filter Initialised");
        push_flag(&mut flags, self.navigation_filter_initialised, "Navigation Filter Initialised");
        push_flag(&mut flags, self.heading_initialised, "Heading Initialised");
        push_flag(&mut flags, self.utc_time_initialised, "UTC Time Initialised");
        push_flag(&mut flags, self.event1_flag, "Event 1 Occurred");
        push_flag(&mut flags, self.event2_flag, "Event 2 Occurred");
        push_flag(&mut flags, self.internal_gnss_enabled, "Internal GNSS Enabled");
        push_flag(&mut flags, self.dual_antenna_heading_active, "Dual Antenna Heading Active");
        push_flag(&mut flags, self.velocity_heading_enabled, "Velocity Heading Enabled");
        push_flag(&mut flags, self.atmospheric_altitude_enabled, "Atmospheric Altitude Enabled");
        push_flag(&mut flags, self.external_position_active, "External Position Active");
        push_flag(&mut flags, self.external_velocity_active, "External Velocity Active");
        push_flag(&mut flags, self.external_heading_active, "External Heading Active");
        proof {
            assert(flags.deep_view() =~= self.spec_active_flags());
        }
        flags
    }
}

/// The external time sent to the device when GNSS is unavailable.
#[derive(Debug, Clone, Copy, PartialEq, Eq, Structural)]
pub struct ExternalTime {
    pub unix_time_seconds: u32,
    pub microseconds: u32,
}

impl ExternalTime {
    /// Promotes a wire external time packet.
    pub fn from_wire(p: ExternalTimePacket) -> (r: ExternalTime)
        ensures
            r.unix_time_seconds == p.unix_time_seconds,
            r.microseconds == p.microseconds,
    {
        ExternalTime { unix_time_seconds: p.unix_time_seconds, microseconds: p.microseconds }
    }

    /// Lowers to a wire external time packet.
    pub fn to_wire(&self) -> (r: ExternalTimePacket)
        ensures
            r.unix_time_seconds == self.unix_time_seconds,
            r.microseconds == self.microseconds,
    {
        ExternalTimePacket {
            unix_time_seconds: self.unix_time_seconds,
            microseconds: self.microseconds,
        }
    }
}

/// Reading a filter status word and packing it again gives the word
/// back: the boolean bits and the three-bit fix type field cover all
/// sixteen positions.
pub proof fn lemma_filter_status_bits_roundtrip(bits: u16)
    ensures
        FilterStatus::spec_from_bits(bits).spec_to_bits() == bits,
{
    let f: u16 = (bits >> 4) & 7;
    assert((bits >> 4) & 7 < 8) by (bit_vector);
    assert(spec_fix_type_u8(spec_fix_type_of_bits(bits)) == f);
    assert(((if bits & 0x1 != 0 { 0x1u16 } else { 0u16 }) | (if bits & 0x2 != 0 { 0x2u16 } else { 0u16 }) | (if bits & 0x4 != 0 { 0x4u16 } else { 0u16 }) | (if bits & 0x8 != 0 { 0x8u16 } else { 0u16 }) | ((f as u16) << 4) | (if bits & 0x80 != 0 { 0x80u16 } else { 0u16 }) | (if bits & 0x100 != 0 { 0x100u16 } else { 0u16 }) | (if bits & 0x200 != 0 { 0x200u16 } else { 0u16 }) | (if bits & 0x400 != 0 { 0x400u16 } else { 0u16 }) | (if bits & 0x800 != 0 { 0x800u16 } else { 0u16 }) | (if bits & 0x1000 != 0 { 0x1000u16 } else { 0u16 }) | (if bits & 0x2000 != 0 { 0x2000u16 } else { 0u16 }) | (if bits & 0x4000 != 0 { 0x4000u16 } else { 0u16 }) | (if bits & 0x8000 != 0 { 0x8000u16 } else { 0u16 })) == bits) by (bit_vector)
        requires
            f == (bits >> 4) & 7,
    ;
}

} // verus!
