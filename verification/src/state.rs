//! Wire codecs for the state packets (identifiers 20 to 28).
//!
//! Fields that carry physical quantities hold the IEEE-754 bit pattern of
//! the wire value (`u32` for 32-bit, `u64` for 64-bit), so every payload
//! round-trips bit for bit.

use crate::error::AnError;
use crate::flags::{FilterStatusFlags, SystemStatusFlags};
use crate::wire::{
    lemma_le_bytes_lens, lemma_u16_bytes_inj, lemma_u32_bytes_inj, lemma_u64_bytes_inj, read_u16,
    read_u32, read_u64, write_u16, write_u32, write_u64,
};
use vstd::bytes::*;
use vstd::prelude::*;

verus! {

/// System state packet (identifier 20, payload length 100).  Read only.
#[derive(Debug, Clone, Copy, PartialEq, Eq, Structural)]
pub struct SystemStatePacket {
    pub system_status: SystemStatusFlags,
    pub filter_status: FilterStatusFlags,
    pub unix_time_seconds: u32,
    pub microseconds: u32,
    pub latitude: u64,
    pub longitude: u64,
    pub height: u64,
    pub velocity_north: u32,
    pub velocity_east: u32,
    pub velocity_down: u32,
    pub body_acceleration_x: u32,
    pub body_acceleration_y: u32,
    pub body_acceleration_z: u32,
    pub g_force: u32,
    pub roll: u32,
    pub pitch: u32,
    pub heading: u32,
    pub angular_velocity_x: u32,
    pub angular_velocity_y: u32,
    pub angular_velocity_z: u32,
    pub latitude_std_dev: u32,
    pub longitude_std_dev: u32,
    pub height_std_dev: u32,
}

impl SystemStatePacket {
    /// The exact little-endian payload encoding.
    pub open spec fn spec_bytes(self) -> Seq<u8> {
        spec_u16_to_le_bytes(self.system_status.bits)
            + spec_u16_to_le_bytes(self.filter_status.bits)
            + spec_u32_to_le_bytes(self.unix_time_seconds)
            + spec_u32_to_le_bytes(self.microseconds)
            + spec_u64_to_le_bytes(self.latitude)
            + spec_u64_to_le_bytes(self.longitude)
            + spec_u64_to_le_bytes(self.height)
            + spec_u32_to_le_bytes(self.velocity_north)
            + spec_u32_to_le_bytes(self.velocity_east)
            + spec_u32_to_le_bytes(self.velocity_down)
            + spec_u32_to_le_bytes(self.body_acceleration_x)
            + spec_u32_to_le_bytes(self.body_acceleration_y)
            + spec_u32_to_le_bytes(self.body_acceleration_z)
            + spec_u32_to_le_bytes(self.g_force)
            + spec_u32_to_le_bytes(self.roll)
            + spec_u32_to_le_bytes(self.pitch)
            + spec_u32_to_le_bytes(self.heading)
            + spec_u32_to_le_bytes(self.angular_velocity_x)
            + spec_u32_to_le_bytes(self.angular_velocity_y)
            + spec_u32_to_le_bytes(self.angular_velocity_z)
            + spec_u32_to_le_bytes(self.latitude_std_dev)
            + spec_u32_to_le_bytes(self.longitude_std_dev)
            + spec_u32_to_le_bytes(self.height_std_dev)
    }

    /// Whether a payload decodes into this packet kind.
    pub open spec fn decodable(data: Seq<u8>) -> bool {
        data.len() == 100
    }

    /// Encodes the packet as its exact payload bytes.
    pub fn to_bytes(&self) -> (r: Vec<u8>)
        ensures
            r@ == self.spec_bytes(),
            r@.len() == 100,
    {
        let mut out: Vec<u8> = Vec::new();
        write_u16(&mut out, self.system_status.bits);
        write_u16(&mut out, self.filter_status.bits);
        write_u32(&mut out, self.unix_time_seconds);
        write_u32(&mut out, self.microseconds);
        write_u64(&mut out, self.latitude);
        write_u64(&mut out, self.longitude);
        write_u64(&mut out, self.height);
        write_u32(&mut out, self.velocity_north);
        write_u32(&mut out, self.velocity_east);
        write_u32(&mut out, self.velocity_down);
        write_u32(&mut out, self.body_acceleration_x);
        write_u32(&mut out, self.body_acceleration_y);
        write_u32(&mut out, self.body_acceleration_z);
        write_u32(&mut out, self.g_force);
        write_u32(&mut out, self.roll);
        write_u32(&mut out, self.pitch);
        write_u32(&mut out, self.heading);
        write_u32(&mut out, self.angular_velocity_x);
        write_u32(&mut out, self.angular_velocity_y);
        write_u32(&mut out, self.angular_velocity_z);
        write_u32(&mut out, self.latitude_std_dev);
        write_u32(&mut out, self.longitude_std_dev);
        write_u32(&mut out, self.height_std_dev);
        proof {
            lemma_le_bytes_lens();
            assert(out@ =~= self.spec_bytes());
        }
        out
    }

    /// Decodes a payload; succeeds exactly on valid 100-byte inputs.
    pub fn from_bytes(data: &[u8]) -> (r: Result<SystemStatePacket, AnError>)
        ensures
            Self::decodable(data@) ==> (r matches Ok(p) && p.spec_bytes() == data@),
            !Self::decodable(data@) ==> (r matches Err(e) && e matches AnError::InvalidPacket(_)),
    {
        if data.len() != 100 {
            return Err(AnError::InvalidPacket("system state payload must be 100 bytes".to_string()));
        }
        let p = SystemStatePacket {
            system_status: SystemStatusFlags { bits: read_u16(data, 0) },
            filter_status: FilterStatusFlags { bits: read_u16(data, 2) },
            unix_time_seconds: read_u32(data, 4),
            microseconds: read_u32(data, 8),
            latitude: read_u64(data, 12),
            longitude: read_u64(data, 20),
            height: read_u64(data, 28),
            velocity_north: read_u32(data, 36),
            velocity_east: read_u32(data, 40),
            velocity_down: read_u32(data, 44),
            body_acceleration_x: read_u32(data, 48),
            body_acceleration_y: read_u32(data, 52),
            body_acceleration_z: read_u32(data, 56),
            g_force: read_u32(data, 60),
            roll: read_u32(data, 64),
            pitch: read_u32(data, 68),
            heading: read_u32(data, 72),
            angular_velocity_x: read_u32(data, 76),
            angular_velocity_y: read_u32(data, 80),
            angular_velocity_z: read_u32(data, 84),
            latitude_std_dev: read_u32(data, 88),
            longitude_std_dev: read_u32(data, 92),
            height_std_dev: read_u32(data, 96),
        };
        proof {
            lemma_le_bytes_lens();
            assert(p.spec_bytes() =~= data@);
        }
        Ok(p)
    }
}

/// Equal payload encodings come from equal packets.
#[verifier::rlimit(60)]
#[verifier::spinoff_prover]
pub(crate) proof fn lemma_system_state_packet_bytes_inj(a: SystemStatePacket, b: SystemStatePacket)
    requires
        a.spec_bytes() == b.spec_bytes(),
    ensures
        a == b,
{
    lemma_le_bytes_lens();
    assert(a.spec_bytes().subrange(0, 2) =~= spec_u16_to_le_bytes(a.system_status.bits));
    assert(b.spec_bytes().subrange(0, 2) =~= spec_u16_to_le_bytes(b.system_status.bits));
    lemma_u16_bytes_inj(a.system_status.bits, b.system_status.bits);
    assert(a.spec_bytes().subrange(2, 4) =~= spec_u16_to_le_bytes(a.filter_status.bits));
    assert(b.spec_bytes().subrange(2, 4) =~= spec_u16_to_le_bytes(b.filter_status.bits));
    lemma_u16_bytes_inj(a.filter_status.bits, b.filter_status.bits);
    assert(a.spec_bytes().subrange(4, 8) =~= spec_u32_to_le_bytes(a.unix_time_seconds));
    assert(b.spec_bytes().subrange(4, 8) =~= spec_u32_to_le_bytes(b.unix_time_seconds));
    lemma_u32_bytes_inj(a.unix_time_seconds, b.unix_time_seconds);
    assert(a.spec_bytes().subrange(8, 12) =~= spec_u32_to_le_bytes(a.microseconds));
    assert(b.spec_bytes().subrange(8, 12) =~= spec_u32_to_le_bytes(b.microseconds));
    lemma_u32_bytes_inj(a.microseconds, b.microseconds);
    assert(a.spec_bytes().subrange(12, 20) =~= spec_u64_to_le_bytes(a.latitude));
    assert(b.spec_bytes().subrange(12, 20) =~= spec_u64_to_le_bytes(b.latitude));
    lemma_u64_bytes_inj(a.latitude, b.latitude);
    assert(a.spec_bytes().subrange(20, 28) =~= spec_u64_to_le_bytes(a.longitude));
    assert(b.spec_bytes().subrange(20, 28) =~= spec_u64_to_le_bytes(b.longitude));
    lemma_u64_bytes_inj(a.longitude, b.longitude);
    assert(a.spec_bytes().subrange(28, 36) =~= spec_u64_to_le_bytes(a.height));
    assert(b.spec_bytes().subrange(28, 36) =~= spec_u64_to_le_bytes(b.height));
    lemma_u64_bytes_inj(a.height, b.height);
    assert(a.spec_bytes().subrange(36, 40) =~= spec_u32_to_le_bytes(a.velocity_north));
    assert(b.spec_bytes().subrange(36, 40) =~= spec_u32_to_le_bytes(b.velocity_north));
    lemma_u32_bytes_inj(a.velocity_north, b.velocity_north);
    assert(a.spec_bytes().subrange(40, 44) =~= spec_u32_to_le_bytes(a.velocity_east));
    assert(b.spec_bytes().subrange(40, 44) =~= spec_u32_to_le_bytes(b.velocity_east));
    lemma_u32_bytes_inj(a.velocity_east, b.velocity_east);
    assert(a.spec_bytes().subrange(44, 48) =~= spec_u32_to_le_bytes(a.velocity_down));
    assert(b.spec_bytes().subrange(44, 48) =~= spec_u32_to_le_bytes(b.velocity_down));
    lemma_u32_bytes_inj(a.velocity_down, b.velocity_down);
    assert(a.spec_bytes().subrange(48, 52) =~= spec_u32_to_le_bytes(a.body_acceleration_x));
    assert(b.spec_bytes().subrange(48, 52) =~= spec_u32_to_le_bytes(b.body_acceleration_x));
    lemma_u32_bytes_inj(a.body_acceleration_x, b.body_acceleration_x);
    assert(a.spec_bytes().subrange(52, 56) =~= spec_u32_to_le_bytes(a.body_acceleration_y));
    assert(b.spec_bytes().subrange(52, 56) =~= spec_u32_to_le_bytes(b.body_acceleration_y));
    lemma_u32_bytes_inj(a.body_acceleration_y, b.body_acceleration_y);
    assert(a.spec_bytes().subrange(56, 60) =~= spec_u32_to_le_bytes(a.body_acceleration_z));
    assert(b.spec_bytes().subrange(56, 60) =~= spec_u32_to_le_bytes(b.body_acceleration_z));
    lemma_u32_bytes_inj(a.body_acceleration_z, b.body_acceleration_z);
    assert(a.spec_bytes().subrange(60, 64) =~= spec_u32_to_le_bytes(a.g_force));
    assert(b.spec_bytes().subrange(60, 64) =~= spec_u32_to_le_bytes(b.g_force));
    lemma_u32_bytes_inj(a.g_force, b.g_force);
    assert(a.spec_bytes().subrange(64, 68) =~= spec_u32_to_le_bytes(a.roll));
    assert(b.spec_bytes().subrange(64, 68) =~= spec_u32_to_le_bytes(b.roll));
    lemma_u32_bytes_inj(a.roll, b.roll);
    assert(a.spec_bytes().subrange(68, 72) =~= spec_u32_to_le_bytes(a.pitch));
    assert(b.spec_bytes().subrange(68, 72) =~= spec_u32_to_le_bytes(b.pitch));
    lemma_u32_bytes_inj(a.pitch, b.pitch);
    assert(a.spec_bytes().subrange(72, 76) =~= spec_u32_to_le_bytes(a.heading));
    assert(b.spec_bytes().subrange(72, 76) =~= spec_u32_to_le_bytes(b.heading));
    lemma_u32_bytes_inj(a.heading, b.heading);
    assert(a.spec_bytes().subrange(76, 80) =~= spec_u32_to_le_bytes(a.angular_velocity_x));
    assert(b.spec_bytes().subrange(76, 80) =~= spec_u32_to_le_bytes(b.angular_velocity_x));
    lemma_u32_bytes_inj(a.angular_velocity_x, b.angular_velocity_x);
    assert(a.spec_bytes().subrange(80, 84) =~= spec_u32_to_le_bytes(a.angular_velocity_y));
    assert(b.spec_bytes().subrange(80, 84) =~= spec_u32_to_le_bytes(b.angular_velocity_y));
    lemma_u32_bytes_inj(a.angular_velocity_y, b.angular_velocity_y);
    assert(a.spec_bytes().subrange(84, 88) =~= spec_u32_to_le_bytes(a.angular_velocity_z));
    assert(b.spec_bytes().subrange(84, 88) =~= spec_u32_to_le_bytes(b.angular_velocity_z));
    lemma_u32_bytes_inj(a.angular_velocity_z, b.angular_velocity_z);
    assert(a.spec_bytes().subrange(88, 92) =~= spec_u32_to_le_bytes(a.latitude_std_dev));
    assert(b.spec_bytes().subrange(88, 92) =~= spec_u32_to_le_bytes(b.latitude_std_dev));
    lemma_u32_bytes_inj(a.latitude_std_dev, b.latitude_std_dev);
    assert(a.spec_bytes().subrange(92, 96) =~= spec_u32_to_le_bytes(a.longitude_std_dev));
    assert(b.spec_bytes().subrange(92, 96) =~= spec_u32_to_le_bytes(b.longitude_std_dev));
    lemma_u32_bytes_inj(a.longitude_std_dev, b.longitude_std_dev);
    assert(a.spec_bytes().subrange(96, 100) =~= spec_u32_to_le_bytes(a.height_std_dev));
    assert(b.spec_bytes().subrange(96, 100) =~= spec_u32_to_le_bytes(b.height_std_dev));
    lemma_u32_bytes_inj(a.height_std_dev, b.height_std_dev);
}

/// Unix time packet (identifier 21, payload length 8).  Read only.
#[derive(Debug, Clone, Copy, PartialEq, Eq, Structural)]
pub struct UnixTimePacket {
    pub unix_time_seconds: u32,
    pub microseconds: u32,
}

impl UnixTimePacket {
    /// The exact little-endian payload encoding.
    pub open spec fn spec_bytes(self) -> Seq<u8> {
        spec_u32_to_le_bytes(self.unix_time_seconds)
            + spec_u32_to_le_bytes(self.microseconds)
    }

    /// Whether a payload decodes into this packet kind.
    pub open spec fn decodable(data: Seq<u8>) -> bool {
        data.len() == 8
    }

    /// Encodes the packet as its exact payload bytes.
    pub fn to_bytes(&self) -> (r: Vec<u8>)
        ensures
            r@ == self.spec_bytes(),
            r@.len() == 8,
    {
        let mut out: Vec<u8> = Vec::new();
        write_u32(&mut out, self.unix_time_seconds);
        write_u32(&mut out, self.microseconds);
        proof {
            lemma_le_bytes_lens();
            assert(out@ =~= self.spec_bytes());
        }
        out
    }

    /// Decodes a payload; succeeds exactly on valid 8-byte inputs.
    pub fn from_bytes(data: &[u8]) -> (r: Result<UnixTimePacket, AnError>)
        ensures
            Self::decodable(data@) ==> (r matches Ok(p) && p.spec_bytes() == data@),
            !Self::decodable(data@) ==> (r matches Err(e) && e matches AnError::InvalidPacket(_)),
    {
        if data.len() != 8 {
            return Err(AnError::InvalidPacket("unix time payload must be 8 bytes".to_string()));
        }
        let p = UnixTimePacket {
            unix_time_seconds: read_u32(data, 0),
            microseconds: read_u32(data, 4),
        };
        proof {
            lemma_le_bytes_lens();
            assert(p.spec_bytes() =~= data@);
        }
        Ok(p)
    }
}

/// Equal payload encodings come from equal packets.
pub(crate) proof fn lemma_unix_time_packet_bytes_inj(a: UnixTimePacket, b: UnixTimePacket)
    requires
        a.spec_bytes() == b.spec_bytes(),
    ensures
        a == b,
{
    lemma_le_bytes_lens();
    assert(a.spec_bytes().subrange(0, 4) =~= spec_u32_to_le_bytes(a.unix_time_seconds));
    assert(b.spec_bytes().subrange(0, 4) =~= spec_u32_to_le_bytes(b.unix_time_seconds));
    lemma_u32_bytes_inj(a.unix_time_seconds, b.unix_time_seconds);
    assert(a.spec_bytes().subrange(4, 8) =~= spec_u32_to_le_bytes(a.microseconds));
    assert(b.spec_bytes().subrange(4, 8) =~= spec_u32_to_le_bytes(b.microseconds));
    lemma_u32_bytes_inj(a.microseconds, b.microseconds);
}

/// Status packet (identifier 23, payload length 4).  Read only.
#[derive(Debug, Clone, Copy, PartialEq, Eq, Structural)]
pub struct StatusPacket {
    pub system_status: SystemStatusFlags,
    pub filter_status: FilterStatusFlags,
}

impl StatusPacket {
    /// The exact little-endian payload encoding.
    pub open spec fn spec_bytes(self) -> Seq<u8> {
        spec_u16_to_le_bytes(self.system_status.bits)
            + spec_u16_to_le_bytes(self.filter_status.bits)
    }

    /// Whether a payload decodes into this packet kind.
    pub open spec fn decodable(data: Seq<u8>) -> bool {
        data.len() == 4
    }

    /// Encodes the packet as its exact payload bytes.
    pub fn to_bytes(&self) -> (r: Vec<u8>)
        ensures
            r@ == self.spec_bytes(),
            r@.len() == 4,
    {
        let mut out: Vec<u8> = Vec::new();
        write_u16(&mut out, self.system_status.bits);
        write_u16(&mut out, self.filter_status.bits);
        proof {
            lemma_le_bytes_lens();
            assert(out@ =~= self.spec_bytes());
        }
        out
    }

    /// Decodes a payload; succeeds exactly on valid 4-byte inputs.
    pub fn from_bytes(data: &[u8]) -> (r: Result<StatusPacket, AnError>)
        ensures
            Self::decodable(data@) ==> (r matches Ok(p) && p.spec_bytes() == data@),
            !Self::decodable(data@) ==> (r matches Err(e) && e matches AnError::InvalidPacket(_)),
    {
        if data.len() != 4 {
            return Err(AnError::InvalidPacket("status payload must be 4 bytes".to_string()));
        }
        let p = StatusPacket {
            system_status: SystemStatusFlags { bits: read_u16(data, 0) },
            filter_status: FilterStatusFlags { bits: read_u16(data, 2) },
        };
        proof {
            lemma_le_bytes_lens();
            assert(p.spec_bytes() =~= data@);
        }
        Ok(p)
    }
}

/// Equal payload encodings come from equal packets.
pub(crate) proof fn lemma_status_packet_bytes_inj(a: StatusPacket, b: StatusPacket)
    requires
        a.spec_bytes() == b.spec_bytes(),
    ensures
        a == b,
{
    lemma_le_bytes_lens();
    assert(a.spec_bytes().subrange(0, 2) =~= spec_u16_to_le_bytes(a.system_status.bits));
    assert(b.spec_bytes().subrange(0, 2) =~= spec_u16_to_le_bytes(b.system_status.bits));
    lemma_u16_bytes_inj(a.system_status.bits, b.system_status.bits);
    assert(a.spec_bytes().subrange(2, 4) =~= spec_u16_to_le_bytes(a.filter_status.bits));
    assert(b.spec_bytes().subrange(2, 4) =~= spec_u16_to_le_bytes(b.filter_status.bits));
    lemma_u16_bytes_inj(a.filter_status.bits, b.filter_status.bits);
}

/// Euler orientation standard deviation packet (identifier 26, payload length 12).  Read only.
#[derive(Debug, Clone, Copy, PartialEq, Eq, Structural)]
pub struct EulerOrientationStdDevPacket {
    pub roll_std_dev: u32,
    pub pitch_std_dev: u32,
    pub heading_std_dev: u32,
}

impl EulerOrientationStdDevPacket {
    /// The exact little-endian payload encoding.
    pub open spec fn spec_bytes(self) -> Seq<u8> {
        spec_u32_to_le_bytes(self.roll_std_dev)
            + spec_u32_to_le_bytes(self.pitch_std_dev)
            + spec_u32_to_le_bytes(self.heading_std_dev)
    }

    /// Whether a payload decodes into this packet kind.
    pub open spec fn decodable(data: Seq<u8>) -> bool {
        data.len() == 12
    }

    /// Encodes the packet as its exact payload bytes.
    pub fn to_bytes(&self) -> (r: Vec<u8>)
        ensures
            r@ == self.spec_bytes(),
            r@.len() == 12,
    {
        let mut out: Vec<u8> = Vec::new();
        write_u32(&mut out, self.roll_std_dev);
        write_u32(&mut out, self.pitch_std_dev);
        write_u32(&mut out, self.heading_std_dev);
        proof {
            lemma_le_bytes_lens();
            assert(out@ =~= self.spec_bytes());
        }
        out
    }

    /// Decodes a payload; succeeds exactly on valid 12-byte inputs.
    pub fn from_bytes(data: &[u8]) -> (r: Result<EulerOrientationStdDevPacket, AnError>)
        ensures
            Self::decodable(data@) ==> (r matches Ok(p) && p.spec_bytes() == data@),
            !Self::decodable(data@) ==> (r matches Err(e) && e matches AnError::InvalidPacket(_)),
    {
        if data.len() != 12 {
            return Err(AnError::InvalidPacket("euler orientation std dev payload must be 12 bytes".to_string()));
        }
        let p = EulerOrientationStdDevPacket {
            roll_std_dev: read_u32(data, 0),
            pitch_std_dev: read_u32(data, 4),
            heading_std_dev: read_u32(data, 8),
        };
        proof {
            lemma_le_bytes_lens();
            assert(p.spec_bytes() =~= data@);
        }
        Ok(p)
    }
}

/// Equal payload encodings come from equal packets.
pub(crate) proof fn lemma_euler_orientation_std_dev_packet_bytes_inj(a: EulerOrientationStdDevPacket, b: EulerOrientationStdDevPacket)
    requires
        a.spec_bytes() == b.spec_bytes(),
    ensures
        a == b,
{
    lemma_le_bytes_lens();
    assert(a.spec_bytes().subrange(0, 4) =~= spec_u32_to_le_bytes(a.roll_std_dev));
    assert(b.spec_bytes().subrange(0, 4) =~= spec_u32_to_le_bytes(b.roll_std_dev));
    lemma_u32_bytes_inj(a.roll_std_dev, b.roll_std_dev);
    assert(a.spec_bytes().subrange(4, 8) =~= spec_u32_to_le_bytes(a.pitch_std_dev));
    assert(b.spec_bytes().subrange(4, 8) =~= spec_u32_to_le_bytes(b.pitch_std_dev));
    lemma_u32_bytes_inj(a.pitch_std_dev, b.pitch_std_dev);
    assert(a.spec_bytes().subrange(8, 12) =~= spec_u32_to_le_bytes(a.heading_std_dev));
    assert(b.spec_bytes().subrange(8, 12) =~= spec_u32_to_le_bytes(b.heading_std_dev));
    lemma_u32_bytes_inj(a.heading_std_dev, b.heading_std_dev);
}

/// Raw sensors packet (identifier 28, payload length 48).  Read only.
#[derive(Debug, Clone, Copy, PartialEq, Eq, Structural)]
pub struct RawSensorsPacket {
    pub accelerometer_x: u32,
    pub accelerometer_y: u32,
    pub accelerometer_z: u32,
    pub gyroscope_x: u32,
    pub gyroscope_y: u32,
    pub gyroscope_z: u32,
    pub reserved1: u32,
    pub reserved2: u32,
    pub reserved3: u32,
    pub imu_temperature: u32,
    pub pressure: u32,
    pub pressure_temperature: u32,
}

impl RawSensorsPacket {
    /// The exact little-endian payload encoding.
    pub open spec fn spec_bytes(self) -> Seq<u8> {
        spec_u32_to_le_bytes(self.accelerometer_x)
            + spec_u32_to_le_bytes(self.accelerometer_y)
            + spec_u32_to_le_bytes(self.accelerometer_z)
            + spec_u32_to_le_bytes(self.gyroscope_x)
            + spec_u32_to_le_bytes(self.gyroscope_y)
            + spec_u32_to_le_bytes(self.gyroscope_z)
            + spec_u32_to_le_bytes(self.reserved1)
            + spec_u32_to_le_bytes(self.reserved2)
            + spec_u32_to_le_bytes(self.reserved3)
            + spec_u32_to_le_bytes(self.imu_temperature)
            + spec_u32_to_le_bytes(self.pressure)
            + spec_u32_to_le_bytes(self.pressure_temperature)
    }

    /// Whether a payload decodes into this packet kind.
    pub open spec fn decodable(data: Seq<u8>) -> bool {
        data.len() == 48
    }

    /// Encodes the packet as its exact payload bytes.
    pub fn to_bytes(&self) -> (r: Vec<u8>)
        ensures
            r@ == self.spec_bytes(),
            r@.len() == 48,
    {
        let mut out: Vec<u8> = Vec::new();
        write_u32(&mut out, self.accelerometer_x);
        write_u32(&mut out, self.accelerometer_y);
        write_u32(&mut out, self.accelerometer_z);
        write_u32(&mut out, self.gyroscope_x);
        write_u32(&mut out, self.gyroscope_y);
        write_u32(&mut out, self.gyroscope_z);
        write_u32(&mut out, self.reserved1);
        write_u32(&mut out, self.reserved2);
        write_u32(&mut out, self.reserved3);
        write_u32(&mut out, self.imu_temperature);
        write_u32(&mut out, self.pressure);
        write_u32(&mut out, self.pressure_temperature);
        proof {
            lemma_le_bytes_lens();
            assert(out@ =~= self.spec_bytes());
        }
        out
    }

    /// Decodes a payload; succeeds exactly on valid 48-byte inputs.
    pub fn from_bytes(data: &[u8]) -> (r: Result<RawSensorsPacket, AnError>)
        ensures
            Self::decodable(data@) ==> (r matches Ok(p) && p.spec_bytes() == data@),
            !Self::decodable(data@) ==> (r matches Err(e) && e matches AnError::InvalidPacket(_)),
    {
        if data.len() != 48 {
            return Err(AnError::InvalidPacket("raw sensors payload must be 48 bytes".to_string()));
        }
        let p = RawSensorsPacket {
            accelerometer_x: read_u32(data, 0),
            accelerometer_y: read_u32(data, 4),
            accelerometer_z: read_u32(data, 8),
            gyroscope_x: read_u32(data, 12),
            gyroscope_y: read_u32(data, 16),
            gyroscope_z: read_u32(data, 20),
            reserved1: read_u32(data, 24),
            reserved2: read_u32(data, 28),
            reserved3: read_u32(data, 32),
            imu_temperature: read_u32(data, 36),
            pressure: read_u32(data, 40),
            pressure_temperature: read_u32(data, 44),
        };
        proof {
            lemma_le_bytes_lens();
            assert(p.spec_bytes() =~= data@);
        }
        Ok(p)
    }
}

/// Equal payload encodings come from equal packets.
pub(crate) proof fn lemma_raw_sensors_packet_bytes_inj(a: RawSensorsPacket, b: RawSensorsPacket)
    requires
        a.spec_bytes() == b.spec_bytes(),
    ensures
        a == b,
{
    lemma_le_bytes_lens();
    assert(a.spec_bytes().subrange(0, 4) =~= spec_u32_to_le_bytes(a.accelerometer_x));
    assert(b.spec_bytes().subrange(0, 4) =~= spec_u32_to_le_bytes(b.accelerometer_x));
    lemma_u32_bytes_inj(a.accelerometer_x, b.accelerometer_x);
    assert(a.spec_bytes().subrange(4, 8) =~= spec_u32_to_le_bytes(a.accelerometer_y));
    assert(b.spec_bytes().subrange(4, 8) =~= spec_u32_to_le_bytes(b.accelerometer_y));
    lemma_u32_bytes_inj(a.accelerometer_y, b.accelerometer_y);
    assert(a.spec_bytes().subrange(8, 12) =~= spec_u32_to_le_bytes(a.accelerometer_z));
    assert(b.spec_bytes().subrange(8, 12) =~= spec_u32_to_le_bytes(b.accelerometer_z));
    lemma_u32_bytes_inj(a.accelerometer_z, b.accelerometer_z);
    assert(a.spec_bytes().subrange(12, 16) =~= spec_u32_to_le_bytes(a.gyroscope_x));
    assert(b.spec_bytes().subrange(12, 16) =~= spec_u32_to_le_bytes(b.gyroscope_x));
    lemma_u32_bytes_inj(a.gyroscope_x, b.gyroscope_x);
    assert(a.spec_bytes().subrange(16, 20) =~= spec_u32_to_le_bytes(a.gyroscope_y));
    assert(b.spec_bytes().subrange(16, 20) =~= spec_u32_to_le_bytes(b.gyroscope_y));
    lemma_u32_bytes_inj(a.gyroscope_y, b.gyroscope_y);
    assert(a.spec_bytes().subrange(20, 24) =~= spec_u32_to_le_bytes(a.gyroscope_z));
    assert(b.spec_bytes().subrange(20, 24) =~= spec_u32_to_le_bytes(b.gyroscope_z));
    lemma_u32_bytes_inj(a.gyroscope_z, b.gyroscope_z);
    assert(a.spec_bytes().subrange(24, 28) =~= spec_u32_to_le_bytes(a.reserved1));
    assert(b.spec_bytes().subrange(24, 28) =~= spec_u32_to_le_bytes(b.reserved1));
    lemma_u32_bytes_inj(a.reserved1, b.reserved1);
    assert(a.spec_bytes().subrange(28, 32) =~= spec_u32_to_le_bytes(a.reserved2));
    assert(b.spec_bytes().subrange(28, 32) =~= spec_u32_to_le_bytes(b.reserved2));
    lemma_u32_bytes_inj(a.reserved2, b.reserved2);
    assert(a.spec_bytes().subrange(32, 36) =~= spec_u32_to_le_bytes(a.reserved3));
    assert(b.spec_bytes().subrange(32, 36) =~= spec_u32_to_le_bytes(b.reserved3));
    lemma_u32_bytes_inj(a.reserved3, b.reserved3);
    assert(a.spec_bytes().subrange(36, 40) =~= spec_u32_to_le_bytes(a.imu_temperature));
    assert(b.spec_bytes().subrange(36, 40) =~= spec_u32_to_le_bytes(b.imu_temperature));
    lemma_u32_bytes_inj(a.imu_temperature, b.imu_temperature);
    assert(a.spec_bytes().subrange(40, 44) =~= spec_u32_to_le_bytes(a.pressure));
    assert(b.spec_bytes().subrange(40, 44) =~= spec_u32_to_le_bytes(b.pressure));
    lemma_u32_bytes_inj(a.pressure, b.pressure);
    assert(a.spec_bytes().subrange(44, 48) =~= spec_u32_to_le_bytes(a.pressure_temperature));
    assert(b.spec_bytes().subrange(44, 48) =~= spec_u32_to_le_bytes(b.pressure_temperature));
    lemma_u32_bytes_inj(a.pressure_temperature, b.pressure_temperature);
}

impl StatusPacket {
    /// The system status word promoted to independent booleans.
    pub fn get_system_status(&self) -> (r: crate::state_types::SystemStatus)
        ensures
            r == crate::state_types::SystemStatus::spec_from_bits(self.system_status.bits),
    {
        crate::state_types::SystemStatus::from_flags(self.system_status)
    }

    /// The filter status word promoted to fields.
    pub fn get_filter_status(&self) -> (r: crate::state_types::FilterStatus)
        ensures
            r == crate::state_types::FilterStatus::spec_from_bits(self.filter_status.bits),
    {
        crate::state_types::FilterStatus::from_flags(self.filter_status)
    }
}

/// Formatted time packet (identifier 22, payload length 14).  Read only; not in the stream registry.
#[derive(Debug, Clone, Copy, PartialEq, Eq, Structural)]
pub struct FormattedTimePacket {
    pub microseconds: u32,
    pub year: u16,
    pub year_day: u16,
    pub month: u8,
    pub month_day: u8,
    pub week_day: u8,
    pub hour: u8,
    pub minute: u8,
    pub second: u8,
}

impl FormattedTimePacket {
    /// The exact little-endian payload encoding.
    pub open spec fn spec_bytes(self) -> Seq<u8> {
        spec_u32_to_le_bytes(self.microseconds)
            + spec_u16_to_le_bytes(self.year)
            + spec_u16_to_le_bytes(self.year_day)
            + seq![self.month]
            + seq![self.month_day]
            + seq![self.week_day]
            + seq![self.hour]
            + seq![self.minute]
            + seq![self.second]
    }

    /// Whether a payload decodes into this packet kind.
    pub open spec fn decodable(data: Seq<u8>) -> bool {
        data.len() == 14
    }

    /// Encodes the packet as its exact payload bytes.
    pub fn to_bytes(&self) -> (r: Vec<u8>)
        ensures
            r@ == self.spec_bytes(),
            r@.len() == 14,
    {
        let mut out: Vec<u8> = Vec::new();
        write_u32(&mut out, self.microseconds);
        write_u16(&mut out, self.year);
        write_u16(&mut out, self.year_day);
        out.push(self.month);
        out.push(self.month_day);
        out.push(self.week_day);
        out.push(self.hour);
        out.push(self.minute);
        out.push(self.second);
        proof {
            lemma_le_bytes_lens();
            assert(out@ =~= self.spec_bytes());
        }
        out
    }

    /// Decodes a payload; succeeds exactly on valid 14-byte inputs.
    pub fn from_bytes(data: &[u8]) -> (r: Result<FormattedTimePacket, AnError>)
        ensures
            Self::decodable(data@) ==> (r matches Ok(p) && p.spec_bytes() == data@),
            !Self::decodable(data@) ==> (r matches Err(e) && e matches AnError::InvalidPacket(_)),
    {
        if data.len() != 14 {
            return Err(AnError::InvalidPacket("formatted time payload must be 14 bytes".to_string()));
        }
        let p = FormattedTimePacket {
            microseconds: read_u32(data, 0),
            year: read_u16(data, 4),
            year_day: read_u16(data, 6),
            month: data[8],
            month_day: data[9],
            week_day: data[10],
            hour: data[11],
            minute: data[12],
            second: data[13],
        };
        proof {
            lemma_le_bytes_lens();
            assert(p.spec_bytes() =~= data@);
        }
        Ok(p)
    }
}

/// Equal payload encodings come from equal packets.
pub(crate) proof fn lemma_formatted_time_packet_bytes_inj(a: FormattedTimePacket, b: FormattedTimePacket)
    requires
        a.spec_bytes() == b.spec_bytes(),
    ensures
        a == b,
{
    lemma_le_bytes_lens();
    assert(a.spec_bytes().subrange(0, 4) =~= spec_u32_to_le_bytes(a.microseconds));
    assert(b.spec_bytes().subrange(0, 4) =~= spec_u32_to_le_bytes(b.microseconds));
    lemma_u32_bytes_inj(a.microseconds, b.microseconds);
    assert(a.spec_bytes().subrange(4, 6) =~= spec_u16_to_le_bytes(a.year));
    assert(b.spec_bytes().subrange(4, 6) =~= spec_u16_to_le_bytes(b.year));
    lemma_u16_bytes_inj(a.year, b.year);
    assert(a.spec_bytes().subrange(6, 8) =~= spec_u16_to_le_bytes(a.year_day));
    assert(b.spec_bytes().subrange(6, 8) =~= spec_u16_to_le_bytes(b.year_day));
    lemma_u16_bytes_inj(a.year_day, b.year_day);
    assert(a.month == a.spec_bytes()[8]);
    assert(b.month == b.spec_bytes()[8]);
    assert(a.month_day == a.spec_bytes()[9]);
    assert(b.month_day == b.spec_bytes()[9]);
    assert(a.week_day == a.spec_bytes()[10]);
    assert(b.week_day == b.spec_bytes()[10]);
    assert(a.hour == a.spec_bytes()[11]);
    assert(b.hour == b.spec_bytes()[11]);
    assert(a.minute == a.spec_bytes()[12]);
    assert(b.minute == b.spec_bytes()[12]);
    assert(a.second == a.spec_bytes()[13]);
    assert(b.second == b.spec_bytes()[13]);
}

/// External time packet (identifier 52, payload length 8).  Write only; not in the stream registry.
#[derive(Debug, Clone, Copy, PartialEq, Eq, Structural)]
pub struct ExternalTimePacket {
    pub unix_time_seconds: u32,
    pub microseconds: u32,
}

impl ExternalTimePacket {
    /// The exact little-endian payload encoding.
    pub open spec fn spec_bytes(self) -> Seq<u8> {
        spec_u32_to_le_bytes(self.unix_time_seconds)
            + spec_u32_to_le_bytes(self.microseconds)
    }

    /// Whether a payload decodes into this packet kind.
    pub open spec fn decodable(data: Seq<u8>) -> bool {
        data.len() == 8
    }

    /// Encodes the packet as its exact payload bytes.
    pub fn to_bytes(&self) -> (r: Vec<u8>)
        ensures
            r@ == self.spec_bytes(),
            r@.len() == 8,
    {
        let mut out: Vec<u8> = Vec::new();
        write_u32(&mut out, self.unix_time_seconds);
        write_u32(&mut out, self.microseconds);
        proof {
            lemma_le_bytes_lens();
            assert(out@ =~= self.spec_bytes());
        }
        out
    }

    /// Decodes a payload; succeeds exactly on valid 8-byte inputs.
    pub fn from_bytes(data: &[u8]) -> (r: Result<ExternalTimePacket, AnError>)
        ensures
            Self::decodable(data@) ==> (r matches Ok(p) && p.spec_bytes() == data@),
            !Self::decodable(data@) ==> (r matches Err(e) && e matches AnError::InvalidPacket(_)),
    {
        if data.len() != 8 {
            return Err(AnError::InvalidPacket("external time payload must be 8 bytes".to_string()));
        }
        let p = ExternalTimePacket {
            unix_time_seconds: read_u32(data, 0),
            microseconds: read_u32(data, 4),
        };
        proof {
            lemma_le_bytes_lens();
            assert(p.spec_bytes() =~= data@);
        }
        Ok(p)
    }
}

/// Equal payload encodings come from equal packets.
pub(crate) proof fn lemma_external_time_packet_bytes_inj(a: ExternalTimePacket, b: ExternalTimePacket)
    requires
        a.spec_bytes() == b.spec_bytes(),
    ensures
        a == b,
{
    lemma_le_bytes_lens();
    assert(a.spec_bytes().subrange(0, 4) =~= spec_u32_to_le_bytes(a.unix_time_seconds));
    assert(b.spec_bytes().subrange(0, 4) =~= spec_u32_to_le_bytes(b.unix_time_seconds));
    lemma_u32_bytes_inj(a.unix_time_seconds, b.unix_time_seconds);
    assert(a.spec_bytes().subrange(4, 8) =~= spec_u32_to_le_bytes(a.microseconds));
    assert(b.spec_bytes().subrange(4, 8) =~= spec_u32_to_le_bytes(b.microseconds));
    lemma_u32_bytes_inj(a.microseconds, b.microseconds);
}


impl SystemStatePacket {
    /// The system status word promoted to independent booleans.
    pub fn get_system_status(&self) -> (r: crate::state_types::SystemStatus)
        ensures
            r == crate::state_types::SystemStatus::spec_from_bits(self.system_status.bits),
    {
        crate::state_types::SystemStatus::from_flags(self.system_status)
    }

    /// The filter status word promoted to fields.
    pub fn get_filter_status(&self) -> (r: crate::state_types::FilterStatus)
        ensures
            r == crate::state_types::FilterStatus::spec_from_bits(self.filter_status.bits),
    {
        crate::state_types::FilterStatus::from_flags(self.filter_status)
    }
}

} // verus!
