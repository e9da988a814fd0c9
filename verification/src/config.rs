//! Wire codecs for the configuration packets (identifiers 180 to 202).
//!
//! Fields that carry physical quantities hold the IEEE-754 bit pattern of
//! the wire value, so every payload round-trips bit for bit.

use crate::error::AnError;
use crate::state_types::push_flag;
use crate::system::{dotted_decimal, ip_word, spec_dotted_decimal, spec_ip_word};
use crate::wire::{
    lemma_le_bytes_lens, lemma_u16_bytes_inj, lemma_u32_bytes_inj, read_u16, read_u32, write_u16,
    write_u32,
};
use vstd::bytes::*;
use vstd::prelude::*;
use vstd::slice::slice_subrange;
use vstd::string::StringExecFns;

verus! {

broadcast use vstd::array::group_array_axioms;

/// A three-component offset vector in the body frame.  Each component
/// holds the IEEE-754 bit pattern of a 32-bit float in meters.
#[derive(Debug, Clone, Copy, PartialEq, Eq, Structural)]
pub struct OffsetVector {
    pub x: u32,
    pub y: u32,
    pub z: u32,
}

impl OffsetVector {
    /// The exact little-endian encoding: x, then y, then z.
    pub open spec fn spec_bytes(self) -> Seq<u8> {
        spec_u32_to_le_bytes(self.x) + spec_u32_to_le_bytes(self.y) + spec_u32_to_le_bytes(self.z)
    }

    /// Creates an offset vector from component bit patterns.
    pub fn new(x: u32, y: u32, z: u32) -> (r: OffsetVector)
        ensures
            r == (OffsetVector { x, y, z }),
    {
        OffsetVector { x, y, z }
    }

    /// The all-zero offset.
    pub fn zero() -> (r: OffsetVector)
        ensures
            r == (OffsetVector { x: 0u32, y: 0u32, z: 0u32 }),
    {
        OffsetVector { x: 0, y: 0, z: 0 }
    }

    /// Appends the twelve encoding bytes to `out`.
    pub fn append_to(&self, out: &mut Vec<u8>)
        ensures
            final(out)@ == old(out)@ + self.spec_bytes(),
    {
        write_u32(out, self.x);
        write_u32(out, self.y);
        write_u32(out, self.z);
        proof {
            lemma_le_bytes_lens();
            assert(out@ =~= old(out)@ + self.spec_bytes());
        }
    }

    /// Reads an offset vector at offset `k`.
    pub fn read_at(data: &[u8], k: usize) -> (r: OffsetVector)
        requires
            k + 12 <= data@.len(),
        ensures
            r.spec_bytes() == data@.subrange(k as int, k + 12),
    {
        // Reading the length as a usize bounds the index arithmetic.
        let _n: usize = data.len();
        let r = OffsetVector {
            x: read_u32(data, k),
            y: read_u32(data, k + 4),
            z: read_u32(data, k + 8),
        };
        proof {
            lemma_le_bytes_lens();
            assert(r.spec_bytes() =~= data@.subrange(k as int, k + 12));
        }
        r
    }
}

/// Equal encodings come from equal offset vectors.
pub(crate) proof fn lemma_offset_vector_bytes_inj(a: OffsetVector, b: OffsetVector)
    requires
        a.spec_bytes() == b.spec_bytes(),
    ensures
        a == b,
{
    lemma_le_bytes_lens();
    assert(a.spec_bytes().subrange(0, 4) =~= spec_u32_to_le_bytes(a.x));
    assert(b.spec_bytes().subrange(0, 4) =~= spec_u32_to_le_bytes(b.x));
    lemma_u32_bytes_inj(a.x, b.x);
    assert(a.spec_bytes().subrange(4, 8) =~= spec_u32_to_le_bytes(a.y));
    assert(b.spec_bytes().subrange(4, 8) =~= spec_u32_to_le_bytes(b.y));
    lemma_u32_bytes_inj(a.y, b.y);
    assert(a.spec_bytes().subrange(8, 12) =~= spec_u32_to_le_bytes(a.z));
    assert(b.spec_bytes().subrange(8, 12) =~= spec_u32_to_le_bytes(b.z));
    lemma_u32_bytes_inj(a.z, b.z);
}

/// The row-major encoding of a 3-by-3 direction cosine matrix whose
/// entries hold 32-bit float bit patterns.
pub open spec fn spec_dcm_bytes(m: [u32; 9]) -> Seq<u8> {
    spec_u32_to_le_bytes(m[0]) + spec_u32_to_le_bytes(m[1]) + spec_u32_to_le_bytes(m[2])
        + spec_u32_to_le_bytes(m[3]) + spec_u32_to_le_bytes(m[4]) + spec_u32_to_le_bytes(m[5])
        + spec_u32_to_le_bytes(m[6]) + spec_u32_to_le_bytes(m[7]) + spec_u32_to_le_bytes(m[8])
}

/// Equal encodings come from equal matrices.
pub(crate) proof fn lemma_dcm_bytes_inj(a: [u32; 9], b: [u32; 9])
    requires
        spec_dcm_bytes(a) == spec_dcm_bytes(b),
    ensures
        a == b,
{
    lemma_le_bytes_lens();

    assert(spec_dcm_bytes(a).subrange(0, 4) =~= spec_u32_to_le_bytes(a[0]));
    assert(spec_dcm_bytes(b).subrange(0, 4) =~= spec_u32_to_le_bytes(b[0]));
    lemma_u32_bytes_inj(a[0], b[0]);
    assert(spec_dcm_bytes(a).subrange(4, 8) =~= spec_u32_to_le_bytes(a[1]));
    assert(spec_dcm_bytes(b).subrange(4, 8) =~= spec_u32_to_le_bytes(b[1]));
    lemma_u32_bytes_inj(a[1], b[1]);
    assert(spec_dcm_bytes(a).subrange(8, 12) =~= spec_u32_to_le_bytes(a[2]));
    assert(spec_dcm_bytes(b).subrange(8, 12) =~= spec_u32_to_le_bytes(b[2]));
    lemma_u32_bytes_inj(a[2], b[2]);
    assert(spec_dcm_bytes(a).subrange(12, 16) =~= spec_u32_to_le_bytes(a[3]));
    assert(spec_dcm_bytes(b).subrange(12, 16) =~= spec_u32_to_le_bytes(b[3]));
    lemma_u32_bytes_inj(a[3], b[3]);
    assert(spec_dcm_bytes(a).subrange(16, 20) =~= spec_u32_to_le_bytes(a[4]));
    assert(spec_dcm_bytes(b).subrange(16, 20) =~= spec_u32_to_le_bytes(b[4]));
    lemma_u32_bytes_inj(a[4], b[4]);
    assert(spec_dcm_bytes(a).subrange(20, 24) =~= spec_u32_to_le_bytes(a[5]));
    assert(spec_dcm_bytes(b).subrange(20, 24) =~= spec_u32_to_le_bytes(b[5]));
    lemma_u32_bytes_inj(a[5], b[5]);
    assert(spec_dcm_bytes(a).subrange(24, 28) =~= spec_u32_to_le_bytes(a[6]));
    assert(spec_dcm_bytes(b).subrange(24, 28) =~= spec_u32_to_le_bytes(b[6]));
    lemma_u32_bytes_inj(a[6], b[6]);
    assert(spec_dcm_bytes(a).subrange(28, 32) =~= spec_u32_to_le_bytes(a[7]));
    assert(spec_dcm_bytes(b).subrange(28, 32) =~= spec_u32_to_le_bytes(b[7]));
    lemma_u32_bytes_inj(a[7], b[7]);
    assert(spec_dcm_bytes(a).subrange(32, 36) =~= spec_u32_to_le_bytes(a[8]));
    assert(spec_dcm_bytes(b).subrange(32, 36) =~= spec_u32_to_le_bytes(b[8]));
    lemma_u32_bytes_inj(a[8], b[8]);
    assert(a@ =~= b@);
    assert(a =~= b);
}

/// The closed set of vehicle profiles of the filter options packet.
#[derive(Debug, Clone, Copy, PartialEq, Eq, Structural, Hash)]
pub enum VehicleType {
    Unlimited,
    BicycleOrMotorcycle,
    Car,
    Hovercraft,
    Submarine,
    Underwater3D,
    FixedWingPlane,
    Aircraft3D,
    Human,
    Boat,
    LargeShip,
    Stationary,
    StuntPlane,
    RaceCar,
    Train,
}

/// The wire byte of a vehicle type.
pub open spec fn spec_vehicle_type_u8(v: VehicleType) -> u8 {
    match v {
        VehicleType::Unlimited => 0u8,
        VehicleType::BicycleOrMotorcycle => 1u8,
        VehicleType::Car => 2u8,
        VehicleType::Hovercraft => 3u8,
        VehicleType::Submarine => 4u8,
        VehicleType::Underwater3D => 5u8,
        VehicleType::FixedWingPlane => 6u8,
        VehicleType::Aircraft3D => 7u8,
        VehicleType::Human => 8u8,
        VehicleType::Boat => 9u8,
        VehicleType::LargeShip => 10u8,
        VehicleType::Stationary => 11u8,
        VehicleType::StuntPlane => 12u8,
        VehicleType::RaceCar => 13u8,
        VehicleType::Train => 14u8,
    }
}

/// Whether a byte is a legal vehicle type; unrecognized values are decode
/// errors, never silently clamped.
pub open spec fn valid_vehicle_type_byte(b: u8) -> bool {
    b <= 14
}

/// Converts a vehicle type to its wire byte.
pub fn vehicle_type_to_u8(v: VehicleType) -> (r: u8)
    ensures
        r == spec_vehicle_type_u8(v),
{
    match v {
        VehicleType::Unlimited => 0,
        VehicleType::BicycleOrMotorcycle => 1,
        VehicleType::Car => 2,
        VehicleType::Hovercraft => 3,
        VehicleType::Submarine => 4,
        VehicleType::Underwater3D => 5,
        VehicleType::FixedWingPlane => 6,
        VehicleType::Aircraft3D => 7,
        VehicleType::Human => 8,
        VehicleType::Boat => 9,
        VehicleType::LargeShip => 10,
        VehicleType::Stationary => 11,
        VehicleType::StuntPlane => 12,
        VehicleType::RaceCar => 13,
        VehicleType::Train => 14,
    }
}

/// Converts a wire byte to a vehicle type; bytes above 14 are rejected.
pub fn vehicle_type_from_u8(b: u8) -> (r: Option<VehicleType>)
    ensures
        valid_vehicle_type_byte(b) ==> (r matches Some(v) && spec_vehicle_type_u8(v) == b),
        !valid_vehicle_type_byte(b) ==> r is None,
{
    match b {
        0u8 => Some(VehicleType::Unlimited),
        1u8 => Some(VehicleType::BicycleOrMotorcycle),
        2u8 => Some(VehicleType::Car),
        3u8 => Some(VehicleType::Hovercraft),
        4u8 => Some(VehicleType::Submarine),
        5u8 => Some(VehicleType::Underwater3D),
        6u8 => Some(VehicleType::FixedWingPlane),
        7u8 => Some(VehicleType::Aircraft3D),
        8u8 => Some(VehicleType::Human),
        9u8 => Some(VehicleType::Boat),
        10u8 => Some(VehicleType::LargeShip),
        11u8 => Some(VehicleType::Stationary),
        12u8 => Some(VehicleType::StuntPlane),
        13u8 => Some(VehicleType::RaceCar),
        14u8 => Some(VehicleType::Train),
        _ => None,
    }
}

/// The wire byte determines the vehicle type.
pub(crate) proof fn lemma_vehicle_type_u8_inj(a: VehicleType, b: VehicleType)
    requires
        spec_vehicle_type_u8(a) == spec_vehicle_type_u8(b),
    ensures
        a == b,
{
}

/// The configured role of one IP dataport.
#[derive(Debug, Clone, Copy, PartialEq, Eq, Structural, Hash)]
pub enum IpDataportMode {
    Disabled,
    TcpServer,
    TcpClient,
    UdpClient,
}

/// The wire byte of a dataport mode.
pub open spec fn spec_dataport_mode_u8(m: IpDataportMode) -> u8 {
    match m {
        IpDataportMode::Disabled => 0u8,
        IpDataportMode::TcpServer => 2u8,
        IpDataportMode::TcpClient => 3u8,
        IpDataportMode::UdpClient => 4u8,
    }
}

/// Whether a byte is a legal dataport mode; unrecognized values are
/// decode errors.
pub open spec fn valid_dataport_mode_byte(b: u8) -> bool {
    b == 0 || b == 2 || b == 3 || b == 4
}

/// Converts a dataport mode to its wire byte.
pub fn dataport_mode_to_u8(m: IpDataportMode) -> (r: u8)
    ensures
        r == spec_dataport_mode_u8(m),
{
    match m {
        IpDataportMode::Disabled => 0,
        IpDataportMode::TcpServer => 2,
        IpDataportMode::TcpClient => 3,
        IpDataportMode::UdpClient => 4,
    }
}

/// Converts a wire byte to a dataport mode.
pub fn dataport_mode_from_u8(b: u8) -> (r: Option<IpDataportMode>)
    ensures
        valid_dataport_mode_byte(b) ==> (r matches Some(m) && spec_dataport_mode_u8(m) == b),
        !valid_dataport_mode_byte(b) ==> r is None,
{
    match b {
        0u8 => Some(IpDataportMode::Disabled),
        2u8 => Some(IpDataportMode::TcpServer),
        3u8 => Some(IpDataportMode::TcpClient),
        4u8 => Some(IpDataportMode::UdpClient),
        _ => None,
    }
}

/// The wire byte determines the dataport mode.
pub(crate) proof fn lemma_dataport_mode_u8_inj(a: IpDataportMode, b: IpDataportMode)
    requires
        spec_dataport_mode_u8(a) == spec_dataport_mode_u8(b),
    ensures
        a == b,
{
}

/// Packet timer period packet (identifier 180, payload length 4).  Read/write.
#[derive(Debug, Clone, Copy, PartialEq, Eq, Structural)]
pub struct PacketTimerPeriodPacket {
    pub permanent: u8,
    pub utc_synchronisation: u8,
    pub packet_timer_period: u16,
}

impl PacketTimerPeriodPacket {
    /// The exact little-endian payload encoding.
    pub open spec fn spec_bytes(self) -> Seq<u8> {
        seq![self.permanent]
            + seq![self.utc_synchronisation]
            + spec_u16_to_le_bytes(self.packet_timer_period)
    }

    /// Whether a payload decodes into this packet kind.
    pub open spec fn decodable(data: Seq<u8>) -> bool {
        data.len() == 4
    }

    /// Encodes the packet as its exact payload bytes.
    pub fn to_bytes(&self) -> (r: Vec<u8>)
        ensures
            r@ == self.spec_bytes(),
            r@.len() == 4,
    {
        let mut out: Vec<u8> = Vec::new();
        out.push(self.permanent);
        out.push(self.utc_synchronisation);
        write_u16(&mut out, self.packet_timer_period);
        proof {
            lemma_le_bytes_lens();
            assert(out@ =~= self.spec_bytes());
        }
        out
    }

    /// Decodes a payload; succeeds exactly on valid 4-byte inputs.
    pub fn from_bytes(data: &[u8]) -> (r: Result<PacketTimerPeriodPacket, AnError>)
        ensures
            Self::decodable(data@) ==> (r matches Ok(p) && p.spec_bytes() == data@),
            !Self::decodable(data@) ==> (r matches Err(e) && e matches AnError::InvalidPacket(_)),
    {
        if data.len() != 4 {
            return Err(AnError::InvalidPacket("timer period payload must be 4 bytes".to_string()));
        }
        let p = PacketTimerPeriodPacket {
            permanent: data[0],
            utc_synchronisation: data[1],
            packet_timer_period: read_u16(data, 2),
        };
        proof {
            lemma_le_bytes_lens();
            assert(p.spec_bytes() =~= data@);
        }
        Ok(p)
    }
}

/// Equal payload encodings come from equal packets.
pub(crate) proof fn lemma_packet_timer_period_packet_bytes_inj(a: PacketTimerPeriodPacket, b: PacketTimerPeriodPacket)
    requires
        a.spec_bytes() == b.spec_bytes(),
    ensures
        a == b,
{
    lemma_le_bytes_lens();
    assert(a.permanent == a.spec_bytes()[0]);
    assert(b.permanent == b.spec_bytes()[0]);
    assert(a.utc_synchronisation == a.spec_bytes()[1]);
    assert(b.utc_synchronisation == b.spec_bytes()[1]);
    assert(a.spec_bytes().subrange(2, 4) =~= spec_u16_to_le_bytes(a.packet_timer_period));
    assert(b.spec_bytes().subrange(2, 4) =~= spec_u16_to_le_bytes(b.packet_timer_period));
    lemma_u16_bytes_inj(a.packet_timer_period, b.packet_timer_period);
}

/// Set zero orientation alignment packet (identifier 193, payload length 5).  The device acts only when `verification` is 0x9A4E8055.
#[derive(Debug, Clone, Copy, PartialEq, Eq, Structural)]
pub struct SetZeroOrientationAlignmentPacket {
    pub permanent: u8,
    pub verification: u32,
}

impl SetZeroOrientationAlignmentPacket {
    /// The exact little-endian payload encoding.
    pub open spec fn spec_bytes(self) -> Seq<u8> {
        seq![self.permanent]
            + spec_u32_to_le_bytes(self.verification)
    }

    /// Whether a payload decodes into this packet kind.
    pub open spec fn decodable(data: Seq<u8>) -> bool {
        data.len() == 5
    }

    /// Encodes the packet as its exact payload bytes.
    pub fn to_bytes(&self) -> (r: Vec<u8>)
        ensures
            r@ == self.spec_bytes(),
            r@.len() == 5,
    {
        let mut out: Vec<u8> = Vec::new();
        out.push(self.permanent);
        write_u32(&mut out, self.verification);
        proof {
            lemma_le_bytes_lens();
            assert(out@ =~= self.spec_bytes());
        }
        out
    }

    /// Decodes a payload; succeeds exactly on valid 5-byte inputs.
    pub fn from_bytes(data: &[u8]) -> (r: Result<SetZeroOrientationAlignmentPacket, AnError>)
        ensures
            Self::decodable(data@) ==> (r matches Ok(p) && p.spec_bytes() == data@),
            !Self::decodable(data@) ==> (r matches Err(e) && e matches AnError::InvalidPacket(_)),
    {
        if data.len() != 5 {
            return Err(AnError::InvalidPacket("set zero orientation alignment payload must be 5 bytes".to_string()));
        }
        let p = SetZeroOrientationAlignmentPacket {
            permanent: data[0],
            verification: read_u32(data, 1),
        };
        proof {
            lemma_le_bytes_lens();
            assert(p.spec_bytes() =~= data@);
        }
        Ok(p)
    }

    /// Creates the packet armed with the correct verification sequence.
    pub fn new(permanent: bool) -> (r: SetZeroOrientationAlignmentPacket)
        ensures
            r.permanent == if permanent { 1u8 } else { 0u8 },
            r.verification == 0x9A4E8055,
    {
        SetZeroOrientationAlignmentPacket {
            permanent: if permanent { 1 } else { 0 },
            verification: 0x9A4E8055,
        }
    }

}

/// Equal payload encodings come from equal packets.
pub(crate) proof fn lemma_set_zero_orientation_alignment_packet_bytes_inj(a: SetZeroOrientationAlignmentPacket, b: SetZeroOrientationAlignmentPacket)
    requires
        a.spec_bytes() == b.spec_bytes(),
    ensures
        a == b,
{
    lemma_le_bytes_lens();
    assert(a.permanent == a.spec_bytes()[0]);
    assert(b.permanent == b.spec_bytes()[0]);
    assert(a.spec_bytes().subrange(1, 5) =~= spec_u32_to_le_bytes(a.verification));
    assert(b.spec_bytes().subrange(1, 5) =~= spec_u32_to_le_bytes(b.verification));
    lemma_u32_bytes_inj(a.verification, b.verification);
}

/// Odometer configuration packet (identifier 192, payload length 8).  `pulse_length` holds the bit pattern of the pulse length in meters.
#[derive(Debug, Clone, Copy, PartialEq, Eq, Structural)]
pub struct OdometerConfigurationPacket {
    pub permanent: u8,
    pub automatic_pulse_measurement: u8,
    pub reserved: u16,
    pub pulse_length: u32,
}

impl OdometerConfigurationPacket {
    /// The exact little-endian payload encoding.
    pub open spec fn spec_bytes(self) -> Seq<u8> {
        seq![self.permanent]
            + seq![self.automatic_pulse_measurement]
            + spec_u16_to_le_bytes(self.reserved)
            + spec_u32_to_le_bytes(self.pulse_length)
    }

    /// Whether a payload decodes into this packet kind.
    pub open spec fn decodable(data: Seq<u8>) -> bool {
        data.len() == 8
    }

    /// Encodes the packet as its exact payload bytes.
    pub fn to_bytes(&self) -> (r: Vec<u8>)
        ensures
            r@ == self.spec_bytes(),
            r@.len() == 8,
    {
        let mut out: Vec<u8> = Vec::new();
        out.push(self.permanent);
        out.push(self.automatic_pulse_measurement);
        write_u16(&mut out, self.reserved);
        write_u32(&mut out, self.pulse_length);
        proof {
            lemma_le_bytes_lens();
            assert(out@ =~= self.spec_bytes());
        }
        out
    }

    /// Decodes a payload; succeeds exactly on valid 8-byte inputs.
    pub fn from_bytes(data: &[u8]) -> (r: Result<OdometerConfigurationPacket, AnError>)
        ensures
            Self::decodable(data@) ==> (r matches Ok(p) && p.spec_bytes() == data@),
            !Self::decodable(data@) ==> (r matches Err(e) && e matches AnError::InvalidPacket(_)),
    {
        if data.len() != 8 {
            return Err(AnError::InvalidPacket("odometer configuration payload must be 8 bytes".to_string()));
        }
        let p = OdometerConfigurationPacket {
            permanent: data[0],
            automatic_pulse_measurement: data[1],
            reserved: read_u16(data, 2),
            pulse_length: read_u32(data, 4),
        };
        proof {
            lemma_le_bytes_lens();
            assert(p.spec_bytes() =~= data@);
        }
        Ok(p)
    }
}

/// Equal payload encodings come from equal packets.
pub(crate) proof fn lemma_odometer_configuration_packet_bytes_inj(a: OdometerConfigurationPacket, b: OdometerConfigurationPacket)
    requires
        a.spec_bytes() == b.spec_bytes(),
    ensures
        a == b,
{
    lemma_le_bytes_lens();
    assert(a.permanent == a.spec_bytes()[0]);
    assert(b.permanent == b.spec_bytes()[0]);
    assert(a.automatic_pulse_measurement == a.spec_bytes()[1]);
    assert(b.automatic_pulse_measurement == b.spec_bytes()[1]);
    assert(a.spec_bytes().subrange(2, 4) =~= spec_u16_to_le_bytes(a.reserved));
    assert(b.spec_bytes().subrange(2, 4) =~= spec_u16_to_le_bytes(b.reserved));
    lemma_u16_bytes_inj(a.reserved, b.reserved);
    assert(a.spec_bytes().subrange(4, 8) =~= spec_u32_to_le_bytes(a.pulse_length));
    assert(b.spec_bytes().subrange(4, 8) =~= spec_u32_to_le_bytes(b.pulse_length));
    lemma_u32_bytes_inj(a.pulse_length, b.pulse_length);
}

/// Reference point offsets packet (identifier 194, payload length 49).  Heave point 1 is the primary reference point; heave point 2 carries the COG lever arm offset.
#[derive(Debug, Clone, Copy, PartialEq, Eq, Structural)]
pub struct ReferencePointOffsetsPacket {
    pub permanent: u8,
    pub heave_point_1: OffsetVector,
    pub heave_point_2: OffsetVector,
    pub heave_point_3: OffsetVector,
    pub heave_point_4: OffsetVector,
}

impl ReferencePointOffsetsPacket {
    /// The exact little-endian payload encoding.
    pub open spec fn spec_bytes(self) -> Seq<u8> {
        seq![self.permanent]
            + self.heave_point_1.spec_bytes()
            + self.heave_point_2.spec_bytes()
            + self.heave_point_3.spec_bytes()
            + self.heave_point_4.spec_bytes()
    }

    /// Whether a payload decodes into this packet kind.
    pub open spec fn decodable(data: Seq<u8>) -> bool {
        data.len() == 49
    }

    /// Encodes the packet as its exact payload bytes.
    pub fn to_bytes(&self) -> (r: Vec<u8>)
        ensures
            r@ == self.spec_bytes(),
            r@.len() == 49,
    {
        let mut out: Vec<u8> = Vec::new();
        out.push(self.permanent);
        self.heave_point_1.append_to(&mut out);
        self.heave_point_2.append_to(&mut out);
        self.heave_point_3.append_to(&mut out);
        self.heave_point_4.append_to(&mut out);
        proof {
            lemma_le_bytes_lens();
            assert(out@ =~= self.spec_bytes());
        }
        out
    }

    /// Decodes a payload; succeeds exactly on valid 49-byte inputs.
    pub fn from_bytes(data: &[u8]) -> (r: Result<ReferencePointOffsetsPacket, AnError>)
        ensures
            Self::decodable(data@) ==> (r matches Ok(p) && p.spec_bytes() == data@),
            !Self::decodable(data@) ==> (r matches Err(e) && e matches AnError::InvalidPacket(_)),
    {
        if data.len() != 49 {
            return Err(AnError::InvalidPacket("reference point offsets payload must be 49 bytes".to_string()));
        }
        let p = ReferencePointOffsetsPacket {
            permanent: data[0],
            heave_point_1: OffsetVector::read_at(data, 1),
            heave_point_2: OffsetVector::read_at(data, 13),
            heave_point_3: OffsetVector::read_at(data, 25),
            heave_point_4: OffsetVector::read_at(data, 37),
        };
        proof {
            lemma_le_bytes_lens();
            assert(p.spec_bytes() =~= data@);
        }
        Ok(p)
    }
}

/// Equal payload encodings come from equal packets.
pub(crate) proof fn lemma_reference_point_offsets_packet_bytes_inj(a: ReferencePointOffsetsPacket, b: ReferencePointOffsetsPacket)
    requires
        a.spec_bytes() == b.spec_bytes(),
    ensures
        a == b,
{
    lemma_le_bytes_lens();
    assert(a.permanent == a.spec_bytes()[0]);
    assert(b.permanent == b.spec_bytes()[0]);
    assert(a.spec_bytes().subrange(1, 13) =~= a.heave_point_1.spec_bytes());
    assert(b.spec_bytes().subrange(1, 13) =~= b.heave_point_1.spec_bytes());
    lemma_offset_vector_bytes_inj(a.heave_point_1, b.heave_point_1);
    assert(a.spec_bytes().subrange(13, 25) =~= a.heave_point_2.spec_bytes());
    assert(b.spec_bytes().subrange(13, 25) =~= b.heave_point_2.spec_bytes());
    lemma_offset_vector_bytes_inj(a.heave_point_2, b.heave_point_2);
    assert(a.spec_bytes().subrange(25, 37) =~= a.heave_point_3.spec_bytes());
    assert(b.spec_bytes().subrange(25, 37) =~= b.heave_point_3.spec_bytes());
    lemma_offset_vector_bytes_inj(a.heave_point_3, b.heave_point_3);
    assert(a.spec_bytes().subrange(37, 49) =~= a.heave_point_4.spec_bytes());
    assert(b.spec_bytes().subrange(37, 49) =~= b.heave_point_4.spec_bytes());
    lemma_offset_vector_bytes_inj(a.heave_point_4, b.heave_point_4);
}

/// Installation alignment packet (identifier 185, payload length 73).  The row-major direction cosine matrix and the offsets hold float bit patterns.
#[derive(Debug, Clone, Copy, PartialEq, Eq)]
pub struct InstallationAlignmentPacket {
    pub permanent: u8,
    pub alignment_dcm: [u32; 9],
    pub gnss_antenna_offset: OffsetVector,
    pub odometer_offset: OffsetVector,
    pub external_data_offset: OffsetVector,
}

impl InstallationAlignmentPacket {
    /// The exact little-endian payload encoding.
    pub open spec fn spec_bytes(self) -> Seq<u8> {
        seq![self.permanent]
            + spec_dcm_bytes(self.alignment_dcm)
            + self.gnss_antenna_offset.spec_bytes()
            + self.odometer_offset.spec_bytes()
            + self.external_data_offset.spec_bytes()
    }

    /// Whether a payload decodes into this packet kind.
    pub open spec fn decodable(data: Seq<u8>) -> bool {
        data.len() == 73
    }

    /// Encodes the packet as its exact payload bytes.
    pub fn to_bytes(&self) -> (r: Vec<u8>)
        ensures
            r@ == self.spec_bytes(),
            r@.len() == 73,
    {
        let mut out: Vec<u8> = Vec::new();
        out.push(self.permanent);
        write_u32(&mut out, self.alignment_dcm[0]);
        write_u32(&mut out, self.alignment_dcm[1]);
        write_u32(&mut out, self.alignment_dcm[2]);
        write_u32(&mut out, self.alignment_dcm[3]);
        write_u32(&mut out, self.alignment_dcm[4]);
        write_u32(&mut out, self.alignment_dcm[5]);
        write_u32(&mut out, self.alignment_dcm[6]);
        write_u32(&mut out, self.alignment_dcm[7]);
        write_u32(&mut out, self.alignment_dcm[8]);
        self.gnss_antenna_offset.append_to(&mut out);
        self.odometer_offset.append_to(&mut out);
        self.external_data_offset.append_to(&mut out);
        proof {
            lemma_le_bytes_lens();
            assert(out@ =~= self.spec_bytes());
        }
        out
    }

    /// Decodes a payload; succeeds exactly on valid 73-byte inputs.
    pub fn from_bytes(data: &[u8]) -> (r: Result<InstallationAlignmentPacket, AnError>)
        ensures
            Self::decodable(data@) ==> (r matches Ok(p) && p.spec_bytes() == data@),
            !Self::decodable(data@) ==> (r matches Err(e) && e matches AnError::InvalidPacket(_)),
    {
        if data.len() != 73 {
            return Err(AnError::InvalidPacket("installation alignment payload must be 73 bytes".to_string()));
        }
        let p = InstallationAlignmentPacket {
            permanent: data[0],
            alignment_dcm: [read_u32(data, 1), read_u32(data, 5), read_u32(data, 9), read_u32(data, 13), read_u32(data, 17), read_u32(data, 21), read_u32(data, 25), read_u32(data, 29), read_u32(data, 33)],
            gnss_antenna_offset: OffsetVector::read_at(data, 37),
            odometer_offset: OffsetVector::read_at(data, 49),
            external_data_offset: OffsetVector::read_at(data, 61),
        };
        proof {
            lemma_le_bytes_lens();
            assert(p.spec_bytes() =~= data@);
        }
        Ok(p)
    }
}

/// Equal payload encodings come from equal packets.
pub(crate) proof fn lemma_installation_alignment_packet_bytes_inj(a: InstallationAlignmentPacket, b: InstallationAlignmentPacket)
    requires
        a.spec_bytes() == b.spec_bytes(),
    ensures
        a == b,
{
    lemma_le_bytes_lens();
    assert(a.permanent == a.spec_bytes()[0]);
    assert(b.permanent == b.spec_bytes()[0]);
    assert(a.spec_bytes().subrange(1, 37) =~= spec_dcm_bytes(a.alignment_dcm));
    assert(b.spec_bytes().subrange(1, 37) =~= spec_dcm_bytes(b.alignment_dcm));
    lemma_dcm_bytes_inj(a.alignment_dcm, b.alignment_dcm);
    assert(a.spec_bytes().subrange(37, 49) =~= a.gnss_antenna_offset.spec_bytes());
    assert(b.spec_bytes().subrange(37, 49) =~= b.gnss_antenna_offset.spec_bytes());
    lemma_offset_vector_bytes_inj(a.gnss_antenna_offset, b.gnss_antenna_offset);
    assert(a.spec_bytes().subrange(49, 61) =~= a.odometer_offset.spec_bytes());
    assert(b.spec_bytes().subrange(49, 61) =~= b.odometer_offset.spec_bytes());
    lemma_offset_vector_bytes_inj(a.odometer_offset, b.odometer_offset);
    assert(a.spec_bytes().subrange(61, 73) =~= a.external_data_offset.spec_bytes());
    assert(b.spec_bytes().subrange(61, 73) =~= b.external_data_offset.spec_bytes());
    lemma_offset_vector_bytes_inj(a.external_data_offset, b.external_data_offset);
}

/// Filter options packet (identifier 186, payload length 17).  The reserved fields are zero-filled on encode and ignored on decode.
#[derive(Debug, Clone, Copy, PartialEq, Eq)]
pub struct FilterOptionsPacket {
    pub permanent: u8,
    pub vehicle_type: VehicleType,
    pub internal_gnss_enabled: u8,
    pub reserved1: u8,
    pub atmospheric_altitude_enabled: u8,
    pub velocity_heading_enabled: u8,
    pub reversing_detection_enabled: u8,
    pub motion_analysis_enabled: u8,
    pub reserved2: u8,
    pub reserved3: [u8; 8],
}

impl FilterOptionsPacket {
    /// The exact little-endian payload encoding.
    pub open spec fn spec_bytes(self) -> Seq<u8> {
        seq![self.permanent]
            + seq![spec_vehicle_type_u8(self.vehicle_type)]
            + seq![self.internal_gnss_enabled]
            + seq![self.reserved1]
            + seq![self.atmospheric_altitude_enabled]
            + seq![self.velocity_heading_enabled]
            + seq![self.reversing_detection_enabled]
            + seq![self.motion_analysis_enabled]
            + seq![self.reserved2]
            + self.reserved3@
    }

    /// Whether a payload decodes into this packet kind.
    pub open spec fn decodable(data: Seq<u8>) -> bool {
        data.len() == 17 && valid_vehicle_type_byte(data[1])
    }

    /// Encodes the packet as its exact payload bytes.
    pub fn to_bytes(&self) -> (r: Vec<u8>)
        ensures
            r@ == self.spec_bytes(),
            r@.len() == 17,
    {
        let mut out: Vec<u8> = Vec::new();
        out.push(self.permanent);
        out.push(vehicle_type_to_u8(self.vehicle_type));
        out.push(self.internal_gnss_enabled);
        out.push(self.reserved1);
        out.push(self.atmospheric_altitude_enabled);
        out.push(self.velocity_heading_enabled);
        out.push(self.reversing_detection_enabled);
        out.push(self.motion_analysis_enabled);
        out.push(self.reserved2);
        out.push(self.reserved3[0]);
        out.push(self.reserved3[1]);
        out.push(self.reserved3[2]);
        out.push(self.reserved3[3]);
        out.push(self.reserved3[4]);
        out.push(self.reserved3[5]);
        out.push(self.reserved3[6]);
        out.push(self.reserved3[7]);
        proof {
            lemma_le_bytes_lens();
            assert(out@ =~= self.spec_bytes());
        }
        out
    }

    /// Decodes a payload; succeeds exactly on valid 17-byte inputs.
    pub fn from_bytes(data: &[u8]) -> (r: Result<FilterOptionsPacket, AnError>)
        ensures
            Self::decodable(data@) ==> (r matches Ok(p) && p.spec_bytes() == data@),
            !Self::decodable(data@) ==> (r matches Err(e) && e matches AnError::InvalidPacket(_)),
    {
        if data.len() != 17 {
            return Err(AnError::InvalidPacket("filter options payload must be 17 bytes".to_string()));
        }
        let vehicle_type: VehicleType = match vehicle_type_from_u8(data[1]) {
            Some(v) => v,
            None => return Err(AnError::InvalidPacket("unknown vehicle type".to_string())),
        };
        let p = FilterOptionsPacket {
            permanent: data[0],
            vehicle_type,
            internal_gnss_enabled: data[2],
            reserved1: data[3],
            atmospheric_altitude_enabled: data[4],
            velocity_heading_enabled: data[5],
            reversing_detection_enabled: data[6],
            motion_analysis_enabled: data[7],
            reserved2: data[8],
            reserved3: [data[9], data[10], data[11], data[12], data[13], data[14], data[15], data[16]],
        };
        proof {
            lemma_le_bytes_lens();
            assert(p.spec_bytes() =~= data@);
        }
        Ok(p)
    }
}

/// Equal payload encodings come from equal packets.
pub(crate) proof fn lemma_filter_options_packet_bytes_inj(a: FilterOptionsPacket, b: FilterOptionsPacket)
    requires
        a.spec_bytes() == b.spec_bytes(),
    ensures
        a == b,
{
    lemma_le_bytes_lens();
    assert(a.permanent == a.spec_bytes()[0]);
    assert(b.permanent == b.spec_bytes()[0]);
    assert(spec_vehicle_type_u8(a.vehicle_type) == a.spec_bytes()[1]);
    assert(spec_vehicle_type_u8(b.vehicle_type) == b.spec_bytes()[1]);
    lemma_vehicle_type_u8_inj(a.vehicle_type, b.vehicle_type);
    assert(a.internal_gnss_enabled == a.spec_bytes()[2]);
    assert(b.internal_gnss_enabled == b.spec_bytes()[2]);
    assert(a.reserved1 == a.spec_bytes()[3]);
    assert(b.reserved1 == b.spec_bytes()[3]);
    assert(a.atmospheric_altitude_enabled == a.spec_bytes()[4]);
    assert(b.atmospheric_altitude_enabled == b.spec_bytes()[4]);
    assert(a.velocity_heading_enabled == a.spec_bytes()[5]);
    assert(b.velocity_heading_enabled == b.spec_bytes()[5]);
    assert(a.reversing_detection_enabled == a.spec_bytes()[6]);
    assert(b.reversing_detection_enabled == b.spec_bytes()[6]);
    assert(a.motion_analysis_enabled == a.spec_bytes()[7]);
    assert(b.motion_analysis_enabled == b.spec_bytes()[7]);
    assert(a.reserved2 == a.spec_bytes()[8]);
    assert(b.reserved2 == b.spec_bytes()[8]);
    assert(a.spec_bytes().subrange(9, 17) =~= a.reserved3@);
    assert(b.spec_bytes().subrange(9, 17) =~= b.reserved3@);
    assert(a.reserved3@ =~= b.reserved3@);
    assert(a.reserved3 =~= b.reserved3);
}

/// One five-byte entry of the packets period packet.
#[derive(Debug, Clone, Copy, PartialEq, Eq, Structural)]
pub struct PacketPeriodEntry {
    pub packet_id: u8,
    pub period: u32,
}

impl PacketPeriodEntry {
    /// The exact little-endian payload encoding.
    pub open spec fn spec_bytes(self) -> Seq<u8> {
        seq![self.packet_id]
            + spec_u32_to_le_bytes(self.period)
    }

    /// Whether a payload decodes into this packet kind.
    pub open spec fn decodable(data: Seq<u8>) -> bool {
        data.len() == 5
    }

    /// Encodes the packet as its exact payload bytes.
    pub fn to_bytes(&self) -> (r: Vec<u8>)
        ensures
            r@ == self.spec_bytes(),
            r@.len() == 5,
    {
        let mut out: Vec<u8> = Vec::new();
        out.push(self.packet_id);
        write_u32(&mut out, self.period);
        proof {
            lemma_le_bytes_lens();
            assert(out@ =~= self.spec_bytes());
        }
        out
    }

    /// Decodes a payload; succeeds exactly on valid 5-byte inputs.
    pub fn from_bytes(data: &[u8]) -> (r: Result<PacketPeriodEntry, AnError>)
        ensures
            Self::decodable(data@) ==> (r matches Ok(p) && p.spec_bytes() == data@),
            !Self::decodable(data@) ==> (r matches Err(e) && e matches AnError::InvalidPacket(_)),
    {
        if data.len() != 5 {
            return Err(AnError::InvalidPacket("period entry payload must be 5 bytes".to_string()));
        }
        let p = PacketPeriodEntry {
            packet_id: data[0],
            period: read_u32(data, 1),
        };
        proof {
            lemma_le_bytes_lens();
            assert(p.spec_bytes() =~= data@);
        }
        Ok(p)
    }
}

/// Equal payload encodings come from equal packets.
pub(crate) proof fn lemma_packet_period_entry_bytes_inj(a: PacketPeriodEntry, b: PacketPeriodEntry)
    requires
        a.spec_bytes() == b.spec_bytes(),
    ensures
        a == b,
{
    lemma_le_bytes_lens();
    assert(a.packet_id == a.spec_bytes()[0]);
    assert(b.packet_id == b.spec_bytes()[0]);
    assert(a.spec_bytes().subrange(1, 5) =~= spec_u32_to_le_bytes(a.period));
    assert(b.spec_bytes().subrange(1, 5) =~= spec_u32_to_le_bytes(b.period));
    lemma_u32_bytes_inj(a.period, b.period);
}

/// One seven-byte dataport entry of the IP dataports configuration packet.
#[derive(Debug, Clone, Copy, PartialEq, Eq, Structural)]
pub struct IpDataportEntry {
    pub ip_address: u32,
    pub port: u16,
    pub mode: IpDataportMode,
}

impl IpDataportEntry {
    /// The exact little-endian payload encoding.
    pub open spec fn spec_bytes(self) -> Seq<u8> {
        spec_u32_to_le_bytes(self.ip_address)
            + spec_u16_to_le_bytes(self.port)
            + seq![spec_dataport_mode_u8(self.mode)]
    }

    /// Whether a payload decodes into this packet kind.
    pub open spec fn decodable(data: Seq<u8>) -> bool {
        data.len() == 7 && valid_dataport_mode_byte(data[6])
    }

    /// Encodes the packet as its exact payload bytes.
    pub fn to_bytes(&self) -> (r: Vec<u8>)
        ensures
            r@ == self.spec_bytes(),
            r@.len() == 7,
    {
        let mut out: Vec<u8> = Vec::new();
        write_u32(&mut out, self.ip_address);
        write_u16(&mut out, self.port);
        out.push(dataport_mode_to_u8(self.mode));
        proof {
            lemma_le_bytes_lens();
            assert(out@ =~= self.spec_bytes());
        }
        out
    }

    /// Decodes a payload; succeeds exactly on valid 7-byte inputs.
    pub fn from_bytes(data: &[u8]) -> (r: Result<IpDataportEntry, AnError>)
        ensures
            Self::decodable(data@) ==> (r matches Ok(p) && p.spec_bytes() == data@),
            !Self::decodable(data@) ==> (r matches Err(e) && e matches AnError::InvalidPacket(_)),
    {
        if data.len() != 7 {
            return Err(AnError::InvalidPacket("ip dataport entry payload must be 7 bytes".to_string()));
        }
        let mode: IpDataportMode = match dataport_mode_from_u8(data[6]) {
            Some(v) => v,
            None => return Err(AnError::InvalidPacket("unknown dataport mode".to_string())),
        };
        let p = IpDataportEntry {
            ip_address: read_u32(data, 0),
            port: read_u16(data, 4),
            mode,
        };
        proof {
            lemma_le_bytes_lens();
            assert(p.spec_bytes() =~= data@);
        }
        Ok(p)
    }
}

/// Equal payload encodings come from equal packets.
pub(crate) proof fn lemma_ip_dataport_entry_bytes_inj(a: IpDataportEntry, b: IpDataportEntry)
    requires
        a.spec_bytes() == b.spec_bytes(),
    ensures
        a == b,
{
    lemma_le_bytes_lens();
    assert(a.spec_bytes().subrange(0, 4) =~= spec_u32_to_le_bytes(a.ip_address));
    assert(b.spec_bytes().subrange(0, 4) =~= spec_u32_to_le_bytes(b.ip_address));
    lemma_u32_bytes_inj(a.ip_address, b.ip_address);
    assert(a.spec_bytes().subrange(4, 6) =~= spec_u16_to_le_bytes(a.port));
    assert(b.spec_bytes().subrange(4, 6) =~= spec_u16_to_le_bytes(b.port));
    lemma_u16_bytes_inj(a.port, b.port);
    assert(spec_dataport_mode_u8(a.mode) == a.spec_bytes()[6]);
    assert(spec_dataport_mode_u8(b.mode) == b.spec_bytes()[6]);
    lemma_dataport_mode_u8_inj(a.mode, b.mode);
}

/// The concatenated encodings of a sequence of packet period entries.
pub open spec fn spec_entries_bytes(s: Seq<PacketPeriodEntry>) -> Seq<u8>
    decreases s.len(),
{
    if s.len() == 0 {
        Seq::empty()
    } else {
        s[0].spec_bytes() + spec_entries_bytes(s.drop_first())
    }
}

/// Each entry contributes exactly five bytes.
pub proof fn lemma_entries_bytes_len(s: Seq<PacketPeriodEntry>)
    ensures
        spec_entries_bytes(s).len() == 5 * s.len(),
    decreases s.len(),
{
    lemma_le_bytes_lens();
    if s.len() > 0 {
        lemma_entries_bytes_len(s.drop_first());
    }
}

/// Appending an entry appends its five bytes.
pub proof fn lemma_entries_bytes_push(s: Seq<PacketPeriodEntry>, e: PacketPeriodEntry)
    ensures
        spec_entries_bytes(s.push(e)) == spec_entries_bytes(s) + e.spec_bytes(),
    decreases s.len(),
{
    lemma_le_bytes_lens();
    if s.len() == 0 {
        assert(s.push(e)[0] == e);
        assert(s.push(e).drop_first() =~= s);
        assert(spec_entries_bytes(s) == Seq::<u8>::empty());
        assert(spec_entries_bytes(s.push(e)) == e.spec_bytes() + spec_entries_bytes(s));
        assert(spec_entries_bytes(s.push(e)) =~= spec_entries_bytes(s) + e.spec_bytes());
    } else {
        assert(s.push(e).drop_first() =~= s.drop_first().push(e));
        lemma_entries_bytes_push(s.drop_first(), e);
        assert(s.push(e)[0] == s[0]);
        lemma_entries_bytes_len(s);
        lemma_entries_bytes_len(s.drop_first());
        assert(spec_entries_bytes(s.push(e)) == s[0].spec_bytes() + spec_entries_bytes(
            s.drop_first().push(e),
        ));
        assert(spec_entries_bytes(s.push(e)) =~= spec_entries_bytes(s) + e.spec_bytes());
    }
}

/// Equal concatenated encodings of equally long entry sequences come
/// from equal sequences.
pub proof fn lemma_entries_bytes_inj(s: Seq<PacketPeriodEntry>, t: Seq<PacketPeriodEntry>)
    requires
        s.len() == t.len(),
        spec_entries_bytes(s) == spec_entries_bytes(t),
    ensures
        s =~= t,
    decreases s.len(),
{
    lemma_le_bytes_lens();
    if s.len() > 0 {
        lemma_entries_bytes_len(s.drop_first());
        lemma_entries_bytes_len(t.drop_first());
        assert(spec_entries_bytes(s).subrange(0, 5) =~= s[0].spec_bytes());
        assert(spec_entries_bytes(t).subrange(0, 5) =~= t[0].spec_bytes());
        lemma_packet_period_entry_bytes_inj(s[0], t[0]);
        assert(spec_entries_bytes(s).subrange(5, spec_entries_bytes(s).len() as int)
            =~= spec_entries_bytes(s.drop_first()));
        assert(spec_entries_bytes(t).subrange(5, spec_entries_bytes(t).len() as int)
            =~= spec_entries_bytes(t.drop_first()));
        lemma_entries_bytes_inj(s.drop_first(), t.drop_first());
        assert forall|i: int| 0 <= i < s.len() implies s[i] == t[i] by {
            if i > 0 {
                assert(s[i] == s.drop_first()[i - 1]);
                assert(t[i] == t.drop_first()[i - 1]);
            }
        }
    }
}

/// Packets period packet (identifier 181, variable length).  The payload
/// is self-describing: the permanent and clear-existing bytes, a
/// one-byte entry count, then exactly that many five-byte entries.  A
/// frame can carry at most 50 of them.
#[derive(Debug, Clone, PartialEq)]
pub struct PacketsPeriodPacket {
    pub permanent: u8,
    pub clear_existing: u8,
    pub packet_periods: Vec<PacketPeriodEntry>,
}

impl PacketsPeriodPacket {
    /// The exact little-endian payload encoding: the two flag bytes, the
    /// entry count, then the entries.
    pub open spec fn spec_bytes(self) -> Seq<u8> {
        seq![self.permanent, self.clear_existing, self.packet_periods@.len() as u8]
            + spec_entries_bytes(self.packet_periods@)
    }

    /// A frame length byte can hold at most 50 entries (3 + 5 * 50 = 253).
    pub open spec fn wf(self) -> bool {
        self.packet_periods@.len() <= 50
    }

    /// Structural equality with the entry list compared element-wise.
    pub open spec fn equiv(self, other: PacketsPeriodPacket) -> bool {
        self.permanent == other.permanent && self.clear_existing == other.clear_existing
            && self.packet_periods@ == other.packet_periods@
    }

    /// Whether a payload decodes into this packet kind: the two flag
    /// bytes, then an entry count whose entries fill the rest exactly,
    /// all fitting a frame.
    pub open spec fn decodable(data: Seq<u8>) -> bool {
        data.len() >= 3 && data.len() == 3 + 5 * data[2] && data.len() <= 255
    }

    /// Encodes the packet as its exact payload bytes.  A list of more
    /// than 255 entries truncates the count byte and can never be
    /// framed; a frame carries at most 50 entries.
    pub fn to_bytes(&self) -> (r: Vec<u8>)
        ensures
            r@ == self.spec_bytes(),
            r@.len() == 3 + 5 * self.packet_periods@.len(),
    {
        let mut out: Vec<u8> = Vec::new();
        let n: usize = self.packet_periods.len();
        out.push(self.permanent);
        out.push(self.clear_existing);
        out.push(#[verifier::truncate] (n as u8));
        proof {
            assert(self.packet_periods@.take(0) =~= Seq::<PacketPeriodEntry>::empty());
            assert(out@ =~= seq![
                self.permanent,
                self.clear_existing,
                self.packet_periods@.len() as u8,
            ] + spec_entries_bytes(self.packet_periods@.take(0)));
        }
        let mut i: usize = 0;
        while i < n
            invariant
                i <= n,
                n == self.packet_periods@.len(),
                out@ == seq![
                    self.permanent,
                    self.clear_existing,
                    self.packet_periods@.len() as u8,
                ] + spec_entries_bytes(self.packet_periods@.take(i as int)),
            decreases n - i,
        {
            let e: PacketPeriodEntry = self.packet_periods[i];
            let mut eb: Vec<u8> = e.to_bytes();
            out.append(&mut eb);
            proof {
                lemma_entries_bytes_push(self.packet_periods@.take(i as int), e);
                assert(self.packet_periods@.take(i + 1) =~= self.packet_periods@.take(
                    i as int,
                ).push(e));
            }
            i += 1;
        }
        proof {
            assert(self.packet_periods@.take(n as int) =~= self.packet_periods@);
            lemma_entries_bytes_len(self.packet_periods@);
        }
        out
    }

    /// Decodes a payload; succeeds exactly when the entry count and
    /// exactly that many entries fill the rest of the payload.
    pub fn from_bytes(data: &[u8]) -> (r: Result<PacketsPeriodPacket, AnError>)
        ensures
            Self::decodable(data@) ==> (r matches Ok(p) && p.wf() && p.spec_bytes() == data@),
            !Self::decodable(data@) ==> (r matches Err(e) && e matches AnError::InvalidPacket(_)),
    {
        let len: usize = data.len();
        if len < 3 || len > 255 {
            return Err(
                AnError::InvalidPacket(
                    "packets period payload must be a count and that many 5-byte entries"
                        .to_string(),
                ),
            );
        }
        let count: usize = data[2] as usize;
        if len != 3 + 5 * count {
            return Err(
                AnError::InvalidPacket(
                    "packets period payload must be a count and that many 5-byte entries"
                        .to_string(),
                ),
            );
        }
        let mut entries: Vec<PacketPeriodEntry> = Vec::new();
        proof {
            assert(entries@ =~= Seq::<PacketPeriodEntry>::empty());
            assert(spec_entries_bytes(entries@) =~= data@.subrange(3, 3));
        }
        let mut i: usize = 0;
        while i < count
            invariant
                i <= count,
                len == data@.len(),
                len == 3 + 5 * count,
                count <= 50,
                entries@.len() == i,
                spec_entries_bytes(entries@) == data@.subrange(3, 3 + 5 * i),
            decreases count - i,
        {
            let e = PacketPeriodEntry {
                packet_id: data[3 + 5 * i],
                period: read_u32(data, 3 + 5 * i + 1),
            };
            proof {
                lemma_le_bytes_lens();
                assert(e.spec_bytes() =~= data@.subrange(3 + 5 * i, 3 + 5 * i + 5));
                lemma_entries_bytes_push(entries@, e);
                assert(spec_entries_bytes(entries@.push(e)) =~= data@.subrange(
                    3,
                    3 + 5 * (i + 1),
                ));
            }
            entries.push(e);
            i += 1;
        }
        let p = PacketsPeriodPacket {
            permanent: data[0],
            clear_existing: data[1],
            packet_periods: entries,
        };
        proof {
            assert(data@.subrange(3, len as int) == spec_entries_bytes(p.packet_periods@));
            assert(p.spec_bytes() =~= data@);
        }
        Ok(p)
    }
}

/// Equal payload encodings come from equivalent packets period packets.
pub(crate) proof fn lemma_packets_period_bytes_equiv(a: PacketsPeriodPacket, b: PacketsPeriodPacket)
    requires
        a.spec_bytes() == b.spec_bytes(),
    ensures
        a.equiv(b),
{
    lemma_entries_bytes_len(a.packet_periods@);
    lemma_entries_bytes_len(b.packet_periods@);
    assert(a.permanent == a.spec_bytes()[0]);
    assert(b.permanent == b.spec_bytes()[0]);
    assert(a.clear_existing == a.spec_bytes()[1]);
    assert(b.clear_existing == b.spec_bytes()[1]);
    let n: int = a.spec_bytes().len() as int;
    assert(a.spec_bytes().subrange(3, n) =~= spec_entries_bytes(a.packet_periods@));
    assert(b.spec_bytes().subrange(3, n) =~= spec_entries_bytes(b.packet_periods@));
    lemma_entries_bytes_inj(a.packet_periods@, b.packet_periods@);
}

/// IP dataports configuration packet (identifier 202, payload length
/// 30): a reserved word followed by exactly four dataport entries.
#[derive(Debug, Clone, Copy, PartialEq, Eq)]
pub struct IpDataportsConfigurationPacket {
    pub reserved: u16,
    pub dataports: [IpDataportEntry; 4],
}

impl IpDataportsConfigurationPacket {
    /// The exact little-endian payload encoding.
    pub open spec fn spec_bytes(self) -> Seq<u8> {
        spec_u16_to_le_bytes(self.reserved) + self.dataports[0].spec_bytes()
            + self.dataports[1].spec_bytes() + self.dataports[2].spec_bytes()
            + self.dataports[3].spec_bytes()
    }

    /// Whether a payload decodes into this packet kind.
    pub open spec fn decodable(data: Seq<u8>) -> bool {
        data.len() == 30 && valid_dataport_mode_byte(data[8]) && valid_dataport_mode_byte(data[15])
            && valid_dataport_mode_byte(data[22]) && valid_dataport_mode_byte(data[29])
    }

    /// Encodes the packet as its exact payload bytes.
    pub fn to_bytes(&self) -> (r: Vec<u8>)
        ensures
            r@ == self.spec_bytes(),
            r@.len() == 30,
    {
        let mut out: Vec<u8> = Vec::new();
        write_u16(&mut out, self.reserved);
        let mut b0: Vec<u8> = self.dataports[0].to_bytes();
        out.append(&mut b0);
        let mut b1: Vec<u8> = self.dataports[1].to_bytes();
        out.append(&mut b1);
        let mut b2: Vec<u8> = self.dataports[2].to_bytes();
        out.append(&mut b2);
        let mut b3: Vec<u8> = self.dataports[3].to_bytes();
        out.append(&mut b3);
        proof {
            lemma_le_bytes_lens();
            assert(out@ =~= self.spec_bytes());
        }
        out
    }

    /// Decodes a payload; succeeds exactly on 30-byte inputs whose four
    /// mode bytes are legal.
    pub fn from_bytes(data: &[u8]) -> (r: Result<IpDataportsConfigurationPacket, AnError>)
        ensures
            Self::decodable(data@) ==> (r matches Ok(p) && p.spec_bytes() == data@),
            !Self::decodable(data@) ==> (r matches Err(e) && e matches AnError::InvalidPacket(_)),
    {
        if data.len() != 30 {
            return Err(
                AnError::InvalidPacket("ip dataports payload must be 30 bytes".to_string()),
            );
        }
        let d0 = match IpDataportEntry::from_bytes(slice_subrange(data, 2, 9)) {
            Ok(e) => e,
            Err(e) => return Err(e),
        };
        let d1 = match IpDataportEntry::from_bytes(slice_subrange(data, 9, 16)) {
            Ok(e) => e,
            Err(e) => return Err(e),
        };
        let d2 = match IpDataportEntry::from_bytes(slice_subrange(data, 16, 23)) {
            Ok(e) => e,
            Err(e) => return Err(e),
        };
        let d3 = match IpDataportEntry::from_bytes(slice_subrange(data, 23, 30)) {
            Ok(e) => e,
            Err(e) => return Err(e),
        };
        let p = IpDataportsConfigurationPacket {
            reserved: read_u16(data, 0),
            dataports: [d0, d1, d2, d3],
        };
        proof {
            lemma_le_bytes_lens();
            assert(p.spec_bytes() =~= data@);
        }
        Ok(p)
    }
}

/// Equal payload encodings come from equal dataports packets.
pub(crate) proof fn lemma_ip_dataports_bytes_inj(
    a: IpDataportsConfigurationPacket,
    b: IpDataportsConfigurationPacket,
)
    requires
        a.spec_bytes() == b.spec_bytes(),
    ensures
        a == b,
{
    lemma_le_bytes_lens();
    assert(a.spec_bytes().subrange(0, 2) =~= spec_u16_to_le_bytes(a.reserved));
    assert(b.spec_bytes().subrange(0, 2) =~= spec_u16_to_le_bytes(b.reserved));
    lemma_u16_bytes_inj(a.reserved, b.reserved);
    assert(a.spec_bytes().subrange(2, 9) =~= a.dataports[0].spec_bytes());
    assert(b.spec_bytes().subrange(2, 9) =~= b.dataports[0].spec_bytes());
    lemma_ip_dataport_entry_bytes_inj(a.dataports[0], b.dataports[0]);
    assert(a.spec_bytes().subrange(9, 16) =~= a.dataports[1].spec_bytes());
    assert(b.spec_bytes().subrange(9, 16) =~= b.dataports[1].spec_bytes());
    lemma_ip_dataport_entry_bytes_inj(a.dataports[1], b.dataports[1]);
    assert(a.spec_bytes().subrange(16, 23) =~= a.dataports[2].spec_bytes());
    assert(b.spec_bytes().subrange(16, 23) =~= b.dataports[2].spec_bytes());
    lemma_ip_dataport_entry_bytes_inj(a.dataports[2], b.dataports[2]);
    assert(a.spec_bytes().subrange(23, 30) =~= a.dataports[3].spec_bytes());
    assert(b.spec_bytes().subrange(23, 30) =~= b.dataports[3].spec_bytes());
    lemma_ip_dataport_entry_bytes_inj(a.dataports[3], b.dataports[3]);
    assert(a.dataports@ =~= b.dataports@);
    assert(a.dataports =~= b.dataports);
}

impl VehicleType {
    /// Converts a wire byte to a vehicle type; bytes above 14 give `None`.
    pub fn from_u8(value: u8) -> (r: Option<VehicleType>)
        ensures
            valid_vehicle_type_byte(value) ==> (r matches Some(v) && spec_vehicle_type_u8(v)
                == value),
            !valid_vehicle_type_byte(value) ==> r is None,
    {
        vehicle_type_from_u8(value)
    }

    /// The wire byte of this vehicle type.
    pub fn as_u8(self) -> (r: u8)
        ensures
            r == spec_vehicle_type_u8(self),
    {
        vehicle_type_to_u8(self)
    }

    /// A human-readable name of the vehicle type.
    pub fn description(&self) -> (r: &'static str)
        ensures
            r@ == spec_vehicle_type_description(*self),
    {
        match self {
            VehicleType::Unlimited => "Unlimited",
            VehicleType::BicycleOrMotorcycle => "Bicycle or Motorcycle",
            VehicleType::Car => "Car",
            VehicleType::Hovercraft => "Hovercraft",
            VehicleType::Submarine => "Submarine",
            VehicleType::Underwater3D => "3D Underwater Vehicle",
            VehicleType::FixedWingPlane => "Fixed Wing Plane",
            VehicleType::Aircraft3D => "3D Aircraft",
            VehicleType::Human => "Human",
            VehicleType::Boat => "Boat",
            VehicleType::LargeShip => "Large Ship",
            VehicleType::Stationary => "Stationary",
            VehicleType::StuntPlane => "Stunt Plane",
            VehicleType::RaceCar => "Race Car",
            VehicleType::Train => "Train",
        }
    }
}

/// The display name of a vehicle type.
pub open spec fn spec_vehicle_type_description(v: VehicleType) -> Seq<char> {
    match v {
        VehicleType::Unlimited => "Unlimited"@,
        VehicleType::BicycleOrMotorcycle => "Bicycle or Motorcycle"@,
        VehicleType::Car => "Car"@,
        VehicleType::Hovercraft => "Hovercraft"@,
        VehicleType::Submarine => "Submarine"@,
        VehicleType::Underwater3D => "3D Underwater Vehicle"@,
        VehicleType::FixedWingPlane => "Fixed Wing Plane"@,
        VehicleType::Aircraft3D => "3D Aircraft"@,
        VehicleType::Human => "Human"@,
        VehicleType::Boat => "Boat"@,
        VehicleType::LargeShip => "Large Ship"@,
        VehicleType::Stationary => "Stationary"@,
        VehicleType::StuntPlane => "Stunt Plane"@,
        VehicleType::RaceCar => "Race Car"@,
        VehicleType::Train => "Train"@,
    }
}

impl IpDataportMode {
    /// Converts a wire byte to a dataport mode; unknown bytes give `None`.
    pub fn from_u8(value: u8) -> (r: Option<IpDataportMode>)
        ensures
            valid_dataport_mode_byte(value) ==> (r matches Some(m) && spec_dataport_mode_u8(m)
                == value),
            !valid_dataport_mode_byte(value) ==> r is None,
    {
        dataport_mode_from_u8(value)
    }

    /// The wire byte of this mode.
    pub fn as_u8(self) -> (r: u8)
        ensures
            r == spec_dataport_mode_u8(self),
    {
        dataport_mode_to_u8(self)
    }

    /// A human-readable name of the mode.
    pub fn description(&self) -> (r: &'static str)
        ensures
            r@ == spec_dataport_mode_description(*self),
    {
        match self {
            IpDataportMode::Disabled => "MODE_NONE",
            IpDataportMode::TcpServer => "MODE_TCP_SERVER",
            IpDataportMode::TcpClient => "MODE_TCP_CLIENT",
            IpDataportMode::UdpClient => "MODE_UDP",
        }
    }
}

/// The display name of a dataport mode.
pub open spec fn spec_dataport_mode_description(m: IpDataportMode) -> Seq<char> {
    match m {
        IpDataportMode::Disabled => "MODE_NONE"@,
        IpDataportMode::TcpServer => "MODE_TCP_SERVER"@,
        IpDataportMode::TcpClient => "MODE_TCP_CLIENT"@,
        IpDataportMode::UdpClient => "MODE_UDP"@,
    }
}

/// The entry sequence with every entry for `id` removed, keeping order.
pub open spec fn spec_without_id(s: Seq<PacketPeriodEntry>, id: u8) -> Seq<PacketPeriodEntry>
    decreases s.len(),
{
    if s.len() == 0 {
        Seq::empty()
    } else if s[0].packet_id == id {
        spec_without_id(s.drop_first(), id)
    } else {
        seq![s[0]] + spec_without_id(s.drop_first(), id)
    }
}

/// Appending an entry appends it to the filtered sequence exactly when
/// its identifier differs.
pub proof fn lemma_without_id_push(s: Seq<PacketPeriodEntry>, e: PacketPeriodEntry, id: u8)
    ensures
        spec_without_id(s.push(e), id) == if e.packet_id == id {
            spec_without_id(s, id)
        } else {
            spec_without_id(s, id) + seq![e]
        },
    decreases s.len(),
{
    if s.len() == 0 {
        assert(s.push(e)[0] == e);
        assert(s.push(e).drop_first() =~= s);
        if e.packet_id == id {
            assert(spec_without_id(s.push(e), id) =~= spec_without_id(s, id));
        } else {
            assert(spec_without_id(s.push(e), id) =~= spec_without_id(s, id) + seq![e]);
        }
    } else {
        assert(s.push(e)[0] == s[0]);
        assert(s.push(e).drop_first() =~= s.drop_first().push(e));
        lemma_without_id_push(s.drop_first(), e, id);
        if e.packet_id == id {
            assert(spec_without_id(s.push(e), id) =~= spec_without_id(s, id));
        } else {
            assert(spec_without_id(s.push(e), id) =~= spec_without_id(s, id) + seq![e]);
        }
    }
}

impl PacketTimerPeriodPacket {
    /// Builds a timer period configuration.  The period must lie in
    /// [1000, 65000] microseconds in whole multiples of 1000; UTC
    /// synchronisation is kept only when 1,000,000 divides evenly by
    /// the period.
    pub fn new(permanent: bool, period_microseconds: u16, enable_utc_sync: bool) -> (r: Result<
        PacketTimerPeriodPacket,
        AnError,
    >)
        ensures
            1000 <= period_microseconds <= 65000 && period_microseconds % 1000 == 0 ==> (
            r matches Ok(p) && p.permanent == if permanent { 1u8 } else { 0u8 }
                && p.packet_timer_period == period_microseconds && p.utc_synchronisation == if (
            enable_utc_sync && 1000000u32 % (period_microseconds as u32) == 0) {
                1u8
            } else {
                0u8
            }),
            !(1000 <= period_microseconds <= 65000 && period_microseconds % 1000 == 0) ==> (
            r matches Err(e) && e matches AnError::ValidationFailed(_)),
    {
        if period_microseconds < 1000 || period_microseconds > 65000 {
            return Err(
                AnError::ValidationFailed(
                    "Packet timer period must be between 1000 and 65000 microseconds".to_string(),
                ),
            );
        }
        if period_microseconds % 1000 != 0 {
            return Err(
                AnError::ValidationFailed(
                    "Packet timer period must be in increments of 1000 microseconds".to_string(),
                ),
            );
        }
        let utc_sync: u8 = if enable_utc_sync && Self::is_utc_sync_valid(period_microseconds) {
            1
        } else {
            0
        };
        Ok(
            PacketTimerPeriodPacket {
                permanent: if permanent { 1 } else { 0 },
                utc_synchronisation: utc_sync,
                packet_timer_period: period_microseconds,
            },
        )
    }

    /// Whether 1,000,000 divides evenly by the period, the condition
    /// for UTC synchronisation.
    pub fn is_utc_sync_valid(period_microseconds: u16) -> (r: bool)
        requires
            period_microseconds > 0,
        ensures
            r == (1000000u32 % (period_microseconds as u32) == 0),
    {
        1000000u32 % (period_microseconds as u32) == 0
    }

    /// Whether the permanent flag is set.
    pub fn is_permanent(&self) -> (r: bool)
        ensures
            r == (self.permanent != 0),
    {
        self.permanent != 0
    }

    /// Whether UTC synchronisation is enabled.
    pub fn is_utc_synchronisation_enabled(&self) -> (r: bool)
        ensures
            r == (self.utc_synchronisation != 0),
    {
        self.utc_synchronisation != 0
    }

    /// The period in microseconds.
    pub fn get_period_microseconds(&self) -> (r: u16)
        ensures
            r == self.packet_timer_period,
    {
        self.packet_timer_period
    }

    /// Checks the stored configuration: period range, increment, and
    /// UTC synchronisation legality.
    pub fn validate(&self) -> (r: Result<(), AnError>)
        ensures
            r is Ok <==> 1000 <= self.packet_timer_period <= 65000 && self.packet_timer_period
                % 1000 == 0 && (self.utc_synchronisation != 0 ==> 1000000u32 % (
            self.packet_timer_period as u32) == 0),
            r matches Err(e) ==> e matches AnError::ValidationFailed(_),
    {
        if self.packet_timer_period < 1000 || self.packet_timer_period > 65000 {
            return Err(AnError::ValidationFailed("Invalid packet timer period range".to_string()));
        }
        if self.packet_timer_period % 1000 != 0 {
            return Err(
                AnError::ValidationFailed(
                    "Packet timer period must be in 1000 microsecond increments".to_string(),
                ),
            );
        }
        if self.utc_synchronisation != 0 && !Self::is_utc_sync_valid(self.packet_timer_period) {
            return Err(
                AnError::ValidationFailed(
                    "UTC synchronization is enabled but period is not valid for UTC sync".to_string(
                    ),
                ),
            );
        }
        Ok(())
    }
}

impl PacketPeriodEntry {
    /// Builds an entry; only state packet identifiers 20 to 180 may be
    /// given a period.
    pub fn new(packet_id: u8, packet_period: u32) -> (r: Result<PacketPeriodEntry, AnError>)
        ensures
            20 <= packet_id <= 180 ==> r == Ok::<PacketPeriodEntry, AnError>(
                PacketPeriodEntry { packet_id, period: packet_period },
            ),
            !(20 <= packet_id <= 180) ==> (r matches Err(e) && e matches AnError::ValidationFailed(
                _,
            )),
    {
        if packet_id < 20 || packet_id > 180 {
            return Err(
                AnError::ValidationFailed(
                    "Packet ID must be between 20 and 180 for period configuration".to_string(),
                ),
            );
        }
        Ok(PacketPeriodEntry { packet_id, period: packet_period })
    }

    /// The actual period in microseconds for a given timer period.
    pub fn calculate_period_us(&self, packet_timer_period_us: u16) -> (r: u32)
        requires
            self.period * packet_timer_period_us <= u32::MAX,
        ensures
            r == self.period * packet_timer_period_us,
    {
        self.period * (packet_timer_period_us as u32)
    }
}

impl PacketsPeriodPacket {
    /// Builds an empty packets period configuration.
    pub fn new(permanent: bool, clear_existing: bool) -> (r: PacketsPeriodPacket)
        ensures
            r.permanent == if permanent { 1u8 } else { 0u8 },
            r.clear_existing == if clear_existing { 1u8 } else { 0u8 },
            r.packet_periods@ == Seq::<PacketPeriodEntry>::empty(),
    {
        PacketsPeriodPacket {
            permanent: if permanent { 1 } else { 0 },
            clear_existing: if clear_existing { 1 } else { 0 },
            packet_periods: Vec::new(),
        }
    }

    /// Replaces any entry for `packet_id` with a new one at the back;
    /// identifiers outside 20 to 180 are rejected and nothing changes.
    pub fn add_packet_period(&mut self, packet_id: u8, packet_period: u32) -> (r: Result<
        (),
        AnError,
    >)
        ensures
            20 <= packet_id <= 180 ==> r is Ok && final(self).packet_periods@ == spec_without_id(
                old(self).packet_periods@,
                packet_id,
            ).push(PacketPeriodEntry { packet_id, period: packet_period }),
            !(20 <= packet_id <= 180) ==> (r matches Err(e) && e matches AnError::ValidationFailed(
                _,
            )) && final(self).packet_periods@ == old(self).packet_periods@,
            final(self).permanent == old(self).permanent,
            final(self).clear_existing == old(self).clear_existing,
    {
        let entry = match PacketPeriodEntry::new(packet_id, packet_period) {
            Ok(e) => e,
            Err(e) => return Err(e),
        };
        self.retain_without(packet_id);
        self.packet_periods.push(entry);
        Ok(())
    }

    /// Removes every entry for `packet_id`, keeping the others in
    /// order.
    pub fn remove_packet_period(&mut self, packet_id: u8)
        ensures
            final(self).packet_periods@ == spec_without_id(old(self).packet_periods@, packet_id),
            final(self).permanent == old(self).permanent,
            final(self).clear_existing == old(self).clear_existing,
    {
        self.retain_without(packet_id);
    }

    /// Removes every entry whose identifier is `packet_id`.
    fn retain_without(&mut self, packet_id: u8)
        ensures
            final(self).packet_periods@ == spec_without_id(old(self).packet_periods@, packet_id),
            final(self).permanent == old(self).permanent,
            final(self).clear_existing == old(self).clear_existing,
    {
        let n: usize = self.packet_periods.len();
        let mut kept: Vec<PacketPeriodEntry> = Vec::new();
        proof {
            assert(old(self).packet_periods@.take(0) =~= Seq::<PacketPeriodEntry>::empty());
            assert(kept@ =~= spec_without_id(old(self).packet_periods@.take(0), packet_id));
        }
        let mut i: usize = 0;
        #[verifier::loop_isolation(false)]
        while i < n
            invariant
                i <= n,
                n == self.packet_periods@.len(),
                self.packet_periods@ == old(self).packet_periods@,
                kept@ == spec_without_id(old(self).packet_periods@.take(i as int), packet_id),
            decreases n - i,
        {
            let e: PacketPeriodEntry = self.packet_periods[i];
            proof {
                lemma_without_id_push(old(self).packet_periods@.take(i as int), e, packet_id);
                assert(old(self).packet_periods@.take(i + 1) =~= old(
                    self,
                ).packet_periods@.take(i as int).push(e));
            }
            if e.packet_id != packet_id {
                kept.push(e);
                proof {
                    assert(kept@ =~= spec_without_id(
                        old(self).packet_periods@.take(i + 1),
                        packet_id,
                    ));
                }
            }
            i += 1;
        }
        proof {
            assert(old(self).packet_periods@.take(n as int) =~= old(self).packet_periods@);
        }
        self.packet_periods = kept;
    }

    /// The period stored for `packet_id`, if any entry carries it.
    pub fn get_packet_period(&self, packet_id: u8) -> (r: Option<u32>)
        ensures
            r matches Some(period) ==> exists|i: int|
                0 <= i < self.packet_periods@.len() && (#[trigger] self.packet_periods@[i]).packet_id
                    == packet_id && self.packet_periods@[i].period == period,
            r is None ==> forall|i: int|
                0 <= i < self.packet_periods@.len() ==> (#[trigger] self.packet_periods@[i]).packet_id
                    != packet_id,
    {
        let n: usize = self.packet_periods.len();
        let mut i: usize = 0;
        #[verifier::loop_isolation(false)]
        while i < n
            invariant
                i <= n,
                n == self.packet_periods@.len(),
                forall|j: int|
                    0 <= j < i ==> (#[trigger] self.packet_periods@[j]).packet_id != packet_id,
            decreases n - i,
        {
            let e: PacketPeriodEntry = self.packet_periods[i];
            if e.packet_id == packet_id {
                return Some(e.period);
            }
            i += 1;
        }
        None
    }

    /// Whether the permanent flag is set.
    pub fn is_permanent(&self) -> (r: bool)
        ensures
            r == (self.permanent != 0),
    {
        self.permanent != 0
    }

    /// Whether existing periods are to be cleared first.
    pub fn should_clear_existing(&self) -> (r: bool)
        ensures
            r == (self.clear_existing != 0),
    {
        self.clear_existing != 0
    }

    /// The identifiers of all configured entries, in order.
    pub fn get_configured_packet_ids(&self) -> (r: Vec<u8>)
        ensures
            r@.len() == self.packet_periods@.len(),
            forall|i: int|
                0 <= i < r@.len() ==> r@[i] == (#[trigger] self.packet_periods@[i]).packet_id,
    {
        let n: usize = self.packet_periods.len();
        let mut ids: Vec<u8> = Vec::new();
        let mut i: usize = 0;
        #[verifier::loop_isolation(false)]
        while i < n
            invariant
                i <= n,
                n == self.packet_periods@.len(),
                ids@.len() == i,
                forall|j: int|
                    0 <= j < i ==> ids@[j] == (#[trigger] self.packet_periods@[j]).packet_id,
            decreases n - i,
        {
            ids.push(self.packet_periods[i].packet_id);
            i += 1;
        }
        ids
    }

    /// Drops every configured entry.
    pub fn clear_all_periods(&mut self)
        ensures
            final(self).packet_periods@ == Seq::<PacketPeriodEntry>::empty(),
            final(self).permanent == old(self).permanent,
            final(self).clear_existing == old(self).clear_existing,
    {
        self.packet_periods.clear();
    }

    /// The payload length this configuration encodes to.
    pub fn get_expected_length(&self) -> (r: usize)
        requires
            self.wf(),
        ensures
            r == 3 + 5 * self.packet_periods@.len(),
    {
        3 + 5 * self.packet_periods.len()
    }

    /// Checks that every identifier is a state packet identifier and
    /// that no identifier occurs twice.
    pub fn validate(&self) -> (r: Result<(), AnError>)
        ensures
            r is Ok <==> (forall|i: int|
                0 <= i < self.packet_periods@.len() ==> 20 <= (
                #[trigger] self.packet_periods@[i]).packet_id <= 180) && (forall|i: int, j: int|
                0 <= i < j < self.packet_periods@.len() ==> (
                #[trigger] self.packet_periods@[i]).packet_id != (
                #[trigger] self.packet_periods@[j]).packet_id),
            r matches Err(e) ==> e matches AnError::ValidationFailed(_),
    {
        let n: usize = self.packet_periods.len();
        let mut i: usize = 0;
        #[verifier::loop_isolation(false)]
        while i < n
            invariant
                i <= n,
                n == self.packet_periods@.len(),
                forall|k: int|
                    0 <= k < i ==> 20 <= (#[trigger] self.packet_periods@[k]).packet_id <= 180,
                forall|k: int, j: int|
                    0 <= k < j < i ==> (#[trigger] self.packet_periods@[k]).packet_id != (
                    #[trigger] self.packet_periods@[j]).packet_id,
            decreases n - i,
        {
            let e: PacketPeriodEntry = self.packet_periods[i];
            if e.packet_id < 20 || e.packet_id > 180 {
                return Err(
                    AnError::ValidationFailed(
                        "Invalid packet ID: must be between 20 and 180".to_string(),
                    ),
                );
            }
            let mut j: usize = 0;
            #[verifier::loop_isolation(false)]
            while j < i
                invariant
                    j <= i < n,
                    n == self.packet_periods@.len(),
                    forall|k: int|
                        0 <= k < j ==> (#[trigger] self.packet_periods@[k]).packet_id
                            != self.packet_periods@[i as int].packet_id,
                decreases i - j,
            {
                if self.packet_periods[j].packet_id == e.packet_id {
                    return Err(AnError::ValidationFailed("Duplicate packet ID found".to_string()));
                }
                j += 1;
            }
            i += 1;
        }
        Ok(())
    }
}

impl FilterOptionsPacket {
    /// Builds a filter options packet for a vehicle profile with every
    /// feature disabled and the reserved fields zero-filled.
    pub fn new(permanent: bool, vehicle_type: VehicleType) -> (r: FilterOptionsPacket)
        ensures
            r.permanent == if permanent { 1u8 } else { 0u8 },
            r.vehicle_type == vehicle_type,
            r.internal_gnss_enabled == 0 && r.atmospheric_altitude_enabled == 0,
            r.velocity_heading_enabled == 0 && r.reversing_detection_enabled == 0,
            r.motion_analysis_enabled == 0,
            r.reserved1 == 0 && r.reserved2 == 0,
            forall|i: int| 0 <= i < 8 ==> r.reserved3@[i] == 0,
    {
        let r = FilterOptionsPacket {
            permanent: if permanent { 1 } else { 0 },
            vehicle_type,
            internal_gnss_enabled: 0,
            reserved1: 0,
            atmospheric_altitude_enabled: 0,
            velocity_heading_enabled: 0,
            reversing_detection_enabled: 0,
            motion_analysis_enabled: 0,
            reserved2: 0,
            reserved3: [0, 0, 0, 0, 0, 0, 0, 0],
        };
        proof {
            assert(r.reserved3@ =~= seq![0u8, 0u8, 0u8, 0u8, 0u8, 0u8, 0u8, 0u8]);
        }
        r
    }

    /// Whether the permanent flag is set.
    pub fn is_permanent(&self) -> (r: bool)
        ensures
            r == (self.permanent != 0),
    {
        self.permanent != 0
    }

    /// The configured vehicle profile.
    pub fn get_vehicle_type(&self) -> (r: VehicleType)
        ensures
            r == self.vehicle_type,
    {
        self.vehicle_type
    }

    /// Replaces the vehicle profile.
    pub fn set_vehicle_type(&mut self, vehicle_type: VehicleType)
        ensures
            *final(self) == (FilterOptionsPacket { vehicle_type, ..*old(self) }),
    {
        self.vehicle_type = vehicle_type;
    }

    /// Whether internal gnss enabled is on.
    pub fn is_internal_gnss_enabled(&self) -> (r: bool)
        ensures
            r == (self.internal_gnss_enabled != 0),
    {
        self.internal_gnss_enabled != 0
    }

    /// Switches internal gnss enabled on or off.
    pub fn set_internal_gnss_enabled(&mut self, enabled: bool)
        ensures
            *final(self) == (FilterOptionsPacket { internal_gnss_enabled: if enabled { 1u8 } else { 0u8 }, ..*old(self) }),
    {
        self.internal_gnss_enabled = if enabled { 1 } else { 0 };
    }

    /// Whether atmospheric altitude enabled is on.
    pub fn is_atmospheric_altitude_enabled(&self) -> (r: bool)
        ensures
            r == (self.atmospheric_altitude_enabled != 0),
    {
        self.atmospheric_altitude_enabled != 0
    }

    /// Switches atmospheric altitude enabled on or off.
    pub fn set_atmospheric_altitude_enabled(&mut self, enabled: bool)
        ensures
            *final(self) == (FilterOptionsPacket { atmospheric_altitude_enabled: if enabled { 1u8 } else { 0u8 }, ..*old(self) }),
    {
        self.atmospheric_altitude_enabled = if enabled { 1 } else { 0 };
    }

    /// Whether velocity heading enabled is on.
    pub fn is_velocity_heading_enabled(&self) -> (r: bool)
        ensures
            r == (self.velocity_heading_enabled != 0),
    {
        self.velocity_heading_enabled != 0
    }

    /// Switches velocity heading enabled on or off.
    pub fn set_velocity_heading_enabled(&mut self, enabled: bool)
        ensures
            *final(self) == (FilterOptionsPacket { velocity_heading_enabled: if enabled { 1u8 } else { 0u8 }, ..*old(self) }),
    {
        self.velocity_heading_enabled = if enabled { 1 } else { 0 };
    }

    /// Whether reversing detection enabled is on.
    pub fn is_reversing_detection_enabled(&self) -> (r: bool)
        ensures
            r == (self.reversing_detection_enabled != 0),
    {
        self.reversing_detection_enabled != 0
    }

    /// Switches reversing detection enabled on or off.
    pub fn set_reversing_detection_enabled(&mut self, enabled: bool)
        ensures
            *final(self) == (FilterOptionsPacket { reversing_detection_enabled: if enabled { 1u8 } else { 0u8 }, ..*old(self) }),
    {
        self.reversing_detection_enabled = if enabled { 1 } else { 0 };
    }

    /// Whether motion analysis enabled is on.
    pub fn is_motion_analysis_enabled(&self) -> (r: bool)
        ensures
            r == (self.motion_analysis_enabled != 0),
    {
        self.motion_analysis_enabled != 0
    }

    /// Switches motion analysis enabled on or off.
    pub fn set_motion_analysis_enabled(&mut self, enabled: bool)
        ensures
            *final(self) == (FilterOptionsPacket { motion_analysis_enabled: if enabled { 1u8 } else { 0u8 }, ..*old(self) }),
    {
        self.motion_analysis_enabled = if enabled { 1 } else { 0 };
    }

    /// Checks that the reserved fields are zero-filled.
    pub fn validate(&self) -> (r: Result<(), AnError>)
        ensures
            r is Ok <==> self.reserved1 == 0 && self.reserved2 == 0 && (forall|i: int|
                0 <= i < 8 ==> self.reserved3@[i] == 0),
            r matches Err(e) ==> e matches AnError::ValidationFailed(_),
    {
        if self.reserved1 != 0 {
            return Err(AnError::ValidationFailed("Reserved field 1 must be zero".to_string()));
        }
        if self.reserved2 != 0 {
            return Err(AnError::ValidationFailed("Reserved field 2 must be zero".to_string()));
        }
        let mut i: usize = 0;
        #[verifier::loop_isolation(false)]
        while i < 8
            invariant
                i <= 8,
                forall|j: int| 0 <= j < i ==> self.reserved3@[j] == 0,
            decreases 8 - i,
        {
            if self.reserved3[i] != 0 {
                return Err(
                    AnError::ValidationFailed("Reserved field 3 must be all zeros".to_string()),
                );
            }
            i += 1;
        }
        Ok(())
    }
}

impl SetZeroOrientationAlignmentPacket {
    /// Whether the permanent flag is set.
    pub fn is_permanent(&self) -> (r: bool)
        ensures
            r == (self.permanent != 0),
    {
        self.permanent != 0
    }

    /// Sets the permanent flag.
    pub fn set_permanent(&mut self, permanent: bool)
        ensures
            final(self).permanent == if permanent { 1u8 } else { 0u8 },
            final(self).verification == old(self).verification,
    {
        self.permanent = if permanent { 1 } else { 0 };
    }

    /// Checks that the packet carries the correct verification
    /// sequence to arm the zero orientation command.
    pub fn validate(&self) -> (r: Result<(), AnError>)
        ensures
            r is Ok <==> self.verification == 0x9A4E8055,
            r matches Err(e) ==> e matches AnError::ValidationFailed(_),
    {
        if self.verification != 0x9A4E8055 {
            return Err(AnError::ValidationFailed("Invalid verification sequence".to_string()));
        }
        Ok(())
    }
}

impl IpDataportEntry {
    /// An inactive entry: no address, no port, mode disabled.
    pub fn inactive() -> (r: IpDataportEntry)
        ensures
            r == (IpDataportEntry { ip_address: 0u32, port: 0u16, mode: IpDataportMode::Disabled }),
    {
        IpDataportEntry { ip_address: 0, port: 0, mode: IpDataportMode::Disabled }
    }

    /// The configured port.
    pub fn get_port(&self) -> (r: u16)
        ensures
            r == self.port,
    {
        self.port
    }

    /// Replaces the port.
    pub fn set_port(&mut self, port: u16)
        ensures
            *final(self) == (IpDataportEntry { port, ..*old(self) }),
    {
        self.port = port;
    }

    /// The configured mode.
    pub fn get_mode(&self) -> (r: IpDataportMode)
        ensures
            r == self.mode,
    {
        self.mode
    }

    /// Replaces the mode.
    pub fn set_mode(&mut self, mode: IpDataportMode)
        ensures
            *final(self) == (IpDataportEntry { mode, ..*old(self) }),
    {
        self.mode = mode;
    }

    /// Whether the entry is configured at all.
    pub fn is_active(&self) -> (r: bool)
        ensures
            r == !(self.mode is Disabled),
    {
        !matches!(self.mode, IpDataportMode::Disabled)
    }

    /// An entry always carries a legal mode; nothing can be invalid.
    pub fn validate(&self) -> (r: Result<(), AnError>)
        ensures
            r is Ok,
    {
        Ok(())
    }
}

/// Whether two entries claim the same nonzero TCP server port.
pub open spec fn spec_ports_conflict(a: IpDataportEntry, b: IpDataportEntry) -> bool {
    a.mode is TcpServer && b.mode is TcpServer && a.port == b.port && a.port != 0
}

impl IpDataportsConfigurationPacket {
    /// The active entries, each with its index, in order.
    pub open spec fn spec_active_dataports(self) -> Seq<(usize, IpDataportEntry)> {
        (if !(self.dataports[0].mode is Disabled) { seq![(0usize, self.dataports[0])] } else { Seq::empty() })
            + (if !(self.dataports[1].mode is Disabled) { seq![(1usize, self.dataports[1])] } else { Seq::empty() })
            + (if !(self.dataports[2].mode is Disabled) { seq![(2usize, self.dataports[2])] } else { Seq::empty() })
            + (if !(self.dataports[3].mode is Disabled) { seq![(3usize, self.dataports[3])] } else { Seq::empty() })
    }

    /// Builds a configuration with all four dataports inactive.
    pub fn new() -> (r: IpDataportsConfigurationPacket)
        ensures
            r.reserved == 0,
            forall|i: int| 0 <= i < 4 ==> (#[trigger] r.dataports@[i]).mode is Disabled,
    {
        let e = IpDataportEntry::inactive();
        let r = IpDataportsConfigurationPacket { reserved: 0, dataports: [e, e, e, e] };
        proof {
            assert(r.dataports@ =~= seq![e, e, e, e]);
        }
        r
    }

    /// The entry at `index`, or `None` past the four dataports.
    pub fn get_dataport(&self, index: usize) -> (r: Option<IpDataportEntry>)
        ensures
            index < 4 ==> r == Some(self.dataports@[index as int]),
            index >= 4 ==> r is None,
    {
        if index < 4 {
            Some(self.dataports[index])
        } else {
            None
        }
    }

    /// Replaces the entry at `index`; indexes past 3 are rejected and
    /// nothing changes.
    pub fn set_dataport(&mut self, index: usize, dataport: IpDataportEntry) -> (r: Result<
        (),
        AnError,
    >)
        ensures
            index < 4 ==> r is Ok && final(self).dataports@ == old(self).dataports@.update(
                index as int,
                dataport,
            ),
            index >= 4 ==> (r matches Err(e) && e matches AnError::ValidationFailed(_))
                && final(self).dataports@ == old(self).dataports@,
            final(self).reserved == old(self).reserved,
    {
        if index >= 4 {
            return Err(AnError::ValidationFailed("Dataport index must be 0-3".to_string()));
        }
        self.dataports[index] = dataport;
        Ok(())
    }

    /// Deactivates the entry at `index`.
    pub fn set_inactive(&mut self, index: usize) -> (r: Result<(), AnError>)
        ensures
            index < 4 ==> r is Ok && final(self).dataports@ == old(self).dataports@.update(
                index as int,
                IpDataportEntry { ip_address: 0u32, port: 0u16, mode: IpDataportMode::Disabled },
            ),
            index >= 4 ==> (r matches Err(e) && e matches AnError::ValidationFailed(_))
                && final(self).dataports@ == old(self).dataports@,
            final(self).reserved == old(self).reserved,
    {
        self.set_dataport(index, IpDataportEntry::inactive())
    }

    /// The active entries, each with its index, in order.
    pub fn get_active_dataports(&self) -> (r: Vec<(usize, IpDataportEntry)>)
        ensures
            r@ == self.spec_active_dataports(),
    {
        let mut active: Vec<(usize, IpDataportEntry)> = Vec::new();
        if self.dataports[0].is_active() {
            active.push((0, self.dataports[0]));
        }
        if self.dataports[1].is_active() {
            active.push((1, self.dataports[1]));
        }
        if self.dataports[2].is_active() {
            active.push((2, self.dataports[2]));
        }
        if self.dataports[3].is_active() {
            active.push((3, self.dataports[3]));
        }
        proof {
            assert(active@ =~= self.spec_active_dataports());
        }
        active
    }

    /// How many dataports are active.
    pub fn get_active_count(&self) -> (r: usize)
        ensures
            r == self.spec_active_dataports().len(),
    {
        self.get_active_dataports().len()
    }

    /// Whether any dataport is active.
    pub fn has_active_dataports(&self) -> (r: bool)
        ensures
            r == (self.spec_active_dataports().len() > 0),
    {
        self.get_active_count() > 0
    }

    /// Checks that the reserved word is zero and that no two TCP
    /// server entries claim the same nonzero port.
    pub fn validate(&self) -> (r: Result<(), AnError>)
        ensures
            r is Ok <==> self.reserved == 0 && !spec_ports_conflict(
                self.dataports[0],
                self.dataports[1],
            ) && !spec_ports_conflict(self.dataports[0], self.dataports[2])
                && !spec_ports_conflict(self.dataports[0], self.dataports[3])
                && !spec_ports_conflict(self.dataports[1], self.dataports[2])
                && !spec_ports_conflict(self.dataports[1], self.dataports[3])
                && !spec_ports_conflict(self.dataports[2], self.dataports[3]),
            r matches Err(e) ==> e matches AnError::ValidationFailed(_),
    {
        if self.reserved != 0 {
            return Err(AnError::ValidationFailed("Reserved field must be zero".to_string()));
        }
        if self.conflicts(0, 1) {
            return Err(
                AnError::ValidationFailed("Port is already used by another dataport".to_string()),
            );
        }
        if self.conflicts(0, 2) {
            return Err(
                AnError::ValidationFailed("Port is already used by another dataport".to_string()),
            );
        }
        if self.conflicts(0, 3) {
            return Err(
                AnError::ValidationFailed("Port is already used by another dataport".to_string()),
            );
        }
        if self.conflicts(1, 2) {
            return Err(
                AnError::ValidationFailed("Port is already used by another dataport".to_string()),
            );
        }
        if self.conflicts(1, 3) {
            return Err(
                AnError::ValidationFailed("Port is already used by another dataport".to_string()),
            );
        }
        if self.conflicts(2, 3) {
            return Err(
                AnError::ValidationFailed("Port is already used by another dataport".to_string()),
            );
        }
        Ok(())
    }

    /// Whether the entries at the two indexes claim the same nonzero
    /// TCP server port.
    fn conflicts(&self, i: usize, j: usize) -> (r: bool)
        requires
            i < 4,
            j < 4,
        ensures
            r == spec_ports_conflict(self.dataports@[i as int], self.dataports@[j as int]),
    {
        let a: IpDataportEntry = self.dataports[i];
        let b: IpDataportEntry = self.dataports[j];
        matches!(a.mode, IpDataportMode::TcpServer) && matches!(b.mode, IpDataportMode::TcpServer)
            && a.port == b.port && a.port != 0
    }
}


impl FilterOptionsPacket {
    /// The labels of the enabled features, the vehicle profile first.
    pub open spec fn spec_enabled_features(self) -> Seq<Seq<char>> {
        seq!["Vehicle Type: "@ + spec_vehicle_type_description(self.vehicle_type)] + (if self.internal_gnss_enabled != 0 {
            seq!["Internal GNSS"@]
        } else {
            Seq::<Seq<char>>::empty()
        }) + (if self.atmospheric_altitude_enabled != 0 {
            seq!["Atmospheric Altitude"@]
        } else {
            Seq::<Seq<char>>::empty()
        }) + (if self.velocity_heading_enabled != 0 {
            seq!["Velocity Heading"@]
        } else {
            Seq::<Seq<char>>::empty()
        }) + (if self.reversing_detection_enabled != 0 {
            seq!["Reversing Detection"@]
        } else {
            Seq::<Seq<char>>::empty()
        }) + (if self.motion_analysis_enabled != 0 {
            seq!["Motion Analysis"@]
        } else {
            Seq::<Seq<char>>::empty()
        })
    }

    /// Lists the vehicle profile and every enabled feature.
    pub fn get_enabled_features(&self) -> (r: Vec<String>)
        ensures
            r.deep_view() == self.spec_enabled_features(),
    {
        let mut features: Vec<String> = Vec::new();
        let mut vehicle: String = String::from_str("Vehicle Type: ");
        vehicle.append(self.vehicle_type.description());
        features.push(vehicle);
        proof {
            assert(features.deep_view() =~= seq![
                "Vehicle Type: "@ + spec_vehicle_type_description(self.vehicle_type),
            ]);
        }
        push_flag(&mut features, self.internal_gnss_enabled != 0, "Internal GNSS");
        push_flag(&mut features, self.atmospheric_altitude_enabled != 0, "Atmospheric Altitude");
        push_flag(&mut features, self.velocity_heading_enabled != 0, "Velocity Heading");
        push_flag(&mut features, self.reversing_detection_enabled != 0, "Reversing Detection");
        push_flag(&mut features, self.motion_analysis_enabled != 0, "Motion Analysis");
        proof {
            assert(features.deep_view() =~= self.spec_enabled_features());
        }
        features
    }
}


impl OdometerConfigurationPacket {
    /// Whether the permanent flag is set.
    pub fn is_permanent(&self) -> (r: bool)
        ensures
            r == (self.permanent != 0),
    {
        self.permanent != 0
    }

    /// Sets the permanent flag.
    pub fn set_permanent(&mut self, permanent: bool)
        ensures
            *final(self) == (OdometerConfigurationPacket {
                permanent: if permanent { 1u8 } else { 0u8 },
                ..*old(self)
            }),
    {
        self.permanent = if permanent { 1 } else { 0 };
    }

    /// Whether automatic pulse measurement is active.
    pub fn is_automatic_pulse_measurement_active(&self) -> (r: bool)
        ensures
            r == (self.automatic_pulse_measurement != 0),
    {
        self.automatic_pulse_measurement != 0
    }

    /// Switches automatic pulse measurement on or off.
    pub fn set_automatic_pulse_measurement_active(&mut self, active: bool)
        ensures
            *final(self) == (OdometerConfigurationPacket {
                automatic_pulse_measurement: if active { 1u8 } else { 0u8 },
                ..*old(self)
            }),
    {
        self.automatic_pulse_measurement = if active { 1 } else { 0 };
    }
}

impl ReferencePointOffsetsPacket {
    /// Builds the packet with every offset at zero, the default
    /// measurement point at the centre of the unit.
    pub fn new(permanent: bool) -> (r: ReferencePointOffsetsPacket)
        ensures
            r == (ReferencePointOffsetsPacket {
                permanent: if permanent { 1u8 } else { 0u8 },
                heave_point_1: OffsetVector { x: 0u32, y: 0u32, z: 0u32 },
                heave_point_2: OffsetVector { x: 0u32, y: 0u32, z: 0u32 },
                heave_point_3: OffsetVector { x: 0u32, y: 0u32, z: 0u32 },
                heave_point_4: OffsetVector { x: 0u32, y: 0u32, z: 0u32 },
            }),
    {
        ReferencePointOffsetsPacket {
            permanent: if permanent { 1 } else { 0 },
            heave_point_1: OffsetVector::zero(),
            heave_point_2: OffsetVector::zero(),
            heave_point_3: OffsetVector::zero(),
            heave_point_4: OffsetVector::zero(),
        }
    }

    /// Whether the permanent flag is set.
    pub fn is_permanent(&self) -> (r: bool)
        ensures
            r == (self.permanent != 0),
    {
        self.permanent != 0
    }

    /// Sets the permanent flag.
    pub fn set_permanent(&mut self, permanent: bool)
        ensures
            *final(self) == (ReferencePointOffsetsPacket {
                permanent: if permanent { 1u8 } else { 0u8 },
                ..*old(self)
            }),
    {
        self.permanent = if permanent { 1 } else { 0 };
    }

    /// The primary reference point offset (heave point 1), which all
    /// output data is referenced to.
    pub fn get_primary_reference_offset(&self) -> (r: OffsetVector)
        ensures
            r == self.heave_point_1,
    {
        self.heave_point_1
    }

    /// Replaces the primary reference point offset (heave point 1).
    pub fn set_primary_reference_offset(&mut self, offset: OffsetVector)
        ensures
            *final(self) == (ReferencePointOffsetsPacket { heave_point_1: offset, ..*old(self) }),
    {
        self.heave_point_1 = offset;
    }

    /// The centre-of-gravity lever arm offset (heave point 2).
    pub fn get_cog_lever_arm_offset(&self) -> (r: OffsetVector)
        ensures
            r == self.heave_point_2,
    {
        self.heave_point_2
    }

    /// Replaces the centre-of-gravity lever arm offset (heave point 2).
    pub fn set_cog_lever_arm_offset(&mut self, offset: OffsetVector)
        ensures
            *final(self) == (ReferencePointOffsetsPacket { heave_point_2: offset, ..*old(self) }),
    {
        self.heave_point_2 = offset;
    }

    /// The heave point 3 offset.
    pub fn get_heave_point_3_offset(&self) -> (r: OffsetVector)
        ensures
            r == self.heave_point_3,
    {
        self.heave_point_3
    }

    /// Replaces the heave point 3 offset.
    pub fn set_heave_point_3_offset(&mut self, offset: OffsetVector)
        ensures
            *final(self) == (ReferencePointOffsetsPacket { heave_point_3: offset, ..*old(self) }),
    {
        self.heave_point_3 = offset;
    }

    /// The heave point 4 offset.
    pub fn get_heave_point_4_offset(&self) -> (r: OffsetVector)
        ensures
            r == self.heave_point_4,
    {
        self.heave_point_4
    }

    /// Replaces the heave point 4 offset.
    pub fn set_heave_point_4_offset(&mut self, offset: OffsetVector)
        ensures
            *final(self) == (ReferencePointOffsetsPacket { heave_point_4: offset, ..*old(self) }),
    {
        self.heave_point_4 = offset;
    }

    /// Whether every offset holds the all-zero bit pattern, the default
    /// configuration.  A negative-zero float pattern does not count as
    /// zero here.
    pub fn is_default_configuration(&self) -> (r: bool)
        ensures
            r == (self.heave_point_1 == (OffsetVector { x: 0u32, y: 0u32, z: 0u32 })
                && self.heave_point_2 == (OffsetVector { x: 0u32, y: 0u32, z: 0u32 })
                && self.heave_point_3 == (OffsetVector { x: 0u32, y: 0u32, z: 0u32 })
                && self.heave_point_4 == (OffsetVector { x: 0u32, y: 0u32, z: 0u32 })),
    {
        self.offset_is_zero(self.heave_point_1) && self.offset_is_zero(self.heave_point_2)
            && self.offset_is_zero(self.heave_point_3) && self.offset_is_zero(self.heave_point_4)
    }

    /// Whether an offset holds the all-zero bit pattern.
    fn offset_is_zero(&self, v: OffsetVector) -> (r: bool)
        ensures
            r == (v == (OffsetVector { x: 0u32, y: 0u32, z: 0u32 })),
    {
        v.x == 0 && v.y == 0 && v.z == 0
    }
}

impl IpDataportEntry {
    /// Builds an entry from an address word, a port and a mode.
    pub fn new(ip_address: u32, port: u16, mode: IpDataportMode) -> (r: IpDataportEntry)
        ensures
            r == (IpDataportEntry { ip_address, port, mode }),
    {
        IpDataportEntry { ip_address, port, mode }
    }

    /// The address in dotted decimal.
    pub fn get_ip_address(&self) -> (r: String)
        ensures
            r@ == spec_dotted_decimal(self.ip_address),
    {
        dotted_decimal(self.ip_address)
    }

    /// Replaces the address with the given octets.
    pub fn set_ip_address(&mut self, o1: u8, o2: u8, o3: u8, o4: u8)
        ensures
            *final(self) == (IpDataportEntry {
                ip_address: spec_ip_word(o1, o2, o3, o4),
                ..*old(self)
            }),
    {
        self.ip_address = ip_word(o1, o2, o3, o4);
    }
}

impl IpDataportsConfigurationPacket {
    /// Configures the dataport at `index` as a TCP server on `port`.
    pub fn set_tcp_server(&mut self, index: usize, port: u16) -> (r: Result<(), AnError>)
        ensures
            index < 4 ==> r is Ok && final(self).dataports@ == old(self).dataports@.update(
                index as int,
                IpDataportEntry { ip_address: 0u32, port, mode: IpDataportMode::TcpServer },
            ),
            index >= 4 ==> (r matches Err(e) && e matches AnError::ValidationFailed(_))
                && final(self).dataports@ == old(self).dataports@,
            final(self).reserved == old(self).reserved,
    {
        self.set_dataport(
            index,
            IpDataportEntry { ip_address: 0, port, mode: IpDataportMode::TcpServer },
        )
    }

    /// Configures the dataport at `index` as a TCP client of the given
    /// address and port.
    pub fn set_tcp_client(&mut self, index: usize, ip_address: u32, port: u16) -> (r: Result<
        (),
        AnError,
    >)
        ensures
            index < 4 ==> r is Ok && final(self).dataports@ == old(self).dataports@.update(
                index as int,
                IpDataportEntry { ip_address, port, mode: IpDataportMode::TcpClient },
            ),
            index >= 4 ==> (r matches Err(e) && e matches AnError::ValidationFailed(_))
                && final(self).dataports@ == old(self).dataports@,
            final(self).reserved == old(self).reserved,
    {
        self.set_dataport(
            index,
            IpDataportEntry { ip_address, port, mode: IpDataportMode::TcpClient },
        )
    }

    /// Configures the dataport at `index` for UDP to the given address
    /// and port.
    pub fn set_udp(&mut self, index: usize, ip_address: u32, port: u16) -> (r: Result<
        (),
        AnError,
    >)
        ensures
            index < 4 ==> r is Ok && final(self).dataports@ == old(self).dataports@.update(
                index as int,
                IpDataportEntry { ip_address, port, mode: IpDataportMode::UdpClient },
            ),
            index >= 4 ==> (r matches Err(e) && e matches AnError::ValidationFailed(_))
                && final(self).dataports@ == old(self).dataports@,
            final(self).reserved == old(self).reserved,
    {
        self.set_dataport(
            index,
            IpDataportEntry { ip_address, port, mode: IpDataportMode::UdpClient },
        )
    }
}

} // verus!
