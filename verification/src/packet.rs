//! Packet identifiers, the packet registry, and the frame header.

use crate::config::{
    lemma_ip_dataports_bytes_inj, lemma_filter_options_packet_bytes_inj,
    lemma_installation_alignment_packet_bytes_inj, lemma_odometer_configuration_packet_bytes_inj,
    lemma_packet_timer_period_packet_bytes_inj, lemma_packets_period_bytes_equiv,
    lemma_reference_point_offsets_packet_bytes_inj,
    lemma_set_zero_orientation_alignment_packet_bytes_inj, FilterOptionsPacket,
    InstallationAlignmentPacket, IpDataportsConfigurationPacket, OdometerConfigurationPacket,
    PacketTimerPeriodPacket, PacketsPeriodPacket, ReferencePointOffsetsPacket,
    SetZeroOrientationAlignmentPacket,
};
use crate::error::AnError;
use crate::state::{
    lemma_euler_orientation_std_dev_packet_bytes_inj, lemma_raw_sensors_packet_bytes_inj,
    lemma_status_packet_bytes_inj, lemma_system_state_packet_bytes_inj,
    lemma_unix_time_packet_bytes_inj, EulerOrientationStdDevPacket, RawSensorsPacket,
    StatusPacket, SystemStatePacket, UnixTimePacket,
};
use crate::system::{
    lemma_acknowledge_packet_bytes_inj, lemma_boot_mode_packet_bytes_inj,
    lemma_device_information_packet_bytes_inj, lemma_ip_configuration_packet_bytes_inj,
    lemma_request_packet_bytes_inj, lemma_reset_packet_bytes_inj,
    lemma_restore_factory_settings_packet_bytes_inj, AcknowledgePacket, BootModePacket,
    DeviceInformationPacket, IpConfigurationPacket, RequestPacket, ResetPacket,
    RestoreFactorySettingsPacket,
};
use vstd::prelude::*;
use vstd::slice::slice_to_vec;

verus! {

/// A raw ANPP packet identifier byte.
#[derive(Debug, Clone, Copy, PartialEq, Eq, Structural, Hash)]
pub struct PacketId {
    pub id: u8,
}

impl PacketId {
    /// Creates a new `PacketId` from a byte.
    pub fn new(id: u8) -> (r: PacketId)
        ensures
            r.id == id,
    {
        PacketId { id }
    }

    /// The raw byte of this identifier.
    pub fn as_u8(&self) -> (r: u8)
        ensures
            r == self.id,
    {
        self.id
    }

    /// The registry entry for this identifier.
    pub fn packet_type(&self) -> (r: PacketKind)
        ensures
            r == kind_of(self.id),
    {
        PacketKind::from_u8(self.id)
    }
}

/// The five-byte ANPP frame header.
#[derive(Debug, Clone, Copy, PartialEq, Eq, Structural)]
pub struct AnppHeader {
    pub header_lrc: u8,
    pub packet_id: PacketId,
    pub length: u8,
    pub crc16: u16,
}

/// The closed registry of supported packet kinds.  `Unsupported` stands
/// for every identifier outside the registry.
#[derive(Debug, Clone, Copy, PartialEq, Eq, Structural, Hash)]
pub enum PacketKind {
    Acknowledge,
    Request,
    BootMode,
    DeviceInformation,
    RestoreFactorySettings,
    Reset,
    IpConfiguration,
    SystemState,
    UnixTime,
    Status,
    EulerOrientationStdDev,
    RawSensors,
    PacketTimerPeriod,
    PacketsPeriod,
    InstallationAlignment,
    FilterOptions,
    OdometerConfiguration,
    SetZeroOrientationAlignment,
    ReferencePointOffsets,
    IpDataportsConfiguration,
    Unsupported,
}

/// The packet kind registered for an identifier byte.
pub open spec fn kind_of(id: u8) -> PacketKind {
    match id {
        0u8 => PacketKind::Acknowledge,
        1u8 => PacketKind::Request,
        2u8 => PacketKind::BootMode,
        3u8 => PacketKind::DeviceInformation,
        4u8 => PacketKind::RestoreFactorySettings,
        5u8 => PacketKind::Reset,
        11u8 => PacketKind::IpConfiguration,
        20u8 => PacketKind::SystemState,
        21u8 => PacketKind::UnixTime,
        23u8 => PacketKind::Status,
        26u8 => PacketKind::EulerOrientationStdDev,
        28u8 => PacketKind::RawSensors,
        180u8 => PacketKind::PacketTimerPeriod,
        181u8 => PacketKind::PacketsPeriod,
        185u8 => PacketKind::InstallationAlignment,
        186u8 => PacketKind::FilterOptions,
        192u8 => PacketKind::OdometerConfiguration,
        193u8 => PacketKind::SetZeroOrientationAlignment,
        194u8 => PacketKind::ReferencePointOffsets,
        202u8 => PacketKind::IpDataportsConfiguration,
        _ => PacketKind::Unsupported,
    }
}

/// The statically known payload length of a kind, or `None` for the one
/// self-describing variable-length kind and for `Unsupported`.
pub open spec fn spec_byte_length(kind: PacketKind) -> Option<usize> {
    match kind {
        PacketKind::Acknowledge => Some(4usize),
        PacketKind::Request => Some(1usize),
        PacketKind::BootMode => Some(1usize),
        PacketKind::DeviceInformation => Some(24usize),
        PacketKind::RestoreFactorySettings => Some(4usize),
        PacketKind::Reset => Some(4usize),
        PacketKind::IpConfiguration => Some(30usize),
        PacketKind::SystemState => Some(100usize),
        PacketKind::UnixTime => Some(8usize),
        PacketKind::Status => Some(4usize),
        PacketKind::EulerOrientationStdDev => Some(12usize),
        PacketKind::RawSensors => Some(48usize),
        PacketKind::PacketTimerPeriod => Some(4usize),
        PacketKind::PacketsPeriod => None,
        PacketKind::InstallationAlignment => Some(73usize),
        PacketKind::FilterOptions => Some(17usize),
        PacketKind::OdometerConfiguration => Some(8usize),
        PacketKind::SetZeroOrientationAlignment => Some(5usize),
        PacketKind::ReferencePointOffsets => Some(49usize),
        PacketKind::IpDataportsConfiguration => Some(30usize),
        PacketKind::Unsupported => None,
    }
}

impl PacketKind {
    /// Looks an identifier byte up in the registry.
    pub fn from_u8(id: u8) -> (r: PacketKind)
        ensures
            r == kind_of(id),
    {
        match id {
            0u8 => PacketKind::Acknowledge,
            1u8 => PacketKind::Request,
            2u8 => PacketKind::BootMode,
            3u8 => PacketKind::DeviceInformation,
            4u8 => PacketKind::RestoreFactorySettings,
            5u8 => PacketKind::Reset,
            11u8 => PacketKind::IpConfiguration,
            20u8 => PacketKind::SystemState,
            21u8 => PacketKind::UnixTime,
            23u8 => PacketKind::Status,
            26u8 => PacketKind::EulerOrientationStdDev,
            28u8 => PacketKind::RawSensors,
            180u8 => PacketKind::PacketTimerPeriod,
            181u8 => PacketKind::PacketsPeriod,
            185u8 => PacketKind::InstallationAlignment,
            186u8 => PacketKind::FilterOptions,
            192u8 => PacketKind::OdometerConfiguration,
            193u8 => PacketKind::SetZeroOrientationAlignment,
            194u8 => PacketKind::ReferencePointOffsets,
            202u8 => PacketKind::IpDataportsConfiguration,
            _ => PacketKind::Unsupported,
        }
    }

    /// The statically known payload length of this kind, if any.
    pub fn byte_length(&self) -> (r: Option<usize>)
        ensures
            r == spec_byte_length(*self),
    {
        match self {
            PacketKind::Acknowledge => Some(4),
            PacketKind::Request => Some(1),
            PacketKind::BootMode => Some(1),
            PacketKind::DeviceInformation => Some(24),
            PacketKind::RestoreFactorySettings => Some(4),
            PacketKind::Reset => Some(4),
            PacketKind::IpConfiguration => Some(30),
            PacketKind::SystemState => Some(100),
            PacketKind::UnixTime => Some(8),
            PacketKind::Status => Some(4),
            PacketKind::EulerOrientationStdDev => Some(12),
            PacketKind::RawSensors => Some(48),
            PacketKind::PacketTimerPeriod => Some(4),
            PacketKind::PacketsPeriod => None,
            PacketKind::InstallationAlignment => Some(73),
            PacketKind::FilterOptions => Some(17),
            PacketKind::OdometerConfiguration => Some(8),
            PacketKind::SetZeroOrientationAlignment => Some(5),
            PacketKind::ReferencePointOffsets => Some(49),
            PacketKind::IpDataportsConfiguration => Some(30),
            PacketKind::Unsupported => None,
        }
    }
}

/// A decoded packet of any registered kind, or the raw payload of an
/// unregistered one.
#[derive(Debug, Clone, PartialEq)]
pub enum AnppPacket {
    Acknowledge(AcknowledgePacket),
    Request(RequestPacket),
    BootMode(BootModePacket),
    DeviceInformation(DeviceInformationPacket),
    RestoreFactorySettings(RestoreFactorySettingsPacket),
    Reset(ResetPacket),
    IpConfiguration(IpConfigurationPacket),
    SystemState(SystemStatePacket),
    UnixTime(UnixTimePacket),
    Status(StatusPacket),
    EulerOrientationStdDev(EulerOrientationStdDevPacket),
    RawSensors(RawSensorsPacket),
    PacketTimerPeriod(PacketTimerPeriodPacket),
    PacketsPeriod(PacketsPeriodPacket),
    InstallationAlignment(InstallationAlignmentPacket),
    FilterOptions(FilterOptionsPacket),
    OdometerConfiguration(OdometerConfigurationPacket),
    SetZeroOrientationAlignment(SetZeroOrientationAlignmentPacket),
    ReferencePointOffsets(ReferencePointOffsetsPacket),
    IpDataportsConfiguration(IpDataportsConfigurationPacket),
    Unsupported(Vec<u8>),
}

/// Whether a payload decodes for the kind registered at `id`.  An
/// unregistered identifier accepts any payload.
pub open spec fn payload_decodable(id: u8, data: Seq<u8>) -> bool {
    match kind_of(id) {
        PacketKind::Acknowledge => AcknowledgePacket::decodable(data),
        PacketKind::Request => RequestPacket::decodable(data),
        PacketKind::BootMode => BootModePacket::decodable(data),
        PacketKind::DeviceInformation => DeviceInformationPacket::decodable(data),
        PacketKind::RestoreFactorySettings => RestoreFactorySettingsPacket::decodable(data),
        PacketKind::Reset => ResetPacket::decodable(data),
        PacketKind::IpConfiguration => IpConfigurationPacket::decodable(data),
        PacketKind::SystemState => SystemStatePacket::decodable(data),
        PacketKind::UnixTime => UnixTimePacket::decodable(data),
        PacketKind::Status => StatusPacket::decodable(data),
        PacketKind::EulerOrientationStdDev => EulerOrientationStdDevPacket::decodable(data),
        PacketKind::RawSensors => RawSensorsPacket::decodable(data),
        PacketKind::PacketTimerPeriod => PacketTimerPeriodPacket::decodable(data),
        PacketKind::PacketsPeriod => PacketsPeriodPacket::decodable(data),
        PacketKind::InstallationAlignment => InstallationAlignmentPacket::decodable(data),
        PacketKind::FilterOptions => FilterOptionsPacket::decodable(data),
        PacketKind::OdometerConfiguration => OdometerConfigurationPacket::decodable(data),
        PacketKind::SetZeroOrientationAlignment => SetZeroOrientationAlignmentPacket::decodable(data),
        PacketKind::ReferencePointOffsets => ReferencePointOffsetsPacket::decodable(data),
        PacketKind::IpDataportsConfiguration => IpDataportsConfigurationPacket::decodable(data),
        PacketKind::Unsupported => true,
    }
}

impl AnppPacket {
    /// The registry kind of this packet.
    pub open spec fn spec_kind(self) -> PacketKind {
        match self {
            AnppPacket::Acknowledge(_) => PacketKind::Acknowledge,
            AnppPacket::Request(_) => PacketKind::Request,
            AnppPacket::BootMode(_) => PacketKind::BootMode,
            AnppPacket::DeviceInformation(_) => PacketKind::DeviceInformation,
            AnppPacket::RestoreFactorySettings(_) => PacketKind::RestoreFactorySettings,
            AnppPacket::Reset(_) => PacketKind::Reset,
            AnppPacket::IpConfiguration(_) => PacketKind::IpConfiguration,
            AnppPacket::SystemState(_) => PacketKind::SystemState,
            AnppPacket::UnixTime(_) => PacketKind::UnixTime,
            AnppPacket::Status(_) => PacketKind::Status,
            AnppPacket::EulerOrientationStdDev(_) => PacketKind::EulerOrientationStdDev,
            AnppPacket::RawSensors(_) => PacketKind::RawSensors,
            AnppPacket::PacketTimerPeriod(_) => PacketKind::PacketTimerPeriod,
            AnppPacket::PacketsPeriod(_) => PacketKind::PacketsPeriod,
            AnppPacket::InstallationAlignment(_) => PacketKind::InstallationAlignment,
            AnppPacket::FilterOptions(_) => PacketKind::FilterOptions,
            AnppPacket::OdometerConfiguration(_) => PacketKind::OdometerConfiguration,
            AnppPacket::SetZeroOrientationAlignment(_) => PacketKind::SetZeroOrientationAlignment,
            AnppPacket::ReferencePointOffsets(_) => PacketKind::ReferencePointOffsets,
            AnppPacket::IpDataportsConfiguration(_) => PacketKind::IpDataportsConfiguration,
            AnppPacket::Unsupported(_) => PacketKind::Unsupported,
        }
    }

    /// The exact payload encoding of this packet.
    pub open spec fn spec_payload(self) -> Seq<u8> {
        match self {
            AnppPacket::Acknowledge(p) => p.spec_bytes(),
            AnppPacket::Request(p) => p.spec_bytes(),
            AnppPacket::BootMode(p) => p.spec_bytes(),
            AnppPacket::DeviceInformation(p) => p.spec_bytes(),
            AnppPacket::RestoreFactorySettings(p) => p.spec_bytes(),
            AnppPacket::Reset(p) => p.spec_bytes(),
            AnppPacket::IpConfiguration(p) => p.spec_bytes(),
            AnppPacket::SystemState(p) => p.spec_bytes(),
            AnppPacket::UnixTime(p) => p.spec_bytes(),
            AnppPacket::Status(p) => p.spec_bytes(),
            AnppPacket::EulerOrientationStdDev(p) => p.spec_bytes(),
            AnppPacket::RawSensors(p) => p.spec_bytes(),
            AnppPacket::PacketTimerPeriod(p) => p.spec_bytes(),
            AnppPacket::PacketsPeriod(p) => p.spec_bytes(),
            AnppPacket::InstallationAlignment(p) => p.spec_bytes(),
            AnppPacket::FilterOptions(p) => p.spec_bytes(),
            AnppPacket::OdometerConfiguration(p) => p.spec_bytes(),
            AnppPacket::SetZeroOrientationAlignment(p) => p.spec_bytes(),
            AnppPacket::ReferencePointOffsets(p) => p.spec_bytes(),
            AnppPacket::IpDataportsConfiguration(p) => p.spec_bytes(),
            AnppPacket::Unsupported(d) => d@,
        }
    }

    /// Whether the packet can be framed: the packets period entry list
    /// must fit the one-byte frame length.
    pub open spec fn wf(self) -> bool {
        match self {
            AnppPacket::PacketsPeriod(p) => p.wf(),
            _ => true,
        }
    }

    /// Structural equality, with growable contents compared element-wise.
    pub open spec fn equiv(self, other: AnppPacket) -> bool {
        match (self, other) {
            (AnppPacket::Acknowledge(p), AnppPacket::Acknowledge(q)) => p == q,
            (AnppPacket::Request(p), AnppPacket::Request(q)) => p == q,
            (AnppPacket::BootMode(p), AnppPacket::BootMode(q)) => p == q,
            (AnppPacket::DeviceInformation(p), AnppPacket::DeviceInformation(q)) => p == q,
            (AnppPacket::RestoreFactorySettings(p), AnppPacket::RestoreFactorySettings(q)) => p == q,
            (AnppPacket::Reset(p), AnppPacket::Reset(q)) => p == q,
            (AnppPacket::IpConfiguration(p), AnppPacket::IpConfiguration(q)) => p == q,
            (AnppPacket::SystemState(p), AnppPacket::SystemState(q)) => p == q,
            (AnppPacket::UnixTime(p), AnppPacket::UnixTime(q)) => p == q,
            (AnppPacket::Status(p), AnppPacket::Status(q)) => p == q,
            (AnppPacket::EulerOrientationStdDev(p), AnppPacket::EulerOrientationStdDev(q)) => p == q,
            (AnppPacket::RawSensors(p), AnppPacket::RawSensors(q)) => p == q,
            (AnppPacket::PacketTimerPeriod(p), AnppPacket::PacketTimerPeriod(q)) => p == q,
            (AnppPacket::PacketsPeriod(p), AnppPacket::PacketsPeriod(q)) => p.equiv(q),
            (AnppPacket::InstallationAlignment(p), AnppPacket::InstallationAlignment(q)) => p == q,
            (AnppPacket::FilterOptions(p), AnppPacket::FilterOptions(q)) => p == q,
            (AnppPacket::OdometerConfiguration(p), AnppPacket::OdometerConfiguration(q)) => p == q,
            (AnppPacket::SetZeroOrientationAlignment(p), AnppPacket::SetZeroOrientationAlignment(q)) => p == q,
            (AnppPacket::ReferencePointOffsets(p), AnppPacket::ReferencePointOffsets(q)) => p == q,
            (AnppPacket::IpDataportsConfiguration(p), AnppPacket::IpDataportsConfiguration(q)) => p == q,
            (AnppPacket::Unsupported(d), AnppPacket::Unsupported(e)) => d@ == e@,
            _ => false,
        }
    }

    /// The registry kind of this packet.
    pub fn kind(&self) -> (r: PacketKind)
        ensures
            r == self.spec_kind(),
    {
        match self {
            AnppPacket::Acknowledge(_) => PacketKind::Acknowledge,
            AnppPacket::Request(_) => PacketKind::Request,
            AnppPacket::BootMode(_) => PacketKind::BootMode,
            AnppPacket::DeviceInformation(_) => PacketKind::DeviceInformation,
            AnppPacket::RestoreFactorySettings(_) => PacketKind::RestoreFactorySettings,
            AnppPacket::Reset(_) => PacketKind::Reset,
            AnppPacket::IpConfiguration(_) => PacketKind::IpConfiguration,
            AnppPacket::SystemState(_) => PacketKind::SystemState,
            AnppPacket::UnixTime(_) => PacketKind::UnixTime,
            AnppPacket::Status(_) => PacketKind::Status,
            AnppPacket::EulerOrientationStdDev(_) => PacketKind::EulerOrientationStdDev,
            AnppPacket::RawSensors(_) => PacketKind::RawSensors,
            AnppPacket::PacketTimerPeriod(_) => PacketKind::PacketTimerPeriod,
            AnppPacket::PacketsPeriod(_) => PacketKind::PacketsPeriod,
            AnppPacket::InstallationAlignment(_) => PacketKind::InstallationAlignment,
            AnppPacket::FilterOptions(_) => PacketKind::FilterOptions,
            AnppPacket::OdometerConfiguration(_) => PacketKind::OdometerConfiguration,
            AnppPacket::SetZeroOrientationAlignment(_) => PacketKind::SetZeroOrientationAlignment,
            AnppPacket::ReferencePointOffsets(_) => PacketKind::ReferencePointOffsets,
            AnppPacket::IpDataportsConfiguration(_) => PacketKind::IpDataportsConfiguration,
            AnppPacket::Unsupported(_) => PacketKind::Unsupported,
        }
    }

    /// The identifier byte of this packet; an unsupported packet
    /// reports 0xFF.
    pub open spec fn spec_packet_id(self) -> u8 {
        match self {
            AnppPacket::Acknowledge(_) => 0u8,
            AnppPacket::Request(_) => 1u8,
            AnppPacket::BootMode(_) => 2u8,
            AnppPacket::DeviceInformation(_) => 3u8,
            AnppPacket::RestoreFactorySettings(_) => 4u8,
            AnppPacket::Reset(_) => 5u8,
            AnppPacket::IpConfiguration(_) => 11u8,
            AnppPacket::SystemState(_) => 20u8,
            AnppPacket::UnixTime(_) => 21u8,
            AnppPacket::Status(_) => 23u8,
            AnppPacket::EulerOrientationStdDev(_) => 26u8,
            AnppPacket::RawSensors(_) => 28u8,
            AnppPacket::PacketTimerPeriod(_) => 180u8,
            AnppPacket::PacketsPeriod(_) => 181u8,
            AnppPacket::InstallationAlignment(_) => 185u8,
            AnppPacket::FilterOptions(_) => 186u8,
            AnppPacket::OdometerConfiguration(_) => 192u8,
            AnppPacket::SetZeroOrientationAlignment(_) => 193u8,
            AnppPacket::ReferencePointOffsets(_) => 194u8,
            AnppPacket::IpDataportsConfiguration(_) => 202u8,
            AnppPacket::Unsupported(_) => 0xFFu8,
        }
    }

    /// The identifier byte of this packet.
    pub fn packet_id(&self) -> (r: u8)
        ensures
            r == self.spec_packet_id(),
    {
        match self {
            AnppPacket::Acknowledge(_) => 0,
            AnppPacket::Request(_) => 1,
            AnppPacket::BootMode(_) => 2,
            AnppPacket::DeviceInformation(_) => 3,
            AnppPacket::RestoreFactorySettings(_) => 4,
            AnppPacket::Reset(_) => 5,
            AnppPacket::IpConfiguration(_) => 11,
            AnppPacket::SystemState(_) => 20,
            AnppPacket::UnixTime(_) => 21,
            AnppPacket::Status(_) => 23,
            AnppPacket::EulerOrientationStdDev(_) => 26,
            AnppPacket::RawSensors(_) => 28,
            AnppPacket::PacketTimerPeriod(_) => 180,
            AnppPacket::PacketsPeriod(_) => 181,
            AnppPacket::InstallationAlignment(_) => 185,
            AnppPacket::FilterOptions(_) => 186,
            AnppPacket::OdometerConfiguration(_) => 192,
            AnppPacket::SetZeroOrientationAlignment(_) => 193,
            AnppPacket::ReferencePointOffsets(_) => 194,
            AnppPacket::IpDataportsConfiguration(_) => 202,
            AnppPacket::Unsupported(_) => 0xFF,
        }
    }

    /// The statically known payload length of this packet's kind.
    pub fn byte_length(&self) -> (r: Option<usize>)
        ensures
            r == spec_byte_length(self.spec_kind()),
    {
        self.kind().byte_length()
    }

    /// Decodes a payload for the kind registered at `packet_id`.  An
    /// unregistered identifier yields `Unsupported` with the raw bytes;
    /// a registered one decodes exactly when the payload has its
    /// kind's shape.
    pub fn from_bytes(packet_id: u8, data: &[u8]) -> (r: Result<AnppPacket, AnError>)
        ensures
            payload_decodable(packet_id, data@) ==> (r matches Ok(p) && p.wf()
                && p.spec_kind() == kind_of(packet_id) && p.spec_payload() == data@),
            !payload_decodable(packet_id, data@) ==> (r matches Err(e)
                && e matches AnError::InvalidPacket(_)),
    {
        match PacketKind::from_u8(packet_id) {
            PacketKind::Acknowledge => match AcknowledgePacket::from_bytes(data) {
                Ok(p) => Ok(AnppPacket::Acknowledge(p)),
                Err(e) => Err(e),
            },
            PacketKind::Request => match RequestPacket::from_bytes(data) {
                Ok(p) => Ok(AnppPacket::Request(p)),
                Err(e) => Err(e),
            },
            PacketKind::BootMode => match BootModePacket::from_bytes(data) {
                Ok(p) => Ok(AnppPacket::BootMode(p)),
                Err(e) => Err(e),
            },
            PacketKind::DeviceInformation => match DeviceInformationPacket::from_bytes(data) {
                Ok(p) => Ok(AnppPacket::DeviceInformation(p)),
                Err(e) => Err(e),
            },
            PacketKind::RestoreFactorySettings => match RestoreFactorySettingsPacket::from_bytes(data) {
                Ok(p) => Ok(AnppPacket::RestoreFactorySettings(p)),
                Err(e) => Err(e),
            },
            PacketKind::Reset => match ResetPacket::from_bytes(data) {
                Ok(p) => Ok(AnppPacket::Reset(p)),
                Err(e) => Err(e),
            },
            PacketKind::IpConfiguration => match IpConfigurationPacket::from_bytes(data) {
                Ok(p) => Ok(AnppPacket::IpConfiguration(p)),
                Err(e) => Err(e),
            },
            PacketKind::SystemState => match SystemStatePacket::from_bytes(data) {
                Ok(p) => Ok(AnppPacket::SystemState(p)),
                Err(e) => Err(e),
            },
            PacketKind::UnixTime => match UnixTimePacket::from_bytes(data) {
                Ok(p) => Ok(AnppPacket::UnixTime(p)),
                Err(e) => Err(e),
            },
            PacketKind::Status => match StatusPacket::from_bytes(data) {
                Ok(p) => Ok(AnppPacket::Status(p)),
                Err(e) => Err(e),
            },
            PacketKind::EulerOrientationStdDev => match EulerOrientationStdDevPacket::from_bytes(data) {
                Ok(p) => Ok(AnppPacket::EulerOrientationStdDev(p)),
                Err(e) => Err(e),
            },
            PacketKind::RawSensors => match RawSensorsPacket::from_bytes(data) {
                Ok(p) => Ok(AnppPacket::RawSensors(p)),
                Err(e) => Err(e),
            },
            PacketKind::PacketTimerPeriod => match PacketTimerPeriodPacket::from_bytes(data) {
                Ok(p) => Ok(AnppPacket::PacketTimerPeriod(p)),
                Err(e) => Err(e),
            },
            PacketKind::PacketsPeriod => match PacketsPeriodPacket::from_bytes(data) {
                Ok(p) => Ok(AnppPacket::PacketsPeriod(p)),
                Err(e) => Err(e),
            },
            PacketKind::InstallationAlignment => match InstallationAlignmentPacket::from_bytes(data) {
                Ok(p) => Ok(AnppPacket::InstallationAlignment(p)),
                Err(e) => Err(e),
            },
            PacketKind::FilterOptions => match FilterOptionsPacket::from_bytes(data) {
                Ok(p) => Ok(AnppPacket::FilterOptions(p)),
                Err(e) => Err(e),
            },
            PacketKind::OdometerConfiguration => match OdometerConfigurationPacket::from_bytes(data) {
                Ok(p) => Ok(AnppPacket::OdometerConfiguration(p)),
                Err(e) => Err(e),
            },
            PacketKind::SetZeroOrientationAlignment => match SetZeroOrientationAlignmentPacket::from_bytes(data) {
                Ok(p) => Ok(AnppPacket::SetZeroOrientationAlignment(p)),
                Err(e) => Err(e),
            },
            PacketKind::ReferencePointOffsets => match ReferencePointOffsetsPacket::from_bytes(data) {
                Ok(p) => Ok(AnppPacket::ReferencePointOffsets(p)),
                Err(e) => Err(e),
            },
            PacketKind::IpDataportsConfiguration => match IpDataportsConfigurationPacket::from_bytes(data) {
                Ok(p) => Ok(AnppPacket::IpDataportsConfiguration(p)),
                Err(e) => Err(e),
            },
            PacketKind::Unsupported => Ok(AnppPacket::Unsupported(slice_to_vec(data))),
        }
    }

    /// Encodes the packet as its exact payload bytes.
    pub fn to_bytes(&self) -> (r: Result<Vec<u8>, AnError>)
        ensures
            r matches Ok(v) && v@ == self.spec_payload(),
    {
        match self {
            AnppPacket::Acknowledge(p) => Ok(p.to_bytes()),
            AnppPacket::Request(p) => Ok(p.to_bytes()),
            AnppPacket::BootMode(p) => Ok(p.to_bytes()),
            AnppPacket::DeviceInformation(p) => Ok(p.to_bytes()),
            AnppPacket::RestoreFactorySettings(p) => Ok(p.to_bytes()),
            AnppPacket::Reset(p) => Ok(p.to_bytes()),
            AnppPacket::IpConfiguration(p) => Ok(p.to_bytes()),
            AnppPacket::SystemState(p) => Ok(p.to_bytes()),
            AnppPacket::UnixTime(p) => Ok(p.to_bytes()),
            AnppPacket::Status(p) => Ok(p.to_bytes()),
            AnppPacket::EulerOrientationStdDev(p) => Ok(p.to_bytes()),
            AnppPacket::RawSensors(p) => Ok(p.to_bytes()),
            AnppPacket::PacketTimerPeriod(p) => Ok(p.to_bytes()),
            AnppPacket::PacketsPeriod(p) => Ok(p.to_bytes()),
            AnppPacket::InstallationAlignment(p) => Ok(p.to_bytes()),
            AnppPacket::FilterOptions(p) => Ok(p.to_bytes()),
            AnppPacket::OdometerConfiguration(p) => Ok(p.to_bytes()),
            AnppPacket::SetZeroOrientationAlignment(p) => Ok(p.to_bytes()),
            AnppPacket::ReferencePointOffsets(p) => Ok(p.to_bytes()),
            AnppPacket::IpDataportsConfiguration(p) => Ok(p.to_bytes()),
            AnppPacket::Unsupported(d) => Ok(slice_to_vec(d.as_slice())),
        }
    }
}

/// One payload, one packet: two framable packets of the same kind with
/// the same payload encoding are the same packet, the packets period
/// entry list and an unsupported payload compared element-wise.  With
/// the contracts of `AnppPacket::to_bytes` and `AnppPacket::from_bytes`
/// this says that decoding an encoded packet gives the packet back.
pub proof fn lemma_payload_determines_packet(a: AnppPacket, b: AnppPacket)
    requires
        a.spec_kind() == b.spec_kind(),
        a.spec_payload() == b.spec_payload(),
    ensures
        a.equiv(b),
{
    match (a, b) {
        (AnppPacket::Acknowledge(x), AnppPacket::Acknowledge(y)) => lemma_acknowledge_packet_bytes_inj(x, y),
        (AnppPacket::Request(x), AnppPacket::Request(y)) => lemma_request_packet_bytes_inj(x, y),
        (AnppPacket::BootMode(x), AnppPacket::BootMode(y)) => lemma_boot_mode_packet_bytes_inj(x, y),
        (AnppPacket::DeviceInformation(x), AnppPacket::DeviceInformation(y)) => lemma_device_information_packet_bytes_inj(x, y),
        (AnppPacket::RestoreFactorySettings(x), AnppPacket::RestoreFactorySettings(y)) => lemma_restore_factory_settings_packet_bytes_inj(x, y),
        (AnppPacket::Reset(x), AnppPacket::Reset(y)) => lemma_reset_packet_bytes_inj(x, y),
        (AnppPacket::IpConfiguration(x), AnppPacket::IpConfiguration(y)) => lemma_ip_configuration_packet_bytes_inj(x, y),
        (AnppPacket::SystemState(x), AnppPacket::SystemState(y)) => lemma_system_state_packet_bytes_inj(x, y),
        (AnppPacket::UnixTime(x), AnppPacket::UnixTime(y)) => lemma_unix_time_packet_bytes_inj(x, y),
        (AnppPacket::Status(x), AnppPacket::Status(y)) => lemma_status_packet_bytes_inj(x, y),
        (AnppPacket::EulerOrientationStdDev(x), AnppPacket::EulerOrientationStdDev(y)) => lemma_euler_orientation_std_dev_packet_bytes_inj(x, y),
        (AnppPacket::RawSensors(x), AnppPacket::RawSensors(y)) => lemma_raw_sensors_packet_bytes_inj(x, y),
        (AnppPacket::PacketTimerPeriod(x), AnppPacket::PacketTimerPeriod(y)) => lemma_packet_timer_period_packet_bytes_inj(x, y),
        (AnppPacket::PacketsPeriod(x), AnppPacket::PacketsPeriod(y)) => lemma_packets_period_bytes_equiv(x, y),
        (AnppPacket::InstallationAlignment(x), AnppPacket::InstallationAlignment(y)) => lemma_installation_alignment_packet_bytes_inj(x, y),
        (AnppPacket::FilterOptions(x), AnppPacket::FilterOptions(y)) => lemma_filter_options_packet_bytes_inj(x, y),
        (AnppPacket::OdometerConfiguration(x), AnppPacket::OdometerConfiguration(y)) => lemma_odometer_configuration_packet_bytes_inj(x, y),
        (AnppPacket::SetZeroOrientationAlignment(x), AnppPacket::SetZeroOrientationAlignment(y)) => lemma_set_zero_orientation_alignment_packet_bytes_inj(x, y),
        (AnppPacket::ReferencePointOffsets(x), AnppPacket::ReferencePointOffsets(y)) => lemma_reference_point_offsets_packet_bytes_inj(x, y),
        (AnppPacket::IpDataportsConfiguration(x), AnppPacket::IpDataportsConfiguration(y)) => lemma_ip_dataports_bytes_inj(x, y),
        (AnppPacket::Unsupported(_), AnppPacket::Unsupported(_)) => {}
        _ => {
            assert(false);
        },
    }
}

/// The registry identifier of a kind; `Unsupported` reports 0xFF.
pub open spec fn spec_id_of_kind(kind: PacketKind) -> u8 {
    match kind {
        PacketKind::Acknowledge => 0u8,
        PacketKind::Request => 1u8,
        PacketKind::BootMode => 2u8,
        PacketKind::DeviceInformation => 3u8,
        PacketKind::RestoreFactorySettings => 4u8,
        PacketKind::Reset => 5u8,
        PacketKind::IpConfiguration => 11u8,
        PacketKind::SystemState => 20u8,
        PacketKind::UnixTime => 21u8,
        PacketKind::Status => 23u8,
        PacketKind::EulerOrientationStdDev => 26u8,
        PacketKind::RawSensors => 28u8,
        PacketKind::PacketTimerPeriod => 180u8,
        PacketKind::PacketsPeriod => 181u8,
        PacketKind::InstallationAlignment => 185u8,
        PacketKind::FilterOptions => 186u8,
        PacketKind::OdometerConfiguration => 192u8,
        PacketKind::SetZeroOrientationAlignment => 193u8,
        PacketKind::ReferencePointOffsets => 194u8,
        PacketKind::IpDataportsConfiguration => 202u8,
        PacketKind::Unsupported => 0xFFu8,
    }
}

/// The registry identifier of a kind; `Unsupported` reports 0xFF.
pub fn id_of_kind(kind: PacketKind) -> (r: u8)
    ensures
        r == spec_id_of_kind(kind),
{
    match kind {
        PacketKind::Acknowledge => 0,
        PacketKind::Request => 1,
        PacketKind::BootMode => 2,
        PacketKind::DeviceInformation => 3,
        PacketKind::RestoreFactorySettings => 4,
        PacketKind::Reset => 5,
        PacketKind::IpConfiguration => 11,
        PacketKind::SystemState => 20,
        PacketKind::UnixTime => 21,
        PacketKind::Status => 23,
        PacketKind::EulerOrientationStdDev => 26,
        PacketKind::RawSensors => 28,
        PacketKind::PacketTimerPeriod => 180,
        PacketKind::PacketsPeriod => 181,
        PacketKind::InstallationAlignment => 185,
        PacketKind::FilterOptions => 186,
        PacketKind::OdometerConfiguration => 192,
        PacketKind::SetZeroOrientationAlignment => 193,
        PacketKind::ReferencePointOffsets => 194,
        PacketKind::IpDataportsConfiguration => 202,
        PacketKind::Unsupported => 0xFF,
    }
}

impl PacketId {
    /// Wraps a byte that is registered; unregistered bytes give `None`.
    pub fn from_u8(value: u8) -> (r: Option<PacketId>)
        ensures
            !(kind_of(value) is Unsupported) ==> r == Some(PacketId { id: value }),
            kind_of(value) is Unsupported ==> r is None,
    {
        if PacketKind::from_u8(value) == PacketKind::Unsupported {
            None
        } else {
            Some(PacketId { id: value })
        }
    }
}

} // verus!
