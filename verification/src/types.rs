//! The ergonomic packet enum: one variant per supported kind, built
//! from the wire-typed packets and encodable back to ready-to-send
//! frames.

use crate::config::{
    spec_entries_bytes, FilterOptionsPacket, InstallationAlignmentPacket, IpDataportEntry,
    IpDataportsConfigurationPacket, OdometerConfigurationPacket, PacketPeriodEntry,
    PacketTimerPeriodPacket, ReferencePointOffsetsPacket, SetZeroOrientationAlignmentPacket,
};
use crate::config_types::{
    FilterOptions, InstallationAlignment, IpDataport, IpDataportsConfiguration,
    OdometerConfiguration, PacketPeriod, PacketTimerPeriod, PacketsPeriod, ReferencePointOffsets,
    SetZeroOrientationAlignment,
};
use crate::error::AnError;
use crate::packet::{kind_of, spec_id_of_kind, AnppPacket, PacketId};
use crate::protocol::{spec_frame, AnppProtocol};
use crate::state::ExternalTimePacket;
use crate::state_types::{
    EulerOrientationStdDev, ExternalTime, FilterStatus, RawSensors, Status, SystemState,
    SystemStatus, UnixTime,
};
use crate::system::{
    BootModePacket, IpConfigurationPacket, RequestPacket, ResetPacket,
    RestoreFactorySettingsPacket,
};
use crate::system_types::{
    spec_ack_result, Acknowledge, BootMode, DeviceInformation, IpConfiguration, Request, Reset,
    RestoreFactorySettings,
};
use vstd::prelude::*;

verus! {

broadcast use vstd::array::group_array_axioms;

/// A packet of any supported kind in its ergonomic form.  Read-only
/// telemetry kinds cannot be encoded for sending.
#[derive(Debug, Clone, PartialEq)]
pub enum Packet {
    Acknowledge(Acknowledge),
    Request(Request),
    BootMode(BootMode),
    DeviceInformation(DeviceInformation),
    RestoreFactorySettings(RestoreFactorySettings),
    Reset(Reset),
    IpConfiguration(IpConfiguration),
    SystemState(SystemState),
    UnixTime(UnixTime),
    Status(Status),
    EulerOrientationStdDev(EulerOrientationStdDev),
    RawSensors(RawSensors),
    ExternalTime(ExternalTime),
    PacketTimerPeriod(PacketTimerPeriod),
    PacketsPeriod(PacketsPeriod),
    InstallationAlignment(InstallationAlignment),
    FilterOptions(FilterOptions),
    OdometerConfiguration(OdometerConfiguration),
    SetZeroOrientationAlignment(SetZeroOrientationAlignment),
    ReferencePointOffsets(ReferencePointOffsets),
    IpDataportsConfiguration(IpDataportsConfiguration),
    Unsupported,
}

impl Packet {
    /// Promotes a wire-typed packet to its ergonomic form.
    pub fn from_anpp(p: AnppPacket) -> (r: Packet)
        ensures
            p matches AnppPacket::Acknowledge(w) ==> r == Packet::Acknowledge(Acknowledge { acknowledged_packet: kind_of(w.packet_id), result: spec_ack_result(w.result) }),
            p matches AnppPacket::Request(w) ==> r == Packet::Request(Request { requested_packet: kind_of(w.packet_id) }),
            p matches AnppPacket::BootMode(w) ==> r == Packet::BootMode(BootMode { boot_mode: w.boot_mode }),
            p matches AnppPacket::DeviceInformation(w) ==> r == Packet::DeviceInformation(DeviceInformation { software_version: w.software_version, device_id: w.device_id, hardware_revision: w.hardware_revision, serial_number_1: w.serial_number_1, serial_number_2: w.serial_number_2, serial_number_3: w.serial_number_3 }),
            p matches AnppPacket::RestoreFactorySettings(_) ==> r == Packet::RestoreFactorySettings(RestoreFactorySettings),
            p matches AnppPacket::Reset(_) ==> r == Packet::Reset(Reset),
            p matches AnppPacket::IpConfiguration(w) ==> r == Packet::IpConfiguration(IpConfiguration { permanent: w.permanent != 0, dhcp_mode: w.dhcp_mode, ip_address: w.ip_address, ip_netmask: w.ip_netmask, ip_gateway: w.ip_gateway, dns_server: w.dns_server, boreas_serial_number_part_1: w.boreas_serial_number_part_1, boreas_serial_number_part_2: w.boreas_serial_number_part_2, boreas_serial_number_part_3: w.boreas_serial_number_part_3 }),
            p matches AnppPacket::SystemState(w) ==> r == Packet::SystemState(SystemState { system_status: SystemStatus::spec_from_bits(w.system_status.bits), filter_status: FilterStatus::spec_from_bits(w.filter_status.bits), unix_time_seconds: w.unix_time_seconds, microseconds: w.microseconds, latitude: w.latitude, longitude: w.longitude, height: w.height, velocity_north: w.velocity_north, velocity_east: w.velocity_east, velocity_down: w.velocity_down, body_acceleration_x: w.body_acceleration_x, body_acceleration_y: w.body_acceleration_y, body_acceleration_z: w.body_acceleration_z, g_force: w.g_force, roll: w.roll, pitch: w.pitch, heading: w.heading, angular_velocity_x: w.angular_velocity_x, angular_velocity_y: w.angular_velocity_y, angular_velocity_z: w.angular_velocity_z, latitude_std_dev: w.latitude_std_dev, longitude_std_dev: w.longitude_std_dev, height_std_dev: w.height_std_dev }),
            p matches AnppPacket::UnixTime(w) ==> r == Packet::UnixTime(UnixTime { unix_time_seconds: w.unix_time_seconds, microseconds: w.microseconds }),
            p matches AnppPacket::Status(w) ==> r == Packet::Status(Status { system_status: SystemStatus::spec_from_bits(w.system_status.bits), filter_status: FilterStatus::spec_from_bits(w.filter_status.bits) }),
            p matches AnppPacket::EulerOrientationStdDev(w) ==> r == Packet::EulerOrientationStdDev(EulerOrientationStdDev { roll_std_dev: w.roll_std_dev, pitch_std_dev: w.pitch_std_dev, heading_std_dev: w.heading_std_dev }),
            p matches AnppPacket::RawSensors(w) ==> r == Packet::RawSensors(RawSensors { accelerometer_x: w.accelerometer_x, accelerometer_y: w.accelerometer_y, accelerometer_z: w.accelerometer_z, gyroscope_x: w.gyroscope_x, gyroscope_y: w.gyroscope_y, gyroscope_z: w.gyroscope_z, imu_temperature: w.imu_temperature, pressure: w.pressure, pressure_temperature: w.pressure_temperature }),
            p matches AnppPacket::PacketTimerPeriod(w) ==> r == Packet::PacketTimerPeriod(PacketTimerPeriod { permanent: w.permanent != 0, utc_synchronisation: w.utc_synchronisation != 0, packet_timer_period: w.packet_timer_period }),
            p matches AnppPacket::PacketsPeriod(w) ==> (r matches Packet::PacketsPeriod(c)
                && c.permanent == (w.permanent != 0) && c.clear_existing == (w.clear_existing != 0)
                && c.packet_periods@.len() == w.packet_periods@.len() && (forall|i: int|
                0 <= i < c.packet_periods@.len() ==> (#[trigger] c.packet_periods@[i]).packet_type
                    == kind_of(w.packet_periods@[i].packet_id) && c.packet_periods@[i].period
                    == w.packet_periods@[i].period)),
            p matches AnppPacket::InstallationAlignment(w) ==> r == Packet::InstallationAlignment(InstallationAlignment { permanent: w.permanent != 0, alignment_dcm: w.alignment_dcm, gnss_antenna_offset: w.gnss_antenna_offset, odometer_offset: w.odometer_offset, external_data_offset: w.external_data_offset }),
            p matches AnppPacket::FilterOptions(w) ==> r == Packet::FilterOptions(FilterOptions { permanent: w.permanent != 0, vehicle_type: w.vehicle_type, internal_gnss_enabled: w.internal_gnss_enabled != 0, atmospheric_altitude_enabled: w.atmospheric_altitude_enabled != 0, velocity_heading_enabled: w.velocity_heading_enabled != 0, reversing_detection_enabled: w.reversing_detection_enabled != 0, motion_analysis_enabled: w.motion_analysis_enabled != 0 }),
            p matches AnppPacket::OdometerConfiguration(w) ==> r == Packet::OdometerConfiguration(OdometerConfiguration { permanent: w.permanent != 0, automatic_pulse_measurement: w.automatic_pulse_measurement != 0, pulse_length: w.pulse_length }),
            p matches AnppPacket::SetZeroOrientationAlignment(w) ==> r == Packet::SetZeroOrientationAlignment(SetZeroOrientationAlignment { permanent: w.permanent != 0 }),
            p matches AnppPacket::ReferencePointOffsets(w) ==> r == Packet::ReferencePointOffsets(ReferencePointOffsets { permanent: w.permanent != 0, heave_point_1: w.heave_point_1, heave_point_2: w.heave_point_2, heave_point_3: w.heave_point_3, heave_point_4: w.heave_point_4 }),
            p matches AnppPacket::IpDataportsConfiguration(w) ==> r == Packet::IpDataportsConfiguration(IpDataportsConfiguration { dataports: [(IpDataport { ip_address: w.dataports[0].ip_address, port: w.dataports[0].port, mode: w.dataports[0].mode }), (IpDataport { ip_address: w.dataports[1].ip_address, port: w.dataports[1].port, mode: w.dataports[1].mode }), (IpDataport { ip_address: w.dataports[2].ip_address, port: w.dataports[2].port, mode: w.dataports[2].mode }), (IpDataport { ip_address: w.dataports[3].ip_address, port: w.dataports[3].port, mode: w.dataports[3].mode })] }),
            p matches AnppPacket::Unsupported(_) ==> r == Packet::Unsupported,
    {
        match p {
            AnppPacket::Acknowledge(w) => Packet::Acknowledge(Acknowledge::from_packet_with_crc(w)),
            AnppPacket::Request(w) => Packet::Request(Request::from_wire(w)),
            AnppPacket::BootMode(w) => Packet::BootMode(BootMode::from_wire(w)),
            AnppPacket::DeviceInformation(w) => Packet::DeviceInformation(
                DeviceInformation::from_wire(w),
            ),
            AnppPacket::RestoreFactorySettings(w) => Packet::RestoreFactorySettings(
                RestoreFactorySettings::from_wire(w),
            ),
            AnppPacket::Reset(w) => Packet::Reset(Reset::from_wire(w)),
            AnppPacket::IpConfiguration(w) => Packet::IpConfiguration(IpConfiguration::from_wire(w)),
            AnppPacket::SystemState(w) => Packet::SystemState(SystemState::from_wire(w)),
            AnppPacket::UnixTime(w) => Packet::UnixTime(UnixTime::from_wire(w)),
            AnppPacket::Status(w) => Packet::Status(Status::from_wire(w)),
            AnppPacket::EulerOrientationStdDev(w) => Packet::EulerOrientationStdDev(
                EulerOrientationStdDev::from_wire(w),
            ),
            AnppPacket::RawSensors(w) => Packet::RawSensors(RawSensors::from_wire(w)),
            AnppPacket::PacketTimerPeriod(w) => Packet::PacketTimerPeriod(
                PacketTimerPeriod::from_wire(w),
            ),
            AnppPacket::PacketsPeriod(w) => Packet::PacketsPeriod(PacketsPeriod::from_wire(&w)),
            AnppPacket::InstallationAlignment(w) => Packet::InstallationAlignment(
                InstallationAlignment::from_wire(w),
            ),
            AnppPacket::FilterOptions(w) => Packet::FilterOptions(FilterOptions::from_wire(w)),
            AnppPacket::OdometerConfiguration(w) => Packet::OdometerConfiguration(
                OdometerConfiguration::from_wire(w),
            ),
            AnppPacket::SetZeroOrientationAlignment(w) => Packet::SetZeroOrientationAlignment(
                SetZeroOrientationAlignment::from_wire(w),
            ),
            AnppPacket::ReferencePointOffsets(w) => Packet::ReferencePointOffsets(
                ReferencePointOffsets::from_wire(w),
            ),
            AnppPacket::IpDataportsConfiguration(w) => {
                let c = IpDataportsConfiguration::from_wire(w);
                proof {
                    assert(c.dataports =~= [
                        (IpDataport {
                            ip_address: w.dataports[0].ip_address,
                            port: w.dataports[0].port,
                            mode: w.dataports[0].mode,
                        }),
                        (IpDataport {
                            ip_address: w.dataports[1].ip_address,
                            port: w.dataports[1].port,
                            mode: w.dataports[1].mode,
                        }),
                        (IpDataport {
                            ip_address: w.dataports[2].ip_address,
                            port: w.dataports[2].port,
                            mode: w.dataports[2].mode,
                        }),
                        (IpDataport {
                            ip_address: w.dataports[3].ip_address,
                            port: w.dataports[3].port,
                            mode: w.dataports[3].mode,
                        }),
                    ]);
                }
                Packet::IpDataportsConfiguration(c)
            },
            AnppPacket::Unsupported(_) => Packet::Unsupported,
        }
    }

    /// Frames the packet for sending.  Read-only telemetry kinds and
    /// unsupported packets are rejected; a packets period list with
    /// more than 50 entries does not fit a frame.
    pub fn to_bytes(&self) -> (r: Result<Vec<u8>, AnError>)
        ensures
            self matches Packet::Request(c) ==> (r matches Ok(v) && v@ == spec_frame(
                1u8,
                (RequestPacket { packet_id: spec_id_of_kind(c.requested_packet) }).spec_bytes(),
            )),
            self matches Packet::BootMode(c) ==> (r matches Ok(v) && v@ == spec_frame(
                2u8,
                (BootModePacket { boot_mode: c.boot_mode }).spec_bytes(),
            )),
            self matches Packet::RestoreFactorySettings(_) ==> (r matches Ok(v) && v@ == spec_frame(
                4u8,
                (RestoreFactorySettingsPacket { verification: 0x85429E1Cu32 }).spec_bytes(),
            )),
            self matches Packet::Reset(_) ==> (r matches Ok(v) && v@ == spec_frame(
                5u8,
                (ResetPacket { verification: 0x21057A7Eu32 }).spec_bytes(),
            )),
            self matches Packet::IpConfiguration(c) ==> (r matches Ok(v) && v@ == spec_frame(
                11u8,
                (IpConfigurationPacket { permanent: if c.permanent { 1u8 } else { 0u8 }, dhcp_mode: c.dhcp_mode, ip_address: c.ip_address, ip_netmask: c.ip_netmask, ip_gateway: c.ip_gateway, dns_server: c.dns_server, boreas_serial_number_part_1: c.boreas_serial_number_part_1, boreas_serial_number_part_2: c.boreas_serial_number_part_2, boreas_serial_number_part_3: c.boreas_serial_number_part_3 }).spec_bytes(),
            )),
            self matches Packet::ExternalTime(c) ==> (r matches Ok(v) && v@ == spec_frame(
                52u8,
                (ExternalTimePacket { unix_time_seconds: c.unix_time_seconds, microseconds: c.microseconds }).spec_bytes(),
            )),
            self matches Packet::PacketTimerPeriod(c) ==> (r matches Ok(v) && v@ == spec_frame(
                180u8,
                (PacketTimerPeriodPacket { permanent: if c.permanent { 1u8 } else { 0u8 }, utc_synchronisation: if c.utc_synchronisation { 1u8 } else { 0u8 }, packet_timer_period: c.packet_timer_period }).spec_bytes(),
            )),
            self matches Packet::PacketsPeriod(c) ==> (if c.packet_periods@.len() <= 50 {
                r matches Ok(v) && v@ == spec_frame(
                    181u8,
                    seq![
                        if c.permanent { 1u8 } else { 0u8 },
                        if c.clear_existing { 1u8 } else { 0u8 },
                        c.packet_periods@.len() as u8,
                    ] + spec_entries_bytes(
                        c.packet_periods@.map_values(
                            |pp: PacketPeriod| PacketPeriodEntry {
                                packet_id: spec_id_of_kind(pp.packet_type),
                                period: pp.period,
                            },
                        ),
                    ),
                )
            } else {
                r matches Err(e) && e matches AnError::PacketTooLong(_)
            }),
            self matches Packet::InstallationAlignment(c) ==> (r matches Ok(v) && v@ == spec_frame(
                185u8,
                (InstallationAlignmentPacket { permanent: if c.permanent { 1u8 } else { 0u8 }, alignment_dcm: c.alignment_dcm, gnss_antenna_offset: c.gnss_antenna_offset, odometer_offset: c.odometer_offset, external_data_offset: c.external_data_offset }).spec_bytes(),
            )),
            self matches Packet::FilterOptions(c) ==> (r matches Ok(v) && v@ == spec_frame(
                186u8,
                (FilterOptionsPacket { permanent: if c.permanent { 1u8 } else { 0u8 }, vehicle_type: c.vehicle_type, internal_gnss_enabled: if c.internal_gnss_enabled { 1u8 } else { 0u8 }, reserved1: 0u8, atmospheric_altitude_enabled: if c.atmospheric_altitude_enabled { 1u8 } else { 0u8 }, velocity_heading_enabled: if c.velocity_heading_enabled { 1u8 } else { 0u8 }, reversing_detection_enabled: if c.reversing_detection_enabled { 1u8 } else { 0u8 }, motion_analysis_enabled: if c.motion_analysis_enabled { 1u8 } else { 0u8 }, reserved2: 0u8, reserved3: [0u8, 0u8, 0u8, 0u8, 0u8, 0u8, 0u8, 0u8] }).spec_bytes(),
            )),
            self matches Packet::OdometerConfiguration(c) ==> (r matches Ok(v) && v@ == spec_frame(
                192u8,
                (OdometerConfigurationPacket { permanent: if c.permanent { 1u8 } else { 0u8 }, automatic_pulse_measurement: if c.automatic_pulse_measurement { 1u8 } else { 0u8 }, reserved: 0u16, pulse_length: c.pulse_length }).spec_bytes(),
            )),
            self matches Packet::SetZeroOrientationAlignment(c) ==> (r matches Ok(v) && v@ == spec_frame(
                193u8,
                (SetZeroOrientationAlignmentPacket { permanent: if c.permanent { 1u8 } else { 0u8 }, verification: 0x9A4E8055u32 }).spec_bytes(),
            )),
            self matches Packet::ReferencePointOffsets(c) ==> (r matches Ok(v) && v@ == spec_frame(
                194u8,
                (ReferencePointOffsetsPacket { permanent: if c.permanent { 1u8 } else { 0u8 }, heave_point_1: c.heave_point_1, heave_point_2: c.heave_point_2, heave_point_3: c.heave_point_3, heave_point_4: c.heave_point_4 }).spec_bytes(),
            )),
            self matches Packet::IpDataportsConfiguration(c) ==> (r matches Ok(v) && v@ == spec_frame(
                202u8,
                (IpDataportsConfigurationPacket { reserved: 0u16, dataports: [(IpDataportEntry { ip_address: c.dataports[0].ip_address, port: c.dataports[0].port, mode: c.dataports[0].mode }), (IpDataportEntry { ip_address: c.dataports[1].ip_address, port: c.dataports[1].port, mode: c.dataports[1].mode }), (IpDataportEntry { ip_address: c.dataports[2].ip_address, port: c.dataports[2].port, mode: c.dataports[2].mode }), (IpDataportEntry { ip_address: c.dataports[3].ip_address, port: c.dataports[3].port, mode: c.dataports[3].mode })] }).spec_bytes(),
            )),
            self matches Packet::Acknowledge(_) ==> (r matches Err(e) && e matches AnError::InvalidPacket(_)),
            self matches Packet::DeviceInformation(_) ==> (r matches Err(e) && e matches AnError::InvalidPacket(_)),
            self matches Packet::SystemState(_) ==> (r matches Err(e) && e matches AnError::InvalidPacket(_)),
            self matches Packet::UnixTime(_) ==> (r matches Err(e) && e matches AnError::InvalidPacket(_)),
            self matches Packet::Status(_) ==> (r matches Err(e) && e matches AnError::InvalidPacket(_)),
            self matches Packet::EulerOrientationStdDev(_) ==> (r matches Err(e) && e matches AnError::InvalidPacket(_)),
            self matches Packet::RawSensors(_) ==> (r matches Err(e) && e matches AnError::InvalidPacket(_)),
            self matches Packet::Unsupported ==> (r matches Err(e) && e matches AnError::InvalidPacket(_)),
    {
        match self {
            Packet::Request(c) => {
                let w = c.to_wire();
                let payload: Vec<u8> = w.to_bytes();
                AnppProtocol::create_packet(PacketId::new(1), payload.as_slice())
            },
            Packet::BootMode(c) => {
                let w = c.to_wire();
                let payload: Vec<u8> = w.to_bytes();
                AnppProtocol::create_packet(PacketId::new(2), payload.as_slice())
            },
            Packet::RestoreFactorySettings(c) => {
                let w = c.to_wire();
                let payload: Vec<u8> = w.to_bytes();
                AnppProtocol::create_packet(PacketId::new(4), payload.as_slice())
            },
            Packet::Reset(c) => {
                let w = c.to_wire();
                let payload: Vec<u8> = w.to_bytes();
                AnppProtocol::create_packet(PacketId::new(5), payload.as_slice())
            },
            Packet::IpConfiguration(c) => {
                let w = c.to_wire();
                let payload: Vec<u8> = w.to_bytes();
                AnppProtocol::create_packet(PacketId::new(11), payload.as_slice())
            },
            Packet::ExternalTime(c) => {
                let w = c.to_wire();
                let payload: Vec<u8> = w.to_bytes();
                AnppProtocol::create_packet(PacketId::new(52), payload.as_slice())
            },
            Packet::PacketTimerPeriod(c) => {
                let w = c.to_wire();
                let payload: Vec<u8> = w.to_bytes();
                AnppProtocol::create_packet(PacketId::new(180), payload.as_slice())
            },
            Packet::PacketsPeriod(c) => {
                let w = c.to_wire();
                proof {
                    assert(w.packet_periods@ =~= c.packet_periods@.map_values(
                        |pp: PacketPeriod| PacketPeriodEntry {
                            packet_id: spec_id_of_kind(pp.packet_type),
                            period: pp.period,
                        },
                    ));
                }
                let payload: Vec<u8> = w.to_bytes();
                AnppProtocol::create_packet(PacketId::new(181), payload.as_slice())
            },
            Packet::InstallationAlignment(c) => {
                let w = c.to_wire();
                let payload: Vec<u8> = w.to_bytes();
                AnppProtocol::create_packet(PacketId::new(185), payload.as_slice())
            },
            Packet::FilterOptions(c) => {
                let w = c.to_wire();
                proof {
                    assert(w.reserved3 =~= [0u8, 0u8, 0u8, 0u8, 0u8, 0u8, 0u8, 0u8]);
                }
                let payload: Vec<u8> = w.to_bytes();
                AnppProtocol::create_packet(PacketId::new(186), payload.as_slice())
            },
            Packet::OdometerConfiguration(c) => {
                let w = c.to_wire();
                let payload: Vec<u8> = w.to_bytes();
                AnppProtocol::create_packet(PacketId::new(192), payload.as_slice())
            },
            Packet::SetZeroOrientationAlignment(c) => {
                let w = c.to_wire();
                let payload: Vec<u8> = w.to_bytes();
                AnppProtocol::create_packet(PacketId::new(193), payload.as_slice())
            },
            Packet::ReferencePointOffsets(c) => {
                let w = c.to_wire();
                let payload: Vec<u8> = w.to_bytes();
                AnppProtocol::create_packet(PacketId::new(194), payload.as_slice())
            },
            Packet::IpDataportsConfiguration(c) => {
                let w = c.to_wire();
                proof {
                    assert(w.dataports =~= [
                        (IpDataportEntry {
                            ip_address: c.dataports[0].ip_address,
                            port: c.dataports[0].port,
                            mode: c.dataports[0].mode,
                        }),
                        (IpDataportEntry {
                            ip_address: c.dataports[1].ip_address,
                            port: c.dataports[1].port,
                            mode: c.dataports[1].mode,
                        }),
                        (IpDataportEntry {
                            ip_address: c.dataports[2].ip_address,
                            port: c.dataports[2].port,
                            mode: c.dataports[2].mode,
                        }),
                        (IpDataportEntry {
                            ip_address: c.dataports[3].ip_address,
                            port: c.dataports[3].port,
                            mode: c.dataports[3].mode,
                        }),
                    ]);
                }
                let payload: Vec<u8> = w.to_bytes();
                AnppProtocol::create_packet(PacketId::new(202), payload.as_slice())
            },
            Packet::Acknowledge(_) => Err(
                AnError::InvalidPacket("cannot send a read-only packet".to_string()),
            ),
            Packet::DeviceInformation(_) => Err(
                AnError::InvalidPacket("cannot send a read-only packet".to_string()),
            ),
            Packet::SystemState(_) => Err(
                AnError::InvalidPacket("cannot send a read-only packet".to_string()),
            ),
            Packet::UnixTime(_) => Err(
                AnError::InvalidPacket("cannot send a read-only packet".to_string()),
            ),
            Packet::Status(_) => Err(
                AnError::InvalidPacket("cannot send a read-only packet".to_string()),
            ),
            Packet::EulerOrientationStdDev(_) => Err(
                AnError::InvalidPacket("cannot send a read-only packet".to_string()),
            ),
            Packet::RawSensors(_) => Err(
                AnError::InvalidPacket("cannot send a read-only packet".to_string()),
            ),
            Packet::Unsupported => Err(
                AnError::InvalidPacket("cannot send an unsupported packet".to_string()),
            ),
        }
    }
}

} // verus!
