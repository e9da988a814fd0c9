//! Ergonomic system packet types, free of wire format concerns.

use crate::packet::{id_of_kind, kind_of, spec_id_of_kind, PacketKind};
use crate::system::{
    spec_u32_decimal, u32_decimal, AcknowledgePacket, BootModePacket, DeviceInformationPacket,
    IpConfigurationPacket, RequestPacket, ResetPacket, RestoreFactorySettingsPacket,
};
use vstd::prelude::*;
use vstd::string::StringExecFns;

verus! {

/// The outcome a device reports for a received packet.
#[derive(Debug, Clone, Copy, PartialEq, Eq, Structural)]
pub enum AcknowledgeResult {
    Success,
    Failure,
    UnknownPacket,
}

/// The result decoded from an acknowledge byte; unknown bytes count as
/// a failure.
pub open spec fn spec_ack_result(b: u8) -> AcknowledgeResult {
    match b {
        0u8 => AcknowledgeResult::Success,
        1u8 => AcknowledgeResult::Failure,
        2u8 => AcknowledgeResult::UnknownPacket,
        _ => AcknowledgeResult::Failure,
    }
}

/// The wire byte of an acknowledge result.
pub open spec fn spec_ack_result_u8(r: AcknowledgeResult) -> u8 {
    match r {
        AcknowledgeResult::Success => 0u8,
        AcknowledgeResult::Failure => 1u8,
        AcknowledgeResult::UnknownPacket => 2u8,
    }
}

/// An acknowledge, naming the acknowledged kind instead of a raw id.
#[derive(Debug, Clone, Copy, PartialEq, Eq, Structural)]
pub struct Acknowledge {
    pub acknowledged_packet: PacketKind,
    pub result: AcknowledgeResult,
}

impl Acknowledge {
    /// Promotes a wire acknowledge, dropping the echoed CRC.
    pub fn from_packet_with_crc(p: AcknowledgePacket) -> (r: Acknowledge)
        ensures
            r.acknowledged_packet == kind_of(p.packet_id),
            r.result == spec_ack_result(p.result),
    {
        let result = match p.result {
            0u8 => AcknowledgeResult::Success,
            1u8 => AcknowledgeResult::Failure,
            2u8 => AcknowledgeResult::UnknownPacket,
            _ => AcknowledgeResult::Failure,
        };
        Acknowledge { acknowledged_packet: PacketKind::from_u8(p.packet_id), result }
    }

    /// Lowers to a wire acknowledge, carrying the given CRC.
    pub fn to_packet_with_crc(&self, packet_crc: u16) -> (r: AcknowledgePacket)
        ensures
            r.packet_id == spec_id_of_kind(self.acknowledged_packet),
            r.packet_crc == packet_crc,
            r.result == spec_ack_result_u8(self.result),
    {
        let result: u8 = match self.result {
            AcknowledgeResult::Success => 0,
            AcknowledgeResult::Failure => 1,
            AcknowledgeResult::UnknownPacket => 2,
        };
        AcknowledgePacket { packet_id: id_of_kind(self.acknowledged_packet), packet_crc, result }
    }
}

/// A request, naming the requested kind instead of a raw id.
#[derive(Debug, Clone, Copy, PartialEq, Eq, Structural)]
pub struct Request {
    pub requested_packet: PacketKind,
}

impl Request {
    /// Promotes a wire request.
    pub fn from_wire(p: RequestPacket) -> (r: Request)
        ensures
            r.requested_packet == kind_of(p.packet_id),
    {
        Request { requested_packet: PacketKind::from_u8(p.packet_id) }
    }

    /// Lowers to a wire request.
    pub fn to_wire(&self) -> (r: RequestPacket)
        ensures
            r.packet_id == spec_id_of_kind(self.requested_packet),
    {
        RequestPacket { packet_id: id_of_kind(self.requested_packet) }
    }
}

/// The boot mode.
#[derive(Debug, Clone, Copy, PartialEq, Eq, Structural)]
pub struct BootMode {
    pub boot_mode: u8,
}

impl BootMode {
    /// Promotes a wire boot mode packet.
    pub fn from_wire(p: BootModePacket) -> (r: BootMode)
        ensures
            r.boot_mode == p.boot_mode,
    {
        BootMode { boot_mode: p.boot_mode }
    }

    /// Lowers to a wire boot mode packet.
    pub fn to_wire(&self) -> (r: BootModePacket)
        ensures
            r.boot_mode == self.boot_mode,
    {
        BootModePacket { boot_mode: self.boot_mode }
    }
}

/// The device identity block.
#[derive(Debug, Clone, Copy, PartialEq, Eq, Structural)]
pub struct DeviceInformation {
    pub software_version: u32,
    pub device_id: u32,
    pub hardware_revision: u32,
    pub serial_number_1: u32,
    pub serial_number_2: u32,
    pub serial_number_3: u32,
}

impl DeviceInformation {
    /// Promotes a wire device information packet.
    pub fn from_wire(p: DeviceInformationPacket) -> (r: DeviceInformation)
        ensures
            r.software_version == p.software_version,
            r.device_id == p.device_id,
            r.hardware_revision == p.hardware_revision,
            r.serial_number_1 == p.serial_number_1,
            r.serial_number_2 == p.serial_number_2,
            r.serial_number_3 == p.serial_number_3,
    {
        DeviceInformation {
            software_version: p.software_version,
            device_id: p.device_id,
            hardware_revision: p.hardware_revision,
            serial_number_1: p.serial_number_1,
            serial_number_2: p.serial_number_2,
            serial_number_3: p.serial_number_3,
        }
    }

    /// Lowers to a wire device information packet.
    pub fn to_wire(&self) -> (r: DeviceInformationPacket)
        ensures
            r.software_version == self.software_version,
            r.device_id == self.device_id,
            r.hardware_revision == self.hardware_revision,
            r.serial_number_1 == self.serial_number_1,
            r.serial_number_2 == self.serial_number_2,
            r.serial_number_3 == self.serial_number_3,
    {
        DeviceInformationPacket {
            software_version: self.software_version,
            device_id: self.device_id,
            hardware_revision: self.hardware_revision,
            serial_number_1: self.serial_number_1,
            serial_number_2: self.serial_number_2,
            serial_number_3: self.serial_number_3,
        }
    }
}

/// The restore factory settings command; the wire form carries only the
/// fixed verification code.
#[derive(Debug, Clone, Copy, PartialEq, Eq, Structural)]
pub struct RestoreFactorySettings;

impl RestoreFactorySettings {
    /// Promotes any wire restore packet.
    pub fn from_wire(p: RestoreFactorySettingsPacket) -> (r: RestoreFactorySettings)
        ensures
            r == RestoreFactorySettings,
    {
        let _ = p;
        RestoreFactorySettings
    }

    /// Lowers to the wire packet armed with the correct code.
    pub fn to_wire(&self) -> (r: RestoreFactorySettingsPacket)
        ensures
            r.verification == 0x85429E1C,
    {
        RestoreFactorySettingsPacket::new()
    }
}

/// The reset command; the wire form carries only the fixed verification
/// code.
#[derive(Debug, Clone, Copy, PartialEq, Eq, Structural)]
pub struct Reset;

impl Reset {
    /// Promotes any wire reset packet.
    pub fn from_wire(p: ResetPacket) -> (r: Reset)
        ensures
            r == Reset,
    {
        let _ = p;
        Reset
    }

    /// Lowers to the wire packet armed with the correct code.
    pub fn to_wire(&self) -> (r: ResetPacket)
        ensures
            r.verification == 0x21057A7E,
    {
        ResetPacket::new()
    }
}

/// The IP configuration with its permanent flag promoted to a boolean.
#[derive(Debug, Clone, Copy, PartialEq, Eq, Structural)]
pub struct IpConfiguration {
    pub permanent: bool,
    pub dhcp_mode: u8,
    pub ip_address: u32,
    pub ip_netmask: u32,
    pub ip_gateway: u32,
    pub dns_server: u32,
    pub boreas_serial_number_part_1: u32,
    pub boreas_serial_number_part_2: u32,
    pub boreas_serial_number_part_3: u32,
}

impl IpConfiguration {
    /// Promotes a wire IP configuration packet.
    pub fn from_wire(p: IpConfigurationPacket) -> (r: IpConfiguration)
        ensures
            r.permanent == (p.permanent != 0),
            r.dhcp_mode == p.dhcp_mode,
            r.ip_address == p.ip_address,
            r.ip_netmask == p.ip_netmask,
            r.ip_gateway == p.ip_gateway,
            r.dns_server == p.dns_server,
            r.boreas_serial_number_part_1 == p.boreas_serial_number_part_1,
            r.boreas_serial_number_part_2 == p.boreas_serial_number_part_2,
            r.boreas_serial_number_part_3 == p.boreas_serial_number_part_3,
    {
        IpConfiguration {
            permanent: p.permanent != 0,
            dhcp_mode: p.dhcp_mode,
            ip_address: p.ip_address,
            ip_netmask: p.ip_netmask,
            ip_gateway: p.ip_gateway,
            dns_server: p.dns_server,
            boreas_serial_number_part_1: p.boreas_serial_number_part_1,
            boreas_serial_number_part_2: p.boreas_serial_number_part_2,
            boreas_serial_number_part_3: p.boreas_serial_number_part_3,
        }
    }

    /// Lowers to a wire IP configuration packet.
    pub fn to_wire(&self) -> (r: IpConfigurationPacket)
        ensures
            r.permanent == if self.permanent { 1u8 } else { 0u8 },
            r.dhcp_mode == self.dhcp_mode,
            r.ip_address == self.ip_address,
            r.ip_netmask == self.ip_netmask,
            r.ip_gateway == self.ip_gateway,
            r.dns_server == self.dns_server,
            r.boreas_serial_number_part_1 == self.boreas_serial_number_part_1,
            r.boreas_serial_number_part_2 == self.boreas_serial_number_part_2,
            r.boreas_serial_number_part_3 == self.boreas_serial_number_part_3,
    {
        IpConfigurationPacket {
            permanent: if self.permanent { 1 } else { 0 },
            dhcp_mode: self.dhcp_mode,
            ip_address: self.ip_address,
            ip_netmask: self.ip_netmask,
            ip_gateway: self.ip_gateway,
            dns_server: self.dns_server,
            boreas_serial_number_part_1: self.boreas_serial_number_part_1,
            boreas_serial_number_part_2: self.boreas_serial_number_part_2,
            boreas_serial_number_part_3: self.boreas_serial_number_part_3,
        }
    }
}

impl DeviceInformation {
    /// The serial number as its three dash-separated decimal parts.
    pub fn get_serial_number(&self) -> (r: String)
        ensures
            r@ == spec_u32_decimal(self.serial_number_1) + "-"@ + spec_u32_decimal(
                self.serial_number_2,
            ) + "-"@ + spec_u32_decimal(self.serial_number_3),
    {
        let mut s: String = u32_decimal(self.serial_number_1);
        s.append("-");
        let part2: String = u32_decimal(self.serial_number_2);
        s.append(part2.as_str());
        s.append("-");
        let part3: String = u32_decimal(self.serial_number_3);
        s.append(part3.as_str());
        s
    }
}

} // verus!
