//! Wire codecs for the system packets (identifiers 0 to 14).

use crate::error::AnError;
use crate::wire::{
    lemma_le_bytes_lens, lemma_u16_bytes_inj, lemma_u32_bytes_inj, read_u16, read_u32, write_u16,
    write_u32,
};
use vstd::bytes::*;
use vstd::prelude::*;
use vstd::slice::slice_to_vec;
use vstd::string::StringExecFns;

verus! {

/// Acknowledge packet (identifier 0, payload length 4).  Read only.
#[derive(Debug, Clone, Copy, PartialEq, Eq, Structural)]
pub struct AcknowledgePacket {
    pub packet_id: u8,
    pub packet_crc: u16,
    pub result: u8,
}

impl AcknowledgePacket {
    /// The exact little-endian payload encoding.
    pub open spec fn spec_bytes(self) -> Seq<u8> {
        seq![self.packet_id]
            + spec_u16_to_le_bytes(self.packet_crc)
            + seq![self.result]
    }

    /// Whether a payload decodes into this packet kind.
    pub open spec fn decodable(data: Seq<u8>) -> bool {
        data.len() == 4
    }

    /// Encodes the packet as its exact payload bytes.
    pub fn to_bytes(&self) -> (r: Vec<u8>)
        ensures
            r@ == self.spec_bytes(),
            r@.len() == 4,
    {
        let mut out: Vec<u8> = Vec::new();
        out.push(self.packet_id);
        write_u16(&mut out, self.packet_crc);
        out.push(self.result);
        proof {
            lemma_le_bytes_lens();
            assert(out@ =~= self.spec_bytes());
        }
        out
    }

    /// Decodes a payload; succeeds exactly on valid 4-byte inputs.
    pub fn from_bytes(data: &[u8]) -> (r: Result<AcknowledgePacket, AnError>)
        ensures
            Self::decodable(data@) ==> (r matches Ok(p) && p.spec_bytes() == data@),
            !Self::decodable(data@) ==> (r matches Err(e) && e matches AnError::InvalidPacket(_)),
    {
        if data.len() != 4 {
            return Err(AnError::InvalidPacket("acknowledge payload must be 4 bytes".to_string()));
        }
        let p = AcknowledgePacket {
            packet_id: data[0],
            packet_crc: read_u16(data, 1),
            result: data[3],
        };
        proof {
            lemma_le_bytes_lens();
            assert(p.spec_bytes() =~= data@);
        }
        Ok(p)
    }
}

/// Equal payload encodings come from equal packets.
pub(crate) proof fn lemma_acknowledge_packet_bytes_inj(a: AcknowledgePacket, b: AcknowledgePacket)
    requires
        a.spec_bytes() == b.spec_bytes(),
    ensures
        a == b,
{
    lemma_le_bytes_lens();
    assert(a.packet_id == a.spec_bytes()[0]);
    assert(b.packet_id == b.spec_bytes()[0]);
    assert(a.spec_bytes().subrange(1, 3) =~= spec_u16_to_le_bytes(a.packet_crc));
    assert(b.spec_bytes().subrange(1, 3) =~= spec_u16_to_le_bytes(b.packet_crc));
    lemma_u16_bytes_inj(a.packet_crc, b.packet_crc);
    assert(a.result == a.spec_bytes()[3]);
    assert(b.result == b.spec_bytes()[3]);
}

/// Request packet (identifier 1, payload length 1).  Write only.
#[derive(Debug, Clone, Copy, PartialEq, Eq, Structural)]
pub struct RequestPacket {
    pub packet_id: u8,
}

impl RequestPacket {
    /// The exact little-endian payload encoding.
    pub open spec fn spec_bytes(self) -> Seq<u8> {
        seq![self.packet_id]
    }

    /// Whether a payload decodes into this packet kind.
    pub open spec fn decodable(data: Seq<u8>) -> bool {
        data.len() == 1
    }

    /// Encodes the packet as its exact payload bytes.
    pub fn to_bytes(&self) -> (r: Vec<u8>)
        ensures
            r@ == self.spec_bytes(),
            r@.len() == 1,
    {
        let mut out: Vec<u8> = Vec::new();
        out.push(self.packet_id);
        proof {
            lemma_le_bytes_lens();
            assert(out@ =~= self.spec_bytes());
        }
        out
    }

    /// Decodes a payload; succeeds exactly on valid 1-byte inputs.
    pub fn from_bytes(data: &[u8]) -> (r: Result<RequestPacket, AnError>)
        ensures
            Self::decodable(data@) ==> (r matches Ok(p) && p.spec_bytes() == data@),
            !Self::decodable(data@) ==> (r matches Err(e) && e matches AnError::InvalidPacket(_)),
    {
        if data.len() != 1 {
            return Err(AnError::InvalidPacket("request payload must be 1 bytes".to_string()));
        }
        let p = RequestPacket {
            packet_id: data[0],
        };
        proof {
            lemma_le_bytes_lens();
            assert(p.spec_bytes() =~= data@);
        }
        Ok(p)
    }
}

/// Equal payload encodings come from equal packets.
pub(crate) proof fn lemma_request_packet_bytes_inj(a: RequestPacket, b: RequestPacket)
    requires
        a.spec_bytes() == b.spec_bytes(),
    ensures
        a == b,
{
    lemma_le_bytes_lens();
    assert(a.packet_id == a.spec_bytes()[0]);
    assert(b.packet_id == b.spec_bytes()[0]);
}

/// Boot mode packet (identifier 2, payload length 1).  Read/write.
#[derive(Debug, Clone, Copy, PartialEq, Eq, Structural)]
pub struct BootModePacket {
    pub boot_mode: u8,
}

impl BootModePacket {
    /// The exact little-endian payload encoding.
    pub open spec fn spec_bytes(self) -> Seq<u8> {
        seq![self.boot_mode]
    }

    /// Whether a payload decodes into this packet kind.
    pub open spec fn decodable(data: Seq<u8>) -> bool {
        data.len() == 1
    }

    /// Encodes the packet as its exact payload bytes.
    pub fn to_bytes(&self) -> (r: Vec<u8>)
        ensures
            r@ == self.spec_bytes(),
            r@.len() == 1,
    {
        let mut out: Vec<u8> = Vec::new();
        out.push(self.boot_mode);
        proof {
            lemma_le_bytes_lens();
            assert(out@ =~= self.spec_bytes());
        }
        out
    }

    /// Decodes a payload; succeeds exactly on valid 1-byte inputs.
    pub fn from_bytes(data: &[u8]) -> (r: Result<BootModePacket, AnError>)
        ensures
            Self::decodable(data@) ==> (r matches Ok(p) && p.spec_bytes() == data@),
            !Self::decodable(data@) ==> (r matches Err(e) && e matches AnError::InvalidPacket(_)),
    {
        if data.len() != 1 {
            return Err(AnError::InvalidPacket("boot mode payload must be 1 bytes".to_string()));
        }
        let p = BootModePacket {
            boot_mode: data[0],
        };
        proof {
            lemma_le_bytes_lens();
            assert(p.spec_bytes() =~= data@);
        }
        Ok(p)
    }
}

/// Equal payload encodings come from equal packets.
pub(crate) proof fn lemma_boot_mode_packet_bytes_inj(a: BootModePacket, b: BootModePacket)
    requires
        a.spec_bytes() == b.spec_bytes(),
    ensures
        a == b,
{
    lemma_le_bytes_lens();
    assert(a.boot_mode == a.spec_bytes()[0]);
    assert(b.boot_mode == b.spec_bytes()[0]);
}

/// Device information packet (identifier 3, payload length 24).  Read only.
#[derive(Debug, Clone, Copy, PartialEq, Eq, Structural)]
pub struct DeviceInformationPacket {
    pub software_version: u32,
    pub device_id: u32,
    pub hardware_revision: u32,
    pub serial_number_1: u32,
    pub serial_number_2: u32,
    pub serial_number_3: u32,
}

impl DeviceInformationPacket {
    /// The exact little-endian payload encoding.
    pub open spec fn spec_bytes(self) -> Seq<u8> {
        spec_u32_to_le_bytes(self.software_version)
            + spec_u32_to_le_bytes(self.device_id)
            + spec_u32_to_le_bytes(self.hardware_revision)
            + spec_u32_to_le_bytes(self.serial_number_1)
            + spec_u32_to_le_bytes(self.serial_number_2)
            + spec_u32_to_le_bytes(self.serial_number_3)
    }

    /// Whether a payload decodes into this packet kind.
    pub open spec fn decodable(data: Seq<u8>) -> bool {
        data.len() == 24
    }

    /// Encodes the packet as its exact payload bytes.
    pub fn to_bytes(&self) -> (r: Vec<u8>)
        ensures
            r@ == self.spec_bytes(),
            r@.len() == 24,
    {
        let mut out: Vec<u8> = Vec::new();
        write_u32(&mut out, self.software_version);
        write_u32(&mut out, self.device_id);
        write_u32(&mut out, self.hardware_revision);
        write_u32(&mut out, self.serial_number_1);
        write_u32(&mut out, self.serial_number_2);
        write_u32(&mut out, self.serial_number_3);
        proof {
            lemma_le_bytes_lens();
            assert(out@ =~= self.spec_bytes());
        }
        out
    }

    /// Decodes a payload; succeeds exactly on valid 24-byte inputs.
    pub fn from_bytes(data: &[u8]) -> (r: Result<DeviceInformationPacket, AnError>)
        ensures
            Self::decodable(data@) ==> (r matches Ok(p) && p.spec_bytes() == data@),
            !Self::decodable(data@) ==> (r matches Err(e) && e matches AnError::InvalidPacket(_)),
    {
        if data.len() != 24 {
            return Err(AnError::InvalidPacket("device information payload must be 24 bytes".to_string()));
        }
        let p = DeviceInformationPacket {
            software_version: read_u32(data, 0),
            device_id: read_u32(data, 4),
            hardware_revision: read_u32(data, 8),
            serial_number_1: read_u32(data, 12),
            serial_number_2: read_u32(data, 16),
            serial_number_3: read_u32(data, 20),
        };
        proof {
            lemma_le_bytes_lens();
            assert(p.spec_bytes() =~= data@);
        }
        Ok(p)
    }
}

/// Equal payload encodings come from equal packets.
pub(crate) proof fn lemma_device_information_packet_bytes_inj(a: DeviceInformationPacket, b: DeviceInformationPacket)
    requires
        a.spec_bytes() == b.spec_bytes(),
    ensures
        a == b,
{
    lemma_le_bytes_lens();
    assert(a.spec_bytes().subrange(0, 4) =~= spec_u32_to_le_bytes(a.software_version));
    assert(b.spec_bytes().subrange(0, 4) =~= spec_u32_to_le_bytes(b.software_version));
    lemma_u32_bytes_inj(a.software_version, b.software_version);
    assert(a.spec_bytes().subrange(4, 8) =~= spec_u32_to_le_bytes(a.device_id));
    assert(b.spec_bytes().subrange(4, 8) =~= spec_u32_to_le_bytes(b.device_id));
    lemma_u32_bytes_inj(a.device_id, b.device_id);
    assert(a.spec_bytes().subrange(8, 12) =~= spec_u32_to_le_bytes(a.hardware_revision));
    assert(b.spec_bytes().subrange(8, 12) =~= spec_u32_to_le_bytes(b.hardware_revision));
    lemma_u32_bytes_inj(a.hardware_revision, b.hardware_revision);
    assert(a.spec_bytes().subrange(12, 16) =~= spec_u32_to_le_bytes(a.serial_number_1));
    assert(b.spec_bytes().subrange(12, 16) =~= spec_u32_to_le_bytes(b.serial_number_1));
    lemma_u32_bytes_inj(a.serial_number_1, b.serial_number_1);
    assert(a.spec_bytes().subrange(16, 20) =~= spec_u32_to_le_bytes(a.serial_number_2));
    assert(b.spec_bytes().subrange(16, 20) =~= spec_u32_to_le_bytes(b.serial_number_2));
    lemma_u32_bytes_inj(a.serial_number_2, b.serial_number_2);
    assert(a.spec_bytes().subrange(20, 24) =~= spec_u32_to_le_bytes(a.serial_number_3));
    assert(b.spec_bytes().subrange(20, 24) =~= spec_u32_to_le_bytes(b.serial_number_3));
    lemma_u32_bytes_inj(a.serial_number_3, b.serial_number_3);
}

/// Restore factory settings packet (identifier 4, payload length 4).  The device acts only when `verification` is 0x85429E1C.
#[derive(Debug, Clone, Copy, PartialEq, Eq, Structural)]
pub struct RestoreFactorySettingsPacket {
    pub verification: u32,
}

impl RestoreFactorySettingsPacket {
    /// The exact little-endian payload encoding.
    pub open spec fn spec_bytes(self) -> Seq<u8> {
        spec_u32_to_le_bytes(self.verification)
    }

    /// Whether a payload decodes into this packet kind.
    pub open spec fn decodable(data: Seq<u8>) -> bool {
        data.len() == 4
    }

    /// Encodes the packet as its exact payload bytes.
    pub fn to_bytes(&self) -> (r: Vec<u8>)
        ensures
            r@ == self.spec_bytes(),
            r@.len() == 4,
    {
        let mut out: Vec<u8> = Vec::new();
        write_u32(&mut out, self.verification);
        proof {
            lemma_le_bytes_lens();
            assert(out@ =~= self.spec_bytes());
        }
        out
    }

    /// Decodes a payload; succeeds exactly on valid 4-byte inputs.
    pub fn from_bytes(data: &[u8]) -> (r: Result<RestoreFactorySettingsPacket, AnError>)
        ensures
            Self::decodable(data@) ==> (r matches Ok(p) && p.spec_bytes() == data@),
            !Self::decodable(data@) ==> (r matches Err(e) && e matches AnError::InvalidPacket(_)),
    {
        if data.len() != 4 {
            return Err(AnError::InvalidPacket("restore factory settings payload must be 4 bytes".to_string()));
        }
        let p = RestoreFactorySettingsPacket {
            verification: read_u32(data, 0),
        };
        proof {
            lemma_le_bytes_lens();
            assert(p.spec_bytes() =~= data@);
        }
        Ok(p)
    }

    /// Creates the packet armed with the correct verification code.
    pub fn new() -> (r: RestoreFactorySettingsPacket)
        ensures
            r.verification == 0x85429E1C,
    {
        RestoreFactorySettingsPacket { verification: 0x85429E1C }
    }

}

/// Equal payload encodings come from equal packets.
pub(crate) proof fn lemma_restore_factory_settings_packet_bytes_inj(a: RestoreFactorySettingsPacket, b: RestoreFactorySettingsPacket)
    requires
        a.spec_bytes() == b.spec_bytes(),
    ensures
        a == b,
{
    lemma_le_bytes_lens();
    assert(a.spec_bytes().subrange(0, 4) =~= spec_u32_to_le_bytes(a.verification));
    assert(b.spec_bytes().subrange(0, 4) =~= spec_u32_to_le_bytes(b.verification));
    lemma_u32_bytes_inj(a.verification, b.verification);
}

/// Reset packet (identifier 5, payload length 4).  The device acts only when `verification` is 0x21057A7E.
#[derive(Debug, Clone, Copy, PartialEq, Eq, Structural)]
pub struct ResetPacket {
    pub verification: u32,
}

impl ResetPacket {
    /// The exact little-endian payload encoding.
    pub open spec fn spec_bytes(self) -> Seq<u8> {
        spec_u32_to_le_bytes(self.verification)
    }

    /// Whether a payload decodes into this packet kind.
    pub open spec fn decodable(data: Seq<u8>) -> bool {
        data.len() == 4
    }

    /// Encodes the packet as its exact payload bytes.
    pub fn to_bytes(&self) -> (r: Vec<u8>)
        ensures
            r@ == self.spec_bytes(),
            r@.len() == 4,
    {
        let mut out: Vec<u8> = Vec::new();
        write_u32(&mut out, self.verification);
        proof {
            lemma_le_bytes_lens();
            assert(out@ =~= self.spec_bytes());
        }
        out
    }

    /// Decodes a payload; succeeds exactly on valid 4-byte inputs.
    pub fn from_bytes(data: &[u8]) -> (r: Result<ResetPacket, AnError>)
        ensures
            Self::decodable(data@) ==> (r matches Ok(p) && p.spec_bytes() == data@),
            !Self::decodable(data@) ==> (r matches Err(e) && e matches AnError::InvalidPacket(_)),
    {
        if data.len() != 4 {
            return Err(AnError::InvalidPacket("reset payload must be 4 bytes".to_string()));
        }
        let p = ResetPacket {
            verification: read_u32(data, 0),
        };
        proof {
            lemma_le_bytes_lens();
            assert(p.spec_bytes() =~= data@);
        }
        Ok(p)
    }

    /// Creates the packet armed with the correct verification code.
    pub fn new() -> (r: ResetPacket)
        ensures
            r.verification == 0x21057A7E,
    {
        ResetPacket { verification: 0x21057A7E }
    }

}

/// Equal payload encodings come from equal packets.
pub(crate) proof fn lemma_reset_packet_bytes_inj(a: ResetPacket, b: ResetPacket)
    requires
        a.spec_bytes() == b.spec_bytes(),
    ensures
        a == b,
{
    lemma_le_bytes_lens();
    assert(a.spec_bytes().subrange(0, 4) =~= spec_u32_to_le_bytes(a.verification));
    assert(b.spec_bytes().subrange(0, 4) =~= spec_u32_to_le_bytes(b.verification));
    lemma_u32_bytes_inj(a.verification, b.verification);
}

/// IP configuration packet (identifier 11, payload length 30).  Read/write.
#[derive(Debug, Clone, Copy, PartialEq, Eq, Structural)]
pub struct IpConfigurationPacket {
    pub permanent: u8,
    pub dhcp_mode: u8,
    pub ip_address: u32,
    pub ip_netmask: u32,
    pub ip_gateway: u32,
    pub dns_server: u32,
    pub boreas_serial_number_part_1: u32,
    pub boreas_serial_number_part_2: u32,
    pub boreas_serial_number_part_3: u32,
}

impl IpConfigurationPacket {
    /// The exact little-endian payload encoding.
    pub open spec fn spec_bytes(self) -> Seq<u8> {
        seq![self.permanent]
            + seq![self.dhcp_mode]
            + spec_u32_to_le_bytes(self.ip_address)
            + spec_u32_to_le_bytes(self.ip_netmask)
            + spec_u32_to_le_bytes(self.ip_gateway)
            + spec_u32_to_le_bytes(self.dns_server)
            + spec_u32_to_le_bytes(self.boreas_serial_number_part_1)
            + spec_u32_to_le_bytes(self.boreas_serial_number_part_2)
            + spec_u32_to_le_bytes(self.boreas_serial_number_part_3)
    }

    /// Whether a payload decodes into this packet kind.
    pub open spec fn decodable(data: Seq<u8>) -> bool {
        data.len() == 30
    }

    /// Encodes the packet as its exact payload bytes.
    pub fn to_bytes(&self) -> (r: Vec<u8>)
        ensures
            r@ == self.spec_bytes(),
            r@.len() == 30,
    {
        let mut out: Vec<u8> = Vec::new();
        out.push(self.permanent);
        out.push(self.dhcp_mode);
        write_u32(&mut out, self.ip_address);
        write_u32(&mut out, self.ip_netmask);
        write_u32(&mut out, self.ip_gateway);
        write_u32(&mut out, self.dns_server);
        write_u32(&mut out, self.boreas_serial_number_part_1);
        write_u32(&mut out, self.boreas_serial_number_part_2);
        write_u32(&mut out, self.boreas_serial_number_part_3);
        proof {
            lemma_le_bytes_lens();
            assert(out@ =~= self.spec_bytes());
        }
        out
    }

    /// Decodes a payload; succeeds exactly on valid 30-byte inputs.
    pub fn from_bytes(data: &[u8]) -> (r: Result<IpConfigurationPacket, AnError>)
        ensures
            Self::decodable(data@) ==> (r matches Ok(p) && p.spec_bytes() == data@),
            !Self::decodable(data@) ==> (r matches Err(e) && e matches AnError::InvalidPacket(_)),
    {
        if data.len() != 30 {
            return Err(AnError::InvalidPacket("ip configuration payload must be 30 bytes".to_string()));
        }
        let p = IpConfigurationPacket {
            permanent: data[0],
            dhcp_mode: data[1],
            ip_address: read_u32(data, 2),
            ip_netmask: read_u32(data, 6),
            ip_gateway: read_u32(data, 10),
            dns_server: read_u32(data, 14),
            boreas_serial_number_part_1: read_u32(data, 18),
            boreas_serial_number_part_2: read_u32(data, 22),
            boreas_serial_number_part_3: read_u32(data, 26),
        };
        proof {
            lemma_le_bytes_lens();
            assert(p.spec_bytes() =~= data@);
        }
        Ok(p)
    }
}

/// Equal payload encodings come from equal packets.
pub(crate) proof fn lemma_ip_configuration_packet_bytes_inj(a: IpConfigurationPacket, b: IpConfigurationPacket)
    requires
        a.spec_bytes() == b.spec_bytes(),
    ensures
        a == b,
{
    lemma_le_bytes_lens();
    assert(a.permanent == a.spec_bytes()[0]);
    assert(b.permanent == b.spec_bytes()[0]);
    assert(a.dhcp_mode == a.spec_bytes()[1]);
    assert(b.dhcp_mode == b.spec_bytes()[1]);
    assert(a.spec_bytes().subrange(2, 6) =~= spec_u32_to_le_bytes(a.ip_address));
    assert(b.spec_bytes().subrange(2, 6) =~= spec_u32_to_le_bytes(b.ip_address));
    lemma_u32_bytes_inj(a.ip_address, b.ip_address);
    assert(a.spec_bytes().subrange(6, 10) =~= spec_u32_to_le_bytes(a.ip_netmask));
    assert(b.spec_bytes().subrange(6, 10) =~= spec_u32_to_le_bytes(b.ip_netmask));
    lemma_u32_bytes_inj(a.ip_netmask, b.ip_netmask);
    assert(a.spec_bytes().subrange(10, 14) =~= spec_u32_to_le_bytes(a.ip_gateway));
    assert(b.spec_bytes().subrange(10, 14) =~= spec_u32_to_le_bytes(b.ip_gateway));
    lemma_u32_bytes_inj(a.ip_gateway, b.ip_gateway);
    assert(a.spec_bytes().subrange(14, 18) =~= spec_u32_to_le_bytes(a.dns_server));
    assert(b.spec_bytes().subrange(14, 18) =~= spec_u32_to_le_bytes(b.dns_server));
    lemma_u32_bytes_inj(a.dns_server, b.dns_server);
    assert(a.spec_bytes().subrange(18, 22) =~= spec_u32_to_le_bytes(a.boreas_serial_number_part_1));
    assert(b.spec_bytes().subrange(18, 22) =~= spec_u32_to_le_bytes(b.boreas_serial_number_part_1));
    lemma_u32_bytes_inj(a.boreas_serial_number_part_1, b.boreas_serial_number_part_1);
    assert(a.spec_bytes().subrange(22, 26) =~= spec_u32_to_le_bytes(a.boreas_serial_number_part_2));
    assert(b.spec_bytes().subrange(22, 26) =~= spec_u32_to_le_bytes(b.boreas_serial_number_part_2));
    lemma_u32_bytes_inj(a.boreas_serial_number_part_2, b.boreas_serial_number_part_2);
    assert(a.spec_bytes().subrange(26, 30) =~= spec_u32_to_le_bytes(a.boreas_serial_number_part_3));
    assert(b.spec_bytes().subrange(26, 30) =~= spec_u32_to_le_bytes(b.boreas_serial_number_part_3));
    lemma_u32_bytes_inj(a.boreas_serial_number_part_3, b.boreas_serial_number_part_3);
}

impl Default for RestoreFactorySettingsPacket {
    fn default() -> (r: RestoreFactorySettingsPacket)
        ensures
            r.verification == 0x85429E1C,
    {
        RestoreFactorySettingsPacket::new()
    }
}

impl Default for ResetPacket {
    fn default() -> (r: ResetPacket)
        ensures
            r.verification == 0x21057A7E,
    {
        ResetPacket::new()
    }
}

/// Subcomponent information packet (identifier 14, payload length 24).  Read only; not in the stream registry.
#[derive(Debug, Clone, Copy, PartialEq, Eq, Structural)]
pub struct SubcomponentInformationPacket {
    pub software_version: u32,
    pub device_id: u32,
    pub hardware_revision: u32,
    pub serial_number: u32,
    pub hardware_id: u32,
    pub firmware_version: u32,
}

impl SubcomponentInformationPacket {
    /// The exact little-endian payload encoding.
    pub open spec fn spec_bytes(self) -> Seq<u8> {
        spec_u32_to_le_bytes(self.software_version)
            + spec_u32_to_le_bytes(self.device_id)
            + spec_u32_to_le_bytes(self.hardware_revision)
            + spec_u32_to_le_bytes(self.serial_number)
            + spec_u32_to_le_bytes(self.hardware_id)
            + spec_u32_to_le_bytes(self.firmware_version)
    }

    /// Whether a payload decodes into this packet kind.
    pub open spec fn decodable(data: Seq<u8>) -> bool {
        data.len() == 24
    }

    /// Encodes the packet as its exact payload bytes.
    pub fn to_bytes(&self) -> (r: Vec<u8>)
        ensures
            r@ == self.spec_bytes(),
            r@.len() == 24,
    {
        let mut out: Vec<u8> = Vec::new();
        write_u32(&mut out, self.software_version);
        write_u32(&mut out, self.device_id);
        write_u32(&mut out, self.hardware_revision);
        write_u32(&mut out, self.serial_number);
        write_u32(&mut out, self.hardware_id);
        write_u32(&mut out, self.firmware_version);
        proof {
            lemma_le_bytes_lens();
            assert(out@ =~= self.spec_bytes());
        }
        out
    }

    /// Decodes a payload; succeeds exactly on valid 24-byte inputs.
    pub fn from_bytes(data: &[u8]) -> (r: Result<SubcomponentInformationPacket, AnError>)
        ensures
            Self::decodable(data@) ==> (r matches Ok(p) && p.spec_bytes() == data@),
            !Self::decodable(data@) ==> (r matches Err(e) && e matches AnError::InvalidPacket(_)),
    {
        if data.len() != 24 {
            return Err(AnError::InvalidPacket("subcomponent information payload must be 24 bytes".to_string()));
        }
        let p = SubcomponentInformationPacket {
            software_version: read_u32(data, 0),
            device_id: read_u32(data, 4),
            hardware_revision: read_u32(data, 8),
            serial_number: read_u32(data, 12),
            hardware_id: read_u32(data, 16),
            firmware_version: read_u32(data, 20),
        };
        proof {
            lemma_le_bytes_lens();
            assert(p.spec_bytes() =~= data@);
        }
        Ok(p)
    }
}

/// Equal payload encodings come from equal packets.
pub(crate) proof fn lemma_subcomponent_information_packet_bytes_inj(a: SubcomponentInformationPacket, b: SubcomponentInformationPacket)
    requires
        a.spec_bytes() == b.spec_bytes(),
    ensures
        a == b,
{
    lemma_le_bytes_lens();
    assert(a.spec_bytes().subrange(0, 4) =~= spec_u32_to_le_bytes(a.software_version));
    assert(b.spec_bytes().subrange(0, 4) =~= spec_u32_to_le_bytes(b.software_version));
    lemma_u32_bytes_inj(a.software_version, b.software_version);
    assert(a.spec_bytes().subrange(4, 8) =~= spec_u32_to_le_bytes(a.device_id));
    assert(b.spec_bytes().subrange(4, 8) =~= spec_u32_to_le_bytes(b.device_id));
    lemma_u32_bytes_inj(a.device_id, b.device_id);
    assert(a.spec_bytes().subrange(8, 12) =~= spec_u32_to_le_bytes(a.hardware_revision));
    assert(b.spec_bytes().subrange(8, 12) =~= spec_u32_to_le_bytes(b.hardware_revision));
    lemma_u32_bytes_inj(a.hardware_revision, b.hardware_revision);
    assert(a.spec_bytes().subrange(12, 16) =~= spec_u32_to_le_bytes(a.serial_number));
    assert(b.spec_bytes().subrange(12, 16) =~= spec_u32_to_le_bytes(b.serial_number));
    lemma_u32_bytes_inj(a.serial_number, b.serial_number);
    assert(a.spec_bytes().subrange(16, 20) =~= spec_u32_to_le_bytes(a.hardware_id));
    assert(b.spec_bytes().subrange(16, 20) =~= spec_u32_to_le_bytes(b.hardware_id));
    lemma_u32_bytes_inj(a.hardware_id, b.hardware_id);
    assert(a.spec_bytes().subrange(20, 24) =~= spec_u32_to_le_bytes(a.firmware_version));
    assert(b.spec_bytes().subrange(20, 24) =~= spec_u32_to_le_bytes(b.firmware_version));
    lemma_u32_bytes_inj(a.firmware_version, b.firmware_version);
}

/// Serial port passthrough packet (identifier 10, variable length): the
/// raw bytes relayed through the device's serial port.  Not in the
/// stream registry.
#[derive(Debug, Clone, PartialEq)]
pub struct SerialPortPassthroughPacket {
    pub data: Vec<u8>,
}

impl SerialPortPassthroughPacket {
    /// The payload is the relayed bytes themselves.
    pub open spec fn spec_bytes(self) -> Seq<u8> {
        self.data@
    }

    /// Encodes the packet as its exact payload bytes.
    pub fn to_bytes(&self) -> (r: Vec<u8>)
        ensures
            r@ == self.spec_bytes(),
    {
        slice_to_vec(self.data.as_slice())
    }

    /// Decodes a payload; any byte sequence is a valid passthrough.
    pub fn from_bytes(data: &[u8]) -> (r: SerialPortPassthroughPacket)
        ensures
            r.spec_bytes() == data@,
    {
        SerialPortPassthroughPacket { data: slice_to_vec(data) }
    }
}

/// The character of one decimal digit.
pub open spec fn spec_digit_char(d: u32) -> char
    recommends
        d < 10,
{
    if d == 0 {
        '0'
    } else if d == 1 {
        '1'
    } else if d == 2 {
        '2'
    } else if d == 3 {
        '3'
    } else if d == 4 {
        '4'
    } else if d == 5 {
        '5'
    } else if d == 6 {
        '6'
    } else if d == 7 {
        '7'
    } else if d == 8 {
        '8'
    } else {
        '9'
    }
}

/// The decimal digits of `n`, most significant first.
pub open spec fn spec_u32_decimal(n: u32) -> Seq<char>
    decreases n,
{
    if n < 10 {
        seq![spec_digit_char(n)]
    } else {
        spec_u32_decimal(n / 10) + seq![spec_digit_char(n % 10)]
    }
}

/// Renders `n` in decimal.
pub fn u32_decimal(n: u32) -> (r: String)
    ensures
        r@ == spec_u32_decimal(n),
    decreases n,
{
    let d: u32 = n % 10;
    let digit: &str = match d {
        0u32 => "0",
        1u32 => "1",
        2u32 => "2",
        3u32 => "3",
        4u32 => "4",
        5u32 => "5",
        6u32 => "6",
        7u32 => "7",
        8u32 => "8",
        _ => "9",
    };
    proof {
        reveal_strlit("0");
        reveal_strlit("1");
        reveal_strlit("2");
        reveal_strlit("3");
        reveal_strlit("4");
        reveal_strlit("5");
        reveal_strlit("6");
        reveal_strlit("7");
        reveal_strlit("8");
        reveal_strlit("9");
        assert(digit@ =~= seq![spec_digit_char(d)]);
    }
    if n < 10 {
        String::from_str(digit)
    } else {
        let mut s: String = u32_decimal(n / 10);
        s.append(digit);
        proof {
            assert(s@ =~= spec_u32_decimal(n));
        }
        s
    }
}

impl IpConfigurationPacket {
    /// The serial number as its three dash-separated decimal parts.
    pub fn get_serial_number(&self) -> (r: String)
        ensures
            r@ == spec_u32_decimal(self.boreas_serial_number_part_1) + "-"@ + spec_u32_decimal(
                self.boreas_serial_number_part_2,
            ) + "-"@ + spec_u32_decimal(self.boreas_serial_number_part_3),
    {
        let mut s: String = u32_decimal(self.boreas_serial_number_part_1);
        s.append("-");
        let part2: String = u32_decimal(self.boreas_serial_number_part_2);
        s.append(part2.as_str());
        s.append("-");
        let part3: String = u32_decimal(self.boreas_serial_number_part_3);
        s.append(part3.as_str());
        s
    }
}


/// The dotted-decimal text of an IPv4 address held as a little-endian
/// word: the least significant byte is the first octet, as the wire
/// stores it.
pub open spec fn spec_dotted_decimal(ip: u32) -> Seq<char> {
    spec_u32_decimal(ip & 0xFF) + "."@ + spec_u32_decimal((ip >> 8) & 0xFF) + "."@
        + spec_u32_decimal((ip >> 16) & 0xFF) + "."@ + spec_u32_decimal(ip >> 24)
}

/// Renders an IPv4 address held as a little-endian word in dotted
/// decimal.
pub fn dotted_decimal(ip: u32) -> (r: String)
    ensures
        r@ == spec_dotted_decimal(ip),
{
    let mut s: String = u32_decimal(ip & 0xFF);
    s.append(".");
    let o2: String = u32_decimal((ip >> 8) & 0xFF);
    s.append(o2.as_str());
    s.append(".");
    let o3: String = u32_decimal((ip >> 16) & 0xFF);
    s.append(o3.as_str());
    s.append(".");
    let o4: String = u32_decimal(ip >> 24);
    s.append(o4.as_str());
    s
}

/// The little-endian word of four IPv4 octets, first octet least
/// significant, as the wire stores it.
pub open spec fn spec_ip_word(o1: u8, o2: u8, o3: u8, o4: u8) -> u32 {
    o1 as u32 | (o2 as u32) << 8 | (o3 as u32) << 16 | (o4 as u32) << 24
}

/// Packs four IPv4 octets into the wire's little-endian word.
pub fn ip_word(o1: u8, o2: u8, o3: u8, o4: u8) -> (r: u32)
    ensures
        r == spec_ip_word(o1, o2, o3, o4),
{
    o1 as u32 | (o2 as u32) << 8 | (o3 as u32) << 16 | (o4 as u32) << 24
}

impl IpConfigurationPacket {
    /// The IP address in dotted decimal.
    pub fn get_ip_address(&self) -> (r: String)
        ensures
            r@ == spec_dotted_decimal(self.ip_address),
    {
        dotted_decimal(self.ip_address)
    }

    /// The netmask in dotted decimal.
    pub fn get_ip_netmask(&self) -> (r: String)
        ensures
            r@ == spec_dotted_decimal(self.ip_netmask),
    {
        dotted_decimal(self.ip_netmask)
    }

    /// The gateway in dotted decimal.
    pub fn get_ip_gateway(&self) -> (r: String)
        ensures
            r@ == spec_dotted_decimal(self.ip_gateway),
    {
        dotted_decimal(self.ip_gateway)
    }

    /// The DNS server in dotted decimal.
    pub fn get_dns_server(&self) -> (r: String)
        ensures
            r@ == spec_dotted_decimal(self.dns_server),
    {
        dotted_decimal(self.dns_server)
    }

    /// Replaces the IP address with the given octets.
    pub fn set_ip_address(&mut self, o1: u8, o2: u8, o3: u8, o4: u8)
        ensures
            *final(self) == (IpConfigurationPacket {
                ip_address: spec_ip_word(o1, o2, o3, o4),
                ..*old(self)
            }),
    {
        self.ip_address = ip_word(o1, o2, o3, o4);
    }

    /// Replaces the netmask with the given octets.
    pub fn set_ip_netmask(&mut self, o1: u8, o2: u8, o3: u8, o4: u8)
        ensures
            *final(self) == (IpConfigurationPacket {
                ip_netmask: spec_ip_word(o1, o2, o3, o4),
                ..*old(self)
            }),
    {
        self.ip_netmask = ip_word(o1, o2, o3, o4);
    }

    /// Replaces the gateway with the given octets.
    pub fn set_ip_gateway(&mut self, o1: u8, o2: u8, o3: u8, o4: u8)
        ensures
            *final(self) == (IpConfigurationPacket {
                ip_gateway: spec_ip_word(o1, o2, o3, o4),
                ..*old(self)
            }),
    {
        self.ip_gateway = ip_word(o1, o2, o3, o4);
    }

    /// Replaces the DNS server with the given octets.
    pub fn set_dns_server(&mut self, o1: u8, o2: u8, o3: u8, o4: u8)
        ensures
            *final(self) == (IpConfigurationPacket {
                dns_server: spec_ip_word(o1, o2, o3, o4),
                ..*old(self)
            }),
    {
        self.dns_server = ip_word(o1, o2, o3, o4);
    }
}

} // verus!
