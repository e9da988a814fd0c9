//! Ergonomic configuration packet types, free of wire format concerns.

use crate::config::{
    FilterOptionsPacket, InstallationAlignmentPacket, IpDataportEntry, IpDataportMode,
    IpDataportsConfigurationPacket, OdometerConfigurationPacket, OffsetVector, PacketPeriodEntry,
    PacketTimerPeriodPacket, PacketsPeriodPacket, ReferencePointOffsetsPacket,
    SetZeroOrientationAlignmentPacket, VehicleType,
};
use crate::packet::{id_of_kind, kind_of, spec_id_of_kind, PacketKind};
use vstd::prelude::*;

verus! {

/// One configured packet period, naming the kind instead of a raw id.
/// The period is in units of the packet timer period.
#[derive(Debug, Clone, Copy, PartialEq, Eq, Structural)]
pub struct PacketPeriod {
    pub packet_type: PacketKind,
    pub period: u32,
}

impl PacketPeriod {
    /// Promotes a wire entry.
    pub fn from_entry(e: PacketPeriodEntry) -> (r: PacketPeriod)
        ensures
            r.packet_type == kind_of(e.packet_id),
            r.period == e.period,
    {
        PacketPeriod { packet_type: PacketKind::from_u8(e.packet_id), period: e.period }
    }

    /// Lowers to a wire entry.
    pub fn to_entry(&self) -> (r: PacketPeriodEntry)
        ensures
            r.packet_id == spec_id_of_kind(self.packet_type),
            r.period == self.period,
    {
        PacketPeriodEntry { packet_id: id_of_kind(self.packet_type), period: self.period }
    }
}

/// The packet timer period with its flags promoted to booleans.
#[derive(Debug, Clone, Copy, PartialEq, Eq, Structural)]
pub struct PacketTimerPeriod {
    pub permanent: bool,
    pub utc_synchronisation: bool,
    pub packet_timer_period: u16,
}

impl PacketTimerPeriod {
    /// Promotes a wire packet.
    pub fn from_wire(p: PacketTimerPeriodPacket) -> (r: PacketTimerPeriod)
        ensures
            r.permanent == (p.permanent != 0),
            r.utc_synchronisation == (p.utc_synchronisation != 0),
            r.packet_timer_period == p.packet_timer_period,
    {
        PacketTimerPeriod {
            permanent: p.permanent != 0,
            utc_synchronisation: p.utc_synchronisation != 0,
            packet_timer_period: p.packet_timer_period,
        }
    }

    /// Lowers to a wire packet.
    pub fn to_wire(&self) -> (r: PacketTimerPeriodPacket)
        ensures
            r.permanent == if self.permanent { 1u8 } else { 0u8 },
            r.utc_synchronisation == if self.utc_synchronisation { 1u8 } else { 0u8 },
            r.packet_timer_period == self.packet_timer_period,
    {
        PacketTimerPeriodPacket {
            permanent: if self.permanent { 1 } else { 0 },
            utc_synchronisation: if self.utc_synchronisation { 1 } else { 0 },
            packet_timer_period: self.packet_timer_period,
        }
    }
}

/// The packets period configuration with its flags promoted.
#[derive(Debug, Clone, PartialEq)]
pub struct PacketsPeriod {
    pub permanent: bool,
    pub clear_existing: bool,
    pub packet_periods: Vec<PacketPeriod>,
}

impl PacketsPeriod {
    /// Promotes a wire packet, naming each entry's kind.
    pub fn from_wire(p: &PacketsPeriodPacket) -> (r: PacketsPeriod)
        ensures
            r.permanent == (p.permanent != 0),
            r.clear_existing == (p.clear_existing != 0),
            r.packet_periods@.len() == p.packet_periods@.len(),
            forall|i: int|
                0 <= i < r.packet_periods@.len() ==> (#[trigger] r.packet_periods@[i]).packet_type
                    == kind_of(p.packet_periods@[i].packet_id) && r.packet_periods@[i].period
                    == p.packet_periods@[i].period,
    {
        let n: usize = p.packet_periods.len();
        let mut periods: Vec<PacketPeriod> = Vec::new();
        let mut i: usize = 0;
        #[verifier::loop_isolation(false)]
        while i < n
            invariant
                i <= n,
                n == p.packet_periods@.len(),
                periods@.len() == i,
                forall|j: int|
                    0 <= j < i ==> (#[trigger] periods@[j]).packet_type == kind_of(
                        p.packet_periods@[j].packet_id,
                    ) && periods@[j].period == p.packet_periods@[j].period,
            decreases n - i,
        {
            periods.push(PacketPeriod::from_entry(p.packet_periods[i]));
            i += 1;
        }
        PacketsPeriod {
            permanent: p.permanent != 0,
            clear_existing: p.clear_existing != 0,
            packet_periods: periods,
        }
    }

    /// Lowers to a wire packet.
    pub fn to_wire(&self) -> (r: PacketsPeriodPacket)
        ensures
            r.permanent == if self.permanent { 1u8 } else { 0u8 },
            r.clear_existing == if self.clear_existing { 1u8 } else { 0u8 },
            r.packet_periods@.len() == self.packet_periods@.len(),
            forall|i: int|
                0 <= i < r.packet_periods@.len() ==> (#[trigger] r.packet_periods@[i]).packet_id
                    == spec_id_of_kind(self.packet_periods@[i].packet_type)
                    && r.packet_periods@[i].period == self.packet_periods@[i].period,
    {
        let n: usize = self.packet_periods.len();
        let mut entries: Vec<PacketPeriodEntry> = Vec::new();
        let mut i: usize = 0;
        #[verifier::loop_isolation(false)]
        while i < n
            invariant
                i <= n,
                n == self.packet_periods@.len(),
                entries@.len() == i,
                forall|j: int|
                    0 <= j < i ==> (#[trigger] entries@[j]).packet_id == spec_id_of_kind(
                        self.packet_periods@[j].packet_type,
                    ) && entries@[j].period == self.packet_periods@[j].period,
            decreases n - i,
        {
            let e: PacketPeriod = self.packet_periods[i];
            entries.push(e.to_entry());
            i += 1;
        }
        PacketsPeriodPacket {
            permanent: if self.permanent { 1 } else { 0 },
            clear_existing: if self.clear_existing { 1 } else { 0 },
            packet_periods: entries,
        }
    }
}

/// The filter options with the flags promoted and the reserved fields
/// hidden.
#[derive(Debug, Clone, Copy, PartialEq, Eq, Structural)]
pub struct FilterOptions {
    pub permanent: bool,
    pub vehicle_type: VehicleType,
    pub internal_gnss_enabled: bool,
    pub atmospheric_altitude_enabled: bool,
    pub velocity_heading_enabled: bool,
    pub reversing_detection_enabled: bool,
    pub motion_analysis_enabled: bool,
}

impl FilterOptions {
    /// Promotes a wire packet, dropping the reserved fields.
    pub fn from_wire(p: FilterOptionsPacket) -> (r: FilterOptions)
        ensures
            r.permanent == (p.permanent != 0),
            r.vehicle_type == p.vehicle_type,
            r.internal_gnss_enabled == (p.internal_gnss_enabled != 0),
            r.atmospheric_altitude_enabled == (p.atmospheric_altitude_enabled != 0),
            r.velocity_heading_enabled == (p.velocity_heading_enabled != 0),
            r.reversing_detection_enabled == (p.reversing_detection_enabled != 0),
            r.motion_analysis_enabled == (p.motion_analysis_enabled != 0),
    {
        FilterOptions {
            permanent: p.permanent != 0,
            vehicle_type: p.vehicle_type,
            internal_gnss_enabled: p.internal_gnss_enabled != 0,
            atmospheric_altitude_enabled: p.atmospheric_altitude_enabled != 0,
            velocity_heading_enabled: p.velocity_heading_enabled != 0,
            reversing_detection_enabled: p.reversing_detection_enabled != 0,
            motion_analysis_enabled: p.motion_analysis_enabled != 0,
        }
    }

    /// Lowers to a wire packet, zero-filling the reserved fields.
    pub fn to_wire(&self) -> (r: FilterOptionsPacket)
        ensures
            r.permanent == if self.permanent { 1u8 } else { 0u8 },
            r.vehicle_type == self.vehicle_type,
            r.internal_gnss_enabled == if self.internal_gnss_enabled { 1u8 } else { 0u8 },
            r.atmospheric_altitude_enabled == if self.atmospheric_altitude_enabled {
                1u8
            } else {
                0u8
            },
            r.velocity_heading_enabled == if self.velocity_heading_enabled { 1u8 } else { 0u8 },
            r.reversing_detection_enabled == if self.reversing_detection_enabled {
                1u8
            } else {
                0u8
            },
            r.motion_analysis_enabled == if self.motion_analysis_enabled { 1u8 } else { 0u8 },
            r.reserved1 == 0 && r.reserved2 == 0,
            forall|i: int| 0 <= i < 8 ==> r.reserved3@[i] == 0,
    {
        let r = FilterOptionsPacket {
            permanent: if self.permanent { 1 } else { 0 },
            vehicle_type: self.vehicle_type,
            internal_gnss_enabled: if self.internal_gnss_enabled { 1 } else { 0 },
            reserved1: 0,
            atmospheric_altitude_enabled: if self.atmospheric_altitude_enabled { 1 } else { 0 },
            velocity_heading_enabled: if self.velocity_heading_enabled { 1 } else { 0 },
            reversing_detection_enabled: if self.reversing_detection_enabled { 1 } else { 0 },
            motion_analysis_enabled: if self.motion_analysis_enabled { 1 } else { 0 },
            reserved2: 0,
            reserved3: [0, 0, 0, 0, 0, 0, 0, 0],
        };
        proof {
            assert(r.reserved3@ =~= seq![0u8, 0u8, 0u8, 0u8, 0u8, 0u8, 0u8, 0u8]);
        }
        r
    }
}

/// The zero orientation alignment command with its flag promoted; the
/// wire verification code is implicit.
#[derive(Debug, Clone, Copy, PartialEq, Eq, Structural)]
pub struct SetZeroOrientationAlignment {
    pub permanent: bool,
}

impl SetZeroOrientationAlignment {
    /// Promotes a wire packet.
    pub fn from_wire(p: SetZeroOrientationAlignmentPacket) -> (r: SetZeroOrientationAlignment)
        ensures
            r.permanent == (p.permanent != 0),
    {
        SetZeroOrientationAlignment { permanent: p.permanent != 0 }
    }

    /// Lowers to the wire packet armed with the correct code.
    pub fn to_wire(&self) -> (r: SetZeroOrientationAlignmentPacket)
        ensures
            r.permanent == if self.permanent { 1u8 } else { 0u8 },
            r.verification == 0x9A4E8055,
    {
        SetZeroOrientationAlignmentPacket::new(self.permanent)
    }
}

/// One dataport configuration; identical to the wire entry, which
/// already carries a typed mode.
#[derive(Debug, Clone, Copy, PartialEq, Eq, Structural)]
pub struct IpDataport {
    pub ip_address: u32,
    pub port: u16,
    pub mode: IpDataportMode,
}

impl IpDataport {
    /// Promotes a wire entry.
    pub fn from_entry(e: IpDataportEntry) -> (r: IpDataport)
        ensures
            r.ip_address == e.ip_address,
            r.port == e.port,
            r.mode == e.mode,
    {
        IpDataport { ip_address: e.ip_address, port: e.port, mode: e.mode }
    }

    /// Lowers to a wire entry.
    pub fn to_entry(&self) -> (r: IpDataportEntry)
        ensures
            r.ip_address == self.ip_address,
            r.port == self.port,
            r.mode == self.mode,
    {
        IpDataportEntry { ip_address: self.ip_address, port: self.port, mode: self.mode }
    }
}

/// The four dataports without the reserved word.
#[derive(Debug, Clone, Copy, PartialEq, Eq)]
pub struct IpDataportsConfiguration {
    pub dataports: [IpDataport; 4],
}

impl IpDataportsConfiguration {
    /// Promotes a wire packet, dropping the reserved word.
    pub fn from_wire(p: IpDataportsConfigurationPacket) -> (r: IpDataportsConfiguration)
        ensures
            forall|i: int|
                0 <= i < 4 ==> (#[trigger] r.dataports@[i]).ip_address == p.dataports@[i].ip_address
                    && r.dataports@[i].port == p.dataports@[i].port && r.dataports@[i].mode
                    == p.dataports@[i].mode,
    {
        let r = IpDataportsConfiguration {
            dataports: [
                IpDataport::from_entry(p.dataports[0]),
                IpDataport::from_entry(p.dataports[1]),
                IpDataport::from_entry(p.dataports[2]),
                IpDataport::from_entry(p.dataports[3]),
            ],
        };
        r
    }

    /// Lowers to a wire packet, zero-filling the reserved word.
    pub fn to_wire(&self) -> (r: IpDataportsConfigurationPacket)
        ensures
            r.reserved == 0,
            forall|i: int|
                0 <= i < 4 ==> (#[trigger] r.dataports@[i]).ip_address == self.dataports@[i].ip_address
                    && r.dataports@[i].port == self.dataports@[i].port && r.dataports@[i].mode
                    == self.dataports@[i].mode,
    {
        let r = IpDataportsConfigurationPacket {
            reserved: 0,
            dataports: [
                self.dataports[0].to_entry(),
                self.dataports[1].to_entry(),
                self.dataports[2].to_entry(),
                self.dataports[3].to_entry(),
            ],
        };
        r
    }
}


/// The odometer configuration with its flags promoted; `pulse_length`
/// holds the bit pattern of the pulse length in meters.
#[derive(Debug, Clone, Copy, PartialEq, Eq, Structural)]
pub struct OdometerConfiguration {
    pub permanent: bool,
    pub automatic_pulse_measurement: bool,
    pub pulse_length: u32,
}

impl OdometerConfiguration {
    /// Promotes a wire packet, dropping the reserved word.
    pub fn from_wire(p: OdometerConfigurationPacket) -> (r: OdometerConfiguration)
        ensures
            r == (OdometerConfiguration {
                permanent: p.permanent != 0,
                automatic_pulse_measurement: p.automatic_pulse_measurement != 0,
                pulse_length: p.pulse_length,
            }),
    {
        OdometerConfiguration {
            permanent: p.permanent != 0,
            automatic_pulse_measurement: p.automatic_pulse_measurement != 0,
            pulse_length: p.pulse_length,
        }
    }

    /// Lowers to a wire packet, zero-filling the reserved word.
    pub fn to_wire(&self) -> (r: OdometerConfigurationPacket)
        ensures
            r == (OdometerConfigurationPacket {
                permanent: if self.permanent { 1u8 } else { 0u8 },
                automatic_pulse_measurement: if self.automatic_pulse_measurement {
                    1u8
                } else {
                    0u8
                },
                reserved: 0u16,
                pulse_length: self.pulse_length,
            }),
    {
        OdometerConfigurationPacket {
            permanent: if self.permanent { 1 } else { 0 },
            automatic_pulse_measurement: if self.automatic_pulse_measurement { 1 } else { 0 },
            reserved: 0,
            pulse_length: self.pulse_length,
        }
    }
}

/// The reference point offsets with the permanent flag promoted.
#[derive(Debug, Clone, Copy, PartialEq, Eq, Structural)]
pub struct ReferencePointOffsets {
    pub permanent: bool,
    pub heave_point_1: OffsetVector,
    pub heave_point_2: OffsetVector,
    pub heave_point_3: OffsetVector,
    pub heave_point_4: OffsetVector,
}

impl ReferencePointOffsets {
    /// Promotes a wire packet.
    pub fn from_wire(p: ReferencePointOffsetsPacket) -> (r: ReferencePointOffsets)
        ensures
            r == (ReferencePointOffsets {
                permanent: p.permanent != 0,
                heave_point_1: p.heave_point_1,
                heave_point_2: p.heave_point_2,
                heave_point_3: p.heave_point_3,
                heave_point_4: p.heave_point_4,
            }),
    {
        ReferencePointOffsets {
            permanent: p.permanent != 0,
            heave_point_1: p.heave_point_1,
            heave_point_2: p.heave_point_2,
            heave_point_3: p.heave_point_3,
            heave_point_4: p.heave_point_4,
        }
    }

    /// Lowers to a wire packet.
    pub fn to_wire(&self) -> (r: ReferencePointOffsetsPacket)
        ensures
            r == (ReferencePointOffsetsPacket {
                permanent: if self.permanent { 1u8 } else { 0u8 },
                heave_point_1: self.heave_point_1,
                heave_point_2: self.heave_point_2,
                heave_point_3: self.heave_point_3,
                heave_point_4: self.heave_point_4,
            }),
    {
        ReferencePointOffsetsPacket {
            permanent: if self.permanent { 1 } else { 0 },
            heave_point_1: self.heave_point_1,
            heave_point_2: self.heave_point_2,
            heave_point_3: self.heave_point_3,
            heave_point_4: self.heave_point_4,
        }
    }
}

/// The installation alignment with the permanent flag promoted; the
/// matrix entries hold float bit patterns.
#[derive(Debug, Clone, Copy, PartialEq, Eq)]
pub struct InstallationAlignment {
    pub permanent: bool,
    pub alignment_dcm: [u32; 9],
    pub gnss_antenna_offset: OffsetVector,
    pub odometer_offset: OffsetVector,
    pub external_data_offset: OffsetVector,
}

impl InstallationAlignment {
    /// Promotes a wire packet.
    pub fn from_wire(p: InstallationAlignmentPacket) -> (r: InstallationAlignment)
        ensures
            r.permanent == (p.permanent != 0),
            r.alignment_dcm == p.alignment_dcm,
            r.gnss_antenna_offset == p.gnss_antenna_offset,
            r.odometer_offset == p.odometer_offset,
            r.external_data_offset == p.external_data_offset,
    {
        InstallationAlignment {
            permanent: p.permanent != 0,
            alignment_dcm: p.alignment_dcm,
            gnss_antenna_offset: p.gnss_antenna_offset,
            odometer_offset: p.odometer_offset,
            external_data_offset: p.external_data_offset,
        }
    }

    /// Lowers to a wire packet.
    pub fn to_wire(&self) -> (r: InstallationAlignmentPacket)
        ensures
            r == (InstallationAlignmentPacket {
                permanent: if self.permanent { 1u8 } else { 0u8 },
                alignment_dcm: self.alignment_dcm,
                gnss_antenna_offset: self.gnss_antenna_offset,
                odometer_offset: self.odometer_offset,
                external_data_offset: self.external_data_offset,
            }),
    {
        InstallationAlignmentPacket {
            permanent: if self.permanent { 1 } else { 0 },
            alignment_dcm: self.alignment_dcm,
            gnss_antenna_offset: self.gnss_antenna_offset,
            odometer_offset: self.odometer_offset,
            external_data_offset: self.external_data_offset,
        }
    }
}

} // verus!
