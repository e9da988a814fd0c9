//! Byte-exact length and round-trip checks for the packet codecs.

use liban::config::{
    FilterOptionsPacket, IpDataportEntry, IpDataportMode, IpDataportsConfigurationPacket,
    OdometerConfigurationPacket, OffsetVector, PacketPeriodEntry, PacketTimerPeriodPacket,
    PacketsPeriodPacket, ReferencePointOffsetsPacket, SetZeroOrientationAlignmentPacket,
    VehicleType,
};
use liban::flags::{FilterStatusFlags, SystemStatusFlags};
use liban::state::{
    EulerOrientationStdDevPacket, StatusPacket, SystemStatePacket, UnixTimePacket,
};
use liban::system::{
    AcknowledgePacket, BootModePacket, DeviceInformationPacket, IpConfigurationPacket,
    RequestPacket, ResetPacket, RestoreFactorySettingsPacket,
};

fn sample_system_state(
    system_status: SystemStatusFlags,
    filter_status: FilterStatusFlags,
) -> SystemStatePacket {
    SystemStatePacket {
        system_status,
        filter_status,
        unix_time_seconds: 1640995200,
        microseconds: 123456,
        latitude: 0.78539816f64.to_bits(),
        longitude: 0.52359878f64.to_bits(),
        height: 100.5f64.to_bits(),
        velocity_north: 1.5f32.to_bits(),
        velocity_east: 2.5f32.to_bits(),
        velocity_down: (-0.1f32).to_bits(),
        body_acceleration_x: 0.02f32.to_bits(),
        body_acceleration_y: (-0.01f32).to_bits(),
        body_acceleration_z: 9.81f32.to_bits(),
        g_force: 1.0f32.to_bits(),
        roll: 0.26179939f32.to_bits(),
        pitch: 0.17453293f32.to_bits(),
        heading: 1.5707963f32.to_bits(),
        angular_velocity_x: 0.001f32.to_bits(),
        angular_velocity_y: 0.002f32.to_bits(),
        angular_velocity_z: 0.003f32.to_bits(),
        latitude_std_dev: 0.5f32.to_bits(),
        longitude_std_dev: 0.6f32.to_bits(),
        height_std_dev: 1.0f32.to_bits(),
    }
}

#[test]
fn test_acknowledge_packet_length() {
    // Packet ID 0, Length 4
    let packet = AcknowledgePacket {
        packet_id: 185,
        packet_crc: 0x1234,
        result: 0,
    };
    let bytes = packet.to_bytes();
    assert_eq!(bytes.len(), 4, "AcknowledgePacket should be 4 bytes");
}

#[test]
fn test_request_packet_length() {
    // Packet ID 1
    let packet = RequestPacket { packet_id: 20 };
    let bytes = packet.to_bytes();
    assert_eq!(bytes.len(), 1, "RequestPacket should be 1 byte");
    println!("RequestPacket length: {} bytes", bytes.len());
}

#[test]
fn test_boot_mode_packet_length() {
    // Packet ID 2, Length 1
    let packet = BootModePacket { boot_mode: 1 };
    let bytes = packet.to_bytes();
    assert_eq!(bytes.len(), 1, "BootModePacket should be 1 byte");
}

#[test]
fn test_device_information_packet_length() {
    // Packet ID 3, Length 24
    let packet = DeviceInformationPacket {
        software_version: 0x01020304,
        device_id: 0x05060708,
        hardware_revision: 0x090A0B0C,
        serial_number_1: 111111,
        serial_number_2: 222222,
        serial_number_3: 333333,
    };
    let bytes = packet.to_bytes();
    assert_eq!(bytes.len(), 24, "DeviceInformationPacket should be 24 bytes");
}

#[test]
fn test_restore_factory_settings_packet_length() {
    // Packet ID 4, Length 4
    let packet = RestoreFactorySettingsPacket::new();
    assert_eq!(packet.verification, 0x85429E1C);
    let bytes = packet.to_bytes();
    assert_eq!(bytes.len(), 4, "RestoreFactorySettingsPacket should be 4 bytes");
}

#[test]
fn test_reset_packet_length() {
    // Packet ID 5, Length 4
    let packet = ResetPacket::new();
    assert_eq!(packet.verification, 0x21057A7E);
    let bytes = packet.to_bytes();
    assert_eq!(bytes.len(), 4, "ResetPacket should be 4 bytes");
}

#[test]
fn test_ip_configuration_packet_length() {
    // Packet ID 11, Length 30
    let packet = IpConfigurationPacket {
        permanent: 1,
        dhcp_mode: 0,
        ip_address: 0xC0A80164,  // 192.168.1.100
        ip_netmask: 0xFFFFFF00,  // 255.255.255.0
        ip_gateway: 0xC0A80101,  // 192.168.1.1
        dns_server: 0x08080808,  // 8.8.8.8
        boreas_serial_number_part_1: 123456,
        boreas_serial_number_part_2: 789012,
        boreas_serial_number_part_3: 345678,
    };
    let bytes = packet.to_bytes();
    assert_eq!(bytes.len(), 30, "IpConfigurationPacket should be exactly 30 bytes");
    println!("IpConfigurationPacket length: {} bytes", bytes.len());
}

#[test]
fn test_system_packet_round_trips() {
    // AcknowledgePacket round-trip
    let ack_original = AcknowledgePacket {
        packet_id: 202,
        packet_crc: 0xABCD,
        result: 2,
    };
    let ack_bytes = ack_original.to_bytes();
    let ack_deserialized = AcknowledgePacket::from_bytes(&ack_bytes).unwrap();
    assert_eq!(ack_original, ack_deserialized);

    // DeviceInformationPacket round-trip
    let dev_original = DeviceInformationPacket {
        software_version: 0x12345678,
        device_id: 0x87654321,
        hardware_revision: 0xDEADBEEF,
        serial_number_1: 987654,
        serial_number_2: 321098,
        serial_number_3: 765432,
    };
    let dev_bytes = dev_original.to_bytes();
    let dev_deserialized = DeviceInformationPacket::from_bytes(&dev_bytes).unwrap();
    assert_eq!(dev_original, dev_deserialized);

    // IpConfigurationPacket round-trip
    let ip_original = IpConfigurationPacket {
        permanent: 0,
        dhcp_mode: 1,
        ip_address: 0,
        ip_netmask: 0,
        ip_gateway: 0,
        dns_server: 0,
        boreas_serial_number_part_1: 111111,
        boreas_serial_number_part_2: 222222,
        boreas_serial_number_part_3: 333333,
    };
    let ip_bytes = ip_original.to_bytes();
    let ip_deserialized = IpConfigurationPacket::from_bytes(&ip_bytes).unwrap();
    assert_eq!(ip_original, ip_deserialized);

    println!("All system packet round-trips successful");
}

#[test]
fn test_system_packet_size_summary() {
    println!("\n=== System Packet Size Summary ===");
    let ack = AcknowledgePacket { packet_id: 0, packet_crc: 0, result: 0 };
    println!("AcknowledgePacket (ID 0): Expected 4, Actual {}", ack.to_bytes().len());
    let req = RequestPacket { packet_id: 0 };
    println!("RequestPacket (ID 1): Variable length, Actual {}", req.to_bytes().len());
    let boot = BootModePacket { boot_mode: 0 };
    println!("BootModePacket (ID 2): Expected 1, Actual {}", boot.to_bytes().len());
    let dev = DeviceInformationPacket {
        software_version: 0,
        device_id: 0,
        hardware_revision: 0,
        serial_number_1: 0,
        serial_number_2: 0,
        serial_number_3: 0,
    };
    println!("DeviceInformationPacket (ID 3): Expected 24, Actual {}", dev.to_bytes().len());
    let restore = RestoreFactorySettingsPacket::new();
    println!(
        "RestoreFactorySettingsPacket (ID 4): Expected 4, Actual {}",
        restore.to_bytes().len()
    );
    let reset = ResetPacket::new();
    println!("ResetPacket (ID 5): Expected 4, Actual {}", reset.to_bytes().len());
    let ip = IpConfigurationPacket {
        permanent: 0,
        dhcp_mode: 0,
        ip_address: 0,
        ip_netmask: 0,
        ip_gateway: 0,
        dns_server: 0,
        boreas_serial_number_part_1: 0,
        boreas_serial_number_part_2: 0,
        boreas_serial_number_part_3: 0,
    };
    println!("IpConfigurationPacket (ID 11): Expected 30, Actual {}", ip.to_bytes().len());
    println!("=== End System Summary ===\n");
}

#[test]
fn test_reset_packet_try_from_try_into() {
    let original_packet = ResetPacket::new();
    let serialized = original_packet.to_bytes();
    let deserialized = ResetPacket::from_bytes(&serialized).unwrap();
    assert_eq!(original_packet, deserialized);
    assert_eq!(deserialized.verification, 0x21057A7E);
}

#[test]
fn test_device_information_try_from_vec() {
    let device_info = DeviceInformationPacket {
        software_version: 123,
        device_id: 456,
        hardware_revision: 789,
        serial_number_1: 111,
        serial_number_2: 222,
        serial_number_3: 333,
    };
    let serialized = device_info.to_bytes();
    let deserialized = DeviceInformationPacket::from_bytes(&serialized).unwrap();
    assert_eq!(device_info, deserialized);
}

#[test]
fn test_boot_mode_packet_try_from_slice() {
    let boot_mode = BootModePacket { boot_mode: 42 };
    let serialized = boot_mode.to_bytes();
    let deserialized = BootModePacket::from_bytes(&serialized).unwrap();
    assert_eq!(boot_mode, deserialized);
    assert_eq!(deserialized.boot_mode, 42);
}

#[test]
fn test_system_state_packet_length() {
    // Packet ID 20, Length 100
    let packet = sample_system_state(
        SystemStatusFlags::empty(),
        FilterStatusFlags::from_bits_truncate(FilterStatusFlags::ORIENTATION_FILTER_INITIALISED),
    );
    let bytes = packet.to_bytes();
    assert_eq!(bytes.len(), 100, "SystemStatePacket should be 100 bytes");
}

#[test]
fn test_unix_time_packet_length() {
    // Packet ID 21, Length 8
    let packet = UnixTimePacket {
        unix_time_seconds: 1640995200,
        microseconds: 123456,
    };
    let bytes = packet.to_bytes();
    assert_eq!(bytes.len(), 8, "UnixTimePacket should be 8 bytes");
}

#[test]
fn test_status_packet_length() {
    // Packet ID 23, Length 4
    let packet = StatusPacket {
        system_status: SystemStatusFlags::from_bits_truncate(
            SystemStatusFlags::GNSS_FAILURE | SystemStatusFlags::LOW_VOLTAGE_ALARM,
        ),
        filter_status: FilterStatusFlags::from_bits_truncate(
            FilterStatusFlags::ORIENTATION_FILTER_INITIALISED
                | FilterStatusFlags::HEADING_INITIALISED,
        ),
    };
    let bytes = packet.to_bytes();
    assert_eq!(bytes.len(), 4, "StatusPacket should be 4 bytes");
    println!("StatusPacket length: {} bytes", bytes.len());
}

#[test]
fn test_system_state_packet_round_trip() {
    let original = SystemStatePacket {
        system_status: SystemStatusFlags::from_bits_truncate(
            SystemStatusFlags::SYSTEM_FAILURE | SystemStatusFlags::GNSS_ANTENNA_DISCONNECTED,
        ),
        filter_status: FilterStatusFlags::from_bits_truncate(
            FilterStatusFlags::NAVIGATION_FILTER_INITIALISED
                | FilterStatusFlags::UTC_TIME_INITIALISED,
        ),
        unix_time_seconds: 1700000000,
        microseconds: 999999,
        latitude: (-0.34906585f64).to_bits(),
        longitude: 2.6179939f64.to_bits(),
        height: (-50.25f64).to_bits(),
        velocity_north: (-5.0f32).to_bits(),
        velocity_east: 10.2f32.to_bits(),
        velocity_down: 0.5f32.to_bits(),
        body_acceleration_x: (-0.1f32).to_bits(),
        body_acceleration_y: 0.05f32.to_bits(),
        body_acceleration_z: 9.75f32.to_bits(),
        g_force: 0.98f32.to_bits(),
        roll: (-0.17453293f32).to_bits(),
        pitch: 0.08726646f32.to_bits(),
        heading: 3.14159265f32.to_bits(),
        angular_velocity_x: (-0.01f32).to_bits(),
        angular_velocity_y: 0.005f32.to_bits(),
        angular_velocity_z: (-0.002f32).to_bits(),
        latitude_std_dev: 1.2f32.to_bits(),
        longitude_std_dev: 1.5f32.to_bits(),
        height_std_dev: 2.0f32.to_bits(),
    };
    let bytes = original.to_bytes();
    assert_eq!(bytes.len(), 100, "SystemStatePacket should serialize to 100 bytes");
    let deserialized = SystemStatePacket::from_bytes(&bytes).unwrap();
    assert_eq!(deserialized.system_status, original.system_status);
    assert_eq!(deserialized.filter_status, original.filter_status);
    assert_eq!(deserialized.unix_time_seconds, original.unix_time_seconds);
    assert_eq!(deserialized.microseconds, original.microseconds);
    assert_eq!(deserialized.latitude, original.latitude);
    assert_eq!(deserialized.longitude, original.longitude);
    assert_eq!(deserialized.height, original.height);
    assert_eq!(deserialized.heading, original.heading);
    println!("SystemStatePacket round-trip successful");
}

#[test]
fn test_unix_time_packet_round_trip() {
    let original = UnixTimePacket {
        unix_time_seconds: 1234567890,
        microseconds: 555555,
    };
    let bytes = original.to_bytes();
    assert_eq!(bytes.len(), 8, "UnixTimePacket should serialize to 8 bytes");
    let deserialized = UnixTimePacket::from_bytes(&bytes).unwrap();
    assert_eq!(deserialized, original);
    println!("UnixTimePacket round-trip successful");
}

#[test]
fn test_euler_orientation_std_dev_packet_length() {
    // Packet ID 26, Length 12
    let packet = EulerOrientationStdDevPacket {
        roll_std_dev: 0.01f32.to_bits(),
        pitch_std_dev: 0.015f32.to_bits(),
        heading_std_dev: 0.02f32.to_bits(),
    };
    let bytes = packet.to_bytes();
    assert_eq!(bytes.len(), 12, "EulerOrientationStdDevPacket should be 12 bytes");
}

#[test]
fn test_euler_orientation_std_dev_packet_round_trip() {
    let original = EulerOrientationStdDevPacket {
        roll_std_dev: 0.0523599f32.to_bits(),
        pitch_std_dev: 0.0349066f32.to_bits(),
        heading_std_dev: 0.0872665f32.to_bits(),
    };
    let bytes = original.to_bytes();
    assert_eq!(bytes.len(), 12, "EulerOrientationStdDevPacket should serialize to 12 bytes");
    let deserialized = EulerOrientationStdDevPacket::from_bytes(&bytes).unwrap();
    assert_eq!(deserialized, original);
    println!("EulerOrientationStdDevPacket round-trip successful");
}

#[test]
fn test_state_packet_size_summary() {
    println!("\n=== State Packet Size Summary ===");
    let system_state = sample_system_state(SystemStatusFlags::empty(), FilterStatusFlags::empty());
    println!("SystemStatePacket (ID 20): Expected 100, Actual {}", system_state.to_bytes().len());
    let unix_time = UnixTimePacket { unix_time_seconds: 0, microseconds: 0 };
    println!("UnixTimePacket (ID 21): Expected 8, Actual {}", unix_time.to_bytes().len());
    let status = StatusPacket {
        system_status: SystemStatusFlags::empty(),
        filter_status: FilterStatusFlags::empty(),
    };
    println!("StatusPacket (ID 23): Expected 4, Actual {}", status.to_bytes().len());
    let euler_std_dev = EulerOrientationStdDevPacket {
        roll_std_dev: 0,
        pitch_std_dev: 0,
        heading_std_dev: 0,
    };
    println!(
        "EulerOrientationStdDevPacket (ID 26): Expected 12, Actual {}",
        euler_std_dev.to_bytes().len()
    );
    println!("=== End State Summary ===\n");
}

#[test]
fn test_packet_timer_period_packet_length() {
    // Packet ID 180, Length 4
    let packet = PacketTimerPeriodPacket {
        permanent: 1,
        utc_synchronisation: 1,
        packet_timer_period: 10000,
    };
    let bytes = packet.to_bytes();
    assert_eq!(bytes.len(), 4, "PacketTimerPeriodPacket should be 4 bytes");
}

#[test]
fn test_packets_period_packet_length_empty() {
    // Packet ID 181, variable length - empty entries
    let packet = PacketsPeriodPacket {
        permanent: 0,
        clear_existing: 0,
        packet_periods: vec![],
    };
    let bytes = packet.to_bytes();
    println!("Empty PacketsPeriodPacket length: {} bytes", bytes.len());
    assert_eq!(
        bytes.len(),
        3,
        "Empty PacketsPeriodPacket should be 3 bytes (permanent + clear_existing + count)"
    );
    assert_eq!(bytes[2], 0, "Third byte should be the entry count");
}

#[test]
fn test_packets_period_packet_length_with_entries() {
    let packet = PacketsPeriodPacket {
        permanent: 1,
        clear_existing: 0,
        packet_periods: vec![
            PacketPeriodEntry { packet_id: 20, period: 1000 },
            PacketPeriodEntry { packet_id: 21, period: 2000 },
        ],
    };
    let bytes = packet.to_bytes();
    println!("PacketsPeriodPacket with 2 entries length: {} bytes", bytes.len());
    assert_eq!(bytes.len(), 13, "PacketsPeriodPacket with 2 entries should be 13 bytes");
}

#[test]
fn test_packets_period_packet_round_trip() {
    let original = PacketsPeriodPacket {
        permanent: 1,
        clear_existing: 1,
        packet_periods: vec![
            PacketPeriodEntry { packet_id: 180, period: 10000 },
            PacketPeriodEntry { packet_id: 186, period: 20000 },
            PacketPeriodEntry { packet_id: 202, period: 5000 },
        ],
    };
    let bytes = original.to_bytes();
    println!("PacketsPeriodPacket with 3 entries serialized to {} bytes", bytes.len());
    assert_eq!(bytes.len(), 18, "Should be 3 + 3*5 = 18 bytes");
    assert_eq!(bytes[0], 1, "First byte should be permanent");
    assert_eq!(bytes[1], 1, "Second byte should be clear_existing");
    assert_eq!(bytes[2], 3, "Third byte should be the entry count");
    let deserialized = PacketsPeriodPacket::from_bytes(&bytes).unwrap();
    assert_eq!(deserialized.permanent, original.permanent);
    assert_eq!(deserialized.clear_existing, original.clear_existing);
    assert_eq!(deserialized.packet_periods, original.packet_periods);
    println!("PacketsPeriodPacket round-trip successful");
}

#[test]
fn test_installation_alignment_packet_length() {
    // Packet ID 185, Length 73
    let packet = liban::config::InstallationAlignmentPacket {
        permanent: 1,
        alignment_dcm: [
            1.0f32.to_bits(),
            0,
            0,
            0,
            1.0f32.to_bits(),
            0,
            0,
            0,
            1.0f32.to_bits(),
        ],
        gnss_antenna_offset: OffsetVector { x: 0, y: 0, z: 1.5f32.to_bits() },
        odometer_offset: OffsetVector { x: 0, y: 0, z: 0 },
        external_data_offset: OffsetVector { x: 0, y: 0, z: 0 },
    };
    let bytes = packet.to_bytes();
    assert_eq!(bytes.len(), 73, "InstallationAlignmentPacket should be 73 bytes");
}

#[test]
fn test_filter_options_packet_length() {
    // Packet ID 186, Length 17
    let packet = FilterOptionsPacket {
        permanent: 1,
        vehicle_type: VehicleType::Boat,
        internal_gnss_enabled: 1,
        reserved1: 0,
        atmospheric_altitude_enabled: 0,
        velocity_heading_enabled: 1,
        reversing_detection_enabled: 0,
        motion_analysis_enabled: 1,
        reserved2: 0,
        reserved3: [0; 8],
    };
    let bytes = packet.to_bytes();
    assert_eq!(bytes.len(), 17, "FilterOptionsPacket should be 17 bytes");
}

#[test]
fn test_odometer_configuration_packet_length() {
    // Packet ID 192, Length 8
    let packet = OdometerConfigurationPacket {
        permanent: 1,
        automatic_pulse_measurement: 1,
        reserved: 0,
        pulse_length: 1.5f32.to_bits(),
    };
    let bytes = packet.to_bytes();
    assert_eq!(bytes.len(), 8, "OdometerConfigurationPacket should be 8 bytes");
}

#[test]
fn test_set_zero_orientation_alignment_packet_length() {
    // Packet ID 193: the permanent flag plus the 4-byte verification
    // sequence that arms the command.
    let packet = SetZeroOrientationAlignmentPacket::new(true);
    let bytes = packet.to_bytes();
    assert_eq!(bytes.len(), 5, "SetZeroOrientationAlignmentPacket should be 5 bytes");
    assert_eq!(packet.verification, 0x9A4E8055);
}

#[test]
fn test_reference_point_offsets_packet_length() {
    // Packet ID 194, Length 49
    let packet = ReferencePointOffsetsPacket {
        permanent: 1,
        heave_point_1: OffsetVector {
            x: 1.0f32.to_bits(),
            y: 2.0f32.to_bits(),
            z: 3.0f32.to_bits(),
        },
        heave_point_2: OffsetVector {
            x: 4.0f32.to_bits(),
            y: 5.0f32.to_bits(),
            z: 6.0f32.to_bits(),
        },
        heave_point_3: OffsetVector {
            x: 7.0f32.to_bits(),
            y: 8.0f32.to_bits(),
            z: 9.0f32.to_bits(),
        },
        heave_point_4: OffsetVector {
            x: 10.0f32.to_bits(),
            y: 11.0f32.to_bits(),
            z: 12.0f32.to_bits(),
        },
    };
    let bytes = packet.to_bytes();
    assert_eq!(bytes.len(), 49, "ReferencePointOffsetsPacket should be 49 bytes");
}

#[test]
fn test_ip_dataports_configuration_packet_length() {
    // Packet ID 202, Length 30
    let disabled_entry = IpDataportEntry {
        ip_address: 0,
        port: 0,
        mode: IpDataportMode::Disabled,
    };
    let tcp_server_entry = IpDataportEntry {
        ip_address: 0,
        port: 17000,
        mode: IpDataportMode::TcpServer,
    };
    let packet = IpDataportsConfigurationPacket {
        reserved: 0,
        dataports: [disabled_entry, tcp_server_entry, disabled_entry, disabled_entry],
    };
    let bytes = packet.to_bytes();
    assert_eq!(bytes.len(), 30, "IpDataportsConfigurationPacket should be exactly 30 bytes");
}

#[test]
fn test_ip_dataports_configuration_packet_all_modes() {
    let entries = [
        IpDataportEntry { ip_address: 0, port: 0, mode: IpDataportMode::Disabled },
        IpDataportEntry { ip_address: 0, port: 17000, mode: IpDataportMode::TcpServer },
        IpDataportEntry {
            ip_address: 0xC0A8002A,  // 192.168.0.42
            port: 8080,
            mode: IpDataportMode::TcpClient,
        },
        IpDataportEntry {
            ip_address: 0x0A000001,  // 10.0.0.1
            port: 9999,
            mode: IpDataportMode::UdpClient,
        },
    ];
    let packet = IpDataportsConfigurationPacket {
        reserved: 1,  // test with the permanent flag set
        dataports: entries,
    };
    let bytes = packet.to_bytes();
    assert_eq!(
        bytes.len(),
        30,
        "IpDataportsConfigurationPacket with all modes should be exactly 30 bytes"
    );
    assert_eq!(bytes[0], 1);  // reserved low byte
    assert_eq!(bytes[1], 0);  // reserved high byte
    assert_eq!(&bytes[2..9], [0, 0, 0, 0, 0, 0, 0]);  // IP=0, Port=0, Mode=0
    assert_eq!(&bytes[9..16], [0, 0, 0, 0, 0x68, 0x42, 2]);  // IP=0, Port=17000, Mode=2
}

#[test]
fn test_ip_dataports_configuration_packet_round_trip() {
    let original = IpDataportsConfigurationPacket {
        reserved: 0,
        dataports: [
            IpDataportEntry { ip_address: 0, port: 0, mode: IpDataportMode::Disabled },
            IpDataportEntry { ip_address: 0, port: 8080, mode: IpDataportMode::TcpServer },
            IpDataportEntry {
                ip_address: 0xC0A80101,  // 192.168.1.1
                port: 9090,
                mode: IpDataportMode::TcpClient,
            },
            IpDataportEntry {
                ip_address: 0xAC100001,  // 172.16.0.1
                port: 5000,
                mode: IpDataportMode::UdpClient,
            },
        ],
    };
    let bytes = original.to_bytes();
    assert_eq!(bytes.len(), 30, "Serialized packet should be 30 bytes");
    let deserialized = IpDataportsConfigurationPacket::from_bytes(&bytes).unwrap();
    assert_eq!(deserialized.reserved, original.reserved);
    assert_eq!(deserialized.dataports, original.dataports);
}

#[test]
fn test_packet_size_summary() {
    println!("\n=== Packet Size Summary ===");
    let timer_packet = PacketTimerPeriodPacket {
        permanent: 0,
        utc_synchronisation: 0,
        packet_timer_period: 1000,
    };
    println!("PacketTimerPeriodPacket (ID 180): Expected 4, Actual {}", timer_packet.to_bytes().len());
    let periods_packet = PacketsPeriodPacket {
        permanent: 0,
        clear_existing: 0,
        packet_periods: vec![],
    };
    println!(
        "PacketsPeriodPacket (ID 181): Variable length, Empty = {}",
        periods_packet.to_bytes().len()
    );
    let alignment_packet = liban::config::InstallationAlignmentPacket {
        permanent: 0,
        alignment_dcm: [0; 9],
        gnss_antenna_offset: OffsetVector { x: 0, y: 0, z: 0 },
        odometer_offset: OffsetVector { x: 0, y: 0, z: 0 },
        external_data_offset: OffsetVector { x: 0, y: 0, z: 0 },
    };
    println!(
        "InstallationAlignmentPacket (ID 185): Expected 73, Actual {}",
        alignment_packet.to_bytes().len()
    );
    let filter_packet = FilterOptionsPacket::new(false, VehicleType::Car);
    println!("FilterOptionsPacket (ID 186): Expected 17, Actual {}", filter_packet.to_bytes().len());
    let odometer_packet = OdometerConfigurationPacket {
        permanent: 0,
        automatic_pulse_measurement: 0,
        reserved: 0,
        pulse_length: 0,
    };
    println!(
        "OdometerConfigurationPacket (ID 192): Expected 8, Actual {}",
        odometer_packet.to_bytes().len()
    );
    let zero_align_packet = SetZeroOrientationAlignmentPacket::new(false);
    println!(
        "SetZeroOrientationAlignmentPacket (ID 193): Expected 5, Actual {}",
        zero_align_packet.to_bytes().len()
    );
    let ref_point_packet = ReferencePointOffsetsPacket {
        permanent: 0,
        heave_point_1: OffsetVector { x: 0, y: 0, z: 0 },
        heave_point_2: OffsetVector { x: 0, y: 0, z: 0 },
        heave_point_3: OffsetVector { x: 0, y: 0, z: 0 },
        heave_point_4: OffsetVector { x: 0, y: 0, z: 0 },
    };
    println!(
        "ReferencePointOffsetsPacket (ID 194): Expected 49, Actual {}",
        ref_point_packet.to_bytes().len()
    );
    let dataports_packet = IpDataportsConfigurationPacket::new();
    println!(
        "IpDataportsConfigurationPacket (ID 202): Expected 30, Actual {}",
        dataports_packet.to_bytes().len()
    );
    println!("=== End Summary ===\n");
}

#[test]
fn test_system_state_serialization() {
    let pi: f64 = std::f64::consts::PI;
    let system_state = SystemStatePacket {
        system_status: SystemStatusFlags::empty(),
        filter_status: FilterStatusFlags::from_bits_truncate(
            FilterStatusFlags::ORIENTATION_FILTER_INITIALISED
                | FilterStatusFlags::NAVIGATION_FILTER_INITIALISED
                | FilterStatusFlags::HEADING_INITIALISED,
        ),
        unix_time_seconds: 1640995200,
        microseconds: 123456,
        latitude: (pi / 4.0).to_bits(),
        longitude: (pi / 6.0).to_bits(),
        height: 100.5f64.to_bits(),
        velocity_north: 1.5f32.to_bits(),
        velocity_east: 2.5f32.to_bits(),
        velocity_down: (-0.1f32).to_bits(),
        body_acceleration_x: 0.02f32.to_bits(),
        body_acceleration_y: (-0.01f32).to_bits(),
        body_acceleration_z: 9.81f32.to_bits(),
        g_force: 1.0f32.to_bits(),
        roll: ((pi / 12.0) as f32).to_bits(),
        pitch: ((pi / 18.0) as f32).to_bits(),
        heading: ((pi / 2.0) as f32).to_bits(),
        angular_velocity_x: 0.001f32.to_bits(),
        angular_velocity_y: 0.002f32.to_bits(),
        angular_velocity_z: 0.003f32.to_bits(),
        latitude_std_dev: 0.5f32.to_bits(),
        longitude_std_dev: 0.6f32.to_bits(),
        height_std_dev: 1.0f32.to_bits(),
    };

    let serialized = system_state.to_bytes();
    let deserialized = SystemStatePacket::from_bytes(&serialized).unwrap();
    assert_eq!(system_state, deserialized);
}
