//! The ergonomic packet types and presentation helpers.

use liban::config::{IpDataportMode, VehicleType};
use liban::config_types::{
    FilterOptions, IpDataport, IpDataportsConfiguration, PacketPeriod, PacketTimerPeriod,
    PacketsPeriod, SetZeroOrientationAlignment,
};
use liban::packet::PacketKind;
use liban::state_types::{ExternalTime, FilterStatus, GnssFixType, SystemStatus};
use liban::system_types::{Acknowledge, AcknowledgeResult, DeviceInformation, Request};

#[test]
fn device_serial_number_formats_in_decimal() {
    let dev = DeviceInformation {
        software_version: 1,
        device_id: 2,
        hardware_revision: 3,
        serial_number_1: 111,
        serial_number_2: 0,
        serial_number_3: 4294967295,
    };
    assert_eq!(dev.get_serial_number(), "111-0-4294967295");
}

#[test]
fn ip_configuration_serial_number_formats_in_decimal() {
    let p = liban::system::IpConfigurationPacket {
        permanent: 0,
        dhcp_mode: 0,
        ip_address: 0,
        ip_netmask: 0,
        ip_gateway: 0,
        dns_server: 0,
        boreas_serial_number_part_1: 123456,
        boreas_serial_number_part_2: 789012,
        boreas_serial_number_part_3: 345678,
    };
    assert_eq!(p.get_serial_number(), "123456-789012-345678");
}

#[test]
fn active_flags_list_labels_in_bit_order() {
    let status = SystemStatus::new(
        liban::flags::SystemStatusFlags::SYSTEM_FAILURE
            | liban::flags::SystemStatusFlags::GNSS_FAILURE
            | liban::flags::SystemStatusFlags::SERIAL_PORT_OVERFLOW_ALARM,
    );
    assert_eq!(
        status.get_active_flags(),
        vec!["System Failure", "GNSS Failure", "Serial Port Overflow Alarm"]
    );
    assert!(SystemStatus::new(0).get_active_flags().is_empty());

    let filter = FilterStatus::new(
        liban::flags::FilterStatusFlags::NAVIGATION_FILTER_INITIALISED
            | liban::flags::FilterStatusFlags::EVENT2_FLAG,
    );
    assert_eq!(
        filter.get_active_flags(),
        vec!["Navigation Filter Initialised", "Event 2 Occurred"]
    );
}

#[test]
fn vehicle_type_and_mode_descriptions() {
    assert_eq!(VehicleType::from_u8(5), Some(VehicleType::Underwater3D));
    assert_eq!(VehicleType::from_u8(15), None);
    assert_eq!(VehicleType::Underwater3D.as_u8(), 5);
    assert_eq!(VehicleType::Underwater3D.description(), "3D Underwater Vehicle");
    assert_eq!(VehicleType::Car.description(), "Car");

    assert_eq!(IpDataportMode::from_u8(2), Some(IpDataportMode::TcpServer));
    assert_eq!(IpDataportMode::from_u8(1), None);
    assert_eq!(IpDataportMode::UdpClient.as_u8(), 4);
    assert_eq!(IpDataportMode::Disabled.description(), "MODE_NONE");
}

#[test]
fn acknowledge_round_trips_through_the_wire_form() {
    let ack = Acknowledge {
        acknowledged_packet: PacketKind::FilterOptions,
        result: AcknowledgeResult::Success,
    };
    let wire = ack.to_packet_with_crc(0x7777);
    assert_eq!(wire.packet_id, 186);
    assert_eq!(wire.packet_crc, 0x7777);
    assert_eq!(Acknowledge::from_packet_with_crc(wire), ack);
}

#[test]
fn request_names_the_kind() {
    let req = Request { requested_packet: PacketKind::SystemState };
    let wire = req.to_wire();
    assert_eq!(wire.packet_id, 20);
    assert_eq!(Request::from_wire(wire), req);
}

#[test]
fn external_time_round_trips() {
    let t = ExternalTime { unix_time_seconds: 1700000000, microseconds: 17 };
    assert_eq!(ExternalTime::from_wire(t.to_wire()), t);
    assert_eq!(t.to_wire().to_bytes().len(), 8);
}

#[test]
fn gnss_fix_type_lives_on_bits_4_to_6() {
    let filter = FilterStatus::new(7 << 4);
    assert_eq!(filter.gnss_fix_type, GnssFixType::RtkFixed);
    assert_eq!(filter.to_flags().bits(), 7 << 4);
}

#[test]
fn clean_config_types_round_trip() {
    let period = PacketPeriod { packet_type: PacketKind::UnixTime, period: 100 };
    assert_eq!(period.to_entry().packet_id, 21);
    assert_eq!(PacketPeriod::from_entry(period.to_entry()), period);

    let timer = PacketTimerPeriod {
        permanent: true,
        utc_synchronisation: false,
        packet_timer_period: 2000,
    };
    assert_eq!(PacketTimerPeriod::from_wire(timer.to_wire()), timer);

    let periods = PacketsPeriod {
        permanent: false,
        clear_existing: true,
        packet_periods: vec![period],
    };
    assert_eq!(PacketsPeriod::from_wire(&periods.to_wire()), periods);

    let options = FilterOptions {
        permanent: true,
        vehicle_type: VehicleType::Train,
        internal_gnss_enabled: true,
        atmospheric_altitude_enabled: false,
        velocity_heading_enabled: true,
        reversing_detection_enabled: false,
        motion_analysis_enabled: true,
    };
    assert_eq!(FilterOptions::from_wire(options.to_wire()), options);
    options.to_wire().validate().unwrap();

    let zero = SetZeroOrientationAlignment { permanent: true };
    assert_eq!(zero.to_wire().verification, 0x9A4E8055);
    assert_eq!(SetZeroOrientationAlignment::from_wire(zero.to_wire()), zero);

    let ports = IpDataportsConfiguration {
        dataports: [
            IpDataport { ip_address: 1, port: 2, mode: IpDataportMode::UdpClient },
            IpDataport { ip_address: 0, port: 0, mode: IpDataportMode::Disabled },
            IpDataport { ip_address: 3, port: 4, mode: IpDataportMode::TcpClient },
            IpDataport { ip_address: 0, port: 5, mode: IpDataportMode::TcpServer },
        ],
    };
    assert_eq!(IpDataportsConfiguration::from_wire(ports.to_wire()), ports);
}

#[test]
fn status_words_round_trip_through_their_bits() {
    for bits in [0u16, 1, 0x8000, 0xFFFF, 0x1234, 0xABCD] {
        assert_eq!(SystemStatus::new(bits).to_flags().bits(), bits);
        assert_eq!(FilterStatus::new(bits).to_flags().bits(), bits);
    }
}

#[test]
fn enabled_features_lists_vehicle_first() {
    let mut options = liban::config::FilterOptionsPacket::new(false, VehicleType::RaceCar);
    options.set_velocity_heading_enabled(true);
    options.set_motion_analysis_enabled(true);
    assert_eq!(
        options.get_enabled_features(),
        vec!["Vehicle Type: Race Car", "Velocity Heading", "Motion Analysis"]
    );
}

#[test]
fn clean_packet_enum_round_trip() {
    let frame = liban::protocol::AnppProtocol::create_packet(liban::packet::PacketId::new(2), &[9])
        .unwrap();
    let anpp = liban::protocol::AnppProtocol::parse_anpp_packet(&frame).unwrap();
    let clean = liban::types::Packet::from_anpp(anpp);
    assert_eq!(
        clean,
        liban::types::Packet::BootMode(liban::system_types::BootMode { boot_mode: 9 })
    );
    // Encoding the clean packet rebuilds the identical frame.
    assert_eq!(clean.to_bytes().unwrap(), frame);
    // Read-only and unsupported kinds cannot be sent.
    assert!(liban::types::Packet::Unsupported.to_bytes().is_err());
}

#[test]
fn packets_period_payload_is_count_prefixed() {
    // Hand-built payload: flags, count 1, one entry (id 20, period 10).
    let payload = [1u8, 0, 1, 20, 10, 0, 0, 0];
    let p = liban::config::PacketsPeriodPacket::from_bytes(&payload).unwrap();
    assert_eq!(p.permanent, 1);
    assert_eq!(p.clear_existing, 0);
    assert_eq!(
        p.packet_periods,
        vec![liban::config::PacketPeriodEntry { packet_id: 20, period: 10 }]
    );
    assert_eq!(p.to_bytes(), payload);

    // A count that does not match the remaining bytes is rejected.
    let wrong_count = [1u8, 0, 2, 20, 10, 0, 0, 0];
    assert!(liban::config::PacketsPeriodPacket::from_bytes(&wrong_count).is_err());
    // So is a payload that is not a whole number of entries.
    let ragged = [1u8, 0, 1, 20, 10, 0, 0];
    assert!(liban::config::PacketsPeriodPacket::from_bytes(&ragged).is_err());
}

#[test]
fn ip_words_render_and_pack_in_octet_order() {
    let mut cfg = liban::system::IpConfigurationPacket {
        permanent: 0,
        dhcp_mode: 0,
        ip_address: 0,
        ip_netmask: 0,
        ip_gateway: 0,
        dns_server: 0,
        boreas_serial_number_part_1: 0,
        boreas_serial_number_part_2: 0,
        boreas_serial_number_part_3: 0,
    };
    cfg.set_ip_address(192, 168, 1, 100);
    cfg.set_ip_netmask(255, 255, 255, 0);
    cfg.set_ip_gateway(192, 168, 1, 1);
    cfg.set_dns_server(8, 8, 8, 8);
    assert_eq!(cfg.get_ip_address(), "192.168.1.100");
    assert_eq!(cfg.get_ip_netmask(), "255.255.255.0");
    assert_eq!(cfg.get_ip_gateway(), "192.168.1.1");
    assert_eq!(cfg.get_dns_server(), "8.8.8.8");
    // First octet in the least significant byte, as the wire stores it.
    assert_eq!(cfg.ip_address & 0xFF, 192);

    let mut entry = liban::config::IpDataportEntry::new(0, 7000, IpDataportMode::UdpClient);
    entry.set_ip_address(10, 0, 0, 1);
    assert_eq!(entry.get_ip_address(), "10.0.0.1");
}

#[test]
fn reference_point_offsets_helpers() {
    let mut p = liban::config::ReferencePointOffsetsPacket::new(false);
    assert!(p.is_default_configuration());
    assert!(!p.is_permanent());
    p.set_permanent(true);
    assert!(p.is_permanent());
    let offset = liban::config::OffsetVector::new(1.5f32.to_bits(), 0, 0);
    p.set_cog_lever_arm_offset(offset);
    assert!(!p.is_default_configuration());
    assert_eq!(p.get_cog_lever_arm_offset(), offset);
    assert_eq!(
        p.get_primary_reference_offset(),
        liban::config::OffsetVector::zero()
    );
    p.set_primary_reference_offset(offset);
    p.set_heave_point_3_offset(offset);
    p.set_heave_point_4_offset(offset);
    assert_eq!(p.get_heave_point_3_offset(), offset);
    assert_eq!(p.get_heave_point_4_offset(), offset);
}

#[test]
fn odometer_flag_helpers() {
    let mut p = liban::config::OdometerConfigurationPacket {
        permanent: 0,
        automatic_pulse_measurement: 0,
        reserved: 0,
        pulse_length: 0.5f32.to_bits(),
    };
    assert!(!p.is_permanent());
    p.set_permanent(true);
    assert!(p.is_permanent());
    assert!(!p.is_automatic_pulse_measurement_active());
    p.set_automatic_pulse_measurement_active(true);
    assert!(p.is_automatic_pulse_measurement_active());
    assert_eq!(p.pulse_length, 0.5f32.to_bits());
}

#[test]
fn dataport_mode_setters() {
    let mut cfg = liban::config::IpDataportsConfigurationPacket::new();
    cfg.set_tcp_server(0, 17000).unwrap();
    cfg.set_tcp_client(1, 0x0100000A, 8000).unwrap();
    cfg.set_udp(2, 0x0200000A, 9000).unwrap();
    assert_eq!(cfg.get_active_count(), 3);
    cfg.validate().unwrap();
    assert_eq!(cfg.get_dataport(0).unwrap().get_mode(), IpDataportMode::TcpServer);
    assert_eq!(cfg.get_dataport(1).unwrap().get_port(), 8000);
    assert_eq!(cfg.get_dataport(2).unwrap().get_mode(), IpDataportMode::UdpClient);
    assert!(cfg.set_tcp_server(4, 1).is_err());
}

#[test]
fn system_state_packet_status_getters() {
    let p = liban::state::SystemStatePacket {
        system_status: liban::flags::SystemStatusFlags::from_bits_truncate(
            liban::flags::SystemStatusFlags::GNSS_FAILURE,
        ),
        filter_status: liban::flags::FilterStatusFlags::from_bits_truncate(0b0100000),
        unix_time_seconds: 0,
        microseconds: 0,
        latitude: 0,
        longitude: 0,
        height: 0,
        velocity_north: 0,
        velocity_east: 0,
        velocity_down: 0,
        body_acceleration_x: 0,
        body_acceleration_y: 0,
        body_acceleration_z: 0,
        g_force: 0,
        roll: 0,
        pitch: 0,
        heading: 0,
        angular_velocity_x: 0,
        angular_velocity_y: 0,
        angular_velocity_z: 0,
        latitude_std_dev: 0,
        longitude_std_dev: 0,
        height_std_dev: 0,
    };
    assert!(p.get_system_status().gnss_failure());
    assert_eq!(
        p.get_filter_status().gnss_fix_type,
        liban::state_types::GnssFixType::Fix3D
    );
}
