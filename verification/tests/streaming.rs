//! Stream parser behaviour: partial delivery, resynchronisation, and
//! the status word helpers.

use liban::flags::{FilterStatusFlags, SystemStatusFlags};
use liban::packet::{AnppPacket, PacketId};
use liban::parser::AnppParser;
use liban::protocol::AnppProtocol;
use liban::system::{BootModePacket, RequestPacket};

#[test]
fn test_filter_status_bitflags() {
    let filter_status = FilterStatusFlags::from_bits_truncate(
        FilterStatusFlags::NAVIGATION_FILTER_INITIALISED
            | FilterStatusFlags::UTC_TIME_INITIALISED
            | FilterStatusFlags::INTERNAL_GNSS_ENABLED,
    );

    assert!(filter_status.contains(FilterStatusFlags::NAVIGATION_FILTER_INITIALISED));
    assert!(filter_status.contains(FilterStatusFlags::UTC_TIME_INITIALISED));
    assert!(filter_status.contains(FilterStatusFlags::INTERNAL_GNSS_ENABLED));
    assert!(!filter_status.contains(FilterStatusFlags::HEADING_INITIALISED));

    // GNSS fix type extraction (bits 4-6)
    let filter_with_gnss_fix = FilterStatusFlags::from_bits_truncate(0b0110000);
    assert_eq!(filter_with_gnss_fix.gnss_fix_type(), 3);

    let filter_with_different_fix = FilterStatusFlags::from_bits_truncate(0b0010000);
    assert_eq!(filter_with_different_fix.gnss_fix_type(), 1);
}

#[test]
fn test_bitflags_operations() {
    let status1 = SystemStatusFlags::from_bits_truncate(
        SystemStatusFlags::SYSTEM_FAILURE | SystemStatusFlags::GNSS_FAILURE,
    );
    let status2 = SystemStatusFlags::from_bits_truncate(
        SystemStatusFlags::GNSS_FAILURE | SystemStatusFlags::LOW_VOLTAGE_ALARM,
    );

    // Union
    let union = status1.union(status2);
    assert!(union.contains(SystemStatusFlags::SYSTEM_FAILURE));
    assert!(union.contains(SystemStatusFlags::GNSS_FAILURE));
    assert!(union.contains(SystemStatusFlags::LOW_VOLTAGE_ALARM));

    // Intersection
    let intersection = status1.intersection(status2);
    assert!(!intersection.contains(SystemStatusFlags::SYSTEM_FAILURE));
    assert!(intersection.contains(SystemStatusFlags::GNSS_FAILURE));
    assert!(!intersection.contains(SystemStatusFlags::LOW_VOLTAGE_ALARM));

    // Difference
    let difference = status1.difference(status2);
    assert!(difference.contains(SystemStatusFlags::SYSTEM_FAILURE));
    assert!(!difference.contains(SystemStatusFlags::GNSS_FAILURE));
    assert!(!difference.contains(SystemStatusFlags::LOW_VOLTAGE_ALARM));
}

#[test]
fn test_system_status_bitflags() {
    let status = SystemStatusFlags::from_bits_truncate(
        SystemStatusFlags::SYSTEM_FAILURE | SystemStatusFlags::GNSS_FAILURE,
    );
    assert!(status.contains(SystemStatusFlags::SYSTEM_FAILURE));
    assert!(status.contains(SystemStatusFlags::GNSS_FAILURE));
    assert!(!status.contains(SystemStatusFlags::LOW_VOLTAGE_ALARM));

    // Round-trip through a status packet
    let packet = liban::state::StatusPacket {
        system_status: status,
        filter_status: FilterStatusFlags::from_bits_truncate(
            FilterStatusFlags::ORIENTATION_FILTER_INITIALISED
                | FilterStatusFlags::HEADING_INITIALISED,
        ),
    };
    let bytes = packet.to_bytes();
    let decoded = liban::state::StatusPacket::from_bytes(&bytes).unwrap();
    assert_eq!(packet, decoded);
    assert!(decoded.system_status.contains(SystemStatusFlags::SYSTEM_FAILURE));
    assert!(decoded.system_status.contains(SystemStatusFlags::GNSS_FAILURE));
}

#[test]
fn test_parse_request_packet() {
    let mut parser = AnppParser::new();
    let packet_data = RequestPacket { packet_id: 20 };
    let _packet_bytes = packet_data.to_bytes();

    // The parser must not crash on invalid data
    let result = parser.consume(&[0xFF, 0xFF, 0xFF]);
    assert!(result.is_none());
}

#[test]
fn test_parser_incomplete_data() {
    let mut parser = AnppParser::new();

    let result = parser.consume(&[0x01, 0x02]);
    assert!(result.is_none());

    // Buffer should retain the data
    assert_eq!(parser.buffer_len(), 2);
}

#[test]
fn test_parser_clear() {
    let mut parser = AnppParser::new();
    parser.consume(&[0x01, 0x02, 0x03]);
    assert!(parser.buffer_len() > 0);

    parser.clear();
    assert_eq!(parser.buffer_len(), 0);
}

#[test]
fn whole_frame_yields_one_packet() {
    let frame = AnppProtocol::create_packet(PacketId::new(2), &[7]).unwrap();
    let mut parser = AnppParser::new();
    let packet = parser.consume(&frame).expect("a complete frame must parse");
    assert_eq!(packet, AnppPacket::BootMode(BootModePacket { boot_mode: 7 }));
    assert_eq!(parser.buffer_len(), 0);
    assert!(parser.consume(&[]).is_none());
}

#[test]
fn partial_delivery_single_bytes() {
    // Splitting one valid frame into single bytes yields exactly one
    // packet, identical to feeding it whole.
    let frame = AnppProtocol::create_packet(PacketId::new(2), &[99]).unwrap();
    let mut parser = AnppParser::new();
    let mut packets = Vec::new();
    for byte in &frame {
        if let Some(p) = parser.consume(&[*byte]) {
            packets.push(p);
        }
    }
    assert_eq!(packets, vec![AnppPacket::BootMode(BootModePacket { boot_mode: 99 })]);
    assert_eq!(parser.buffer_len(), 0);
}

#[test]
fn partial_delivery_arbitrary_chunks() {
    let frame = AnppProtocol::create_packet(PacketId::new(21), &[1, 2, 3, 4, 5, 6, 7, 8]).unwrap();
    for split in 1..frame.len() {
        let mut parser = AnppParser::new();
        assert!(parser.consume(&frame[..split]).is_none());
        let p = parser.consume(&frame[split..]).expect("frame completed");
        assert_eq!(p.packet_id(), 21);
        assert_eq!(parser.buffer_len(), 0);
    }
}

#[test]
fn corruption_resync_two_frames() {
    // A valid frame, garbage bytes, a second valid frame: exactly the
    // two packets come out, in order.
    let f1 = AnppProtocol::create_packet(PacketId::new(2), &[5]).unwrap();
    let f2 = AnppProtocol::create_packet(PacketId::new(1), &[20]).unwrap();
    let garbage = [0u8, 0u8, 0u8];

    let mut stream = Vec::new();
    stream.extend_from_slice(&f1);
    stream.extend_from_slice(&garbage);
    stream.extend_from_slice(&f2);
    // While scanning past the garbage the parser may pause on a byte
    // that overclaims its length; trailing zero bytes let the scan
    // finish, and never form a valid frame themselves.
    stream.extend_from_slice(&[0u8; 300]);

    // Feed in several chunk sizes; drain with empty slices.
    for chunk in [1usize, 2, 3, stream.len()] {
        let mut parser = AnppParser::new();
        let mut packets = Vec::new();
        for piece in stream.chunks(chunk) {
            if let Some(p) = parser.consume(piece) {
                packets.push(p);
            }
        }
        while let Some(p) = parser.consume(&[]) {
            packets.push(p);
        }
        assert_eq!(
            packets,
            vec![
                AnppPacket::BootMode(BootModePacket { boot_mode: 5 }),
                AnppPacket::Request(RequestPacket { packet_id: 20 }),
            ],
            "chunk size {}",
            chunk
        );
    }
}

#[test]
fn unsupported_id_passes_through() {
    // A well-formed frame with an unrecognized id yields Unsupported
    // with the raw payload, and parsing continues normally afterward.
    let f1 = AnppProtocol::create_packet(PacketId::new(99), &[1, 2, 3]).unwrap();
    let f2 = AnppProtocol::create_packet(PacketId::new(2), &[8]).unwrap();
    let mut parser = AnppParser::new();
    let mut stream = f1.clone();
    stream.extend_from_slice(&f2);
    let first = parser.consume(&stream).unwrap();
    assert_eq!(first, AnppPacket::Unsupported(vec![1, 2, 3]));
    let second = parser.consume(&[]).unwrap();
    assert_eq!(second, AnppPacket::BootMode(BootModePacket { boot_mode: 8 }));
    assert!(parser.consume(&[]).is_none());
}

#[test]
fn fixed_length_mismatch_resyncs() {
    // A frame for the 8-byte Unix time packet whose length byte says 4
    // is treated as corrupt; the parser skips it byte by byte and still
    // finds the valid frame that follows.
    let bad = AnppProtocol::create_packet(PacketId::new(21), &[1, 2, 3, 4]).unwrap();
    let good = AnppProtocol::create_packet(PacketId::new(2), &[3]).unwrap();
    let mut stream = bad.clone();
    stream.extend_from_slice(&good);
    // While scanning past the corrupt frame the parser may pause on a
    // byte that overclaims its length; trailing bytes let the scan
    // finish.  Zero bytes never form a valid frame themselves.
    stream.extend_from_slice(&[0u8; 300]);
    let mut parser = AnppParser::new();
    let mut packets = Vec::new();
    if let Some(p) = parser.consume(&stream) {
        packets.push(p);
    }
    while let Some(p) = parser.consume(&[]) {
        packets.push(p);
    }
    assert_eq!(packets, vec![AnppPacket::BootMode(BootModePacket { boot_mode: 3 })]);
}

#[test]
fn decode_round_trip_every_kind() {
    // decode(encode(v)) == v for a value of every registered kind.
    let packets: Vec<AnppPacket> = vec![
        AnppPacket::Acknowledge(liban::system::AcknowledgePacket {
            packet_id: 180,
            packet_crc: 0xBEEF,
            result: 1,
        }),
        AnppPacket::Request(RequestPacket { packet_id: 20 }),
        AnppPacket::BootMode(BootModePacket { boot_mode: 1 }),
        AnppPacket::DeviceInformation(liban::system::DeviceInformationPacket {
            software_version: 1,
            device_id: 2,
            hardware_revision: 3,
            serial_number_1: 4,
            serial_number_2: 5,
            serial_number_3: 6,
        }),
        AnppPacket::RestoreFactorySettings(liban::system::RestoreFactorySettingsPacket::new()),
        AnppPacket::Reset(liban::system::ResetPacket::new()),
        AnppPacket::IpConfiguration(liban::system::IpConfigurationPacket {
            permanent: 1,
            dhcp_mode: 1,
            ip_address: 0x0A00000A,
            ip_netmask: 0xFFFFFF00,
            ip_gateway: 0x0A000001,
            dns_server: 0x08080404,
            boreas_serial_number_part_1: 7,
            boreas_serial_number_part_2: 8,
            boreas_serial_number_part_3: 9,
        }),
        AnppPacket::UnixTime(liban::state::UnixTimePacket {
            unix_time_seconds: 1700000001,
            microseconds: 42,
        }),
        AnppPacket::Status(liban::state::StatusPacket {
            system_status: SystemStatusFlags::from_bits_truncate(0x1234),
            filter_status: FilterStatusFlags::from_bits_truncate(0xABCD),
        }),
        AnppPacket::EulerOrientationStdDev(liban::state::EulerOrientationStdDevPacket {
            roll_std_dev: 0.25f32.to_bits(),
            pitch_std_dev: 0.5f32.to_bits(),
            heading_std_dev: 0.75f32.to_bits(),
        }),
        AnppPacket::PacketTimerPeriod(liban::config::PacketTimerPeriodPacket {
            permanent: 1,
            utc_synchronisation: 0,
            packet_timer_period: 10000,
        }),
        AnppPacket::PacketsPeriod(liban::config::PacketsPeriodPacket {
            permanent: 0,
            clear_existing: 1,
            packet_periods: vec![liban::config::PacketPeriodEntry { packet_id: 20, period: 50 }],
        }),
        AnppPacket::FilterOptions(liban::config::FilterOptionsPacket::new(
            true,
            liban::config::VehicleType::LargeShip,
        )),
        AnppPacket::OdometerConfiguration(liban::config::OdometerConfigurationPacket {
            permanent: 0,
            automatic_pulse_measurement: 1,
            reserved: 0,
            pulse_length: 0.001f32.to_bits(),
        }),
        AnppPacket::SetZeroOrientationAlignment(
            liban::config::SetZeroOrientationAlignmentPacket::new(true),
        ),
        AnppPacket::Unsupported(vec![0xDE, 0xAD]),
    ];
    for original in packets {
        let id = original.packet_id();
        let payload = original.to_bytes().unwrap();
        let decoded = AnppPacket::from_bytes(id, &payload).unwrap();
        assert_eq!(decoded, original);
    }
}

#[test]
fn decode_rejects_bad_vehicle_type() {
    let mut payload = liban::config::FilterOptionsPacket::new(false, liban::config::VehicleType::Car)
        .to_bytes();
    payload[1] = 99;  // not a vehicle type
    let err = AnppPacket::from_bytes(186, &payload).unwrap_err();
    assert!(matches!(err, liban::error::AnError::InvalidPacket(_)));
}

#[test]
fn status_helpers_read_the_right_bits() {
    let status = liban::state_types::SystemStatus::new(
        SystemStatusFlags::SYSTEM_FAILURE | SystemStatusFlags::HIGH_VOLTAGE_ALARM,
    );
    assert!(status.system_failure());
    assert!(status.high_voltage_alarm());
    assert!(!status.gnss_failure());
    assert!(!status.is_healthy());
    assert!(liban::state_types::SystemStatus::new(0).is_healthy());

    let filter = liban::state_types::FilterStatus::new(0b0110000 | 0x0001);
    assert!(filter.orientation_filter_initialised());
    assert_eq!(filter.gnss_fix_type, liban::state_types::GnssFixType::SbassFix);
    assert!(!filter.is_fully_initialised());

    // Packing the fields gives the word back.
    assert_eq!(filter.to_flags().bits(), 0b0110000 | 0x0001);
}

#[test]
fn packets_period_helpers() {
    let mut p = liban::config::PacketsPeriodPacket::new(true, false);
    assert!(p.is_permanent());
    assert!(!p.should_clear_existing());
    p.add_packet_period(20, 10).unwrap();
    p.add_packet_period(21, 20).unwrap();
    p.add_packet_period(20, 30).unwrap();  // replaces the first entry
    assert_eq!(p.get_packet_period(20), Some(30));
    assert_eq!(p.get_packet_period(21), Some(20));
    assert_eq!(p.get_packet_period(22), None);
    assert_eq!(p.get_configured_packet_ids(), vec![21, 20]);
    assert_eq!(p.get_expected_length(), 13);
    p.validate().unwrap();
    assert!(p.add_packet_period(5, 1).is_err());
    p.remove_packet_period(21);
    assert_eq!(p.get_packet_period(21), None);
    p.clear_all_periods();
    assert_eq!(p.get_expected_length(), 3);
}

#[test]
fn packet_timer_period_helpers() {
    let p = liban::config::PacketTimerPeriodPacket::new(true, 10000, true).unwrap();
    assert!(p.is_permanent());
    assert!(p.is_utc_synchronisation_enabled());
    assert_eq!(p.get_period_microseconds(), 10000);
    p.validate().unwrap();

    // 3000 microseconds is a legal period but not UTC-synchronisable.
    let q = liban::config::PacketTimerPeriodPacket::new(false, 3000, true).unwrap();
    assert!(!q.is_utc_synchronisation_enabled());

    assert!(liban::config::PacketTimerPeriodPacket::new(false, 999, false).is_err());
    assert!(liban::config::PacketTimerPeriodPacket::new(false, 1500, false).is_err());
    assert!(liban::config::PacketTimerPeriodPacket::is_utc_sync_valid(1000));
    assert!(!liban::config::PacketTimerPeriodPacket::is_utc_sync_valid(3000));
}

#[test]
fn ip_dataports_helpers() {
    let mut cfg = liban::config::IpDataportsConfigurationPacket::new();
    assert!(!cfg.has_active_dataports());
    cfg.set_dataport(
        1,
        liban::config::IpDataportEntry {
            ip_address: 0,
            port: 17000,
            mode: liban::config::IpDataportMode::TcpServer,
        },
    )
    .unwrap();
    assert_eq!(cfg.get_active_count(), 1);
    assert!(cfg.has_active_dataports());
    cfg.validate().unwrap();
    cfg.set_dataport(
        2,
        liban::config::IpDataportEntry {
            ip_address: 0,
            port: 17000,
            mode: liban::config::IpDataportMode::TcpServer,
        },
    )
    .unwrap();
    assert!(cfg.validate().is_err(), "two TCP servers on one port conflict");
    cfg.set_inactive(2).unwrap();
    cfg.validate().unwrap();
    assert!(cfg.set_dataport(4, liban::config::IpDataportEntry::inactive()).is_err());
    assert_eq!(cfg.get_dataport(1).unwrap().get_port(), 17000);
    assert!(cfg.get_dataport(7).is_none());
}
