//! Checksum, LRC and frame layer checks.

use liban::error::AnError;
use liban::packet::{AnppHeader, AnppPacket, PacketId, PacketKind};
use liban::parser::calculate_lrc;
use liban::protocol::AnppProtocol;

#[test]
fn test_crc16_calculation() {
    // Test with empty data
    let crc_empty = AnppProtocol::calculate_crc16(&[]);
    assert_eq!(crc_empty, 0xFFFF);

    // Test with known data
    let test_data = b"123456789";
    let crc = AnppProtocol::calculate_crc16(test_data);
    // CRC16-CCITT(false) of "123456789" should be 0x29B1
    assert_eq!(crc, 0x29B1);
}

#[test]
fn test_lrc_calculation() {
    // Test the legacy XOR LRC with known values
    let packet_id = 1;
    let length = 6;
    let crc16 = 0x1234;
    let expected_lrc = packet_id ^ length ^ 0x34 ^ 0x12;
    assert_eq!(calculate_lrc(packet_id, length, crc16), expected_lrc);
}

#[test]
fn test_packet_creation_and_parsing() {
    let test_data = vec![0x01, 0x02, 0x03, 0x04];
    let packet_id = PacketId::new(20);

    let packet = AnppProtocol::create_packet(packet_id, &test_data).unwrap();
    let (header, parsed_data) = AnppProtocol::parse_packet(&packet).unwrap();

    assert_eq!(header.packet_id.as_u8(), 20);
    assert_eq!(header.length, test_data.len() as u8);
    assert_eq!(parsed_data, test_data);
}

#[test]
fn test_request_packet_creation() {
    let requested_id = PacketId::new(3);
    let request_packet = AnppProtocol::create_request_packet(requested_id).unwrap();

    // Should be a request packet (ID 1) containing the requested packet ID
    let (header, data) = AnppProtocol::parse_packet(&request_packet).unwrap();
    assert_eq!(header.packet_id.as_u8(), 1);
    assert_eq!(data, vec![3]);
}

#[test]
fn test_header_serialization() {
    let header = AnppHeader {
        header_lrc: 0xAB,
        packet_id: PacketId::new(20),
        length: 4,
        crc16: 0x1234,
    };

    let bytes = AnppProtocol::serialize_header(&header).unwrap();
    let deserialized = AnppProtocol::deserialize_header(&bytes).unwrap();

    assert_eq!(header.header_lrc, deserialized.header_lrc);
    assert_eq!(header.packet_id.as_u8(), deserialized.packet_id.as_u8());
    assert_eq!(header.length, deserialized.length);
    assert_eq!(header.crc16, deserialized.crc16);
}

#[test]
fn test_header_validation() {
    let test_data = vec![0x01, 0x02, 0x03, 0x04];
    let packet_id = PacketId::new(20);

    let packet = AnppProtocol::create_packet(packet_id, &test_data).unwrap();
    let (header, parsed_data) = AnppProtocol::parse_packet(&packet).unwrap();
    AnppProtocol::validate_header(&header, &parsed_data).unwrap();

    assert_eq!(header.packet_id.as_u8(), 20);
    assert_eq!(header.length, test_data.len() as u8);
    assert_eq!(parsed_data, test_data);
}

#[test]
fn framing_round_trip_every_length() {
    // Framing round-trip for every payload length from 0 to 255.
    for len in 0..=255usize {
        let payload: Vec<u8> = (0..len).map(|i| (i * 7 + len) as u8).collect();
        let frame = AnppProtocol::create_packet(PacketId::new(77), &payload).unwrap();
        assert_eq!(frame.len(), 5 + len);
        let (header, parsed) = AnppProtocol::parse_packet(&frame).unwrap();
        assert_eq!(header.packet_id.as_u8(), 77);
        assert_eq!(header.length as usize, len);
        assert_eq!(parsed, payload);
    }
}

#[test]
fn create_packet_rejects_long_payload() {
    let payload = vec![0u8; 256];
    let err = AnppProtocol::create_packet(PacketId::new(1), &payload).unwrap_err();
    assert_eq!(err, AnError::PacketTooLong(256));
}

#[test]
fn parse_packet_rejects_short_input() {
    let err = AnppProtocol::parse_packet(&[1, 2, 3, 4]).unwrap_err();
    assert!(matches!(err, AnError::InvalidPacket(_)));
}

#[test]
fn parse_packet_rejects_wrong_length() {
    let mut frame = AnppProtocol::create_packet(PacketId::new(20), &[9, 9]).unwrap();
    frame.push(0);
    let err = AnppProtocol::parse_packet(&frame).unwrap_err();
    assert_eq!(err, AnError::InvalidLength { expected: 7, actual: 8 });
}

#[test]
fn parse_packet_rejects_bad_crc() {
    let mut frame = AnppProtocol::create_packet(PacketId::new(20), &[9, 9]).unwrap();
    let last = frame.len() - 1;
    frame[last] ^= 0xFF;  // corrupt the payload, diverging from the CRC
    let err = AnppProtocol::parse_packet(&frame).unwrap_err();
    assert_eq!(err, AnError::InvalidChecksum);
}

#[test]
fn parse_packet_rejects_bad_lrc() {
    let mut frame = AnppProtocol::create_packet(PacketId::new(20), &[9, 9]).unwrap();
    frame[0] = frame[0].wrapping_add(1);  // corrupt the header LRC
    let err = AnppProtocol::parse_packet(&frame).unwrap_err();
    assert!(matches!(err, AnError::InvalidPacket(_)));
}

#[test]
fn example_end_to_end_request() {
    // create_packet(id=1 /*Request*/, payload=[20]) then parse_packet
    // returns (1, [20]).
    let frame = AnppProtocol::create_packet(PacketId::new(1), &[20]).unwrap();
    let (header, payload) = AnppProtocol::parse_packet(&frame).unwrap();
    assert_eq!(header.packet_id.as_u8(), 1);
    assert_eq!(payload, vec![20]);
}

#[test]
fn anpp_packet_frame_round_trip() {
    let packet = AnppPacket::BootMode(liban::system::BootModePacket { boot_mode: 42 });
    let frame = AnppProtocol::create_anpp_packet(packet.clone()).unwrap();
    let parsed = AnppProtocol::parse_anpp_packet(&frame).unwrap();
    assert_eq!(parsed, packet);
    assert_eq!(parsed.kind(), PacketKind::BootMode);
    assert_eq!(parsed.packet_id(), 2);
}
