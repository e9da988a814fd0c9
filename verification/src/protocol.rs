//! The ANPP frame layer: building and validating single, already
//! delimited frames.
//!
//! A frame is a five-byte header followed by the payload:
//! header LRC, packet id, payload length, and the little-endian CRC16 of
//! the payload, then the payload bytes themselves.

use crate::checksum::{compute_lrc, crc16_checksum, crc16_of, spec_lrc};
use crate::error::AnError;
use crate::packet::{kind_of, payload_decodable, AnppHeader, AnppPacket, PacketId, PacketKind};
use crate::wire::{lemma_le_bytes_lens, read_u16, write_u16};
use vstd::bytes::{lemma_auto_spec_u16_to_from_le_bytes, spec_u16_from_le_bytes, spec_u16_to_le_bytes};
use vstd::prelude::*;
use vstd::slice::{slice_subrange, slice_to_vec};

verus! {

/// The exact five header bytes of `h`.
pub open spec fn spec_header_bytes(h: AnppHeader) -> Seq<u8> {
    seq![h.header_lrc, h.packet_id.id, h.length] + spec_u16_to_le_bytes(h.crc16)
}

/// The exact wire frame for a payload of at most 255 bytes.
pub open spec fn spec_frame(id: u8, payload: Seq<u8>) -> Seq<u8>
    recommends
        payload.len() <= 255,
{
    let crc = crc16_of(payload);
    seq![spec_lrc(id, payload.len() as u8, crc), id, payload.len() as u8]
        + spec_u16_to_le_bytes(crc) + payload
}

/// The header encoded in the first five bytes.
pub open spec fn frame_header(b: Seq<u8>) -> AnppHeader
    recommends
        b.len() >= 5,
{
    AnppHeader {
        header_lrc: b[0],
        packet_id: PacketId { id: b[1] },
        length: b[2],
        crc16: spec_u16_from_le_bytes(b.subrange(3, 5)),
    }
}

/// Whether the header LRC in `b` matches its fields.
pub open spec fn frame_lrc_ok(b: Seq<u8>) -> bool
    recommends
        b.len() >= 5,
{
    b[0] == spec_lrc(b[1], b[2], spec_u16_from_le_bytes(b.subrange(3, 5)))
}

/// Whether `b` is one exactly delimited, fully checked frame.
pub open spec fn parse_accepts(b: Seq<u8>) -> bool {
    &&& b.len() >= 5
    &&& b.len() == 5 + b[2]
    &&& crc16_of(b.subrange(5, b.len() as int)) == spec_u16_from_le_bytes(b.subrange(3, 5))
    &&& frame_lrc_ok(b)
}

/// The pure frame layer: checksums, header codec, frame build and split.
pub struct AnppProtocol;

impl AnppProtocol {
    /// The CRC-16/CCITT-FALSE checksum of `data`.
    pub fn calculate_crc16(data: &[u8]) -> (r: u16)
        ensures
            r == crc16_of(data@),
            data@.len() == 0 ==> r == 0xFFFF,
            data@ == seq![0x31u8, 0x32u8, 0x33u8, 0x34u8, 0x35u8, 0x36u8, 0x37u8, 0x38u8, 0x39u8]
                ==> r == 0x29B1,
    {
        crc16_checksum(data)
    }

    /// Frames a payload of at most 255 bytes; longer payloads are
    /// rejected with `PacketTooLong`.
    pub fn create_packet(packet_id: PacketId, data: &[u8]) -> (r: Result<Vec<u8>, AnError>)
        ensures
            data@.len() <= 255 ==> (r matches Ok(v) && v@ == spec_frame(packet_id.id, data@)),
            data@.len() > 255 ==> (r matches Err(e) && e == AnError::PacketTooLong(
                data@.len() as usize,
            )),
    {
        let n: usize = data.len();
        if n > 255 {
            return Err(AnError::PacketTooLong(n));
        }
        let length: u8 = n as u8;
        let crc16: u16 = crc16_checksum(data);
        let header_lrc: u8 = compute_lrc(packet_id.id, length, crc16);
        let header = AnppHeader { header_lrc, packet_id, length, crc16 };
        let mut packet: Vec<u8> = match Self::serialize_header(&header) {
            Ok(v) => v,
            Err(e) => return Err(e),
        };
        let mut i: usize = 0;
        while i < n
            invariant
                i <= n,
                n == data@.len(),
                packet@ == spec_header_bytes(header) + data@.take(i as int),
            decreases n - i,
        {
            packet.push(data[i]);
            proof {
                assert(data@.take(i + 1) =~= data@.take(i as int).push(data@[i as int]));
                assert(packet@ =~= spec_header_bytes(header) + data@.take(i + 1));
            }
            i += 1;
        }
        proof {
            assert(data@.take(n as int) =~= data@);
            assert(packet@ =~= spec_frame(packet_id.id, data@));
        }
        Ok(packet)
    }

    /// Splits and checks one exactly delimited frame, returning its
    /// header and payload.  Short inputs fail with `InvalidPacket`, a
    /// wrong total length with `InvalidLength`, a checksum divergence
    /// with `InvalidChecksum`, and an LRC divergence with
    /// `InvalidPacket`.
    pub fn parse_packet(packet: &[u8]) -> (r: Result<(AnppHeader, Vec<u8>), AnError>)
        ensures
            parse_accepts(packet@) <==> r is Ok,
            r matches Ok((h, d)) ==> h == frame_header(packet@) && d@ == packet@.subrange(
                5,
                packet@.len() as int,
            ),
            packet@.len() < 5 ==> (r matches Err(e) && e matches AnError::InvalidPacket(_)),
            packet@.len() >= 5 && packet@.len() != 5 + packet@[2] ==> (r matches Err(e)
                && e matches AnError::InvalidLength { expected, actual } && expected == 5
                + packet@[2] && actual == packet@.len()),
            packet@.len() >= 5 && packet@.len() == 5 + packet@[2] && crc16_of(
                packet@.subrange(5, packet@.len() as int),
            ) != spec_u16_from_le_bytes(packet@.subrange(3, 5)) ==> r == Err::<
                (AnppHeader, Vec<u8>),
                AnError,
            >(AnError::InvalidChecksum),
            packet@.len() >= 5 && packet@.len() == 5 + packet@[2] && crc16_of(
                packet@.subrange(5, packet@.len() as int),
            ) == spec_u16_from_le_bytes(packet@.subrange(3, 5)) && !frame_lrc_ok(packet@) ==> (
            r matches Err(e) && e matches AnError::InvalidPacket(_)),
    {
        let n: usize = packet.len();
        if n < 5 {
            return Err(AnError::InvalidPacket("Packet too short (minimum 5 bytes)".to_string()));
        }
        let header = match Self::deserialize_header(packet) {
            Ok(h) => h,
            Err(e) => return Err(e),
        };
        let expected_length: usize = 5 + header.length as usize;
        if n != expected_length {
            return Err(AnError::InvalidLength { expected: expected_length, actual: n });
        }
        let data: Vec<u8> = slice_to_vec(slice_subrange(packet, 5, expected_length));
        match Self::validate_header(&header, data.as_slice()) {
            Ok(_) => Ok((header, data)),
            Err(e) => Err(e),
        }
    }

    /// Encodes a header as its five wire bytes.
    pub fn serialize_header(header: &AnppHeader) -> (r: Result<Vec<u8>, AnError>)
        ensures
            r matches Ok(v) && v@ == spec_header_bytes(*header) && v@.len() == 5,
    {
        let mut out: Vec<u8> = Vec::new();
        out.push(header.header_lrc);
        out.push(header.packet_id.id);
        out.push(header.length);
        write_u16(&mut out, header.crc16);
        proof {
            lemma_le_bytes_lens();
            assert(out@ =~= spec_header_bytes(*header));
        }
        Ok(out)
    }

    /// Decodes a header from the first five bytes; shorter inputs fail
    /// with `InvalidPacket`.
    pub fn deserialize_header(bytes: &[u8]) -> (r: Result<AnppHeader, AnError>)
        ensures
            bytes@.len() >= 5 ==> r == Ok::<AnppHeader, AnError>(frame_header(bytes@)),
            bytes@.len() < 5 ==> (r matches Err(e) && e matches AnError::InvalidPacket(_)),
    {
        if bytes.len() < 5 {
            return Err(AnError::InvalidPacket("header needs 5 bytes".to_string()));
        }
        let h = AnppHeader {
            header_lrc: bytes[0],
            packet_id: PacketId { id: bytes[1] },
            length: bytes[2],
            crc16: read_u16(bytes, 3),
        };
        Ok(h)
    }

    /// Checks a header against a payload: the length byte, the payload
    /// CRC16, and the header LRC, in that order.
    pub fn validate_header(header: &AnppHeader, data: &[u8]) -> (r: Result<(), AnError>)
        ensures
            r is Ok <==> header.length == data@.len() && header.crc16 == crc16_of(data@)
                && header.header_lrc == spec_lrc(header.packet_id.id, header.length, header.crc16),
            header.length != data@.len() ==> (r matches Err(e) && e matches AnError::InvalidLength {
                expected,
                actual,
            } && expected == header.length && actual == data@.len()),
            header.length == data@.len() && header.crc16 != crc16_of(data@) ==> r == Err::<
                (),
                AnError,
            >(AnError::InvalidChecksum),
            header.length == data@.len() && header.crc16 == crc16_of(data@) && header.header_lrc
                != spec_lrc(header.packet_id.id, header.length, header.crc16) ==> (
            r matches Err(e) && e matches AnError::InvalidPacket(_)),
    {
        if header.length as usize != data.len() {
            return Err(
                AnError::InvalidLength { expected: header.length as usize, actual: data.len() },
            );
        }
        let calculated_crc: u16 = crc16_checksum(data);
        if header.crc16 != calculated_crc {
            return Err(AnError::InvalidChecksum);
        }
        let expected_lrc: u8 = compute_lrc(header.packet_id.id, header.length, header.crc16);
        if header.header_lrc != expected_lrc {
            return Err(AnError::InvalidPacket("Header LRC mismatch".to_string()));
        }
        Ok(())
    }

    /// Encodes a typed packet and frames it.
    pub fn create_anpp_packet(packet: AnppPacket) -> (r: Result<Vec<u8>, AnError>)
        ensures
            packet.spec_payload().len() <= 255 ==> (r matches Ok(v) && v@ == spec_frame(
                packet.spec_packet_id(),
                packet.spec_payload(),
            )),
            packet.spec_payload().len() > 255 ==> (r matches Err(e) && e matches AnError::PacketTooLong(_)),
    {
        let packet_id = PacketId::new(packet.packet_id());
        let data: Vec<u8> = match packet.to_bytes() {
            Ok(v) => v,
            Err(e) => return Err(e),
        };
        Self::create_packet(packet_id, data.as_slice())
    }

    /// Splits, checks and decodes one exactly delimited frame.
    pub fn parse_anpp_packet(packet: &[u8]) -> (r: Result<AnppPacket, AnError>)
        ensures
            parse_accepts(packet@) && payload_decodable(
                packet@[1],
                packet@.subrange(5, packet@.len() as int),
            ) ==> (r matches Ok(p) && p.wf() && p.spec_kind() == kind_of(packet@[1])
                && p.spec_payload() == packet@.subrange(5, packet@.len() as int)),
            !(parse_accepts(packet@) && payload_decodable(
                packet@[1],
                packet@.subrange(5, packet@.len() as int),
            )) ==> r is Err,
    {
        let (header, data) = match Self::parse_packet(packet) {
            Ok(hd) => hd,
            Err(e) => return Err(e),
        };
        AnppPacket::from_bytes(header.packet_id.as_u8(), data.as_slice())
    }

    /// Builds a request frame asking the device for the packet with the
    /// given identifier.
    pub fn create_request_packet(requested_packet_id: PacketId) -> (r: Result<Vec<u8>, AnError>)
        ensures
            r matches Ok(v) && v@ == spec_frame(1, seq![requested_packet_id.id]),
    {
        let mut request_data: Vec<u8> = Vec::new();
        request_data.push(requested_packet_id.as_u8());
        proof {
            assert(request_data@ =~= seq![requested_packet_id.id]);
        }
        Self::create_packet(PacketId::new(1), request_data.as_slice())
    }
}

/// Framing round-trip: for any identifier and any payload of length 0
/// to 255, the frame built by `create_packet` is accepted by
/// `parse_packet`, which returns the same identifier, the payload
/// length, and the payload bytes unchanged.
pub proof fn lemma_framing_round_trip(id: u8, payload: Seq<u8>)
    requires
        payload.len() <= 255,
    ensures
        parse_accepts(spec_frame(id, payload)),
        frame_header(spec_frame(id, payload)).packet_id.id == id,
        frame_header(spec_frame(id, payload)).length == payload.len(),
        frame_header(spec_frame(id, payload)).crc16 == crc16_of(payload),
        spec_frame(id, payload).subrange(5, spec_frame(id, payload).len() as int) == payload,
{
    lemma_auto_spec_u16_to_from_le_bytes();
    let crc = crc16_of(payload);
    assert(spec_u16_to_le_bytes(crc).len() == 2);
    let f = spec_frame(id, payload);
    assert(f[0] == spec_lrc(id, payload.len() as u8, crc));
    assert(f[1] == id);
    assert(f[2] == payload.len() as u8);
    assert(f.subrange(3, 5) =~= spec_u16_to_le_bytes(crc));
    assert(spec_u16_from_le_bytes(spec_u16_to_le_bytes(crc)) == crc);
    assert(f.subrange(5, f.len() as int) =~= payload);
}

} // verus!
