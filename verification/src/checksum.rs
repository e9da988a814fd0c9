//! Payload CRC16 and header LRC for the ANPP frame layer.

use vstd::prelude::*;

verus! {

/// The CRC-16/CCITT-FALSE checksum of a byte sequence (polynomial 0x1021,
/// initial value 0xFFFF, no reflection, no final XOR).  The value is fixed
/// by the bytes alone; the computation is delegated to the `crc` crate.
pub uninterp spec fn crc16_of(data: Seq<u8>) -> u16;

/// Relies on `crc::Crc::<u16>::new(&CRC_16_IBM_3740).checksum`: the
/// CRC-16/CCITT-FALSE checksum, a pure function of the input bytes.
/// An empty input yields the initial value 0xFFFF, since the algorithm
/// neither reflects nor XORs its output; the nine ASCII digits 1 to 9
/// yield 0x29B1, the algorithm's catalogued check value, which is
/// defined as the register contents after reading exactly that string.
#[verifier::external_body]
pub(crate) fn crc16_checksum(data: &[u8]) -> (r: u16)
    ensures
        r == crc16_of(data@),
        data@.len() == 0 ==> r == 0xFFFF,
        data@ == seq![0x31u8, 0x32u8, 0x33u8, 0x34u8, 0x35u8, 0x36u8, 0x37u8, 0x38u8, 0x39u8]
            ==> r == 0x29B1,
{
    crc::Crc::<u16>::new(&crc::CRC_16_IBM_3740).checksum(data)
}

/// The canonical header LRC over (packet id, payload length, checksum):
/// the low and high checksum bytes are added to the id and the length,
/// the sum is XORed with 0xFF, incremented, and reduced modulo 256.
pub open spec fn spec_lrc(packet_id: u8, length: u8, crc16: u16) -> u8 {
    let sum: u32 = (packet_id as u32 + length as u32 + (crc16 & 0xFF) as u32 + (crc16 >> 8) as u32)
        as u32;
    (((sum ^ 0xFF) + 1) % 256) as u8
}

/// Computes the canonical header LRC.
pub fn compute_lrc(packet_id: u8, length: u8, crc16: u16) -> (r: u8)
    ensures
        r == spec_lrc(packet_id, length, crc16),
{
    let c0: u32 = (crc16 & 0xFF) as u32;
    let c1: u32 = (crc16 >> 8) as u32;
    let sum: u32 = packet_id as u32 + length as u32 + c0 + c1;
    assert(sum ^ 0xFF <= 0x3FFFF) by (bit_vector)
        requires
            sum <= 0x3FFFF,
    ;
    (((sum ^ 0xFF) + 1) % 256) as u8
}

} // verus!
