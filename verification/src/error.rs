//! Error type shared by the framing, codec and parser layers.

use vstd::prelude::*;

verus! {

/// Errors reported by the framing and codec layers.
///
/// The stream parser never surfaces these: it treats every validation
/// failure as locally recoverable and resynchronises byte by byte.
#[derive(Debug, Clone, PartialEq)]
pub enum AnError {
    /// The bytes do not form a structurally valid packet.
    InvalidPacket(String),
    /// The payload CRC16 does not match the checksum in the header.
    InvalidChecksum,
    /// The byte count does not match the declared length.
    InvalidLength { expected: usize, actual: usize },
    /// A business-rule check on a configuration value failed.
    ValidationFailed(String),
    /// A payload longer than 255 bytes cannot be framed.
    PacketTooLong(usize),
}

} // verus!
