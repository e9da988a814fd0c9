//! Sans-IO codec for the Advanced Navigation Packet Protocol (ANPP).
//!
//! The crate provides the checksum and framing layer that builds and
//! validates protocol frames, a stateful incremental stream parser that
//! extracts valid frames from arbitrary, possibly fragmented or corrupted
//! byte streams, and byte-exact little-endian codecs for the supported
//! packet kinds.

pub mod checksum;
pub mod config;
pub mod config_types;
pub mod error;
pub mod flags;
pub mod packet;
pub mod parser;
pub mod protocol;
pub mod state;
pub mod state_types;
pub mod system;
pub mod system_types;
pub mod types;
pub mod wire;

pub use error::AnError;
pub use packet::PacketKind;
pub use parser::AnppParser;
pub use protocol::AnppProtocol;
pub use types::Packet;
