//! A minimal binary wire protocol: a tagged packet envelope, a closed
//! taxonomy of packet kinds, and a command registry that routes a decoded
//! envelope to the handler registered for its command name.
//!
//! The wire format is fixed and deterministic: multi-byte integers are
//! little-endian, variable-size fields carry a `u64` length prefix, and
//! enum variants are written as one-byte discriminants.

pub mod codec;
pub mod dispatch;
pub mod envelope;
pub mod package_type;

pub use codec::DecodeError;
pub use dispatch::{
    build_move_to_packet, get_command_registry, handle_move_to, handle_packet, CommandAction,
    CommandHandler, DispatchOutcome, MoveTo, Registry,
};
pub use envelope::Packet;
pub use package_type::{BothPacketType, ClientPacketType, NetworkPacket, PacketType, ServerPacketType};
