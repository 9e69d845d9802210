//! The closed taxonomy of protocol messages, partitioned by sender role,
//! and the taxonomy-tagged outer frame [`NetworkPacket`].
//!
//! On the wire a [`PacketType`] is two bytes: a role tag (client, server or
//! both), then the kind within that role. Validating that a received kind
//! is legal for the current connection role belongs to the transport layer,
//! not to this taxonomy.

use crate::codec::{
    decode_bytes, encode_bytes_into, spec_decode_bytes, spec_encode_bytes, DecodeError,
};
use vstd::prelude::*;

verus! {

/// Packets sent from the client to the server.
#[derive(Clone, Copy, Debug, PartialEq, Eq, Structural)]
pub enum ClientPacketType {
    /// Request to initiate a connection to the server.
    ConnectionRequest,
    /// Input commands such as movement or actions.
    InputCommand,
    /// Ping packet to measure latency.
    Ping,
    /// Acknowledgment confirming receipt of server packets.
    Ack,
    /// Event messages like chat or non-physical interactions.
    EventMessage,
}

/// Packets sent from the server to the client.
#[derive(Clone, Copy, Debug, PartialEq, Eq, Structural)]
pub enum ServerPacketType {
    /// Acceptance of a connection request.
    ConnectionAccept,
    /// Rejection of a connection request with a reason.
    ConnectionReject,
    /// Updates on the world state (positions, health, etc.).
    StateUpdate,
    /// Streaming of resources/assets to the client.
    ResourceStream,
    /// Response to a Ping packet.
    Pong,
    /// Acknowledgment confirming receipt of client packets.
    Ack,
    /// Messages or global events broadcasted to clients.
    EventMessage,
    /// Packet to inform about errors or validation failures.
    Error,
}

/// Packets that either side may send.
#[derive(Clone, Copy, Debug, PartialEq, Eq, Structural)]
pub enum BothPacketType {
    /// Notification of voluntary or forced disconnection.
    Disconnect,
    /// Heartbeat packet to keep the connection alive.
    Heartbeat,
}

/// High-level packet type: exactly one sender role, wrapping exactly one
/// kind scoped to that role. The taxonomy is closed.
#[derive(Clone, Copy, Debug, PartialEq, Eq, Structural)]
pub enum PacketType {
    Client(ClientPacketType),
    Server(ServerPacketType),
    Both(BothPacketType),
}

/// Wire tag of a client-scoped kind.
pub open spec fn spec_client_tag(k: ClientPacketType) -> u8 {
    match k {
        ClientPacketType::ConnectionRequest => 0,
        ClientPacketType::InputCommand => 1,
        ClientPacketType::Ping => 2,
        ClientPacketType::Ack => 3,
        ClientPacketType::EventMessage => 4,
    }
}

/// Wire tag of a server-scoped kind.
pub open spec fn spec_server_tag(k: ServerPacketType) -> u8 {
    match k {
        ServerPacketType::ConnectionAccept => 0,
        ServerPacketType::ConnectionReject => 1,
        ServerPacketType::StateUpdate => 2,
        ServerPacketType::ResourceStream => 3,
        ServerPacketType::Pong => 4,
        ServerPacketType::Ack => 5,
        ServerPacketType::EventMessage => 6,
        ServerPacketType::Error => 7,
    }
}

/// Wire tag of a kind that either side may send.
pub open spec fn spec_both_tag(k: BothPacketType) -> u8 {
    match k {
        BothPacketType::Disconnect => 0,
        BothPacketType::Heartbeat => 1,
    }
}

/// Wire form of a packet type: role tag, then kind tag.
pub open spec fn spec_encode_packet_type(t: PacketType) -> Seq<u8> {
    match t {
        PacketType::Client(k) => seq![0u8, spec_client_tag(k)],
        PacketType::Server(k) => seq![1u8, spec_server_tag(k)],
        PacketType::Both(k) => seq![2u8, spec_both_tag(k)],
    }
}

/// The packet type a pair of tag bytes stands for, if any.
pub open spec fn spec_packet_type_from_tags(role: u8, kind: u8) -> Option<PacketType> {
    if role == 0 {
        match kind {
            0u8 => Some(PacketType::Client(ClientPacketType::ConnectionRequest)),
            1u8 => Some(PacketType::Client(ClientPacketType::InputCommand)),
            2u8 => Some(PacketType::Client(ClientPacketType::Ping)),
            3u8 => Some(PacketType::Client(ClientPacketType::Ack)),
            4u8 => Some(PacketType::Client(ClientPacketType::EventMessage)),
            _ => None,
        }
    } else if role == 1 {
        match kind {
            0u8 => Some(PacketType::Server(ServerPacketType::ConnectionAccept)),
            1u8 => Some(PacketType::Server(ServerPacketType::ConnectionReject)),
            2u8 => Some(PacketType::Server(ServerPacketType::StateUpdate)),
            3u8 => Some(PacketType::Server(ServerPacketType::ResourceStream)),
            4u8 => Some(PacketType::Server(ServerPacketType::Pong)),
            5u8 => Some(PacketType::Server(ServerPacketType::Ack)),
            6u8 => Some(PacketType::Server(ServerPacketType::EventMessage)),
            7u8 => Some(PacketType::Server(ServerPacketType::Error)),
            _ => None,
        }
    } else if role == 2 {
        match kind {
            0u8 => Some(PacketType::Both(BothPacketType::Disconnect)),
            1u8 => Some(PacketType::Both(BothPacketType::Heartbeat)),
            _ => None,
        }
    } else {
        None
    }
}

/// Decoding a packet type from a prefix of `bytes`: two tag bytes, both in
/// range for the closed taxonomy.
pub open spec fn spec_decode_packet_type(bytes: Seq<u8>) -> Result<(PacketType, int), DecodeError> {
    if bytes.len() < 2 {
        Err(DecodeError::Truncated)
    } else {
        match spec_packet_type_from_tags(bytes[0], bytes[1]) {
            Some(t) => Ok((t, 2)),
            None => Err(DecodeError::InvalidTag),
        }
    }
}

impl PacketType {
    /// Serializes the packet type into its two-byte wire form.
    pub fn encode(&self) -> (r: Vec<u8>)
        ensures
            r@ == spec_encode_packet_type(*self),
    {
        let (role, kind): (u8, u8) = match self {
            PacketType::Client(k) => (
                0,
                match k {
                    ClientPacketType::ConnectionRequest => 0,
                    ClientPacketType::InputCommand => 1,
                    ClientPacketType::Ping => 2,
                    ClientPacketType::Ack => 3,
                    ClientPacketType::EventMessage => 4,
                },
            ),
            PacketType::Server(k) => (
                1,
                match k {
                    ServerPacketType::ConnectionAccept => 0,
                    ServerPacketType::ConnectionReject => 1,
                    ServerPacketType::StateUpdate => 2,
                    ServerPacketType::ResourceStream => 3,
                    ServerPacketType::Pong => 4,
                    ServerPacketType::Ack => 5,
                    ServerPacketType::EventMessage => 6,
                    ServerPacketType::Error => 7,
                },
            ),
            PacketType::Both(k) => (
                2,
                match k {
                    BothPacketType::Disconnect => 0,
                    BothPacketType::Heartbeat => 1,
                },
            ),
        };
        let mut out: Vec<u8> = Vec::new();
        out.push(role);
        out.push(kind);
        proof {
            assert(out@ =~= spec_encode_packet_type(*self));
        }
        out
    }

    /// Reconstructs a packet type from a prefix of `bytes`, returning it
    /// with the count of bytes consumed.
    pub fn decode(bytes: &[u8]) -> (r: Result<(PacketType, usize), DecodeError>)
        ensures
            (match (r, spec_decode_packet_type(bytes@)) {
                (Ok((t, n)), Ok((st, sn))) => t == st && n == sn,
                (Err(e), Err(se)) => e == se,
                _ => false,
            }),
    {
        if bytes.len() < 2 {
            return Err(DecodeError::Truncated);
        }
        let role = bytes[0];
        let kind = bytes[1];
        let t: Option<PacketType> = if role == 0 {
            match kind {
                0u8 => Some(PacketType::Client(ClientPacketType::ConnectionRequest)),
                1u8 => Some(PacketType::Client(ClientPacketType::InputCommand)),
                2u8 => Some(PacketType::Client(ClientPacketType::Ping)),
                3u8 => Some(PacketType::Client(ClientPacketType::Ack)),
                4u8 => Some(PacketType::Client(ClientPacketType::EventMessage)),
                _ => None,
            }
        } else if role == 1 {
            match kind {
                0u8 => Some(PacketType::Server(ServerPacketType::ConnectionAccept)),
                1u8 => Some(PacketType::Server(ServerPacketType::ConnectionReject)),
                2u8 => Some(PacketType::Server(ServerPacketType::StateUpdate)),
                3u8 => Some(PacketType::Server(ServerPacketType::ResourceStream)),
                4u8 => Some(PacketType::Server(ServerPacketType::Pong)),
                5u8 => Some(PacketType::Server(ServerPacketType::Ack)),
                6u8 => Some(PacketType::Server(ServerPacketType::EventMessage)),
                7u8 => Some(PacketType::Server(ServerPacketType::Error)),
                _ => None,
            }
        } else if role == 2 {
            match kind {
                0u8 => Some(PacketType::Both(BothPacketType::Disconnect)),
                1u8 => Some(PacketType::Both(BothPacketType::Heartbeat)),
                _ => None,
            }
        } else {
            None
        };
        match t {
            Some(t) => Ok((t, 2)),
            None => Err(DecodeError::InvalidTag),
        }
    }
}

/// Taxonomy exhaustiveness: every variant of [`PacketType`] decodes from
/// its own encoding back to itself, whatever follows it in the input. With
/// decoding a function of the bytes, no variant can decode to a different
/// variant.
pub proof fn lemma_packet_type_round_trip(t: PacketType, rest: Seq<u8>)
    ensures
        spec_decode_packet_type(spec_encode_packet_type(t) + rest) == Ok::<
            (PacketType, int),
            DecodeError,
        >((t, 2)),
{
}

/// Mathematical value of a [`NetworkPacket`].
#[verifier::ext_equal]
pub struct SpecNetworkPacket {
    pub packet_type: PacketType,
    pub payload: Seq<u8>,
}

/// The taxonomy-classified outer frame: a packet type and an opaque
/// payload whose meaning is determined by that type.
#[derive(Debug)]
pub struct NetworkPacket {
    pub packet_type: PacketType,
    pub payload: Vec<u8>,
}

impl View for NetworkPacket {
    type V = SpecNetworkPacket;

    open spec fn view(&self) -> SpecNetworkPacket {
        SpecNetworkPacket { packet_type: self.packet_type, payload: self.payload@ }
    }
}

/// Wire form of a network packet: the packet type's two tag bytes, then
/// the length-prefixed payload.
pub open spec fn spec_encode_network_packet(p: SpecNetworkPacket) -> Seq<u8> {
    spec_encode_packet_type(p.packet_type) + spec_encode_bytes(p.payload)
}

/// Decoding a network packet from a prefix of `bytes`.
pub open spec fn spec_decode_network_packet(bytes: Seq<u8>) -> Result<
    (SpecNetworkPacket, int),
    DecodeError,
> {
    match spec_decode_packet_type(bytes) {
        Err(e) => Err(e),
        Ok((t, n)) => match spec_decode_bytes(bytes.subrange(n, bytes.len() as int)) {
            Err(e) => Err(e),
            Ok((payload, m)) => Ok((SpecNetworkPacket { packet_type: t, payload }, n + m)),
        },
    }
}

impl NetworkPacket {
    /// Serializes the network packet into its wire form.
    pub fn encode(&self) -> (r: Vec<u8>)
        ensures
            r@ == spec_encode_network_packet(self@),
    {
        let mut out = self.packet_type.encode();
        encode_bytes_into(&mut out, self.payload.as_slice());
        out
    }

    /// Reconstructs a network packet from a prefix of `bytes`, returning
    /// it with the count of bytes consumed.
    pub fn decode(bytes: &[u8]) -> (r: Result<(NetworkPacket, usize), DecodeError>)
        ensures
            (match (r, spec_decode_network_packet(bytes@)) {
                (Ok((p, n)), Ok((sp, sn))) => p@ == sp && n == sn,
                (Err(e), Err(se)) => e == se,
                _ => false,
            }),
    {
        match PacketType::decode(bytes) {
            Err(e) => Err(e),
            Ok((packet_type, n)) => {
                let remainder = vstd::slice::slice_subrange(bytes, n, bytes.len());
                match decode_bytes(remainder) {
                    Err(e) => Err(e),
                    Ok((payload, m)) => Ok((NetworkPacket { packet_type, payload }, n + m)),
                }
            },
        }
    }
}

/// Network-frame round-trip: decoding the encoding of any network packet,
/// whatever follows it in the input, yields the same packet type and the
/// same payload bytes, consuming exactly the encoding.
pub proof fn lemma_network_packet_round_trip(p: SpecNetworkPacket, rest: Seq<u8>)
    requires
        p.payload.len() <= u64::MAX,
    ensures
        spec_decode_network_packet(spec_encode_network_packet(p) + rest) == Ok::<
            (SpecNetworkPacket, int),
            DecodeError,
        >((p, spec_encode_network_packet(p).len() as int)),
{
    let whole = spec_encode_network_packet(p) + rest;
    let tail = spec_encode_bytes(p.payload) + rest;
    crate::codec::lemma_bytes_encode_len(p.payload);
    assert(whole =~= spec_encode_packet_type(p.packet_type) + tail);
    lemma_packet_type_round_trip(p.packet_type, tail);
    assert(whole.subrange(2, whole.len() as int) =~= tail);
    crate::codec::lemma_bytes_round_trip(p.payload, rest);
    assert((SpecNetworkPacket { packet_type: p.packet_type, payload: p.payload }) =~= p);
}

} // verus!
