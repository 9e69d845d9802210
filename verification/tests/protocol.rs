use wireproto::codec::{decode_bytes, decode_string, decode_u64};
use wireproto::dispatch::{
    build_move_to_packet, get_command_registry, handle_move_to, handle_packet, CommandAction,
    CommandHandler, DispatchOutcome, MoveTo, Registry,
};
use wireproto::envelope::Packet;
use wireproto::package_type::{
    BothPacketType, ClientPacketType, NetworkPacket, PacketType, ServerPacketType,
};
use wireproto::DecodeError;

fn move_to(x: f64, y: f64) -> MoveTo {
    MoveTo { x_bits: x.to_bits(), y_bits: y.to_bits() }
}

#[test]
fn test_command_execution() {
    let move_cmd = move_to(10.0, 5.0);
    let serialized_packet = build_move_to_packet(move_cmd);
    let registry = get_command_registry();
    let outcome = handle_packet(&registry, &serialized_packet);
    match outcome {
        DispatchOutcome::Dispatched(CommandAction::MoveTo(m)) => {
            assert_eq!(f64::from_bits(m.x_bits), 10.0);
            assert_eq!(f64::from_bits(m.y_bits), 5.0);
        }
        _ => panic!("expected the move_to handler to run"),
    }
}

#[test]
fn move_to_exact_bytes() {
    let m = MoveTo { x_bits: 1, y_bits: 2 };
    let bytes = m.encode();
    assert_eq!(
        bytes,
        vec![1u8, 0, 0, 0, 0, 0, 0, 0, 2, 0, 0, 0, 0, 0, 0, 0]
    );
}

#[test]
fn move_to_round_trip() {
    let m = move_to(-3.5, 7.25);
    let bytes = m.encode();
    let (back, consumed) = handle_move_to(&bytes).unwrap();
    assert_eq!(back, m);
    assert_eq!(consumed, 16);
}

#[test]
fn move_to_round_trip_with_trailing_bytes() {
    let m = move_to(0.0, -0.0);
    let mut bytes = m.encode();
    bytes.extend_from_slice(&[0xAA, 0xBB]);
    let (back, consumed) = handle_move_to(&bytes).unwrap();
    assert_eq!(back, m);
    assert_eq!(consumed, 16);
}

#[test]
fn move_to_truncated_fails() {
    let m = move_to(1.0, 2.0);
    let bytes = m.encode();
    assert_eq!(handle_move_to(&bytes[..15]), Err(DecodeError::Truncated));
    assert_eq!(handle_move_to(&[]), Err(DecodeError::Truncated));
}

#[test]
fn packet_exact_bytes() {
    let p = Packet::new("move_to".to_string(), vec![1, 2, 3]);
    let bytes = p.encode();
    let mut expected = vec![7u8, 0, 0, 0, 0, 0, 0, 0];
    expected.extend_from_slice(b"move_to");
    expected.extend_from_slice(&[3, 0, 0, 0, 0, 0, 0, 0, 1, 2, 3]);
    assert_eq!(bytes, expected);
}

#[test]
fn packet_round_trip() {
    let p = Packet::new("move_to".to_string(), vec![9, 8, 7, 6]);
    let bytes = p.encode();
    let (back, consumed) = Packet::decode(&bytes).unwrap();
    assert_eq!(back.command, "move_to");
    assert_eq!(back.data, vec![9, 8, 7, 6]);
    assert_eq!(consumed, bytes.len());
}

#[test]
fn packet_round_trip_empty_data() {
    let p = Packet::new("x".to_string(), vec![]);
    let bytes = p.encode();
    let (back, consumed) = Packet::decode(&bytes).unwrap();
    assert_eq!(back.command, "x");
    assert_eq!(back.data, Vec::<u8>::new());
    assert_eq!(consumed, bytes.len());
}

#[test]
fn packet_round_trip_non_ascii_command() {
    let p = Packet::new("mövé_tø π".to_string(), vec![42]);
    let bytes = p.encode();
    let (back, _) = Packet::decode(&bytes).unwrap();
    assert_eq!(back.command, "mövé_tø π");
    assert_eq!(back.data, vec![42]);
}

#[test]
fn packet_truncated_fails() {
    let p = Packet::new("move_to".to_string(), vec![1, 2, 3]);
    let mut bytes = p.encode();
    bytes.pop();
    assert_eq!(
        Packet::decode(&bytes).unwrap_err(),
        DecodeError::LengthExceedsInput
    );

    let q = Packet::new("move_to".to_string(), vec![]);
    let mut qbytes = q.encode();
    qbytes.pop();
    assert_eq!(Packet::decode(&qbytes).unwrap_err(), DecodeError::Truncated);
}

#[test]
fn packet_invalid_utf8_fails() {
    // A one-byte command whose byte is not valid UTF-8.
    let mut bytes = vec![1u8, 0, 0, 0, 0, 0, 0, 0, 0xFF];
    bytes.extend_from_slice(&[0, 0, 0, 0, 0, 0, 0, 0]);
    assert_eq!(Packet::decode(&bytes).unwrap_err(), DecodeError::InvalidUtf8);
}

#[test]
fn decode_u64_truncated() {
    assert_eq!(decode_u64(&[1, 2, 3]), Err(DecodeError::Truncated));
    assert_eq!(decode_u64(&[1, 0, 0, 0, 0, 0, 0, 0]), Ok((1, 8)));
}

#[test]
fn decode_bytes_length_exceeds_input() {
    let bytes = vec![10u8, 0, 0, 0, 0, 0, 0, 0, 1, 2];
    assert_eq!(decode_bytes(&bytes), Err(DecodeError::LengthExceedsInput));
}

#[test]
fn decode_string_reads_utf8() {
    let mut bytes = vec![2u8, 0, 0, 0, 0, 0, 0, 0];
    bytes.extend_from_slice("é".as_bytes());
    bytes.push(0x99);
    let (s, consumed) = decode_string(&bytes).unwrap();
    assert_eq!(s, "é");
    assert_eq!(consumed, 10);
}

#[test]
fn packet_type_taxonomy_round_trips() {
    let all = vec![
        PacketType::Client(ClientPacketType::ConnectionRequest),
        PacketType::Client(ClientPacketType::InputCommand),
        PacketType::Client(ClientPacketType::Ping),
        PacketType::Client(ClientPacketType::Ack),
        PacketType::Client(ClientPacketType::EventMessage),
        PacketType::Server(ServerPacketType::ConnectionAccept),
        PacketType::Server(ServerPacketType::ConnectionReject),
        PacketType::Server(ServerPacketType::StateUpdate),
        PacketType::Server(ServerPacketType::ResourceStream),
        PacketType::Server(ServerPacketType::Pong),
        PacketType::Server(ServerPacketType::Ack),
        PacketType::Server(ServerPacketType::EventMessage),
        PacketType::Server(ServerPacketType::Error),
        PacketType::Both(BothPacketType::Disconnect),
        PacketType::Both(BothPacketType::Heartbeat),
    ];
    for (i, t) in all.iter().enumerate() {
        let bytes = t.encode();
        assert_eq!(bytes.len(), 2);
        let (back, consumed) = PacketType::decode(&bytes).unwrap();
        assert_eq!(back, *t);
        assert_eq!(consumed, 2);
        // No variant decodes to a different variant.
        for (j, u) in all.iter().enumerate() {
            if i != j {
                assert_ne!(back, *u);
            }
        }
    }
}

#[test]
fn packet_type_invalid_tag_fails() {
    assert_eq!(PacketType::decode(&[3, 0]), Err(DecodeError::InvalidTag));
    assert_eq!(PacketType::decode(&[0, 5]), Err(DecodeError::InvalidTag));
    assert_eq!(PacketType::decode(&[1, 8]), Err(DecodeError::InvalidTag));
    assert_eq!(PacketType::decode(&[2, 2]), Err(DecodeError::InvalidTag));
    assert_eq!(PacketType::decode(&[0]), Err(DecodeError::Truncated));
}

#[test]
fn network_packet_round_trip() {
    let p = NetworkPacket {
        packet_type: PacketType::Both(BothPacketType::Heartbeat),
        payload: vec![1, 2, 3, 4, 5],
    };
    let bytes = p.encode();
    let (back, consumed) = NetworkPacket::decode(&bytes).unwrap();
    assert_eq!(back.packet_type, PacketType::Both(BothPacketType::Heartbeat));
    assert_eq!(back.payload, vec![1, 2, 3, 4, 5]);
    assert_eq!(consumed, bytes.len());
}

#[test]
fn registry_resolve_and_overwrite() {
    let mut registry = Registry::new();
    assert_eq!(registry.resolve("move_to"), None);
    registry.register("move_to".to_string(), CommandHandler::MoveTo);
    assert_eq!(registry.resolve("move_to"), Some(CommandHandler::MoveTo));
    assert_eq!(registry.resolve("other"), None);
    // Last write wins: a duplicate registration overwrites the prior one.
    registry.register("move_to".to_string(), CommandHandler::MoveTo);
    assert_eq!(registry.resolve("move_to"), Some(CommandHandler::MoveTo));
}

#[test]
fn dispatch_move_to() {
    let registry = get_command_registry();
    let m = move_to(10.0, 5.0);
    let packet = Packet::new("move_to".to_string(), m.encode());
    let outcome = handle_packet(&registry, &packet.encode());
    match outcome {
        DispatchOutcome::Dispatched(CommandAction::MoveTo(got)) => assert_eq!(got, m),
        _ => panic!("expected a dispatched move_to action"),
    }
}

#[test]
fn dispatch_unknown_command() {
    let registry = get_command_registry();
    let packet = Packet::new("nope".to_string(), vec![]);
    let outcome = handle_packet(&registry, &packet.encode());
    match outcome {
        DispatchOutcome::UnknownCommand(name) => assert_eq!(name, "nope"),
        _ => panic!("expected the unknown-command outcome"),
    }
}

#[test]
fn dispatch_envelope_decode_failed() {
    let registry = get_command_registry();
    let m = move_to(10.0, 5.0);
    let mut bytes = build_move_to_packet(m);
    bytes.pop();
    let outcome = handle_packet(&registry, &bytes);
    assert!(matches!(
        outcome,
        DispatchOutcome::EnvelopeDecodeFailed(DecodeError::LengthExceedsInput)
    ));
}

#[test]
fn dispatch_payload_mismatch() {
    // A correctly addressed envelope whose payload has the wrong shape:
    // eight bytes where MoveTo needs sixteen.
    let registry = get_command_registry();
    let packet = Packet::new("move_to".to_string(), vec![0; 8]);
    let outcome = handle_packet(&registry, &packet.encode());
    assert!(matches!(
        outcome,
        DispatchOutcome::PayloadDecodeFailed(DecodeError::Truncated)
    ));
}
