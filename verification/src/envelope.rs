//! The command-addressed envelope: a command name together with the
//! already-encoded bytes of that command's payload. The envelope never
//! interprets its payload; it only frames it.

use crate::codec::{
    decode_bytes, decode_string, encode_bytes_into, encode_str_into, spec_decode_bytes,
    spec_decode_str, spec_encode_bytes, spec_encode_str, spec_encode_u64, DecodeError,
};
use vstd::prelude::*;
use vstd::utf8::encode_utf8;

verus! {

/// Mathematical value of a [`Packet`]: its command name as a character
/// sequence and its payload as a byte sequence.
#[verifier::ext_equal]
pub struct SpecPacket {
    pub command: Seq<char>,
    pub data: Seq<u8>,
}

/// An envelope for command dispatch: `command` names the handler the
/// payload is addressed to, `data` holds the encoded payload, opaque at
/// this layer.
#[derive(Debug)]
pub struct Packet {
    pub command: String,
    pub data: Vec<u8>,
}

impl View for Packet {
    type V = SpecPacket;

    open spec fn view(&self) -> SpecPacket {
        SpecPacket { command: self.command@, data: self.data@ }
    }
}

/// Wire form of an envelope: the command string, then the payload bytes,
/// each length-prefixed.
pub open spec fn spec_encode_packet(p: SpecPacket) -> Seq<u8> {
    spec_encode_str(p.command) + spec_encode_bytes(p.data)
}

/// Decoding an envelope from a prefix of `bytes`: the command string, then
/// the payload bytes.
pub open spec fn spec_decode_packet(bytes: Seq<u8>) -> Result<(SpecPacket, int), DecodeError> {
    match spec_decode_str(bytes) {
        Err(e) => Err(e),
        Ok((command, n)) => match spec_decode_bytes(bytes.subrange(n, bytes.len() as int)) {
            Err(e) => Err(e),
            Ok((data, m)) => Ok((SpecPacket { command, data }, n + m)),
        },
    }
}

impl Packet {
    /// Wraps an already-encoded payload with the name of the command it is
    /// addressed to. The name must not be empty; that it matches a key the
    /// registry holds is checked only at dispatch time.
    pub fn new(command: String, data: Vec<u8>) -> (r: Packet)
        requires
            command@.len() > 0,
        ensures
            r@ == (SpecPacket { command: command@, data: data@ }),
    {
        Packet { command, data }
    }

    /// Serializes the envelope into its wire form.
    pub fn encode(&self) -> (r: Vec<u8>)
        ensures
            r@ == spec_encode_packet(self@),
    {
        let mut out: Vec<u8> = Vec::new();
        encode_str_into(&mut out, self.command.as_str());
        encode_bytes_into(&mut out, self.data.as_slice());
        out
    }

    /// Reconstructs an envelope from a prefix of `bytes`, returning it with
    /// the count of bytes consumed.
    pub fn decode(bytes: &[u8]) -> (r: Result<(Packet, usize), DecodeError>)
        ensures
            (match (r, spec_decode_packet(bytes@)) {
                (Ok((p, n)), Ok((sp, sn))) => p@ == sp && n == sn,
                (Err(e), Err(se)) => e == se,
                _ => false,
            }),
    {
        match decode_string(bytes) {
            Err(e) => Err(e),
            Ok((command, n)) => {
                let remainder = vstd::slice::slice_subrange(bytes, n, bytes.len());
                match decode_bytes(remainder) {
                    Err(e) => Err(e),
                    Ok((data, m)) => Ok((Packet { command, data }, n + m)),
                }
            },
        }
    }
}

/// Envelope round-trip: decoding the encoding of any envelope, whatever
/// follows it in the input, yields back the same command string and the
/// same payload bytes exactly, consuming exactly the encoding.
pub proof fn lemma_packet_round_trip(p: SpecPacket, rest: Seq<u8>)
    requires
        encode_utf8(p.command).len() <= u64::MAX,
        p.data.len() <= u64::MAX,
    ensures
        spec_decode_packet(spec_encode_packet(p) + rest) == Ok::<(SpecPacket, int), DecodeError>(
            (p, spec_encode_packet(p).len() as int),
        ),
{
    let whole = spec_encode_packet(p) + rest;
    let tail = spec_encode_bytes(p.data) + rest;
    crate::codec::lemma_bytes_encode_len(encode_utf8(p.command));
    crate::codec::lemma_bytes_encode_len(p.data);
    assert(whole =~= spec_encode_str(p.command) + tail);
    crate::codec::lemma_str_round_trip(p.command, tail);
    let n = 8 + encode_utf8(p.command).len() as int;
    assert(whole.subrange(n, whole.len() as int) =~= tail);
    crate::codec::lemma_bytes_round_trip(p.data, rest);
    assert((SpecPacket { command: p.command, data: p.data }) =~= p);
}

/// Truncated input: a valid encoding of an envelope with its final byte
/// removed never decodes to a value; it fails with a decode error. (That
/// decoding never panics holds of every input: `Packet::decode` is total.)
pub proof fn lemma_packet_truncated_fails(p: SpecPacket)
    requires
        encode_utf8(p.command).len() <= u64::MAX,
        p.data.len() <= u64::MAX,
    ensures
        spec_decode_packet(spec_encode_packet(p).drop_last()) is Err,
{
    let full = spec_encode_packet(p);
    let tail = spec_encode_bytes(p.data).drop_last();
    crate::codec::lemma_bytes_encode_len(p.data);
    crate::codec::lemma_bytes_encode_len(encode_utf8(p.command));
    assert(full.drop_last() =~= spec_encode_str(p.command) + tail);
    crate::codec::lemma_str_round_trip(p.command, tail);
    let n = 8 + encode_utf8(p.command).len() as int;
    let truncated = full.drop_last();
    assert(truncated.subrange(n, truncated.len() as int) =~= tail);
    vstd::bytes::lemma_auto_spec_u64_to_from_le_bytes();
    if p.data.len() == 0 {
        assert(tail.len() == 7);
        assert(spec_decode_bytes(tail) == Err::<(Seq<u8>, int), DecodeError>(
            DecodeError::Truncated,
        ));
    } else {
        assert(tail =~= spec_encode_u64(p.data.len() as u64) + p.data.drop_last());
        crate::codec::lemma_u64_round_trip(p.data.len() as u64, p.data.drop_last());
        assert(spec_decode_bytes(tail) == Err::<(Seq<u8>, int), DecodeError>(
            DecodeError::LengthExceedsInput,
        ));
    }
}

} // verus!
