//! Command dispatch: the `MoveTo` payload, the registry mapping a command
//! name to its handler, and the dispatcher that decodes an envelope, looks
//! its command up and decodes the payload for the resolved handler.
//!
//! The command set is closed, so a handler is named by a variant of
//! [`CommandHandler`]; executing a command's effect (movement physics,
//! printing, replying) is the caller's business. The dispatcher guarantees
//! only that a well-formed, correctly-typed payload reaches the handler.

use crate::codec::{
    decode_u64, encode_u64_into, spec_decode_u64, spec_encode_u64, str_eq, DecodeError,
};
use crate::envelope::{spec_decode_packet, Packet, SpecPacket};
use vstd::prelude::*;

verus! {

/// A movement command: target coordinates as the bit patterns of two IEEE
/// 754 double-precision numbers. Coordinates are carried bit-for-bit, so
/// the codec never depends on floating-point arithmetic.
#[derive(Clone, Copy, Debug, PartialEq, Eq, Structural)]
pub struct MoveTo {
    pub x_bits: u64,
    pub y_bits: u64,
}

/// Wire form of a movement command: the two coordinate bit patterns.
pub open spec fn spec_encode_move_to(m: MoveTo) -> Seq<u8> {
    spec_encode_u64(m.x_bits) + spec_encode_u64(m.y_bits)
}

/// Decoding a movement command from a prefix of `bytes`.
pub open spec fn spec_decode_move_to(bytes: Seq<u8>) -> Result<(MoveTo, int), DecodeError> {
    match spec_decode_u64(bytes) {
        Err(e) => Err(e),
        Ok((x_bits, n)) => match spec_decode_u64(bytes.subrange(n, bytes.len() as int)) {
            Err(e) => Err(e),
            Ok((y_bits, m)) => Ok((MoveTo { x_bits, y_bits }, n + m)),
        },
    }
}

impl MoveTo {
    /// Serializes the command into its sixteen-byte wire form.
    pub fn encode(&self) -> (r: Vec<u8>)
        ensures
            r@ == spec_encode_move_to(*self),
    {
        let mut out: Vec<u8> = Vec::new();
        encode_u64_into(&mut out, self.x_bits);
        encode_u64_into(&mut out, self.y_bits);
        out
    }
}

/// The payload-decode step of the movement handler: reconstructs a
/// [`MoveTo`] from a prefix of the raw payload bytes handed over by the
/// dispatcher. What is done with the decoded command is the caller's
/// business.
pub fn handle_move_to(data: &[u8]) -> (r: Result<(MoveTo, usize), DecodeError>)
    ensures
        (match (r, spec_decode_move_to(data@)) {
            (Ok((m, n)), Ok((sm, sn))) => m == sm && n == sn,
            (Err(e), Err(se)) => e == se,
            _ => false,
        }),
{
    match decode_u64(data) {
        Err(e) => Err(e),
        Ok((x_bits, n)) => {
            let remainder = vstd::slice::slice_subrange(data, n, data.len());
            match decode_u64(remainder) {
                Err(e) => Err(e),
                Ok((y_bits, m)) => Ok((MoveTo { x_bits, y_bits }, n + m)),
            }
        },
    }
}

/// Payload round-trip: decoding the encoding of any movement command,
/// whatever follows it in the input, yields the command back exactly.
pub proof fn lemma_move_to_round_trip(m: MoveTo, rest: Seq<u8>)
    ensures
        spec_decode_move_to(spec_encode_move_to(m) + rest) == Ok::<(MoveTo, int), DecodeError>(
            (m, 16),
        ),
{
    let whole = spec_encode_move_to(m) + rest;
    vstd::bytes::lemma_auto_spec_u64_to_from_le_bytes();
    assert(whole =~= spec_encode_u64(m.x_bits) + (spec_encode_u64(m.y_bits) + rest));
    crate::codec::lemma_u64_round_trip(m.x_bits, spec_encode_u64(m.y_bits) + rest);
    assert(whole.subrange(8, whole.len() as int) =~= spec_encode_u64(m.y_bits) + rest);
    crate::codec::lemma_u64_round_trip(m.y_bits, rest);
}

/// The handler a registered command name resolves to. The set of commands
/// is closed, so a handler is named by a variant rather than a function
/// pointer; the payload-decode step of each variant is a function of this
/// module.
#[derive(Clone, Copy, Debug, PartialEq, Eq, Structural)]
pub enum CommandHandler {
    /// Decode the payload as a [`MoveTo`] via [`handle_move_to`].
    MoveTo,
}

/// The mapping a sequence of registrations denotes: later entries
/// overwrite earlier ones with the same command name.
pub open spec fn entries_to_map(s: Seq<(String, CommandHandler)>) -> Map<Seq<char>, CommandHandler>
    decreases s.len(),
{
    if s.len() == 0 {
        Map::empty()
    } else {
        entries_to_map(s.drop_last()).insert(s.last().0@, s.last().1)
    }
}

/// A mapping from command name to handler. Registration is
/// last-write-wins: registering a name again overwrites the prior handler.
pub struct Registry {
    entries: Vec<(String, CommandHandler)>,
}

impl View for Registry {
    type V = Map<Seq<char>, CommandHandler>;

    closed spec fn view(&self) -> Map<Seq<char>, CommandHandler> {
        entries_to_map(self.entries@)
    }
}

/// A key is absent from the denoted mapping when no entry bears it.
proof fn lemma_entries_absent(s: Seq<(String, CommandHandler)>, key: Seq<char>)
    requires
        forall|j: int| 0 <= j < s.len() ==> #[trigger] s[j].0@ != key,
    ensures
        !entries_to_map(s).contains_key(key),
    decreases s.len(),
{
    if s.len() > 0 {
        assert(s.drop_last() =~= s.subrange(0, s.len() - 1));
        lemma_entries_absent(s.drop_last(), key);
    }
}

/// The denoted mapping takes a key to the value of the last entry bearing
/// it.
proof fn lemma_entries_last_match(s: Seq<(String, CommandHandler)>, key: Seq<char>, i: int)
    requires
        0 <= i < s.len(),
        s[i].0@ == key,
        forall|j: int| i < j < s.len() ==> #[trigger] s[j].0@ != key,
    ensures
        entries_to_map(s).contains_key(key),
        entries_to_map(s)[key] == s[i].1,
    decreases s.len(),
{
    if i == s.len() - 1 {
    } else {
        assert(s.drop_last()[i] == s[i]);
        lemma_entries_last_match(s.drop_last(), key, i);
    }
}

impl Registry {
    /// An empty registry: no command resolves.
    pub fn new() -> (r: Registry)
        ensures
            r@ == Map::<Seq<char>, CommandHandler>::empty(),
    {
        Registry { entries: Vec::new() }
    }

    /// Registers `handler` under `command`. A duplicate name overwrites
    /// the prior handler: last write wins.
    pub fn register(&mut self, command: String, handler: CommandHandler)
        ensures
            final(self)@ == old(self)@.insert(command@, handler),
    {
        let ghost before = self.entries@;
        self.entries.push((command, handler));
        proof {
            assert(self.entries@.drop_last() =~= before);
        }
    }

    /// Looks the command up: the handler registered last under that name,
    /// or `None` when the name was never registered. Absence is not an
    /// error here; the dispatcher decides how to report it.
    pub fn resolve(&self, command: &str) -> (r: Option<CommandHandler>)
        ensures
            (match r {
                Some(h) => self@.contains_key(command@) && self@[command@] == h,
                None => !self@.contains_key(command@),
            }),
    {
        let mut i: usize = self.entries.len();
        while i > 0
            invariant
                i <= self.entries@.len(),
                forall|j: int|
                    i <= j < self.entries@.len() ==> #[trigger] self.entries@[j].0@ != command@,
            decreases i,
        {
            i = i - 1;
            if str_eq(self.entries[i].0.as_str(), command) {
                proof {
                    lemma_entries_last_match(self.entries@, command@, i as int);
                }
                return Some(self.entries[i].1);
            }
        }
        proof {
            lemma_entries_absent(self.entries@, command@);
        }
        None
    }
}

/// The decoded, correctly-typed payload a successful dispatch hands to
/// the command's effect: one variant per known command.
#[derive(Clone, Copy, Debug, PartialEq, Eq, Structural)]
pub enum CommandAction {
    MoveTo(MoveTo),
}

/// Mathematical value of a [`DispatchOutcome`].
pub enum SpecDispatchOutcome {
    Dispatched(CommandAction),
    EnvelopeDecodeFailed(DecodeError),
    UnknownCommand(Seq<char>),
    PayloadDecodeFailed(DecodeError),
}

/// Terminal state of dispatching one received buffer. Every outcome is
/// local to that buffer: a failure never corrupts the registry and never
/// aborts later dispatches.
#[derive(Debug)]
pub enum DispatchOutcome {
    /// The envelope decoded, its command resolved, and its payload decoded
    /// to the handler's type: the action is ready to execute.
    Dispatched(CommandAction),
    /// The envelope bytes were malformed or truncated.
    EnvelopeDecodeFailed(DecodeError),
    /// The envelope decoded, but no handler is registered under its
    /// command name, reported here.
    UnknownCommand(String),
    /// The envelope decoded and its command resolved, but the payload
    /// bytes do not decode as the type the handler expects.
    PayloadDecodeFailed(DecodeError),
}

impl View for DispatchOutcome {
    type V = SpecDispatchOutcome;

    open spec fn view(&self) -> SpecDispatchOutcome {
        match self {
            DispatchOutcome::Dispatched(a) => SpecDispatchOutcome::Dispatched(*a),
            DispatchOutcome::EnvelopeDecodeFailed(e) => SpecDispatchOutcome::EnvelopeDecodeFailed(
                *e,
            ),
            DispatchOutcome::UnknownCommand(c) => SpecDispatchOutcome::UnknownCommand(c@),
            DispatchOutcome::PayloadDecodeFailed(e) => SpecDispatchOutcome::PayloadDecodeFailed(
                *e,
            ),
        }
    }
}

/// The outcome dispatching `bytes` against a registry denoting `reg` must
/// reach: decode the envelope, resolve its command, decode its payload as
/// the resolved handler's type.
pub open spec fn spec_dispatch(
    reg: Map<Seq<char>, CommandHandler>,
    bytes: Seq<u8>,
) -> SpecDispatchOutcome {
    match spec_decode_packet(bytes) {
        Err(e) => SpecDispatchOutcome::EnvelopeDecodeFailed(e),
        Ok((p, n)) => if !reg.contains_key(p.command) {
            SpecDispatchOutcome::UnknownCommand(p.command)
        } else {
            match reg[p.command] {
                CommandHandler::MoveTo => match spec_decode_move_to(p.data) {
                    Err(e) => SpecDispatchOutcome::PayloadDecodeFailed(e),
                    Ok((m, _)) => SpecDispatchOutcome::Dispatched(CommandAction::MoveTo(m)),
                },
            }
        },
    }
}

/// Dispatches one received buffer: decodes the envelope from a prefix of
/// `bytes`, resolves its command in `registry`, and hands the payload to
/// the resolved handler's decode step. Single-shot: no retry at this
/// layer.
pub fn handle_packet(registry: &Registry, bytes: &[u8]) -> (r: DispatchOutcome)
    ensures
        r@ == spec_dispatch(registry@, bytes@),
{
    match Packet::decode(bytes) {
        Err(e) => DispatchOutcome::EnvelopeDecodeFailed(e),
        Ok((packet, _)) => match registry.resolve(packet.command.as_str()) {
            None => DispatchOutcome::UnknownCommand(packet.command),
            Some(CommandHandler::MoveTo) => match handle_move_to(packet.data.as_slice()) {
                Err(e) => DispatchOutcome::PayloadDecodeFailed(e),
                Ok((m, _)) => DispatchOutcome::Dispatched(CommandAction::MoveTo(m)),
            },
        },
    }
}

/// The registry this protocol ships with: the movement command under the
/// name `move_to`.
pub fn get_command_registry() -> (r: Registry)
    ensures
        r@ == Map::<Seq<char>, CommandHandler>::empty().insert(
            "move_to"@,
            CommandHandler::MoveTo,
        ),
{
    let mut registry = Registry::new();
    registry.register(String::from_str("move_to"), CommandHandler::MoveTo);
    registry
}

/// Dispatch correctness: against any registry that maps `move_to` to the
/// movement handler, an envelope addressed to `move_to` whose data is the
/// encoding of a movement command dispatches exactly that command.
pub proof fn lemma_dispatch_move_to(reg: Map<Seq<char>, CommandHandler>, m: MoveTo)
    requires
        reg.contains_key("move_to"@),
        reg["move_to"@] == CommandHandler::MoveTo,
    ensures
        spec_dispatch(
            reg,
            crate::envelope::spec_encode_packet(
                SpecPacket { command: "move_to"@, data: spec_encode_move_to(m) },
            ),
        ) == SpecDispatchOutcome::Dispatched(CommandAction::MoveTo(m)),
{
    reveal_strlit("move_to");
    let cmd = "move_to"@;
    assert(vstd::utf8::is_ascii_chars(cmd));
    vstd::utf8::is_ascii_chars_encode_utf8(cmd);
    vstd::bytes::lemma_auto_spec_u64_to_from_le_bytes();
    let p = SpecPacket { command: cmd, data: spec_encode_move_to(m) };
    crate::envelope::lemma_packet_round_trip(p, Seq::empty());
    assert(crate::envelope::spec_encode_packet(p) + Seq::empty() =~= crate::envelope::spec_encode_packet(p));
    lemma_move_to_round_trip(m, Seq::empty());
    assert(spec_encode_move_to(m) + Seq::empty() =~= spec_encode_move_to(m));
}

/// Unknown command: an envelope whose command name the registry does not
/// hold dispatches to the unknown-command outcome, reported with that
/// name; no handler's decode step is reached.
pub proof fn lemma_dispatch_unknown_command(reg: Map<Seq<char>, CommandHandler>, p: SpecPacket)
    requires
        !reg.contains_key(p.command),
        vstd::utf8::encode_utf8(p.command).len() <= u64::MAX,
        p.data.len() <= u64::MAX,
    ensures
        spec_dispatch(reg, crate::envelope::spec_encode_packet(p))
            == SpecDispatchOutcome::UnknownCommand(p.command),
{
    crate::envelope::lemma_packet_round_trip(p, Seq::empty());
    assert(crate::envelope::spec_encode_packet(p) + Seq::empty() =~= crate::envelope::spec_encode_packet(p));
}

/// Payload/command mismatch: an envelope addressed to `move_to` whose data
/// does not decode as a movement command dispatches to the payload-decode
/// failure, carrying the payload's own decode error.
pub proof fn lemma_dispatch_payload_mismatch(reg: Map<Seq<char>, CommandHandler>, data: Seq<u8>)
    requires
        reg.contains_key("move_to"@),
        reg["move_to"@] == CommandHandler::MoveTo,
        data.len() <= u64::MAX,
        spec_decode_move_to(data) is Err,
    ensures
        spec_dispatch(
            reg,
            crate::envelope::spec_encode_packet(SpecPacket { command: "move_to"@, data }),
        ) == SpecDispatchOutcome::PayloadDecodeFailed(spec_decode_move_to(data)->Err_0),
{
    reveal_strlit("move_to");
    let cmd = "move_to"@;
    assert(vstd::utf8::is_ascii_chars(cmd));
    vstd::utf8::is_ascii_chars_encode_utf8(cmd);
    let p = SpecPacket { command: cmd, data };
    crate::envelope::lemma_packet_round_trip(p, Seq::empty());
    assert(crate::envelope::spec_encode_packet(p) + Seq::empty() =~= crate::envelope::spec_encode_packet(p));
}

/// Builds the transmission bytes for a movement command: encodes the
/// payload, wraps it in an envelope addressed to `move_to`, and encodes
/// the envelope.
pub fn build_move_to_packet(command: MoveTo) -> (r: Vec<u8>)
    ensures
        r@ == crate::envelope::spec_encode_packet(
            SpecPacket { command: "move_to"@, data: spec_encode_move_to(command) },
        ),
{
    let data = command.encode();
    proof {
        reveal_strlit("move_to");
    }
    let packet = Packet::new(String::from_str("move_to"), data);
    packet.encode()
}

} // verus!
