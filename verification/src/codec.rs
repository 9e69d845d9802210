//! Primitives of the wire format: `u64` values, length-prefixed byte
//! sequences, and length-prefixed UTF-8 strings.
//!
//! Every multi-byte integer is written little-endian. A variable-size field
//! is written as a `u64` length prefix followed by that many bytes. Each
//! `spec_encode_*` function is the single definition of the format; the
//! executable encoders and decoders are proved against them.

use vstd::bytes::{
    spec_u64_from_le_bytes, spec_u64_to_le_bytes, u64_from_le_bytes, u64_to_le_bytes,
};
use vstd::prelude::*;
use vstd::slice::{slice_subrange, slice_to_vec};
use vstd::string::StringSliceAdditionalSpecFns;
use vstd::utf8::{decode_utf8, encode_utf8, valid_utf8};

verus! {

/// Why a byte sequence failed to decode: the input ended before a fixed-size
/// field was complete, an enum discriminant was out of range, a
/// variable-size field declared a length exceeding the remaining input, or a
/// string field held bytes that are not valid UTF-8.
#[derive(Clone, Copy, Debug, PartialEq, Eq, Structural)]
pub enum DecodeError {
    Truncated,
    InvalidTag,
    LengthExceedsInput,
    InvalidUtf8,
}

/// Wire form of a `u64`: its eight bytes, little-endian.
pub open spec fn spec_encode_u64(x: u64) -> Seq<u8> {
    spec_u64_to_le_bytes(x)
}

/// Decoding a `u64` from a prefix of `bytes`: the value of the first eight
/// bytes, little-endian, and the count of bytes consumed.
pub open spec fn spec_decode_u64(bytes: Seq<u8>) -> Result<(u64, int), DecodeError> {
    if bytes.len() < 8 {
        Err(DecodeError::Truncated)
    } else {
        Ok((spec_u64_from_le_bytes(bytes.subrange(0, 8)), 8))
    }
}

/// Wire form of a byte sequence: a `u64` length prefix, then the bytes.
pub open spec fn spec_encode_bytes(data: Seq<u8>) -> Seq<u8>
    recommends
        data.len() <= u64::MAX,
{
    spec_encode_u64(data.len() as u64) + data
}

/// Decoding a length-prefixed byte sequence from a prefix of `bytes`.
pub open spec fn spec_decode_bytes(bytes: Seq<u8>) -> Result<(Seq<u8>, int), DecodeError> {
    match spec_decode_u64(bytes) {
        Err(e) => Err(e),
        Ok((n, _)) => if n > bytes.len() - 8 {
            Err(DecodeError::LengthExceedsInput)
        } else {
            Ok((bytes.subrange(8, 8 + n), 8 + n))
        },
    }
}

/// Wire form of a string: its UTF-8 bytes, length-prefixed.
pub open spec fn spec_encode_str(s: Seq<char>) -> Seq<u8>
    recommends
        encode_utf8(s).len() <= u64::MAX,
{
    spec_encode_bytes(encode_utf8(s))
}

/// Decoding a length-prefixed UTF-8 string from a prefix of `bytes`.
pub open spec fn spec_decode_str(bytes: Seq<u8>) -> Result<(Seq<char>, int), DecodeError> {
    match spec_decode_bytes(bytes) {
        Err(e) => Err(e),
        Ok((data, n)) => if valid_utf8(data) {
            Ok((decode_utf8(data), n))
        } else {
            Err(DecodeError::InvalidUtf8)
        },
    }
}

/// Appends the wire form of `x` to `out`.
pub fn encode_u64_into(out: &mut Vec<u8>, x: u64)
    ensures
        final(out)@ == old(out)@ + spec_encode_u64(x),
{
    let mut b = u64_to_le_bytes(x);
    out.append(&mut b);
}

/// Reads a `u64` from the first eight bytes of `bytes`.
pub fn decode_u64(bytes: &[u8]) -> (r: Result<(u64, usize), DecodeError>)
    ensures
        (match (r, spec_decode_u64(bytes@)) {
            (Ok((x, n)), Ok((sx, sn))) => x == sx && n == sn,
            (Err(e), Err(se)) => e == se,
            _ => false,
        }),
{
    if bytes.len() < 8 {
        Err(DecodeError::Truncated)
    } else {
        let x = u64_from_le_bytes(slice_subrange(bytes, 0, 8));
        Ok((x, 8))
    }
}

/// Appends the wire form of `data` (length prefix, then the bytes) to `out`.
pub fn encode_bytes_into(out: &mut Vec<u8>, data: &[u8])
    ensures
        final(out)@ == old(out)@ + spec_encode_bytes(data@),
{
    encode_u64_into(out, data.len() as u64);
    let mut d = slice_to_vec(data);
    out.append(&mut d);
}

/// Reads a length-prefixed byte sequence from the front of `bytes`.
pub fn decode_bytes(bytes: &[u8]) -> (r: Result<(Vec<u8>, usize), DecodeError>)
    ensures
        (match (r, spec_decode_bytes(bytes@)) {
            (Ok((d, n)), Ok((sd, sn))) => d@ == sd && n == sn,
            (Err(e), Err(se)) => e == se,
            _ => false,
        }),
{
    match decode_u64(bytes) {
        Err(e) => Err(e),
        Ok((len, _)) => {
            if len > (bytes.len() - 8) as u64 {
                Err(DecodeError::LengthExceedsInput)
            } else {
                let len_usize = len as usize;
                let data = slice_to_vec(slice_subrange(bytes, 8, 8 + len_usize));
                Ok((data, 8 + len_usize))
            }
        },
    }
}

/// Decoding the wire form of a `u64` yields the value back, whatever
/// follows it in the input.
pub proof fn lemma_u64_round_trip(x: u64, rest: Seq<u8>)
    ensures
        spec_decode_u64(spec_encode_u64(x) + rest) == Ok::<(u64, int), DecodeError>((x, 8)),
{
    vstd::bytes::lemma_auto_spec_u64_to_from_le_bytes();
    assert((spec_encode_u64(x) + rest).subrange(0, 8) =~= spec_encode_u64(x));
}

/// The wire form of a byte sequence is eight bytes longer than the
/// sequence itself.
pub proof fn lemma_bytes_encode_len(data: Seq<u8>)
    ensures
        spec_encode_bytes(data).len() == 8 + data.len(),
{
    vstd::bytes::lemma_auto_spec_u64_to_from_le_bytes();
}

/// Decoding the wire form of a byte sequence yields the sequence back,
/// whatever follows it in the input.
pub proof fn lemma_bytes_round_trip(data: Seq<u8>, rest: Seq<u8>)
    requires
        data.len() <= u64::MAX,
    ensures
        spec_decode_bytes(spec_encode_bytes(data) + rest) == Ok::<(Seq<u8>, int), DecodeError>(
            (data, 8 + data.len() as int),
        ),
{
    vstd::bytes::lemma_auto_spec_u64_to_from_le_bytes();
    let whole = spec_encode_bytes(data) + rest;
    lemma_u64_round_trip(data.len() as u64, data + rest);
    assert(whole =~= spec_encode_u64(data.len() as u64) + (data + rest));
    assert(whole.subrange(8, 8 + data.len() as int) =~= data);
}

/// Decoding the wire form of a string yields the same characters back,
/// whatever follows it in the input.
pub proof fn lemma_str_round_trip(s: Seq<char>, rest: Seq<u8>)
    requires
        encode_utf8(s).len() <= u64::MAX,
    ensures
        spec_decode_str(spec_encode_str(s) + rest) == Ok::<(Seq<char>, int), DecodeError>(
            (s, 8 + encode_utf8(s).len() as int),
        ),
{
    lemma_bytes_round_trip(encode_utf8(s), rest);
    vstd::utf8::encode_utf8_valid_utf8(s);
    vstd::utf8::encode_utf8_decode_utf8(s);
}

/// Relies on `String::from_utf8`: it returns `Ok` exactly when the bytes
/// are valid UTF-8, and the returned string then consists of those bytes,
/// i.e. of the character sequence they encode.
#[verifier::external_body]
fn string_from_utf8(bytes: Vec<u8>) -> (r: Option<String>)
    ensures
        r matches Some(s) ==> valid_utf8(bytes@) && s@ == decode_utf8(bytes@),
        r is None ==> !valid_utf8(bytes@),
{
    match String::from_utf8(bytes) {
        Ok(s) => Some(s),
        Err(_) => None,
    }
}

/// Appends the wire form of `s` (length prefix, then its UTF-8 bytes) to
/// `out`.
pub fn encode_str_into(out: &mut Vec<u8>, s: &str)
    ensures
        final(out)@ == old(out)@ + spec_encode_str(s@),
{
    let b = s.as_bytes();
    encode_bytes_into(out, b);
}

/// Reads a length-prefixed UTF-8 string from the front of `bytes`.
pub fn decode_string(bytes: &[u8]) -> (r: Result<(String, usize), DecodeError>)
    ensures
        (match (r, spec_decode_str(bytes@)) {
            (Ok((s, n)), Ok((ss, sn))) => s@ == ss && n == sn,
            (Err(e), Err(se)) => e == se,
            _ => false,
        }),
{
    match decode_bytes(bytes) {
        Err(e) => Err(e),
        Ok((data, n)) => match string_from_utf8(data) {
            Some(s) => Ok((s, n)),
            None => Err(DecodeError::InvalidUtf8),
        },
    }
}

/// Whether two string slices hold the same characters, decided by comparing
/// their UTF-8 bytes.
pub fn str_eq(a: &str, b: &str) -> (r: bool)
    ensures
        r == (a@ == b@),
{
    let ab = a.as_bytes();
    let bb = b.as_bytes();
    if ab.len() != bb.len() {
        return false;
    }
    let mut i: usize = 0;
    while i < ab.len()
        invariant
            i <= ab.len(),
            ab.len() == bb.len(),
            ab@ == a.spec_bytes(),
            bb@ == b.spec_bytes(),
            forall|j: int| 0 <= j < i ==> ab@[j] == bb@[j],
        decreases ab.len() - i,
    {
        if ab[i] != bb[i] {
            return false;
        }
        i += 1;
    }
    proof {
        assert(a.spec_bytes() =~= b.spec_bytes());
        vstd::utf8::encode_utf8_decode_utf8(a@);
        vstd::utf8::encode_utf8_decode_utf8(b@);
    }
    true
}

} // verus!
