//! Typed packet payloads and their byte encodings.
//!
//! Each packet kind travels under a fixed one-byte opcode with a payload
//! of its own shape: a heartbeat carries a signed millisecond timestamp
//! in eight little-endian bytes, an allocation request carries nothing,
//! and an allocation response carries an optional symbol as a
//! length-prefixed UTF-8 string (absent symbol: empty payload).

use vstd::prelude::*;
use vstd::bytes::{spec_u64_from_le_bytes, spec_u64_to_le_bytes, lemma_auto_spec_u64_to_from_le_bytes};
use vstd::string::StrSliceExecFns;
use vstd::utf8::{decode_utf8, encode_utf8, valid_utf8};
use crate::wire::{push_u64_le, copy_range, read_u64_le};

verus! {

/// Why a packet or frame was rejected by the decoder.
#[derive(Debug, Clone, Copy, PartialEq, Eq, Structural)]
pub enum DecodeError {
    /// The opcode names no known packet kind.
    UnknownOpcode,
    /// The payload does not have the shape its opcode requires.
    MalformedPayload,
}

/// Typed payload carried by one packet kind; each kind has a fixed
/// one-byte opcode.
pub trait PacketData {
    /// The opcode under which this payload travels.
    fn id() -> u8;
}

/// Heartbeat payload: a signed millisecond Unix timestamp.
#[derive(Debug, Clone, Copy, PartialEq, Eq, Structural)]
pub struct HeartbeatPacketData {
    pub unix_ms: i64,
}

/// Allocation request payload: carries nothing; the requester is
/// identified by its connection.
#[derive(Debug, Clone, Copy, PartialEq, Eq, Structural)]
pub struct AllocationRequestPacketData;

/// Allocation response payload: the symbol bound to the requesting
/// node, or nothing when the pool is exhausted.
#[derive(Debug, Clone, PartialEq, Eq)]
pub struct AllocationResponsePacketData {
    pub symbol: Option<String>,
}

impl View for AllocationResponsePacketData {
    type V = Option<Seq<char>>;

    open spec fn view(&self) -> Option<Seq<char>> {
        match self.symbol {
            Some(s) => Some(s@),
            None => None,
        }
    }
}

impl PacketData for HeartbeatPacketData {
    fn id() -> u8 {
        0
    }
}

impl PacketData for AllocationRequestPacketData {
    fn id() -> u8 {
        1
    }
}

impl PacketData for AllocationResponsePacketData {
    fn id() -> u8 {
        2
    }
}

/// Payload bytes of a heartbeat: the timestamp in eight little-endian
/// bytes (two's complement).
pub open spec fn spec_heartbeat_payload(unix_ms: i64) -> Seq<u8> {
    spec_u64_to_le_bytes(unix_ms as u64)
}

/// Payload bytes of an allocation response: empty for an absent symbol,
/// else the symbol's UTF-8 byte length in eight little-endian bytes
/// followed by those bytes.
pub open spec fn spec_symbol_payload(symbol: Option<Seq<char>>) -> Seq<u8> {
    match symbol {
        None => Seq::empty(),
        Some(chars) => spec_u64_to_le_bytes(encode_utf8(chars).len() as u64) + encode_utf8(chars),
    }
}

/// What decoding a heartbeat payload yields.
pub open spec fn spec_decode_heartbeat(payload: Seq<u8>) -> Result<i64, DecodeError> {
    if payload.len() == 8 {
        Ok(spec_u64_from_le_bytes(payload) as i64)
    } else {
        Err(DecodeError::MalformedPayload)
    }
}

/// What decoding an allocation response payload yields.
pub open spec fn spec_decode_symbol(payload: Seq<u8>) -> Result<
    Option<Seq<char>>,
    DecodeError,
> {
    if payload.len() == 0 {
        Ok(None)
    } else if payload.len() < 8 {
        Err(DecodeError::MalformedPayload)
    } else {
        let n = spec_u64_from_le_bytes(payload.subrange(0, 8));
        let rest = payload.subrange(8, payload.len() as int);
        if n != rest.len() {
            Err(DecodeError::MalformedPayload)
        } else if !valid_utf8(rest) {
            Err(DecodeError::MalformedPayload)
        } else {
            Ok(Some(decode_utf8(rest)))
        }
    }
}

/// Relies on `String::from_utf8`: it succeeds exactly on valid UTF-8
/// input and returns the string whose UTF-8 byte encoding is that input.
#[verifier::external_body]
fn string_from_bytes(bytes: Vec<u8>) -> (r: Option<String>)
    ensures
        r matches Some(s) ==> valid_utf8(bytes@) && encode_utf8(s@) == bytes@,
        r is None ==> !valid_utf8(bytes@),
{
    match String::from_utf8(bytes) {
        Ok(s) => Some(s),
        Err(_) => None,
    }
}

impl HeartbeatPacketData {
    /// Serialize this payload to its wire bytes.
    pub fn encode_payload(&self) -> (r: Vec<u8>)
        ensures
            r@ == spec_heartbeat_payload(self.unix_ms),
    {
        let mut out: Vec<u8> = Vec::new();
        push_u64_le(&mut out, self.unix_ms as u64);
        proof {
            assert(out@ =~= spec_heartbeat_payload(self.unix_ms));
        }
        out
    }

    /// Parse a heartbeat payload; exactly eight bytes are accepted.
    pub fn decode_payload(payload: &Vec<u8>) -> (r: Result<HeartbeatPacketData, DecodeError>)
        ensures
            match r {
                Ok(p) => spec_decode_heartbeat(payload@) == Ok::<i64, DecodeError>(p.unix_ms),
                Err(e) => spec_decode_heartbeat(payload@) == Err::<i64, DecodeError>(e),
            },
    {
        if payload.len() == 8 {
            let raw = read_u64_le(payload, 0);
            proof {
                assert(payload@.subrange(0, 8) =~= payload@);
            }
            Ok(HeartbeatPacketData { unix_ms: raw as i64 })
        } else {
            Err(DecodeError::MalformedPayload)
        }
    }
}

impl AllocationRequestPacketData {
    /// Serialize this payload to its wire bytes (there are none).
    pub fn encode_payload(&self) -> (r: Vec<u8>)
        ensures
            r@ == Seq::<u8>::empty(),
    {
        let out: Vec<u8> = Vec::new();
        proof {
            assert(out@ =~= Seq::<u8>::empty());
        }
        out
    }

    /// Parse an allocation request payload; only an empty payload is
    /// accepted.
    pub fn decode_payload(payload: &Vec<u8>) -> (r: Result<
        AllocationRequestPacketData,
        DecodeError,
    >)
        ensures
            r is Ok <==> payload@.len() == 0,
            r matches Err(e) ==> e == DecodeError::MalformedPayload,
    {
        if payload.len() == 0 {
            Ok(AllocationRequestPacketData)
        } else {
            Err(DecodeError::MalformedPayload)
        }
    }
}

impl AllocationResponsePacketData {
    /// Serialize this payload to its wire bytes.
    pub fn encode_payload(&self) -> (r: Vec<u8>)
        ensures
            r@ == spec_symbol_payload(self@),
    {
        match &self.symbol {
            None => {
                let out: Vec<u8> = Vec::new();
                proof {
                    assert(out@ =~= spec_symbol_payload(self@));
                }
                out
            },
            Some(s) => {
                let bytes = s.as_str().as_bytes_vec();
                let mut out: Vec<u8> = Vec::new();
                push_u64_le(&mut out, bytes.len() as u64);
                let mut i: usize = 0;
                while i < bytes.len()
                    invariant
                        bytes@.len() <= usize::MAX,
                        i <= bytes@.len(),
                        out@ == spec_u64_to_le_bytes(bytes@.len() as u64) + bytes@.subrange(
                            0,
                            i as int,
                        ),
                    decreases bytes@.len() - i,
                {
                    out.push(bytes[i]);
                    i = i + 1;
                    proof {
                        assert(out@ =~= spec_u64_to_le_bytes(bytes@.len() as u64)
                            + bytes@.subrange(0, i as int));
                    }
                }
                proof {
                    assert(bytes@.subrange(0, bytes@.len() as int) =~= bytes@);
                    assert(out@ =~= spec_symbol_payload(self@));
                }
                out
            },
        }
    }

    /// Parse an allocation response payload: an empty payload is an
    /// absent symbol; otherwise the length prefix must match the
    /// remaining bytes exactly and those bytes must be valid UTF-8.
    pub fn decode_payload(payload: &Vec<u8>) -> (r: Result<
        AllocationResponsePacketData,
        DecodeError,
    >)
        ensures
            match r {
                Ok(p) => spec_decode_symbol(payload@) == Ok::<Option<Seq<char>>, DecodeError>(p@),
                Err(e) => spec_decode_symbol(payload@) == Err::<Option<Seq<char>>, DecodeError>(e),
            },
    {
        let len = payload.len();
        if len == 0 {
            Ok(AllocationResponsePacketData { symbol: None })
        } else if len < 8 {
            Err(DecodeError::MalformedPayload)
        } else {
            let n = read_u64_le(payload, 0);
            let rest = copy_range(payload, 8, len - 8);
            if n != (len - 8) as u64 {
                proof {
                    lemma_auto_spec_u64_to_from_le_bytes();
                    assert(payload@.subrange(8, payload@.len() as int).len() == len - 8);
                }
                Err(DecodeError::MalformedPayload)
            } else {
                proof {
                    assert(rest@ =~= payload@.subrange(8, payload@.len() as int));
                }
                match string_from_bytes(rest) {
                    Some(s) => {
                        proof {
                            broadcast use vstd::utf8::encode_utf8_decode_utf8;

                        }
                        Ok(AllocationResponsePacketData { symbol: Some(s) })
                    },
                    None => Err(DecodeError::MalformedPayload),
                }
            }
        }
    }
}

/// Encoding then decoding a heartbeat payload yields the original
/// timestamp, for every timestamp.
pub proof fn lemma_heartbeat_payload_round_trip(unix_ms: i64)
    ensures
        spec_decode_heartbeat(spec_heartbeat_payload(unix_ms)) == Ok::<i64, DecodeError>(unix_ms),
{
    lemma_auto_spec_u64_to_from_le_bytes();
    assert((unix_ms as u64) as i64 == unix_ms) by (bit_vector);
}

/// Encoding then decoding an allocation response payload yields the
/// original optional symbol, for every symbol whose UTF-8 encoding fits
/// in the length prefix.
pub proof fn lemma_symbol_payload_round_trip(symbol: Option<Seq<char>>)
    requires
        symbol matches Some(chars) ==> encode_utf8(chars).len() <= u64::MAX,
    ensures
        spec_decode_symbol(spec_symbol_payload(symbol)) == Ok::<Option<Seq<char>>, DecodeError>(
            symbol,
        ),
{
    lemma_auto_spec_u64_to_from_le_bytes();
    match symbol {
        None => {
        },
        Some(chars) => {
            broadcast use vstd::utf8::encode_utf8_valid_utf8;
            broadcast use vstd::utf8::encode_utf8_decode_utf8;

            let bytes = encode_utf8(chars);
            let payload = spec_symbol_payload(symbol);
            assert(payload.len() == 8 + bytes.len());
            assert(payload.subrange(0, 8) =~= spec_u64_to_le_bytes(bytes.len() as u64));
            assert(payload.subrange(8, payload.len() as int) =~= bytes);
        },
    }
}

} // verus!
