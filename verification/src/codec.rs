//! The packet codec: typed protocol messages, their symmetric binary
//! encoding, and the stream framing around them.
//!
//! A framed packet is laid out as one opcode byte, an eight-byte
//! big-endian correlation id, a four-byte big-endian payload length, and
//! exactly that many payload bytes; the length always travels ahead of
//! the payload. Decoding rejects an opcode outside the known range with
//! a distinct error.

use vstd::prelude::*;
use vstd::utf8::encode_utf8;
use crate::packets::{
    AllocationRequestPacketData, AllocationResponsePacketData, DecodeError, HeartbeatPacketData,
    spec_decode_heartbeat, spec_decode_symbol, spec_heartbeat_payload, spec_symbol_payload,
    lemma_heartbeat_payload_round_trip, lemma_symbol_payload_round_trip,
};
use crate::wire::{
    push_u32_be, push_u64_be, read_u32_be, read_u64_be, copy_range, spec_u32_from_be_bytes,
    spec_u32_to_be_bytes, spec_u64_from_be_bytes, spec_u64_to_be_bytes, lemma_u32_be_round_trip,
    lemma_u64_be_round_trip,
};

verus! {

/// A typed protocol message.
#[derive(Debug, Clone, PartialEq, Eq)]
pub enum Packet {
    Heartbeat(HeartbeatPacketData),
    AllocationRequest(AllocationRequestPacketData),
    AllocationResponse(AllocationResponsePacketData),
}

/// Mathematical model of a packet: the heartbeat timestamp, or the
/// optional symbol characters.
pub enum PacketModel {
    Heartbeat(i64),
    AllocationRequest,
    AllocationResponse(Option<Seq<char>>),
}

impl View for Packet {
    type V = PacketModel;

    open spec fn view(&self) -> PacketModel {
        match self {
            Packet::Heartbeat(d) => PacketModel::Heartbeat(d.unix_ms),
            Packet::AllocationRequest(_) => PacketModel::AllocationRequest,
            Packet::AllocationResponse(d) => PacketModel::AllocationResponse(d.view()),
        }
    }
}

/// The opcode a message travels under.
pub open spec fn spec_opcode(m: PacketModel) -> u8 {
    match m {
        PacketModel::Heartbeat(_) => 0,
        PacketModel::AllocationRequest => 1,
        PacketModel::AllocationResponse(_) => 2,
    }
}

/// The payload bytes of a message.
pub open spec fn spec_payload(m: PacketModel) -> Seq<u8> {
    match m {
        PacketModel::Heartbeat(t) => spec_heartbeat_payload(t),
        PacketModel::AllocationRequest => Seq::empty(),
        PacketModel::AllocationResponse(symbol) => spec_symbol_payload(symbol),
    }
}

/// What decoding an opcode and payload yields: the message, or the
/// distinct error for an unknown opcode, or a malformed-payload error.
pub open spec fn spec_decode(packet_id: u8, payload: Seq<u8>) -> Result<PacketModel, DecodeError> {
    if packet_id == 0 {
        match spec_decode_heartbeat(payload) {
            Ok(t) => Ok(PacketModel::Heartbeat(t)),
            Err(e) => Err(e),
        }
    } else if packet_id == 1 {
        if payload.len() == 0 {
            Ok(PacketModel::AllocationRequest)
        } else {
            Err(DecodeError::MalformedPayload)
        }
    } else if packet_id == 2 {
        match spec_decode_symbol(payload) {
            Ok(symbol) => Ok(PacketModel::AllocationResponse(symbol)),
            Err(e) => Err(e),
        }
    } else {
        Err(DecodeError::UnknownOpcode)
    }
}

/// A message is encodable when its payload fits the wire's length
/// fields; every payload an exec message can hold satisfies this.
pub open spec fn spec_encodable(m: PacketModel) -> bool {
    match m {
        PacketModel::AllocationResponse(Some(chars)) => encode_utf8(chars).len()
            <= u64::MAX,
        _ => true,
    }
}

/// A packet in encoded form: opcode, correlation id, opaque payload.
#[derive(Debug, Clone, PartialEq, Eq)]
pub struct EncodedPacket {
    pub packet_id: u8,
    pub identifier: u64,
    pub payload: Vec<u8>,
}

impl Packet {
    /// The opcode this message travels under.
    pub fn id(&self) -> (r: u8)
        ensures
            r == spec_opcode(self@),
    {
        match self {
            Packet::Heartbeat(_) => 0,
            Packet::AllocationRequest(_) => 1,
            Packet::AllocationResponse(_) => 2,
        }
    }

    /// Encode this message under the given correlation id.
    pub fn encode(&self, identifier: u64) -> (r: EncodedPacket)
        ensures
            r.packet_id == spec_opcode(self@),
            r.identifier == identifier,
            r.payload@ == spec_payload(self@),
    {
        let packet_id = self.id();
        let payload = match self {
            Packet::Heartbeat(d) => d.encode_payload(),
            Packet::AllocationRequest(d) => d.encode_payload(),
            Packet::AllocationResponse(d) => d.encode_payload(),
        };
        EncodedPacket { packet_id, identifier, payload }
    }

    /// Decode an encoded packet back into a typed message. An opcode
    /// outside the known range is rejected with `UnknownOpcode`; a
    /// payload of the wrong shape with `MalformedPayload`.
    pub fn decode(encoded: &EncodedPacket) -> (r: Result<Packet, DecodeError>)
        ensures
            match r {
                Ok(p) => spec_decode(encoded.packet_id, encoded.payload@) == Ok::<
                    PacketModel,
                    DecodeError,
                >(p@),
                Err(e) => spec_decode(encoded.packet_id, encoded.payload@) == Err::<
                    PacketModel,
                    DecodeError,
                >(e),
            },
    {
        if encoded.packet_id == 0 {
            match HeartbeatPacketData::decode_payload(&encoded.payload) {
                Ok(d) => Ok(Packet::Heartbeat(d)),
                Err(e) => Err(e),
            }
        } else if encoded.packet_id == 1 {
            match AllocationRequestPacketData::decode_payload(&encoded.payload) {
                Ok(d) => Ok(Packet::AllocationRequest(d)),
                Err(e) => Err(e),
            }
        } else if encoded.packet_id == 2 {
            match AllocationResponsePacketData::decode_payload(&encoded.payload) {
                Ok(d) => Ok(Packet::AllocationResponse(d)),
                Err(e) => Err(e),
            }
        } else {
            Err(DecodeError::UnknownOpcode)
        }
    }
}

/// Round trip of the packet codec: decoding an encoded message yields
/// the message back, for every message of each opcode kind, under any
/// correlation id; and an opcode outside the known range always decodes
/// to the distinct unknown-opcode error.
pub proof fn lemma_packet_round_trip(m: PacketModel, packet_id: u8)
    requires
        spec_encodable(m),
    ensures
        spec_decode(spec_opcode(m), spec_payload(m)) == Ok::<PacketModel, DecodeError>(m),
        packet_id > 2 ==> spec_decode(packet_id, spec_payload(m)) == Err::<
            PacketModel,
            DecodeError,
        >(DecodeError::UnknownOpcode),
{
    match m {
        PacketModel::Heartbeat(t) => {
            lemma_heartbeat_payload_round_trip(t);
        },
        PacketModel::AllocationRequest => {
        },
        PacketModel::AllocationResponse(symbol) => {
            lemma_symbol_payload_round_trip(symbol);
        },
    }
}

/// The frame bytes of one packet: opcode, correlation id in big-endian,
/// payload length in big-endian, then the payload itself.
pub open spec fn spec_frame_bytes(packet_id: u8, identifier: u64, payload: Seq<u8>) -> Seq<u8> {
    seq![packet_id] + spec_u64_to_be_bytes(identifier) + spec_u32_to_be_bytes(payload.len() as u32)
        + payload
}

/// What parsing a byte stream at a frame boundary yields: the header
/// fields, the payload, and how many bytes the frame occupied; `None`
/// when the bytes so far are shorter than one whole frame.
pub open spec fn spec_parse_frame(b: Seq<u8>) -> Option<(u8, u64, Seq<u8>, int)> {
    if b.len() < 13 {
        None
    } else {
        let n = spec_u32_from_be_bytes(b.subrange(9, 13)) as int;
        if b.len() < 13 + n {
            None
        } else {
            Some(
                (
                    b[0],
                    spec_u64_from_be_bytes(b.subrange(1, 9)),
                    b.subrange(13, 13 + n),
                    13 + n,
                ),
            )
        }
    }
}

impl EncodedPacket {
    /// Append this packet's frame bytes to an outgoing buffer. The
    /// payload length must fit the four-byte length field.
    pub fn write(&self, out: &mut Vec<u8>)
        requires
            self.payload@.len() <= u32::MAX,
        ensures
            final(out)@ == old(out)@ + spec_frame_bytes(
                self.packet_id,
                self.identifier,
                self.payload@,
            ),
    {
        out.push(self.packet_id);
        push_u64_be(out, self.identifier);
        push_u32_be(out, self.payload.len() as u32);
        let mut i: usize = 0;
        let ghost mid = out@;
        while i < self.payload.len()
            invariant
                self.payload@.len() <= usize::MAX,
                i <= self.payload@.len(),
                out@ == mid + self.payload@.subrange(0, i as int),
            decreases self.payload@.len() - i,
        {
            out.push(self.payload[i]);
            i = i + 1;
            proof {
                assert(out@ =~= mid + self.payload@.subrange(0, i as int));
            }
        }
        proof {
            assert(out@ =~= old(out)@ + spec_frame_bytes(
                self.packet_id,
                self.identifier,
                self.payload@,
            ));
        }
    }

    /// Parse one frame out of an incoming buffer, starting at `at`.
    /// Returns the packet and the offset just past its frame, or `None`
    /// when the buffer does not yet hold a whole frame; the payload
    /// length is read before any payload byte is touched.
    pub fn read(buf: &Vec<u8>, at: usize) -> (r: Option<(EncodedPacket, usize)>)
        requires
            at <= buf@.len(),
        ensures
            match r {
                Some((p, next)) => {
                    &&& spec_parse_frame(buf@.skip(at as int)) == Some(
                        (p.packet_id, p.identifier, p.payload@, next - at),
                    )
                    &&& at < next <= buf@.len()
                },
                None => spec_parse_frame(buf@.skip(at as int)) is None,
            },
    {
        let len = buf.len();
        if len - at < 13 {
            return None;
        }
        let packet_id = buf[at];
        let identifier = read_u64_be(buf, at + 1);
        let n = read_u32_be(buf, at + 9) as usize;
        proof {
            assert(buf@.skip(at as int).subrange(1, 9) =~= buf@.subrange(
                at as int + 1,
                at as int + 9,
            ));
            assert(buf@.skip(at as int).subrange(9, 13) =~= buf@.subrange(
                at as int + 9,
                at as int + 13,
            ));
        }
        if len - (at + 13) < n {
            return None;
        }
        let payload = copy_range(buf, at + 13, n);
        proof {
            assert(buf@.skip(at as int).subrange(13, 13 + n as int) =~= buf@.subrange(
                at as int + 13,
                at as int + 13 + n as int,
            ));
        }
        Some((EncodedPacket { packet_id, identifier, payload }, at + 13 + n))
    }
}

/// Round trip of the stream framing: a frame written after any prefix
/// and followed by any later bytes parses back to exactly the packet
/// that was written, consuming exactly its own bytes.
pub proof fn lemma_frame_round_trip(packet_id: u8, identifier: u64, payload: Seq<u8>, rest: Seq<u8>)
    requires
        payload.len() <= u32::MAX,
    ensures
        spec_parse_frame(spec_frame_bytes(packet_id, identifier, payload) + rest) == Some(
            (packet_id, identifier, payload, 13 + payload.len() as int),
        ),
{
    lemma_u64_be_round_trip(identifier);
    lemma_u32_be_round_trip(payload.len() as u32);
    let frame = spec_frame_bytes(packet_id, identifier, payload);
    let b = frame + rest;
    assert(b.len() == 13 + payload.len() + rest.len());
    assert(b.subrange(1, 9) =~= spec_u64_to_be_bytes(identifier));
    assert(b.subrange(9, 13) =~= spec_u32_to_be_bytes(payload.len() as u32));
    assert(b.subrange(13, 13 + payload.len() as int) =~= payload);
    assert(b[0] == packet_id);
}

/// Round trip of the whole wire path: a message framed after any prefix
/// of the stream and followed by any later bytes parses back as exactly
/// one frame — carrying the message's opcode and correlation id — whose
/// payload decodes to exactly the message that was sent.
pub proof fn lemma_wire_round_trip(m: PacketModel, identifier: u64, rest: Seq<u8>)
    requires
        spec_encodable(m),
        spec_payload(m).len() <= u32::MAX,
    ensures
        match spec_parse_frame(
            spec_frame_bytes(spec_opcode(m), identifier, spec_payload(m)) + rest,
        ) {
            Some((id, ident, payload, used)) => id == spec_opcode(m) && ident == identifier
                && used == 13 + spec_payload(m).len() && spec_decode(id, payload) == Ok::<
                PacketModel,
                DecodeError,
            >(m),
            None => false,
        },
{
    lemma_frame_round_trip(spec_opcode(m), identifier, spec_payload(m), rest);
    lemma_packet_round_trip(m, 3);
}

} // verus!
