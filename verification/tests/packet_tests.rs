use trade_fleet::codec::{EncodedPacket, Packet};
use trade_fleet::packets::DecodeError;
use trade_fleet::packets::{
    AllocationRequestPacketData, AllocationResponsePacketData, HeartbeatPacketData, PacketData,
};

#[test]
fn serialization_works() {
    let packet = HeartbeatPacketData { unix_ms: 123456789 };

    let obtained_bytes = packet.encode_payload();
    let expected_bytes = vec![
        21,  // 0001 0101
        205, // 1100 1101
        91,  // 0101 1011
        7,   // 0000 0111
        0,   // 0000 0000
        0,   // 0000 0000
        0,   // 0000 0000
        0,   // 0000 0000
    ];

    assert_eq!(expected_bytes, obtained_bytes);
}

#[test]
fn deserialization_works() {
    let bytes = vec![
        21,  // 0001 0101
        205, // 1100 1101
        91,  // 0101 1011
        7,   // 0000 0111
        0,   // 0000 0000
        0,   // 0000 0000
        0,   // 0000 0000
        0,   // 0000 0000
    ];

    let obtained_packet: HeartbeatPacketData =
        HeartbeatPacketData::decode_payload(&bytes).unwrap();
    let expected_packet = HeartbeatPacketData { unix_ms: 123456789 };

    assert_eq!(expected_packet, obtained_packet);
}

#[test]
fn serialization_works_req() {
    let packet = AllocationRequestPacketData;

    let obtained_bytes = packet.encode_payload();
    let expected_bytes: Vec<u8> = vec![];

    assert_eq!(expected_bytes, obtained_bytes);
}

#[test]
fn deserialization_works_req() {
    let bytes = vec![];

    let obtained_packet: AllocationRequestPacketData =
        AllocationRequestPacketData::decode_payload(&bytes).unwrap();
    let expected_packet = AllocationRequestPacketData;

    assert_eq!(expected_packet, obtained_packet);
}

#[test]
fn serialization_works_resp() {
    let packet = AllocationResponsePacketData {
        symbol: Some("AAPL".to_string()),
    };

    let obtained_bytes = packet.encode_payload();
    let expected_bytes: Vec<u8> = vec![
        4, 0, 0, 0, 0, 0, 0, 0,  // Length
        65, // A
        65, // A
        80, // P
        76, // L
    ];

    assert_eq!(expected_bytes, obtained_bytes);
}

#[test]
fn deserialization_works_resp() {
    let bytes = vec![
        4, 0, 0, 0, 0, 0, 0, 0,  // Length
        65, // A
        65, // A
        80, // P
        76, // L
    ];

    let obtained_packet: AllocationResponsePacketData =
        AllocationResponsePacketData::decode_payload(&bytes).unwrap();
    let expected_packet = AllocationResponsePacketData {
        symbol: Some("AAPL".to_string()),
    };

    assert_eq!(expected_packet, obtained_packet);
}

#[test]
fn heartbeat_packet_round_trip() {
    let packet = Packet::Heartbeat(HeartbeatPacketData { unix_ms: -42 });
    let encoded = packet.encode(7);
    assert_eq!(encoded.packet_id, 0);
    assert_eq!(encoded.identifier, 7);
    let decoded = Packet::decode(&encoded).unwrap();
    assert_eq!(packet, decoded);
}

#[test]
fn allocation_request_packet_round_trip() {
    let packet = Packet::AllocationRequest(AllocationRequestPacketData);
    let encoded = packet.encode(99);
    assert_eq!(encoded.packet_id, 1);
    assert!(encoded.payload.is_empty());
    let decoded = Packet::decode(&encoded).unwrap();
    assert_eq!(packet, decoded);
}

#[test]
fn allocation_response_packet_round_trip() {
    let some = Packet::AllocationResponse(AllocationResponsePacketData {
        symbol: Some("ETHBTC".to_string()),
    });
    let encoded = some.encode(1);
    assert_eq!(encoded.packet_id, 2);
    assert_eq!(some, Packet::decode(&encoded).unwrap());

    let none = Packet::AllocationResponse(AllocationResponsePacketData { symbol: None });
    let encoded_none = none.encode(2);
    assert!(encoded_none.payload.is_empty());
    assert_eq!(none, Packet::decode(&encoded_none).unwrap());
}

#[test]
fn multibyte_symbol_round_trip() {
    let packet = Packet::AllocationResponse(AllocationResponsePacketData {
        symbol: Some(" índice-š".to_string()),
    });
    let encoded = packet.encode(3);
    assert_eq!(packet, Packet::decode(&encoded).unwrap());
}

#[test]
fn unknown_opcode_is_rejected() {
    for id in [3u8, 4, 100, 255] {
        let encoded = EncodedPacket {
            packet_id: id,
            identifier: 0,
            payload: vec![],
        };
        assert_eq!(Packet::decode(&encoded), Err(DecodeError::UnknownOpcode));
    }
}

#[test]
fn malformed_payloads_are_rejected() {
    // a heartbeat payload must be exactly eight bytes
    let short_heartbeat = EncodedPacket {
        packet_id: 0,
        identifier: 0,
        payload: vec![1, 2, 3],
    };
    assert_eq!(
        Packet::decode(&short_heartbeat),
        Err(DecodeError::MalformedPayload)
    );

    // an allocation request carries no payload
    let stuffed_request = EncodedPacket {
        packet_id: 1,
        identifier: 0,
        payload: vec![0],
    };
    assert_eq!(
        Packet::decode(&stuffed_request),
        Err(DecodeError::MalformedPayload)
    );

    // a response's length prefix must match the remaining bytes
    let bad_length = EncodedPacket {
        packet_id: 2,
        identifier: 0,
        payload: vec![9, 0, 0, 0, 0, 0, 0, 0, 65],
    };
    assert_eq!(
        Packet::decode(&bad_length),
        Err(DecodeError::MalformedPayload)
    );

    // a response's symbol bytes must be valid UTF-8
    let bad_utf8 = EncodedPacket {
        packet_id: 2,
        identifier: 0,
        payload: vec![2, 0, 0, 0, 0, 0, 0, 0, 0xff, 0xfe],
    };
    assert_eq!(Packet::decode(&bad_utf8), Err(DecodeError::MalformedPayload));
}

#[test]
fn frame_round_trip() {
    let packet = Packet::Heartbeat(HeartbeatPacketData { unix_ms: 123456789 }).encode(0xDEAD_BEEF);
    let mut buf = vec![0xAA, 0xBB];  // unrelated bytes already in the stream
    let start = buf.len();
    packet.write(&mut buf);
    buf.push(0xCC);  // bytes of a later frame

    let (parsed, next) = EncodedPacket::read(&buf, start).unwrap();
    assert_eq!(parsed, packet);
    assert_eq!(next, start + 13 + packet.payload.len());
}

#[test]
fn frame_header_layout() {
    let packet = EncodedPacket {
        packet_id: 2,
        identifier: 0x0102_0304_0506_0708,
        payload: vec![0x61, 0x62],
    };
    let mut buf = Vec::new();
    packet.write(&mut buf);
    // opcode, correlation id big-endian, payload length big-endian, payload
    assert_eq!(
        buf,
        vec![2, 1, 2, 3, 4, 5, 6, 7, 8, 0, 0, 0, 2, 0x61, 0x62]
    );
}

#[test]
fn incomplete_frame_is_not_parsed() {
    let packet = Packet::AllocationRequest(AllocationRequestPacketData).encode(1);
    let mut buf = Vec::new();
    packet.write(&mut buf);
    // the length header always travels ahead of the payload: a truncated
    // buffer yields nothing rather than a partial packet
    for cut in 0..buf.len() {
        let partial: Vec<u8> = buf[..cut].to_vec();
        assert!(EncodedPacket::read(&partial, 0).is_none());
    }
    assert!(EncodedPacket::read(&buf, 0).is_some());
}

#[test]
fn packet_kinds_travel_under_their_opcodes() {
    assert_eq!(HeartbeatPacketData::id(), 0);
    assert_eq!(AllocationRequestPacketData::id(), 1);
    assert_eq!(AllocationResponsePacketData::id(), 2);

    let heartbeat = Packet::Heartbeat(HeartbeatPacketData { unix_ms: 0 });
    assert_eq!(heartbeat.id(), HeartbeatPacketData::id());
    let request = Packet::AllocationRequest(AllocationRequestPacketData);
    assert_eq!(request.id(), AllocationRequestPacketData::id());
    let response = Packet::AllocationResponse(AllocationResponsePacketData { symbol: None });
    assert_eq!(response.id(), AllocationResponsePacketData::id());
}
