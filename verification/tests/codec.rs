use torresmo::packet::{decode, DecodeError, UtpPacket, UtpPacketHeader, UtpPacketType};

fn sample_header() -> UtpPacketHeader {
    UtpPacketHeader {
        type_ver: 0x41,
        extension: 0,
        connection_id: 0xABCD,
        timestamp_microseconds: 0x01020304,
        timestamp_difference_microseconds: 0xA0B0C0D0,
        wnd_size: 0x00FF_1000,
        seq_nr: 0x1234,
        ack_nr: 0xFFFE,
    }
}

#[test]
fn test_codec_roundtrip() {
    let packet = UtpPacket {
        header: sample_header(),
        payload: vec![0, 1, 2, 255, 42],
    };
    let bytes = packet.bytes();
    assert_eq!(bytes.len(), 25);
    let decoded = decode(&bytes).unwrap();
    assert_eq!(decoded.header, packet.header);
    assert_eq!(decoded.payload, packet.payload);
}

#[test]
fn test_codec_roundtrip_empty_payload() {
    let packet = UtpPacket {
        header: sample_header(),
        payload: vec![],
    };
    let bytes = packet.bytes();
    assert_eq!(bytes.len(), 20);
    let decoded = decode(&bytes).unwrap();
    assert_eq!(decoded.header, packet.header);
    assert!(decoded.payload.is_empty());
}

#[test]
fn test_decode_rejects_short_input() {
    for len in 0..20usize {
        let buf = vec![0u8; len];
        assert_eq!(decode(&buf).unwrap_err(), DecodeError::MalformedPacket);
    }
    let buf = vec![0u8; 20];
    assert!(decode(&buf).is_ok());
}

#[test]
fn test_encode_exact_bytes() {
    let packet = UtpPacket {
        header: sample_header(),
        payload: vec![7, 8],
    };
    let expected: Vec<u8> = vec![
        0x41, 0x00, // type/version, extension
        0xAB, 0xCD, // connection_id
        0x01, 0x02, 0x03, 0x04, // timestamp_microseconds
        0xA0, 0xB0, 0xC0, 0xD0, // timestamp_difference_microseconds
        0x00, 0xFF, 0x10, 0x00, // wnd_size
        0x12, 0x34, // seq_nr
        0xFF, 0xFE, // ack_nr
        0x07, 0x08, // payload
    ];
    assert_eq!(packet.bytes(), expected);
}

#[test]
fn test_new_packet_is_empty_data_version_1() {
    let packet = UtpPacket::new();
    assert_eq!(packet.header.type_ver, 0x01);
    assert_eq!(packet.header.extension, 0);
    assert_eq!(packet.header.connection_id, 0);
    assert_eq!(packet.header.timestamp_microseconds, 0);
    assert_eq!(packet.header.timestamp_difference_microseconds, 0);
    assert_eq!(packet.header.wnd_size, 0);
    assert_eq!(packet.header.seq_nr, 0);
    assert_eq!(packet.header.ack_nr, 0);
    assert!(packet.payload.is_empty());
    assert_eq!(packet.len(), 20);
}

#[test]
fn test_set_type_keeps_version() {
    let mut packet = UtpPacket::new();
    packet.set_type(UtpPacketType::Syn);
    assert_eq!(packet.header.type_ver, 0x41);
    packet.set_type(UtpPacketType::State);
    assert_eq!(packet.header.type_ver, 0x21);
    packet.set_type(UtpPacketType::Fin);
    assert_eq!(packet.header.type_ver, 0x11);
    packet.set_type(UtpPacketType::Reset);
    assert_eq!(packet.header.type_ver, 0x31);
    packet.set_type(UtpPacketType::Data);
    assert_eq!(packet.header.type_ver, 0x01);
}

#[test]
fn test_header_len() {
    let header = sample_header();
    assert_eq!(header.len(), 20);
    assert_eq!(header.bytes().len(), 20);
    let packet = UtpPacket {
        header,
        payload: vec![0; 7],
    };
    assert_eq!(packet.len(), 27);
}

#[test]
fn test_decode_then_encode_restores_buffer() {
    let mut buf: Vec<u8> = (0u8..27).map(|i| i.wrapping_mul(37).wrapping_add(11)).collect();
    buf[0] = 0x21; // STATE, version 1
    let packet = decode(&buf).unwrap();
    assert_eq!(packet.bytes(), buf);
}
