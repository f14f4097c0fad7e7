use haven::protocol::{decode, encode_pixel_data, encode_poll_reply, ArtMessage, DecodeError};

fn dmx_packet(port: u16, sequence: u8, data: &[u8]) -> Vec<u8> {
    let mut v = b"Art-Net\0".to_vec();
    v.extend_from_slice(&[0x00, 0x50]); // opcode, little-endian
    v.extend_from_slice(&[0x00, 14]); // protocol revision, big-endian
    v.push(sequence);
    v.push(0x00); // physical
    v.push((port % 256) as u8);
    v.push((port / 256) as u8);
    v.push((data.len() / 256) as u8);
    v.push((data.len() % 256) as u8);
    v.extend_from_slice(data);
    v
}

fn poll_packet() -> Vec<u8> {
    let mut v = b"Art-Net\0".to_vec();
    v.extend_from_slice(&[0x00, 0x20]);
    v.extend_from_slice(&[0x00, 14]);
    v.extend_from_slice(&[0x00, 0x00]); // flags, priority
    v
}

#[test]
fn decode_empty_input_is_error() {
    assert_eq!(decode(&[]), Err(DecodeError::NotArtNet));
}

#[test]
fn decode_wrong_identifier_is_error() {
    assert_eq!(decode(b"Art-Nat\0\x00\x50\x00\x0e"), Err(DecodeError::NotArtNet));
    assert_eq!(decode(b"Art-Net"), Err(DecodeError::NotArtNet));
}

#[test]
fn decode_truncated_header_is_error() {
    assert_eq!(decode(b"Art-Net\0\x00\x50"), Err(DecodeError::Truncated));
    assert_eq!(decode(b"Art-Net\0\x00\x50\x00"), Err(DecodeError::Truncated));
}

#[test]
fn decode_future_protocol_revision_is_error() {
    let mut v = poll_packet();
    v[11] = 15;
    assert_eq!(decode(&v), Err(DecodeError::UnsupportedProtocolVersion));
    v[10] = 1;
    v[11] = 0;
    assert_eq!(decode(&v), Err(DecodeError::UnsupportedProtocolVersion));
}

#[test]
fn decode_unknown_opcode_is_error() {
    let mut v = poll_packet();
    v[9] = 0x21; // a discovery reply: sent, never received
    assert_eq!(decode(&v), Err(DecodeError::UnsupportedOpCode));
    v[8] = 0x34;
    v[9] = 0x12;
    assert_eq!(decode(&v), Err(DecodeError::UnsupportedOpCode));
}

#[test]
fn decode_pixel_data_round_trips() {
    let packet = dmx_packet(31, 7, &[1, 2, 3, 4, 5, 6]);
    match decode(&packet) {
        Ok(ArtMessage::PixelData { sequence, physical, port_address, data }) => {
            assert_eq!(sequence, 7);
            assert_eq!(physical, 0);
            assert_eq!(port_address, 31);
            assert_eq!(data, vec![1, 2, 3, 4, 5, 6]);
        }
        other => panic!("expected pixel data, got {:?}", other),
    }
}

#[test]
fn decode_pixel_data_port_address_layout() {
    // Net 0x12 in the high byte (top bit discarded), sub-net 0x3 and
    // universe 0x4 in the nibbles of the low byte.
    let mut packet = dmx_packet(0, 0, &[9, 9, 9]);
    packet[14] = 0x34;
    packet[15] = 0x92; // top bit set: must be ignored
    match decode(&packet) {
        Ok(ArtMessage::PixelData { port_address, .. }) => {
            assert_eq!(port_address, (0x12 << 8) | 0x34);
        }
        other => panic!("expected pixel data, got {:?}", other),
    }
}

#[test]
fn decode_pixel_data_truncated_payload_is_error() {
    let mut packet = dmx_packet(5, 1, &[1, 2, 3]);
    packet[17] = 4; // declares one byte more than is present
    assert_eq!(decode(&packet), Err(DecodeError::Truncated));
    let headers_only = &packet[..17];
    assert_eq!(decode(headers_only), Err(DecodeError::Truncated));
}

#[test]
fn decode_pixel_data_ignores_trailing_bytes() {
    let mut packet = dmx_packet(5, 1, &[1, 2, 3]);
    packet.push(0xAA);
    match decode(&packet) {
        Ok(ArtMessage::PixelData { data, .. }) => assert_eq!(data, vec![1, 2, 3]),
        other => panic!("expected pixel data, got {:?}", other),
    }
}

#[test]
fn decode_poll() {
    match decode(&poll_packet()) {
        Ok(ArtMessage::DiscoveryPoll { flags, min_priority }) => {
            assert_eq!(flags, 0);
            assert_eq!(min_priority, 0);
        }
        other => panic!("expected poll, got {:?}", other),
    }
}

#[test]
fn decode_poll_with_partial_target_range_is_error() {
    // A poll may carry a four-byte target range or nothing; one to three
    // extra bytes cannot be parsed.
    for extra in 1..=3usize {
        let mut v = poll_packet();
        v.extend(std::iter::repeat(0u8).take(extra));
        assert_eq!(decode(&v), Err(DecodeError::Truncated));
    }
    let mut v = poll_packet();
    v.extend_from_slice(&[0, 0, 0x7f, 0xff]);
    assert!(matches!(decode(&v), Ok(ArtMessage::DiscoveryPoll { .. })));
}

#[test]
fn decode_sync() {
    let mut v = b"Art-Net\0".to_vec();
    v.extend_from_slice(&[0x00, 0x52, 0x00, 14, 0x00, 0x00]);
    assert_eq!(decode(&v), Ok(ArtMessage::Sync));
    assert_eq!(decode(&v[..13]), Err(DecodeError::Truncated));
}

#[test]
fn decode_vendor_command() {
    let mut v = b"Art-Net\0".to_vec();
    v.extend_from_slice(&[0x00, 0x24, 0x00, 14]);
    v.extend_from_slice(&[b'L', b'U']); // manufacturer code, low then high
    v.extend_from_slice(&[0x03, 0x00]); // length, little-endian
    v.extend_from_slice(b"abc");
    match decode(&v) {
        Ok(ArtMessage::VendorCommand { esta_lo, esta_hi, data }) => {
            assert_eq!(esta_lo, b'L');
            assert_eq!(esta_hi, b'U');
            assert_eq!(data, b"abc".to_vec());
        }
        other => panic!("expected vendor command, got {:?}", other),
    }
    v.truncate(17); // one payload byte missing
    assert_eq!(decode(&v), Err(DecodeError::Truncated));
}

#[test]
fn encode_pixel_data_layout() {
    let bytes = encode_pixel_data(261, 9, &[10, 20, 30, 40]);
    let mut expected = b"Art-Net\0".to_vec();
    expected.extend_from_slice(&[0x00, 0x50, 0x00, 14, 9, 0x00]);
    expected.extend_from_slice(&[0x05, 0x01]); // 261 little-endian
    expected.extend_from_slice(&[0x00, 0x04]); // length big-endian
    expected.extend_from_slice(&[10, 20, 30, 40]);
    assert_eq!(bytes, expected);
}

#[test]
fn encode_pixel_data_pads_odd_payload() {
    let bytes = encode_pixel_data(0, 0, &[1, 2, 3]);
    assert_eq!(bytes.len(), 18 + 4);
    assert_eq!(bytes[17], 4); // declared length is the padded one
    assert_eq!(&bytes[18..], &[1, 2, 3, 0]);
}

#[test]
fn encoded_pixel_data_decodes_back() {
    let bytes = encode_pixel_data(37, 250, &[7, 8, 9, 10, 11, 12]);
    match decode(&bytes) {
        Ok(ArtMessage::PixelData { sequence, port_address, data, .. }) => {
            assert_eq!(sequence, 250);
            assert_eq!(port_address, 37);
            assert_eq!(data, vec![7, 8, 9, 10, 11, 12]);
        }
        other => panic!("expected pixel data, got {:?}", other),
    }
}

#[test]
fn poll_reply_layout() {
    let reply = encode_poll_reply(&[169, 254, 3, 10], &[0, 0, 0, 0, 0, 10]);
    assert_eq!(reply.len(), 239);
    assert_eq!(&reply[..8], b"Art-Net\0");
    assert_eq!(&reply[8..10], &[0x00, 0x21]); // reply opcode, little-endian
    assert_eq!(&reply[10..14], &[169, 254, 3, 10]); // node IP
    assert_eq!(&reply[14..16], &[0x36, 0x19]); // port 6454, little-endian
    assert_eq!(reply[23], 0xC0); // indicators in normal mode
    assert_eq!(&reply[201..207], &[0, 0, 0, 0, 0, 10]); // hardware address
    for (i, b) in reply.iter().enumerate() {
        let named = (8..16).contains(&i) || i == 23 || (201..207).contains(&i);
        if i >= 8 && !named {
            assert_eq!(*b, 0, "byte {} should be zero", i);
        }
    }
}

#[test]
fn poll_reply_is_not_decoded_by_the_node() {
    // The node sends discovery replies but never consumes them. A reply has
    // no protocol-version field, so the decoder reads the IP bytes there and
    // rejects the packet before it even reaches the operation code.
    let reply = encode_poll_reply(&[10, 0, 0, 1], &[1, 2, 3, 4, 5, 6]);
    assert!(decode(&reply).is_err());
    let reply = encode_poll_reply(&[0, 0, 0, 1], &[1, 2, 3, 4, 5, 6]);
    assert_eq!(decode(&reply), Err(DecodeError::UnsupportedOpCode));
}
