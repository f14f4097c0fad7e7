use haven::frame::Pixel;
use haven::node::{Action, ArtnetNode, Endpoint, NodeIdentity, sequence_skipped};
use haven::protocol::{decode, encode_pixel_data};
use haven::router::{route, PIXELS_PER_UNIVERSE};

fn test_node() -> ArtnetNode {
    // Four strips of ten universes each, so every offset a port address can
    // produce lands inside the buffer.
    ArtnetNode::new(
        NodeIdentity { ip: [169, 254, 3, 10], mac: [0, 0, 0, 0, 0, 10] },
        4,
        10 * PIXELS_PER_UNIVERSE,
    )
}

fn source() -> Endpoint {
    Endpoint { ip: [192, 0, 2, 9], port: 6454 }
}

#[test]
fn route_formula() {
    assert_eq!(route(0), (0, 0));
    assert_eq!(route(5), (0, 5 * PIXELS_PER_UNIVERSE));
    assert_eq!(route(10), (1, 0));
    assert_eq!(route(31), (3, PIXELS_PER_UNIVERSE));
    assert_eq!(route(9990), (999, 0));
    assert_eq!(PIXELS_PER_UNIVERSE, 170);
}

#[test]
fn pixel_data_lands_at_routed_offset() {
    // Port address 5: channel 0, pixel offset 5 * 170 = 850.
    let mut node = test_node();
    let packet = encode_pixel_data(5, 1, &[10, 20, 30]);
    let actions = node.handle_datagram(&packet, source());
    assert_eq!(actions.len(), 0); // offset is not zero: no flush
    assert_eq!(node.buffers.pixel(0, 850), Pixel { r: 10, g: 20, b: 30 });
    assert_eq!(node.buffers.pixel(0, 849), Pixel { r: 0, g: 0, b: 0 });
    assert_eq!(node.buffers.pixel(0, 851), Pixel { r: 0, g: 0, b: 0 });
}

#[test]
fn pixel_data_at_offset_zero_flushes() {
    let mut node = test_node();
    let packet = encode_pixel_data(20, 1, &[1, 2, 3, 4, 5, 6]);
    let actions = node.handle_datagram(&packet, source());
    assert_eq!(actions.len(), 1);
    assert!(matches!(actions[0], Action::Flush { channel: 2 }));
    assert_eq!(node.buffers.pixel(2, 0), Pixel { r: 1, g: 2, b: 3 });
    assert_eq!(node.buffers.pixel(2, 1), Pixel { r: 4, g: 5, b: 6 });
}

#[test]
fn pixel_data_past_buffer_end_is_clipped() {
    // A one-universe buffer: port address 5 maps to offset 850, past its
    // 170-pixel capacity, so nothing may be written and nothing may crash.
    let mut node = ArtnetNode::new(
        NodeIdentity { ip: [169, 254, 3, 10], mac: [0; 6] },
        4,
        PIXELS_PER_UNIVERSE,
    );
    let packet = encode_pixel_data(5, 1, &[10, 20, 30]);
    let actions = node.handle_datagram(&packet, source());
    assert_eq!(actions.len(), 0);
    for i in 0..PIXELS_PER_UNIVERSE {
        assert_eq!(node.buffers.pixel(0, i), Pixel { r: 0, g: 0, b: 0 });
    }
    // A payload that starts inside but runs over the end is cut at the end.
    let long = vec![9u8; 3 * 4];
    let packet = encode_pixel_data(0, 1, &long);
    let mut node2 = ArtnetNode::new(
        NodeIdentity { ip: [169, 254, 3, 10], mac: [0; 6] },
        1,
        2,
    );
    let actions = node2.handle_datagram(&packet, source());
    assert_eq!(actions.len(), 1); // offset zero still flushes
    assert_eq!(node2.buffers.pixel(0, 0), Pixel { r: 9, g: 9, b: 9 });
    assert_eq!(node2.buffers.pixel(0, 1), Pixel { r: 9, g: 9, b: 9 });
}

#[test]
fn offset_zero_flush_is_a_heuristic_not_frame_sync() {
    // Known limitation, kept on purpose: the strip is flushed when a
    // message for offset zero arrives, not on the protocol's sync message.
    // If the universes of one logical frame arrive out of the expected
    // order, the flush fires before the rest of the frame has landed and
    // the strip can show a mix of two frames.
    let mut node = test_node();
    let tail = encode_pixel_data(1, 1, &[7, 7, 7]); // offset 170: no flush
    assert_eq!(node.handle_datagram(&tail, source()).len(), 0);
    let head = encode_pixel_data(0, 1, &[9, 9, 9]); // offset 0: flush now
    let actions = node.handle_datagram(&head, source());
    assert!(matches!(actions[..], [Action::Flush { channel: 0 }]));
    // The flush happens with this frame's head but the previous message's
    // tail still in the buffer.
    assert_eq!(node.buffers.pixel(0, 0), Pixel { r: 9, g: 9, b: 9 });
    assert_eq!(node.buffers.pixel(0, 170), Pixel { r: 7, g: 7, b: 7 });
    // The explicit sync message is decoded but triggers no flush.
    let mut sync = b"Art-Net\0".to_vec();
    sync.extend_from_slice(&[0x00, 0x52, 0x00, 14, 0x00, 0x00]);
    assert_eq!(node.handle_datagram(&sync, source()).len(), 0);
}

#[test]
fn pixel_data_for_a_foreign_channel_is_dropped() {
    // Port address 9990 maps to channel 999, far beyond the four channels
    // this node owns: no mutation, no action, no crash.
    let mut node = test_node();
    let packet = encode_pixel_data(9990, 1, &[10, 20, 30]);
    let actions = node.handle_datagram(&packet, source());
    assert_eq!(actions.len(), 0);
    for c in 0..4 {
        for i in 0..10 * PIXELS_PER_UNIVERSE {
            assert_eq!(node.buffers.pixel(c, i), Pixel { r: 0, g: 0, b: 0 });
        }
    }
}

#[test]
fn same_pixel_data_twice_is_idempotent() {
    let mut once = test_node();
    let mut twice = test_node();
    let packet = encode_pixel_data(12, 3, &[5, 6, 7, 8, 9, 10]);
    once.handle_datagram(&packet, source());
    twice.handle_datagram(&packet, source());
    twice.handle_datagram(&packet, source());
    for c in 0..4 {
        assert_eq!(once.buffers.packed_channel(c), twice.buffers.packed_channel(c));
    }
}

#[test]
fn poll_gets_exactly_one_reply_to_the_source() {
    let mut node = test_node();
    let mut poll = b"Art-Net\0".to_vec();
    poll.extend_from_slice(&[0x00, 0x20, 0x00, 14, 0x00, 0x00]);
    let actions = node.handle_datagram(&poll, source());
    assert_eq!(actions.len(), 1);
    match &actions[0] {
        Action::SendReply { dest, bytes } => {
            assert_eq!(*dest, source());
            assert_eq!(&bytes[..8], b"Art-Net\0");
            assert_eq!(&bytes[8..10], &[0x00, 0x21]);
            assert_eq!(&bytes[10..14], &[169, 254, 3, 10]);
            assert_eq!(&bytes[201..207], &[0, 0, 0, 0, 0, 10]);
        }
        other => panic!("expected a reply, got {:?}", other),
    }
    // The buffers stay untouched.
    assert_eq!(node.buffers.pixel(0, 0), Pixel { r: 0, g: 0, b: 0 });
}

#[test]
fn malformed_datagrams_change_nothing() {
    let mut node = test_node();
    let inputs: Vec<Vec<u8>> = vec![
        vec![],
        vec![0xFF; 40],
        b"Art-Net\0\x00\x50".to_vec(),
        b"Art-Net\0\x00\x99\x00\x0e\x00\x00".to_vec(),
    ];
    for input in inputs {
        assert!(decode(&input).is_err());
        let actions = node.handle_datagram(&input, source());
        assert_eq!(actions.len(), 0);
    }
    assert_eq!(node.buffers.pixel(0, 0), Pixel { r: 0, g: 0, b: 0 });
}

#[test]
fn sync_and_vendor_commands_are_ignored() {
    let mut node = test_node();
    let mut sync = b"Art-Net\0".to_vec();
    sync.extend_from_slice(&[0x00, 0x52, 0x00, 14, 0x00, 0x00]);
    assert_eq!(node.handle_datagram(&sync, source()).len(), 0);
    let mut cmd = b"Art-Net\0".to_vec();
    cmd.extend_from_slice(&[0x00, 0x24, 0x00, 14, 0, 0, 0x00, 0x00]);
    assert_eq!(node.handle_datagram(&cmd, source()).len(), 0);
}

#[test]
fn pixel_data_updates_last_sequence() {
    let mut node = test_node();
    let packet = encode_pixel_data(31, 77, &[1, 2, 3]);
    node.handle_datagram(&packet, source());
    assert_eq!(node.last_sequence, 77);
}

#[test]
fn sequence_skip_detection() {
    assert!(!sequence_skipped(4, 5));
    assert!(!sequence_skipped(255, 0));
    assert!(sequence_skipped(4, 6));
    assert!(sequence_skipped(4, 4));
    assert!(sequence_skipped(255, 1));
}

#[test]
fn packed_channel_layout() {
    let mut node = ArtnetNode::new(
        NodeIdentity { ip: [169, 254, 3, 10], mac: [0; 6] },
        1,
        2,
    );
    let packet = encode_pixel_data(0, 1, &[0x11, 0x22, 0x33, 0x44, 0x55, 0x66]);
    node.handle_datagram(&packet, source());
    let packed = node.buffers.packed_channel(0);
    assert_eq!(packed, vec![0x11223300u32, 0x44556600u32]);
}
