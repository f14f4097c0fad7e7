use haven::frame::Pixel;
use haven::model::create_elders;
use haven::output::{encode_output_frame, encode_output_frames, gamma};
use haven::protocol::{decode, ArtMessage};

#[test]
fn gamma_endpoints_and_growth() {
    assert_eq!(gamma(0), 0);
    assert_eq!(gamma(28), 1);
    assert_eq!(gamma(128), 37);
    assert_eq!(gamma(255), 255);
    for x in 0..255u8 {
        assert!(gamma(x) <= gamma(x + 1), "gamma must not decrease at {}", x);
    }
}

#[test]
fn output_frame_is_a_valid_pixel_data_packet() {
    let light = Pixel { r: 200, g: 100, b: 50 };
    let frame = encode_output_frame(&light, 170);
    match decode(&frame) {
        Ok(ArtMessage::PixelData { port_address, sequence, data, .. }) => {
            assert_eq!(port_address, 0);
            assert_eq!(sequence, 0);
            assert_eq!(data.len(), 510);
            for triple in data.chunks(3) {
                assert_eq!(triple, &[gamma(200), gamma(100), gamma(50)]);
            }
        }
        other => panic!("expected pixel data, got {:?}", other),
    }
}

#[test]
fn output_frames_address_each_elder() {
    let mut elders = create_elders();
    elders[3].crane_light = Pixel { r: 255, g: 0, b: 0 };
    let frames = encode_output_frames(&elders, 170);
    assert_eq!(frames.len(), 9);
    for (i, (dest, bytes)) in frames.iter().enumerate() {
        assert_eq!(dest.ip, [169, 254, 5, 51 + i as u8]);
        assert_eq!(dest.port, 6454);
        assert_eq!(bytes.len(), 18 + 510);
        let first_pixel = &bytes[18..21];
        if i == 3 {
            assert_eq!(first_pixel, &[gamma(255), gamma(0), gamma(0)]);
        } else {
            assert_eq!(first_pixel, &[0, 0, 0]);
        }
    }
}
