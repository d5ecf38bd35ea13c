use station_bridge::frame::{decode_frame, encode_frame, DATA_FRAME, TRAILER_BIT};
use station_bridge::handler::NearbyRequest;
use station_bridge::proto::encode_nearby_request;

#[test]
fn frame_header_is_flag_then_big_endian_length() {
    let framed = encode_frame(DATA_FRAME, &vec![1, 2, 3]);
    assert_eq!(framed, vec![0, 0, 0, 0, 3, 1, 2, 3]);
}

#[test]
fn frame_length_spans_all_four_bytes() {
    let payload = vec![7u8; 300];
    let framed = encode_frame(TRAILER_BIT, &payload);
    assert_eq!(&framed[..5], &[0x80, 0, 0, 1, 44]);
    assert_eq!(&framed[5..], &payload[..]);
}

#[test]
fn decoding_inverts_encoding() {
    let payload = vec![9u8, 8, 7, 6];
    let mut buf = encode_frame(DATA_FRAME, &payload);
    buf.push(0xAA);
    let frame = decode_frame(&buf, 0).expect("a whole frame is decodable");
    assert_eq!(frame.flag, DATA_FRAME);
    assert_eq!(frame.payload, payload);
    assert_eq!(frame.next, 9);
}

#[test]
fn frames_are_walked_in_sequence() {
    let mut buf = encode_frame(DATA_FRAME, &vec![1, 2]);
    let mut trailer = encode_frame(TRAILER_BIT, &vec![3]);
    buf.append(&mut trailer);
    let first = decode_frame(&buf, 0).expect("first frame");
    assert_eq!(first.payload, vec![1, 2]);
    let second = decode_frame(&buf, first.next).expect("second frame");
    assert_eq!(second.flag, TRAILER_BIT);
    assert_eq!(second.payload, vec![3]);
    assert_eq!(second.next, buf.len());
}

#[test]
fn an_empty_payload_is_a_bare_header() {
    let framed = encode_frame(DATA_FRAME, &vec![]);
    assert_eq!(framed, vec![0, 0, 0, 0, 0]);
    let frame = decode_frame(&framed, 0).expect("an empty frame is still a frame");
    assert!(frame.payload.is_empty());
    assert_eq!(frame.next, 5);
}

#[test]
fn short_buffers_are_not_frames() {
    assert!(decode_frame(&vec![0, 0, 0, 0], 0).is_none());
    // Header announces two bytes, only one follows.
    assert!(decode_frame(&vec![0, 0, 0, 0, 2, 1], 0).is_none());
}

#[test]
fn request_wire_form_is_exact() {
    let req = NearbyRequest {
        latitude_bits: 1.0_f64.to_bits(),
        longitude_bits: (-2.5_f64).to_bits(),
        limit: Some(1),
    };
    let bytes = encode_nearby_request(&req);
    let expected = vec![
        0x09, 0, 0, 0, 0, 0, 0, 0xf0, 0x3f, // latitude 1.0, little-endian
        0x11, 0, 0, 0, 0, 0, 0, 0x04, 0xc0, // longitude -2.5, little-endian
        0x18, 0x01, // limit 1
    ];
    assert_eq!(bytes, expected);
}

#[test]
fn limit_varint_uses_continuation_bytes() {
    let req = NearbyRequest { latitude_bits: 0, longitude_bits: 0, limit: Some(300) };
    let bytes = encode_nearby_request(&req);
    assert_eq!(&bytes[18..], &[0x18, 0xAC, 0x02]);
}

#[test]
fn absent_limit_is_not_encoded() {
    let req = NearbyRequest { latitude_bits: 0, longitude_bits: 0, limit: None };
    let bytes = encode_nearby_request(&req);
    assert_eq!(bytes.len(), 18);
    assert!(!bytes[1..].contains(&0x18));
}
