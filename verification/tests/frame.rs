use feobank::frame::{decode_frame, decode_message, encode_frame, encode_message, payload_len, HEADER_LEN};

#[test]
fn frame_is_length_then_payload() {
    assert_eq!(encode_frame(b"abc"), vec![3, 0, 0, 0, 0, 0, 0, 0, b'a', b'b', b'c']);
    assert_eq!(encode_frame(b""), vec![0u8; 8]);
}

#[test]
fn frame_length_is_little_endian() {
    let payload = vec![7u8; 300];
    let frame = encode_frame(&payload);
    assert_eq!(&frame[..HEADER_LEN], &[44, 1, 0, 0, 0, 0, 0, 0]);
    assert_eq!(frame.len(), 308);
    assert_eq!(payload_len(&frame[..HEADER_LEN]), 300);
}

#[test]
fn message_is_framed_as_utf8() {
    assert_eq!(encode_message("hi"), vec![2, 0, 0, 0, 0, 0, 0, 0, b'h', b'i']);
    let frame = encode_message("olá");
    assert_eq!(payload_len(&frame[..8]), 4);
    assert_eq!(&frame[8..], "olá".as_bytes());
}

#[test]
fn payload_len_reads_header() {
    assert_eq!(payload_len(&[1, 2, 0, 0, 0, 0, 0, 0]), 513);
    assert_eq!(payload_len(&[0, 0, 0, 0, 0, 0, 0, 1]), 1u64 << 56);
}

#[test]
fn decode_frame_takes_payload() {
    assert_eq!(decode_frame(&[2, 0, 0, 0, 0, 0, 0, 0, 9, 8]), Some(vec![9, 8]));
    assert_eq!(decode_frame(&[0, 0, 0, 0, 0, 0, 0, 0]), Some(vec![]));
}

#[test]
fn decode_frame_refuses_short_or_mismatched_frames() {
    assert_eq!(decode_frame(&[2, 0, 0]), None);
    assert_eq!(decode_frame(&[]), None);
    assert_eq!(decode_frame(&[3, 0, 0, 0, 0, 0, 0, 0, 9, 8]), None);
    assert_eq!(decode_frame(&[1, 0, 0, 0, 0, 0, 0, 0, 9, 8]), None);
}

#[test]
fn message_round_trip_on_examples() {
    for text in ["", "hello", "olá, mundo", "{\"Ok\":null}", "黑风雷 👨‍👩‍👧"] {
        assert_eq!(decode_message(&encode_message(text)), Some(text.to_string()));
    }
}

#[test]
fn frame_round_trip_on_examples() {
    let payload: Vec<u8> = (0..=255u8).collect();
    assert_eq!(decode_frame(&encode_frame(&payload)), Some(payload));
}

#[test]
fn decode_message_replaces_invalid_utf8() {
    let frame = encode_frame(&[b'a', 0xff, b'b']);
    assert_eq!(decode_message(&frame), Some("a\u{FFFD}b".to_string()));
}

#[test]
fn frames_follow_each_other_on_a_stream() {
    let mut stream = encode_message("first");
    stream.extend(encode_message("second"));
    let len = payload_len(&stream[..8]) as usize;
    assert_eq!(len, 5);
    assert_eq!(&stream[8..8 + len], b"first");
    let rest = &stream[8 + len..];
    assert_eq!(decode_message(rest), Some("second".to_string()));
}

#[test]
fn lone_invalid_byte_becomes_replacement_character() {
    assert_eq!(decode_message(&encode_frame(&[0xff])), Some("\u{FFFD}".to_string()));
}
