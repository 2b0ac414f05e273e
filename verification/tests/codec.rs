use http2byond::{decode_response, encode_topic, ByondTopicValue, MAX_TOPIC_LEN};

fn reply(length: u16, tag: u8, payload: &[u8]) -> Vec<u8> {
    let mut frame = vec![0x00, 0x83];
    frame.extend_from_slice(&length.to_be_bytes());
    frame.push(tag);
    frame.extend_from_slice(payload);
    frame
}

#[test]
fn encode_status_topic_exact_bytes() {
    let frame = encode_topic(b"?status");
    assert_eq!(
        frame,
        vec![
            0x00, 0x83, 0x00, 0x0D, 0x00, 0x00, 0x00, 0x00, 0x00, b'?', b's', b't', b'a', b't',
            b'u', b's', 0x00,
        ]
    );
}

#[test]
fn encode_empty_topic() {
    let frame = encode_topic(b"");
    assert_eq!(frame, vec![0x00, 0x83, 0x00, 0x06, 0, 0, 0, 0, 0, 0]);
}

#[test]
fn encode_layout_for_several_lengths() {
    for n in [0usize, 1, 7, 249, 250, 255, 256, 1015, 1024, 5000] {
        let topic: Vec<u8> = (0..n).map(|i| (i % 251) as u8 + 1).collect();
        let frame = encode_topic(&topic);
        assert_eq!(frame.len(), n + 10);
        assert_eq!(&frame[0..2], &[0x00, 0x83]);
        assert_eq!(&frame[2..4], &((n + 6) as u16).to_be_bytes());
        assert_eq!(&frame[4..9], &[0u8; 5]);
        assert_eq!(&frame[9..9 + n], &topic[..]);
        assert_eq!(frame[9 + n], 0);
    }
}

#[test]
fn encode_length_field_crosses_a_byte() {
    let topic = vec![b'a'; 250];
    let frame = encode_topic(&topic);
    assert_eq!(&frame[2..4], &[0x01, 0x00]);
}

#[test]
fn encode_longest_topic() {
    let topic = vec![b'x'; MAX_TOPIC_LEN];
    let frame = encode_topic(&topic);
    assert_eq!(frame.len(), 65539);
    assert_eq!(&frame[2..4], &[0xFF, 0xFF]);
    assert_eq!(&frame[9..9 + MAX_TOPIC_LEN], &topic[..]);
    assert_eq!(frame[65538], 0);
}

#[test]
fn encode_keeps_topic_bytes_verbatim() {
    let topic = [0x00u8, 0xFF, b'?', 0x83, 0x00];
    let frame = encode_topic(&topic);
    assert_eq!(&frame[9..14], &topic);
    assert_eq!(frame.len(), 15);
}

#[test]
fn decode_empty_input() {
    assert_eq!(decode_response(&[]), ByondTopicValue::Nothing);
}

#[test]
fn decode_single_byte() {
    assert_eq!(decode_response(&[0x00]), ByondTopicValue::Nothing);
}

#[test]
fn decode_unknown_header() {
    let mut frame = reply(3, 0x06, b"hi");
    frame[1] = 0x84;
    assert_eq!(decode_response(&frame), ByondTopicValue::Nothing);
    let mut frame = reply(6, 0x2A, &1.5f32.to_le_bytes());
    frame[0] = 0x83;
    frame[1] = 0x00;
    assert_eq!(decode_response(&frame), ByondTopicValue::Nothing);
    assert_eq!(decode_response(&[0xFF; 32]), ByondTopicValue::Nothing);
}

#[test]
fn decode_float() {
    let frame = reply(0x0006, 0x2A, &3.14f32.to_le_bytes());
    match decode_response(&frame) {
        ByondTopicValue::Number(bits) => {
            assert_eq!(bits, 0x4048_F5C3);
            assert_eq!(f32::from_bits(bits), 3.14f32);
        }
        other => panic!("not a number: {:?}", other),
    }
}

#[test]
fn decode_float_forty_two() {
    let frame = reply(0x0005, 0x2A, &42.0f32.to_le_bytes());
    assert_eq!(
        decode_response(&frame),
        ByondTopicValue::Number(42.0f32.to_bits())
    );
}

#[test]
fn decode_float_is_little_endian() {
    let frame = reply(0x0005, 0x2A, &[0x01, 0x02, 0x03, 0x04]);
    assert_eq!(decode_response(&frame), ByondTopicValue::Number(0x0403_0201));
}

#[test]
fn decode_float_ignores_declared_length_and_rest() {
    let mut frame = reply(0x0000, 0x2A, &[0x00, 0x00, 0x80, 0x3F]);
    frame.extend_from_slice(&[9, 9, 9]);
    assert_eq!(decode_response(&frame), ByondTopicValue::Number(0x3F80_0000));
}

#[test]
fn decode_float_cut_short() {
    let frame = reply(0x0005, 0x2A, &[0x00, 0x00, 0x80]);
    assert_eq!(decode_response(&frame), ByondTopicValue::Nothing);
}

#[test]
fn decode_text() {
    let frame = reply(3, 0x06, b"hi");
    assert_eq!(
        decode_response(&frame),
        ByondTopicValue::String(String::from("hi"))
    );
}

#[test]
fn decode_text_stops_at_declared_size() {
    let frame = reply(3, 0x06, b"hiho");
    assert_eq!(
        decode_response(&frame),
        ByondTopicValue::String(String::from("hi"))
    );
}

#[test]
fn decode_text_of_size_zero() {
    let frame = reply(1, 0x06, b"");
    assert_eq!(
        decode_response(&frame),
        ByondTopicValue::String(String::new())
    );
}

#[test]
fn decode_text_with_length_zero() {
    let frame = reply(0, 0x06, b"hi");
    assert_eq!(decode_response(&frame), ByondTopicValue::Nothing);
}

#[test]
fn decode_text_cut_short() {
    let frame = reply(4, 0x06, b"hi");
    assert_eq!(decode_response(&frame), ByondTopicValue::Nothing);
}

#[test]
fn decode_text_one_character_per_byte() {
    let frame = reply(4, 0x06, &[0xE9, 0x00, 0x7F]);
    assert_eq!(
        decode_response(&frame),
        ByondTopicValue::String(String::from("\u{E9}\u{0}\u{7F}"))
    );
}

#[test]
fn decode_long_text() {
    let payload: Vec<u8> = (0..1019).map(|i| b'a' + (i % 26) as u8).collect();
    let frame = reply(1020, 0x06, &payload);
    assert_eq!(frame.len(), 1024);
    let expected: String = payload.iter().map(|b| char::from(*b)).collect();
    assert_eq!(decode_response(&frame), ByondTopicValue::String(expected));
}

#[test]
fn decode_unknown_tag() {
    assert_eq!(decode_response(&reply(3, 0xFF, b"hi")), ByondTopicValue::Nothing);
    assert_eq!(
        decode_response(&reply(6, 0x00, &3.14f32.to_le_bytes())),
        ByondTopicValue::Nothing
    );
}

#[test]
fn decode_header_without_tag() {
    assert_eq!(decode_response(&[0x00, 0x83]), ByondTopicValue::Nothing);
    assert_eq!(decode_response(&[0x00, 0x83, 0x00, 0x03]), ByondTopicValue::Nothing);
}

#[test]
fn decode_of_own_frame_is_nothing() {
    let frame = encode_topic(b"?status");
    assert_eq!(decode_response(&frame), ByondTopicValue::Nothing);
}
