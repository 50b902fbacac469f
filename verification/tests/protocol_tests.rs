use audio_recorder::MSG_TYPE_AUDIO;
use audio_recorder::MSG_TYPE_JSON;
use audio_recorder::control::device_list_frame;
use audio_recorder::control::device_list_payload;
use audio_recorder::pcm::audio_frame;
use audio_recorder::pcm::pcm_bytes;
use audio_recorder::write_framed_message;

#[test]
fn frame_layout_exact() {
    let frame = write_framed_message(MSG_TYPE_AUDIO, &vec![7u8, 8, 9]);
    assert_eq!(frame, vec![2u8, 3, 0, 0, 0, 7, 8, 9]);
}

#[test]
fn frame_empty_payload() {
    let frame = write_framed_message(MSG_TYPE_JSON, &Vec::new());
    assert_eq!(frame, vec![1u8, 0, 0, 0, 0]);
}

#[test]
fn frame_length_little_endian() {
    let payload = vec![0u8; 0x0102];
    let frame = write_framed_message(MSG_TYPE_AUDIO, &payload);
    assert_eq!(&frame[0..5], &[2u8, 0x02, 0x01, 0, 0]);
    assert_eq!(frame.len(), 5 + 0x0102);
}

#[test]
fn pcm_little_endian_pairs() {
    let bytes = pcm_bytes(&vec![0i16, 1, -1, 256, -32768, 32767]);
    assert_eq!(
        bytes,
        vec![
            0x00u8, 0x00, // 0
            0x01, 0x00, // 1
            0xff, 0xff, // -1
            0x00, 0x01, // 256
            0x00, 0x80, // -32768
            0xff, 0x7f, // 32767
        ]
    );
}

#[test]
fn pcm_payload_is_twice_sample_count() {
    let samples: Vec<i16> = (0..481).map(|i| i as i16).collect();
    let bytes = pcm_bytes(&samples);
    assert_eq!(bytes.len(), 2 * samples.len());
}

#[test]
fn audio_frame_exact() {
    let frame = audio_frame(&vec![1i16, -2]);
    assert_eq!(frame, vec![2u8, 4, 0, 0, 0, 0x01, 0x00, 0xfe, 0xff]);
}

#[test]
fn device_list_two_names() {
    let payload = device_list_payload(&vec!["Mic A".to_string(), "Mic B".to_string()]);
    assert_eq!(
        String::from_utf8(payload).unwrap(),
        r#"{"type":"device-list","devices":["Mic A","Mic B"]}"#
    );
}

#[test]
fn device_list_empty() {
    let payload = device_list_payload(&Vec::new());
    assert_eq!(
        String::from_utf8(payload).unwrap(),
        r#"{"type":"device-list","devices":[]}"#
    );
}

#[test]
fn device_list_escapes() {
    let payload = device_list_payload(&vec!["a\"b\\c\nd\u{1b}e".to_string()]);
    assert_eq!(
        String::from_utf8(payload).unwrap(),
        "{\"type\":\"device-list\",\"devices\":[\"a\\\"b\\\\c\\nd\\u001be\"]}"
    );
}

#[test]
fn device_list_non_ascii_name() {
    // A name with a two-byte character must come out UTF-8 encoded, not as
    // raw character values.
    let payload = device_list_payload(&vec!["Mikrofon \u{00e4}".to_string()]);
    assert_eq!(
        String::from_utf8(payload).unwrap(),
        "{\"type\":\"device-list\",\"devices\":[\"Mikrofon \u{00e4}\"]}"
    );
}

#[test]
fn device_list_frame_is_tagged_json() {
    let frame = device_list_frame(&vec!["Mic A".to_string()]).unwrap();
    assert_eq!(frame[0], MSG_TYPE_JSON);
    let body = r#"{"type":"device-list","devices":["Mic A"]}"#;
    assert_eq!(&frame[1..5], (body.len() as u32).to_le_bytes());
    assert_eq!(&frame[5..], body.as_bytes());
}
