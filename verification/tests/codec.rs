use badge_station::codec::{decode_payload, max_encodable_len, payload_text, text_safe};
use base64::Engine;

#[test]
fn text_safe_matches_known_encodings() {
    assert_eq!(text_safe(b""), Some(String::new()));
    assert_eq!(text_safe(b"f"), Some(String::from("Zg==")));
    assert_eq!(text_safe(b"fo"), Some(String::from("Zm8=")));
    assert_eq!(text_safe(b"foo"), Some(String::from("Zm9v")));
    assert_eq!(text_safe(b"hello world~"), Some(String::from("aGVsbG8gd29ybGR+")));
    assert_eq!(text_safe(&[0xff, 0xec, 0x20, 0x55, 0x00]), Some(String::from("/+wgVQA=")));
}

#[test]
fn text_safe_does_not_hand_back_its_input() {
    let text = text_safe(b"abc").unwrap();
    assert_ne!(text.as_bytes(), b"abc");
    assert_eq!(text, "YWJj");
}

#[test]
fn decode_payload_matches_known_decodings() {
    assert_eq!(decode_payload("").ok(), Some(vec![]));
    assert_eq!(decode_payload("Zg==").ok(), Some(vec![b'f']));
    assert_eq!(decode_payload("+uwgVQA=").ok(), Some(vec![0xfa, 0xec, 0x20, 0x55, 0x00]));
}

#[test]
fn encoding_then_decoding_gives_the_payload_back() {
    let mut payload: Vec<u8> = Vec::new();
    for len in 0..70usize {
        let text = text_safe(&payload).unwrap();
        assert_eq!(text.len(), 4 * ((len + 2) / 3));
        assert_eq!(decode_payload(&text).ok(), Some(payload.clone()));
        payload.push((len * 37 % 256) as u8);
    }
    let every_byte: Vec<u8> = (0..=255u8).collect();
    let text = text_safe(&every_byte).unwrap();
    assert_eq!(decode_payload(&text).ok(), Some(every_byte));
}

#[test]
fn decode_payload_rejects_a_symbol_outside_the_alphabet() {
    let refused = decode_payload("not base64!!").err().unwrap();
    assert_eq!(refused.detail, "Invalid symbol 32, offset 3.");
}

#[test]
fn decode_payload_rejects_missing_padding() {
    let refused = decode_payload("Zg").err().unwrap();
    assert_eq!(refused.detail, "Invalid padding");
}

#[test]
fn decode_payload_rejects_a_bad_length() {
    let refused = decode_payload("Zm9vY").err().unwrap();
    assert_eq!(refused.detail, "Invalid input length: 5");
}

#[test]
fn decode_payload_rejects_stray_trailing_bits() {
    let refused = decode_payload("Zh==").err().unwrap();
    assert_eq!(refused.detail, "Invalid last symbol 104, offset 1.");
}

#[test]
fn payload_text_keeps_valid_text() {
    assert_eq!(payload_text(b"BADGE-001"), "BADGE-001");
    assert_eq!(payload_text("Zoë – 42".as_bytes()), "Zoë – 42");
    assert_eq!(payload_text(b""), "");
}

#[test]
fn payload_text_replaces_what_is_not_text() {
    assert_eq!(payload_text(&[b'A', 0xff, b'B']), "A\u{fffd}B");
    assert_eq!(payload_text(&[0xc3]), "\u{fffd}");
    assert_eq!(payload_text(b"Hello \xF0\x90\x80World"), "Hello \u{fffd}World");
}

#[test]
fn max_encodable_len_is_three_quarters_of_an_allocation() {
    let len = max_encodable_len();
    assert_eq!(len, (isize::MAX as usize) / 4 * 3);
    assert!(4 * ((len as u128 + 2) / 3) <= isize::MAX as u128);
    assert!(4 * ((len as u128 + 1 + 2) / 3) > isize::MAX as u128);
}

#[test]
fn decode_payload_refuses_in_the_words_of_the_decoder() {
    for text in ["not base64!!", "Zg", "Zm9vY", "Zh==", "=", "Zm9v=", "Zm 9v", "\u{e9}"] {
        let refusal = base64::engine::general_purpose::STANDARD.decode(text).err().unwrap();
        let refused = decode_payload(text).err().unwrap();
        assert_eq!(refused.detail, refusal.to_string());
        assert!(!refused.detail.is_empty());
    }
}
