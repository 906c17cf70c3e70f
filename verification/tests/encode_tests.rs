use imgup::encode::{base64_decode, base64_round_trip, file_base64};

#[test]
fn encodes_standard_base64_with_padding() {
    assert_eq!(file_base64(&b"hello".to_vec()), "aGVsbG8=");
    assert_eq!(file_base64(&b"hi".to_vec()), "aGk=");
    assert_eq!(file_base64(&b"abc".to_vec()), "YWJj");
}

#[test]
fn encodes_empty_payload_to_empty_string() {
    assert_eq!(file_base64(&Vec::new()), "");
}

#[test]
fn decodes_what_was_encoded() {
    assert_eq!(base64_decode("aGVsbG8="), Some(b"hello".to_vec()));
}

#[test]
fn rejects_text_that_is_not_base64() {
    assert_eq!(base64_decode("!!!"), None);
}

#[test]
fn round_trip_returns_the_original_bytes() {
    let all: Vec<u8> = (0u8..=255).collect();
    assert_eq!(base64_round_trip(&all), Some(all.clone()));
    assert_eq!(base64_round_trip(&Vec::new()), Some(Vec::new()));
    let payload = b"\x89PNG\r\n\x1a\n not really a png".to_vec();
    assert_eq!(base64_round_trip(&payload), Some(payload.clone()));
}
