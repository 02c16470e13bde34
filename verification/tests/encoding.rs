use attestation_agent::encoding::{decode, encode, same_text};
use attestation_agent::entries::lookup;

#[test]
fn base64_text_is_standard_and_padded() {
    assert_eq!(encode(b""), Some(String::new()));
    assert_eq!(encode(b"hello world"), Some("aGVsbG8gd29ybGQ=".to_string()));
    assert_eq!(encode(&[9, 8, 7, 6]), Some("CQgHBg==".to_string()));
    assert_eq!(encode(&[251, 255]), Some("+/8=".to_string()));
}

#[test]
fn base64_text_is_decoded_or_refused() {
    assert_eq!(decode("aGVsbG8gd29ybGQ="), Some(b"hello world".to_vec()));
    assert_eq!(decode(""), Some(vec![]));
    assert_eq!(decode("AQID"), Some(vec![1, 2, 3]));
    assert_eq!(decode("A"), None);
    assert_eq!(decode("not base64!"), None);
    assert_eq!(decode("-_8="), None);
}

#[test]
fn base64_round_trip() {
    let bytes: Vec<u8> = (0u8..=255).collect();
    assert_eq!(decode(&encode(&bytes).unwrap()), Some(bytes));
}

#[test]
fn texts_are_compared_by_characters() {
    assert!(same_text("OK", "OK"));
    assert!(!same_text("OK", "ok"));
    assert!(!same_text("OK", "OK "));
    assert!(same_text("", ""));
}

#[test]
fn lookup_finds_last_entry_of_name() {
    let entries = vec![("a".to_string(), 1u8), ("b".to_string(), 2), ("a".to_string(), 3)];
    assert_eq!(lookup(&entries, "a"), Some(&3));
    assert_eq!(lookup(&entries, "b"), Some(&2));
    assert_eq!(lookup(&entries, "c"), None);
    assert_eq!(lookup(&Vec::<(String, u8)>::new(), "a"), None);
}
