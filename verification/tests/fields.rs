use attestation_agent::entries::lookup;
use attestation_agent::fields::{
    bytes_member, bytes_of, bytes_value, given_member, optional_text, optional_text_map,
    text_map_of, text_member, text_of, text_of_json, texts_map_of, texts_of, texts_value,
};

fn parse(text: &str) -> serde_json::Value {
    serde_json::from_str(text).unwrap()
}

#[test]
fn text_is_a_json_string_only() {
    assert_eq!(text_of(&parse("\"a\\u00e9\"")), Some("aé".to_string()));
    assert_eq!(text_of(&parse("\"\"")), Some(String::new()));
    assert_eq!(text_of(&parse("1")), None);
    assert_eq!(text_of(&parse("null")), None);
    assert_eq!(text_of(&parse("[\"a\"]")), None);
}

#[test]
fn bytes_are_an_array_of_small_unsigned_numbers() {
    assert_eq!(bytes_of(&parse("[]")), Some(vec![]));
    assert_eq!(bytes_of(&parse("[0, 7, 255]")), Some(vec![0, 7, 255]));
    assert_eq!(bytes_of(&parse("[256]")), None);
    assert_eq!(bytes_of(&parse("[1, -1]")), None);
    assert_eq!(bytes_of(&parse("[1.0]")), None);
    assert_eq!(bytes_of(&parse("[\"1\"]")), None);
    assert_eq!(bytes_of(&parse("\"AQID\"")), None);
    assert_eq!(bytes_of(&parse("{}")), None);
}

#[test]
fn texts_are_an_array_of_strings() {
    assert_eq!(texts_of(&parse("[]")), Some(vec![]));
    assert_eq!(texts_of(&parse("[\"a\", \"\"]")), Some(vec!["a".to_string(), String::new()]));
    assert_eq!(texts_of(&parse("[\"a\", 1]")), None);
    assert_eq!(texts_of(&parse("\"a\"")), None);
}

#[test]
fn text_map_is_an_object_of_strings() {
    assert_eq!(text_map_of(&parse("{}")), Some(vec![]));
    let entries = text_map_of(&parse("{\"b\":\"2\",\"a\":\"1\",\"b\":\"3\"}")).unwrap();
    assert_eq!(entries.len(), 2);
    assert_eq!(lookup(&entries, "a"), Some(&"1".to_string()));
    assert_eq!(lookup(&entries, "b"), Some(&"3".to_string()));
    assert_eq!(text_map_of(&parse("{\"a\":\"1\",\"b\":2}")), None);
    assert_eq!(text_map_of(&parse("[]")), None);
}

#[test]
fn texts_map_is_an_object_of_string_arrays() {
    let entries = texts_map_of(&parse("{\"k\":[\"x\",\"y\"],\"e\":[]}")).unwrap();
    assert_eq!(lookup(&entries, "k"), Some(&vec!["x".to_string(), "y".to_string()]));
    assert_eq!(lookup(&entries, "e"), Some(&vec![]));
    assert_eq!(texts_map_of(&parse("{\"k\":\"x\"}")), None);
    assert_eq!(texts_map_of(&parse("{\"k\":[1]}")), None);
}

#[test]
fn members_are_found_in_objects_only() {
    let value = parse("{\"a\":\"x\",\"b\":[1,2],\"n\":null}");
    assert_eq!(text_member(&value, "a"), Some("x".to_string()));
    assert_eq!(text_member(&value, "b"), None);
    assert_eq!(text_member(&value, "missing"), None);
    assert_eq!(bytes_member(&value, "b"), Some(vec![1, 2]));
    assert_eq!(bytes_member(&value, "a"), None);
    assert_eq!(text_member(&parse("[\"a\"]"), "a"), None);
    assert_eq!(given_member(&value, "a"), Some(&parse("\"x\"")));
    assert_eq!(given_member(&value, "n"), None);
    assert_eq!(given_member(&value, "missing"), None);
}

#[test]
fn optional_members_may_be_left_out_or_null() {
    let value = parse("{\"a\":\"x\",\"n\":null,\"m\":{\"k\":\"v\"},\"bad\":3}");
    assert_eq!(optional_text(&value, "a"), Some(Some("x".to_string())));
    assert_eq!(optional_text(&value, "n"), Some(None));
    assert_eq!(optional_text(&value, "missing"), Some(None));
    assert_eq!(optional_text(&value, "bad"), None);
    assert_eq!(
        optional_text_map(&value, "m"),
        Some(Some(vec![("k".to_string(), "v".to_string())]))
    );
    assert_eq!(optional_text_map(&value, "n"), Some(None));
    assert_eq!(optional_text_map(&value, "a"), None);
}

#[test]
fn bytes_and_texts_are_written_as_arrays() {
    assert_eq!(text_of_json(&bytes_value(&vec![])), Some("[]".to_string()));
    assert_eq!(text_of_json(&bytes_value(&vec![0, 128, 255])), Some("[0,128,255]".to_string()));
    assert_eq!(
        text_of_json(&texts_value(&vec!["a".to_string(), "b\n".to_string()])),
        Some("[\"a\",\"b\\n\"]".to_string())
    );
    assert_eq!(bytes_of(&bytes_value(&vec![3, 2, 1])), Some(vec![3, 2, 1]));
}
