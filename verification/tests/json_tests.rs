use asthobin::json::{failure_json, json_string, success_json};

#[test]
fn json_string_escapes_as_serde_json() {
    assert_eq!(json_string("plain"), "\"plain\"");
    assert_eq!(json_string("a\"b\\c"), "\"a\\\"b\\\\c\"");
    assert_eq!(json_string("\n\t\r\u{8}\u{c}"), "\"\\n\\t\\r\\b\\f\"");
    assert_eq!(json_string("\u{1}\u{1f}"), "\"\\u0001\\u001f\"");
    assert_eq!(json_string("é/\u{7f}"), "\"é/\u{7f}\"");
}

#[test]
fn failure_body_has_sorted_keys() {
    assert_eq!(
        failure_json("This file is empty."),
        "{\"message\":\"This file is empty.\",\"status\":\"failed\"}"
    );
    let parsed: serde_json::Value = serde_json::from_str(&failure_json("q\"uote")).unwrap();
    assert_eq!(parsed["message"], "q\"uote");
    assert_eq!(parsed["status"], "failed");
}

#[test]
fn success_body_carries_the_key() {
    assert_eq!(success_json("ABCDEFGH23"), "{\"key\":\"ABCDEFGH23\",\"status\":\"success\"}");
}
