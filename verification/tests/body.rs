use islandbridge::message::{message_body, player_message, simple_message};

#[test]
fn simple_body_shape() {
    let m = simple_message("hello");
    assert_eq!(message_body(&m), "{\"content\":\"hello\"}");
}

#[test]
fn player_body_shape() {
    let m = player_message("Alice", "hi there");
    assert_eq!(
        message_body(&m),
        "{\"username\":\"Alice\",\"content\":\"hi there\"}"
    );
}

#[test]
fn body_escapes_quotes_and_backslashes() {
    let m = simple_message("say \"hi\" \\ bye");
    assert_eq!(
        message_body(&m),
        "{\"content\":\"say \\\"hi\\\" \\\\ bye\"}"
    );
}

#[test]
fn body_escapes_control_characters() {
    let m = simple_message("a\nb\tc\rd\u{0008}e\u{000c}f\u{0001}g\u{001f}h");
    assert_eq!(
        message_body(&m),
        "{\"content\":\"a\\nb\\tc\\rd\\be\\ff\\u0001g\\u001fh\"}"
    );
}

#[test]
fn empty_content_is_allowed() {
    let m = simple_message("");
    assert_eq!(message_body(&m), "{\"content\":\"\"}");
}

#[test]
fn body_keeps_unicode_text() {
    let m = player_message("Ame\u{0301}lie", "\u{00fc}ber \u{2603}");
    assert_eq!(
        message_body(&m),
        "{\"username\":\"Ame\u{0301}lie\",\"content\":\"\u{00fc}ber \u{2603}\"}"
    );
}

#[test]
fn simple_body_parses_back_with_serde_json() {
    let m = simple_message("line one\nline \"two\" \\ end");
    let body = message_body(&m);
    let v: serde_json::Value = serde_json::from_str(&body).unwrap();
    assert_eq!(v["content"].as_str().unwrap(), "line one\nline \"two\" \\ end");
    assert!(v.get("username").is_none());
}

#[test]
fn player_body_parses_back_with_serde_json() {
    let m = player_message("A\"B\\C", "tab\there");
    let body = message_body(&m);
    let v: serde_json::Value = serde_json::from_str(&body).unwrap();
    assert_eq!(v["username"].as_str().unwrap(), "A\"B\\C");
    assert_eq!(v["content"].as_str().unwrap(), "tab\there");
}

#[test]
fn body_matches_serde_json_encoding_of_same_fields() {
    let text = "control \u{0002} quote \" backslash \\ newline \n done";
    let m = simple_message(text);
    let body = message_body(&m);
    let mut map = serde_json::Map::new();
    map.insert(
        "content".to_string(),
        serde_json::Value::String(text.to_string()),
    );
    let expected = serde_json::to_string(&serde_json::Value::Object(map)).unwrap();
    assert_eq!(body, expected);
}
