use hippo_client::RegisterRevisionRequest;

fn escaped(text: &str) -> String {
    let mut json = String::from("\"");
    for c in text.chars() {
        match c {
            '"' => json.push_str("\\\""),
            '\\' => json.push_str("\\\\"),
            '\u{8}' => json.push_str("\\b"),
            '\u{c}' => json.push_str("\\f"),
            '\n' => json.push_str("\\n"),
            '\r' => json.push_str("\\r"),
            '\t' => json.push_str("\\t"),
            c if u32::from(c) < 0x20 => json.push_str(&format!("\\u{:04x}", u32::from(c))),
            c => json.push(c),
        }
    }
    json.push('"');
    json
}

#[test]
fn for_app_names_the_application_only() {
    let request = RegisterRevisionRequest::for_app("a1a2a3a4-b1b2-c1c2-d1d2-d3d4d5d6d7d8", "1.1.3");
    assert_eq!(request.app_id(), Some("a1a2a3a4-b1b2-c1c2-d1d2-d3d4d5d6d7d8"));
    assert_eq!(request.app_storage_id(), None);
    assert_eq!(request.revision_number(), "1.1.3");
}

#[test]
fn for_bindle_name_names_the_storage_id_only() {
    let request = RegisterRevisionRequest::for_bindle_name("hippos.rocks/helloworld", "1.1.3");
    assert_eq!(request.app_id(), None);
    assert_eq!(request.app_storage_id(), Some("hippos.rocks/helloworld"));
    assert_eq!(request.revision_number(), "1.1.3");
}

#[test]
fn exactly_one_identifier_is_present() {
    for (id, revision) in [("", ""), ("a", "1"), ("hippos.rocks/helloworld", "1.1.3")] {
        let request = RegisterRevisionRequest::for_app(id, revision);
        assert!(request.app_id().is_some() != request.app_storage_id().is_some());
        let request = RegisterRevisionRequest::for_bindle_name(id, revision);
        assert!(request.app_id().is_some() != request.app_storage_id().is_some());
    }
}

#[test]
fn the_json_of_an_application_has_a_null_storage_id() {
    let request = RegisterRevisionRequest::for_app("a1a2a3a4-b1b2-c1c2-d1d2-d3d4d5d6d7d8", "1.1.3");
    assert_eq!(
        request.to_json().unwrap(),
        r#"{"appId":"a1a2a3a4-b1b2-c1c2-d1d2-d3d4d5d6d7d8","appStorageId":null,"revisionNumber":"1.1.3"}"#
    );
}

#[test]
fn the_json_of_a_storage_id_has_a_null_application() {
    let request = RegisterRevisionRequest::for_bindle_name("hippos.rocks/helloworld", "1.1.3");
    assert_eq!(
        request.to_json().unwrap(),
        r#"{"appId":null,"appStorageId":"hippos.rocks/helloworld","revisionNumber":"1.1.3"}"#
    );
}

#[test]
fn the_json_has_the_three_members_and_no_other() {
    let json = RegisterRevisionRequest::for_bindle_name("null", "").to_json().unwrap();
    let value: serde_json::Value = serde_json::from_str(&json).unwrap();
    let object = value.as_object().unwrap();
    assert_eq!(object.len(), 3);
    assert!(object["appId"].is_null());
    assert_eq!(object["appStorageId"].as_str(), Some("null"));
    assert_eq!(object["revisionNumber"].as_str(), Some(""));
}

#[test]
fn every_ascii_character_is_written_as_json_writes_it() {
    for code in 0u8..=0x7f {
        let text = char::from(code).to_string();
        let json = RegisterRevisionRequest::for_bindle_name(&text, &text).to_json().unwrap();
        let expected = format!(
            "{{\"appId\":null,\"appStorageId\":{},\"revisionNumber\":{}}}",
            escaped(&text),
            escaped(&text)
        );
        assert_eq!(json, expected, "U+{:04X}", code);
        let value: serde_json::Value = serde_json::from_str(&json).unwrap();
        assert_eq!(value["appStorageId"].as_str(), Some(text.as_str()));
        assert_eq!(value["revisionNumber"].as_str(), Some(text.as_str()));
    }
}

#[test]
fn control_characters_are_written_as_escapes() {
    let json = RegisterRevisionRequest::for_app("\u{0}\u{1}\u{1f}\u{7f}\u{8}\u{c}\n\r\t\"\\/", "1").to_json().unwrap();
    assert_eq!(
        json,
        "{\"appId\":\"\\u0000\\u0001\\u001f\u{7f}\\b\\f\\n\\r\\t\\\"\\\\/\",\"appStorageId\":null,\"revisionNumber\":\"1\"}"
    );
}

#[test]
fn text_beyond_ascii_is_written_as_it_is() {
    for text in ["caf\u{e9}", "\u{80}\u{9f}", "\u{2028}\u{2029}", "\u{1f99b}", "\u{fffd}\u{10ffff}", "a\"\u{e9}\\\u{1f99b}\n"] {
        let json = RegisterRevisionRequest::for_app(text, text).to_json().unwrap();
        let expected = format!(
            "{{\"appId\":{},\"appStorageId\":null,\"revisionNumber\":{}}}",
            escaped(text),
            escaped(text)
        );
        assert_eq!(json, expected);
        let value: serde_json::Value = serde_json::from_str(&json).unwrap();
        assert_eq!(value["appId"].as_str(), Some(text));
    }
}
