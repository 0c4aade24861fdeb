use hippo_client::options::and_if;
use hippo_client::url_text::normalize_base_url;
use hippo_client::{ClientError, ClientOptions, TransportSettings};

#[test]
fn certificates_are_validated_by_default() {
    assert!(!ClientOptions::default().danger_accept_invalid_certs);
}

#[test]
fn settings_follow_the_options() {
    let settings = TransportSettings::from_options(&ClientOptions::default());
    assert!(!settings.accept_invalid_certs);
    let settings =
        TransportSettings::from_options(&ClientOptions { danger_accept_invalid_certs: true });
    assert!(settings.accept_invalid_certs);
}

#[test]
fn settings_ask_for_json_both_ways() {
    let settings = TransportSettings::from_options(&ClientOptions::default());
    assert_eq!(
        settings.default_headers,
        vec![
            ("Accept".to_string(), "application/json".to_string()),
            ("Content-Type".to_string(), "application/json".to_string()),
        ]
    );
}

#[test]
fn and_if_applies_the_method_only_where_the_condition_holds() {
    assert_eq!(and_if(String::from("a"), true, |text| text + "b"), "ab");
    assert_eq!(and_if(String::from("a"), false, |text| text + "b"), "a");
    assert_eq!(and_if(7u8, true, |count| count + 1), 8);
    assert_eq!(and_if(7u8, false, |count| count + 1), 7);
}

#[test]
fn a_base_url_gets_a_slash_where_it_has_none() {
    assert_eq!(normalize_base_url("https://localhost:5001"), "https://localhost:5001/");
    assert_eq!(normalize_base_url("https://localhost:5001/"), "https://localhost:5001/");
    assert_eq!(normalize_base_url("https://h/hippo"), "https://h/hippo/");
    assert_eq!(normalize_base_url("https://h//"), "https://h//");
    assert_eq!(normalize_base_url(""), "/");
    assert_eq!(normalize_base_url("/"), "/");
    assert_eq!(normalize_base_url("https://h/caf\u{e9}"), "https://h/caf\u{e9}/");
    assert_eq!(normalize_base_url("https://h/\u{1f99b}/"), "https://h/\u{1f99b}/");
    assert_eq!(normalize_base_url("https://h/\\"), "https://h/\\/");
}

#[test]
fn normalizing_twice_changes_nothing_more() {
    for base in ["", "/", "https://h", "https://h/", "https://h/a?b"] {
        let once = normalize_base_url(base);
        assert!(once.ends_with('/'));
        assert!(once.starts_with(base));
        assert_eq!(normalize_base_url(&once), once);
    }
}

#[test]
fn a_parse_error_becomes_an_invalid_url() {
    let error = url::Url::parse("https://").unwrap_err();
    match ClientError::from(error) {
        ClientError::InvalidUrl(inner) => assert_eq!(inner, error),
        other => panic!("{:?}", other),
    }
}

#[test]
fn a_json_error_becomes_a_serialization_error() {
    let error = serde_json::from_str::<serde_json::Value>("{").unwrap_err();
    let message = error.to_string();
    match ClientError::from(error) {
        ClientError::SerializationError(inner) => assert_eq!(inner.to_string(), message),
        other => panic!("{:?}", other),
    }
}
