use hippo_client::token::{decode_token_response, login_body, token_from_response};
use hippo_client::{ClientError, Response};

fn members(pairs: &[(&str, &str)]) -> Vec<(String, String)> {
    pairs.iter().map(|(name, text)| (name.to_string(), text.to_string())).collect()
}

#[test]
fn login_body_is_the_object_of_the_two_credentials() {
    assert_eq!(login_body("admin", "Passw0rd!").unwrap(), r#"{"username":"admin","password":"Passw0rd!"}"#);
    assert_eq!(login_body("", "").unwrap(), r#"{"username":"","password":""}"#);
    assert_eq!(
        login_body("\",\"password\":\"x", "pä55").unwrap(),
        r#"{"username":"\",\"password\":\"x","password":"pä55"}"#
    );
}

#[test]
fn decode_accepts_the_two_members_in_both_orders() {
    let response = decode_token_response(&members(&[("token", "abc"), ("expiration", "2099")])).unwrap();
    assert_eq!(response.token, "abc");
    assert_eq!(response.expiration, "2099");
    let response = decode_token_response(&members(&[("expiration", "2099"), ("token", "abc")])).unwrap();
    assert_eq!(response.token, "abc");
    assert_eq!(response.expiration, "2099");
}

#[test]
fn decode_refuses_every_other_set_of_members() {
    let refused: [&[(&str, &str)]; 8] = [
        &[],
        &[("token", "abc")],
        &[("expiration", "2099")],
        &[("token", "abc"), ("token", "abc")],
        &[("expiration", "2099"), ("expiration", "2099")],
        &[("token", "abc"), ("expires", "2099")],
        &[("Token", "abc"), ("expiration", "2099")],
        &[("expiration", "2099"), ("extra", "x"), ("token", "abc")],
    ];
    for pairs in refused {
        assert!(decode_token_response(&members(pairs)).is_err(), "{:?}", pairs);
    }
}

#[test]
fn token_from_response_looks_at_the_status_first() {
    let body = br#"{"token":"abc123","expiration":"2099-01-01"}"#.to_vec();
    let token = token_from_response(&Response { status: 200, body: body.clone() }).unwrap();
    assert_eq!(token, "abc123");
    assert!(matches!(
        token_from_response(&Response { status: 401, body: body.clone() }),
        Err(ClientError::Unauthorized)
    ));
    assert!(matches!(
        token_from_response(&Response { status: 500, body: body.clone() }),
        Err(ClientError::ServerError(Some(_)))
    ));
    assert!(matches!(
        token_from_response(&Response { status: 404, body }),
        Err(ClientError::InvalidRequest { status_code: 404, message: Some(_) })
    ));
}

#[test]
fn token_from_response_reads_a_broken_error_body_lossily() {
    match token_from_response(&Response { status: 500, body: vec![b'a', 0xff, b'b'] }) {
        Err(ClientError::ServerError(Some(message))) => assert_eq!(message, "a\u{fffd}b"),
        other => panic!("{:?}", other),
    }
}
