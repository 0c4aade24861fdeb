//! The exchange of credentials for a token.

use crate::error::{ClientError, ErrorKind};
use crate::json::{
    encode_string, json_string, json_string_members, lossy_text, parse_string_members,
    schema_error, text_from_bytes,
};
use crate::request::Response;
use vstd::prelude::*;
use vstd::string::*;
use vstd::utf8::*;

verus! {

/// What the server answers to a login: a token and the time at which the
/// token expires.
#[derive(Debug)]
pub struct CreateTokenResponse {
    /// The token.
    pub token: String,
    /// When the token expires. The client does not read it.
    pub expiration: String,
}

/// What a `CreateTokenResponse` holds.
pub struct TokenGrant {
    pub token: Seq<char>,
    pub expiration: Seq<char>,
}

impl View for CreateTokenResponse {
    type V = TokenGrant;

    open spec fn view(&self) -> TokenGrant {
        TokenGrant { token: self.token@, expiration: self.expiration@ }
    }
}

/// The JSON object that is sent to log in with `username` and `password`.
pub open spec fn login_json(username: Seq<char>, password: Seq<char>) -> Seq<char> {
    "{\"username\":"@ + json_string(username) + ",\"password\":"@ + json_string(password) + "}"@
}

/// What the members of a JSON object grant. They grant a token exactly when
/// there are two of them, one named `token` and the other `expiration`.
pub open spec fn grant_of(members: Seq<(Seq<char>, Seq<char>)>) -> Option<TokenGrant> {
    if members.len() == 2 && members[0].0 == "token"@ && members[1].0 == "expiration"@ {
        Some(TokenGrant { token: members[0].1, expiration: members[1].1 })
    } else if members.len() == 2 && members[0].0 == "expiration"@ && members[1].0 == "token"@ {
        Some(TokenGrant { token: members[1].1, expiration: members[0].1 })
    } else {
        None
    }
}

/// What the client makes of the answer to a login, by the status of the
/// response first and by its body second.
pub open spec fn login_result(status: u16, body: Seq<u8>) -> Result<Seq<char>, ErrorKind> {
    if status == 401 || status == 403 {
        Err(ErrorKind::Unauthorized)
    } else if 500 <= status <= 599 {
        Err(ErrorKind::ServerError(Some(lossy_text(body))))
    } else if !(200 <= status <= 299) {
        Err(ErrorKind::InvalidRequest { status_code: status, message: Some(lossy_text(body)) })
    } else {
        match json_string_members(body) {
            Some(members) => match grant_of(members) {
                Some(grant) => Ok(grant.token),
                None => Err(ErrorKind::SerializationError),
            },
            None => Err(ErrorKind::SerializationError),
        }
    }
}

/// Members without one named `token` grant nothing.
pub proof fn lemma_missing_token_grants_nothing(members: Seq<(Seq<char>, Seq<char>)>)
    requires
        forall|i: int| 0 <= i < members.len() ==> (#[trigger] members[i]).0 != "token"@,
    ensures
        grant_of(members) is None,
{
}

/// Members with one named neither `token` nor `expiration` grant nothing.
pub proof fn lemma_unknown_member_grants_nothing(members: Seq<(Seq<char>, Seq<char>)>, i: int)
    requires
        0 <= i < members.len(),
        members[i].0 != "token"@,
        members[i].0 != "expiration"@,
    ensures
        grant_of(members) is None,
{
}

/// A login yields a token only where the status reports success and the body
/// is a JSON object of exactly the two members. A status of 401 or 403 is
/// reported as `Unauthorized` whatever the body holds, and a body that grants
/// nothing under a status of success as `SerializationError`.
pub proof fn lemma_login_result(status: u16, body: Seq<u8>)
    ensures
        status == 401 || status == 403 ==> login_result(status, body) == Err::<Seq<char>, ErrorKind>(
            ErrorKind::Unauthorized,
        ),
        login_result(status, body) is Ok ==> 200 <= status <= 299 && json_string_members(body) is Some
            && grant_of(json_string_members(body)->0) == Some(
            TokenGrant {
                token: login_result(status, body)->Ok_0,
                expiration: grant_of(json_string_members(body)->0)->0.expiration,
            },
        ),
        200 <= status <= 299 && (json_string_members(body) is None || grant_of(
            json_string_members(body)->0,
        ) is None) ==> login_result(status, body) == Err::<Seq<char>, ErrorKind>(
            ErrorKind::SerializationError,
        ),
{
}

/// Writes the JSON object that logs in with `username` and `password`.
pub fn login_body(username: &str, password: &str) -> (body: Result<String, ClientError>)
    ensures
        body matches Ok(text) && text@ == login_json(username@, password@),
{
    let username = match encode_string(username) {
        Ok(text) => text,
        Err(error) => { return Err(ClientError::SerializationError(error)); },
    };
    let password = match encode_string(password) {
        Ok(text) => text,
        Err(error) => { return Err(ClientError::SerializationError(error)); },
    };
    let mut text = String::from_str("{\"username\":");
    text.append(username.as_str());
    text.append(",\"password\":");
    text.append(password.as_str());
    text.append("}");
    Ok(text)
}

/// Reads the members of a JSON object as the answer to a login. Every
/// member but `token` and `expiration` is refused, and both must be there.
pub fn decode_token_response(members: &Vec<(String, String)>) -> (decoded: Result<
    CreateTokenResponse,
    serde_json::Error,
>)
    ensures
        match grant_of(members.deep_view()) {
            Some(grant) => decoded matches Ok(response) && response@ == grant,
            None => decoded is Err,
        },
{
    let token_name = String::from_str("token");
    let expiration_name = String::from_str("expiration");
    if members.len() != 2 {
        return Err(schema_error("expected the members `token` and `expiration`"));
    }
    if members[0].0 == token_name && members[1].0 == expiration_name {
        Ok(CreateTokenResponse { token: members[0].1.clone(), expiration: members[1].1.clone() })
    } else if members[0].0 == expiration_name && members[1].0 == token_name {
        Ok(CreateTokenResponse { token: members[1].1.clone(), expiration: members[0].1.clone() })
    } else {
        Err(schema_error("expected the members `token` and `expiration`"))
    }
}

/// Reads the token from the answer to a login. The status decides first: a
/// response that does not report success is never read as a token.
pub fn token_from_response(response: &Response) -> (token: Result<String, ClientError>)
    ensures
        match login_result(response.status, response.body@) {
            Ok(text) => token matches Ok(token) && token@ == text,
            Err(kind) => token matches Err(error) && error@ == kind,
        },
        valid_utf8(response.body@) ==> match token {
            Err(ClientError::ServerError(Some(text))) => text@ == decode_utf8(response.body@),
            Err(ClientError::InvalidRequest { message: Some(text), .. }) => text@ == decode_utf8(
                response.body@,
            ),
            _ => true,
        },
{
    let status = response.status;
    if status == 401 || status == 403 {
        return Err(ClientError::Unauthorized);
    }
    if 500 <= status && status <= 599 {
        return Err(ClientError::ServerError(Some(text_from_bytes(response.body.as_slice()))));
    }
    if !(200 <= status && status <= 299) {
        return Err(
            ClientError::InvalidRequest {
                status_code: status,
                message: Some(text_from_bytes(response.body.as_slice())),
            },
        );
    }
    let members = match parse_string_members(response.body.as_slice()) {
        Ok(members) => members,
        Err(error) => { return Err(ClientError::SerializationError(error)); },
    };
    match decode_token_response(&members) {
        Ok(response) => Ok(response.token),
        Err(error) => Err(ClientError::SerializationError(error)),
    }
}

} // verus!
