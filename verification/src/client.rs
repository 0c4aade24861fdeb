//! The client: how it is built, the requests that it plans, and what it
//! makes of the answers.

use crate::error::{ClientError, ErrorKind};
use crate::ident::{hyphenated, hyphenated_text};
use crate::json::{lossy_text, text_from_bytes};
use crate::options::{default_headers, ClientOptions, TransportSettings};
use crate::request::{Method, Request, RequestView, Response};
use crate::revision::{revision_json, RegisterRevisionRequest, RevisionPayload};
use crate::token::{login_body, login_json, login_result, token_from_response};
use crate::url_text::{
    join_url, normalize_base_url, parse_error_message, parse_url, url_join, url_parse,
    with_trailing_slash,
};
use vstd::prelude::*;
use vstd::string::*;
use vstd::utf8::*;

verus! {

/// The path that credentials are exchanged for a token at, relative to the
/// base URL.
pub open spec fn login_path() -> Seq<char> {
    "account/createtoken"@
}

/// The path that revisions are registered at, relative to the base URL.
pub open spec fn revision_path() -> Seq<char> {
    "api/revision"@
}

/// The request that logs in at `url` with the given credentials.
pub open spec fn login_request(
    url: Seq<char>,
    username: Seq<char>,
    password: Seq<char>,
) -> RequestView {
    RequestView {
        method: Method::Post,
        url,
        bearer_token: None,
        content_length: None,
        body: Some(login_json(username, password)),
    }
}

/// The request that a client with the token `auth_token` sends to `url`:
/// it carries the token, and its content length is the number of bytes of
/// its body, or 0 without a body.
pub open spec fn authorized_request(
    auth_token: Seq<char>,
    method: Method,
    url: Seq<char>,
    body: Option<Seq<char>>,
) -> RequestView {
    RequestView {
        method,
        url,
        bearer_token: Some(auth_token),
        content_length: Some(
            match body {
                Some(text) => encode_utf8(text).len(),
                None => 0,
            },
        ),
        body,
    }
}

/// What the client makes of the outcome of a request that registers a
/// revision: `Ok` for the status 201 and an error for everything else.
pub open spec fn registration_outcome(outcome: Result<(u16, Seq<u8>), Seq<char>>) -> Result<
    (),
    ErrorKind,
> {
    match outcome {
        Ok((status, body)) => if status == 201 {
            Ok(())
        } else {
            Err(ErrorKind::InvalidRequest { status_code: status, message: Some(lossy_text(body)) })
        },
        Err(message) => Err(ErrorKind::Other(message)),
    }
}

/// A request without a body announces a content length of 0, and so does one
/// with an empty body. With a body, the content length is the number of bytes
/// that encode it, whatever it holds, and the body is sent as it is.
pub proof fn lemma_content_length(
    auth_token: Seq<char>,
    method: Method,
    url: Seq<char>,
    body: Seq<char>,
)
    ensures
        authorized_request(auth_token, method, url, None).content_length == Some(0nat),
        authorized_request(auth_token, method, url, Some(Seq::empty())).content_length == Some(
            0nat,
        ),
        authorized_request(auth_token, method, url, Some(body)).content_length == Some(
            encode_utf8(body).len(),
        ),
        authorized_request(auth_token, method, url, Some(body)).body == Some(body),
        authorized_request(auth_token, method, url, Some(body)).bearer_token == Some(auth_token),
{
}

/// A revision is registered exactly when the status is 201. Every other
/// status is reported as an invalid request with that status and with the
/// text of the body.
pub proof fn lemma_registered_only_when_created(status: u16, body: Seq<u8>)
    ensures
        registration_outcome(Ok((status, body))) is Ok <==> status == 201,
        status != 201 ==> registration_outcome(Ok((status, body))) == Err::<(), ErrorKind>(
            ErrorKind::InvalidRequest { status_code: status, message: Some(lossy_text(body)) },
        ),
{
}

/// A client that has logged in to a Hippo server. Its base URL and its token
/// never change.
#[derive(Debug)]
pub struct Client {
    base_url: String,
    auth_token: String,
}

/// What a `Client` holds.
pub struct ClientView {
    /// The base URL, as the `url` crate writes it.
    pub base_url: Seq<char>,
    /// The token that every request carries.
    pub auth_token: Seq<char>,
}

impl View for Client {
    type V = ClientView;

    closed spec fn view(&self) -> ClientView {
        ClientView { base_url: self.base_url@, auth_token: self.auth_token@ }
    }
}

impl Clone for Client {
    fn clone(&self) -> (copy: Self)
        ensures
            copy@ == self@,
    {
        Client { base_url: self.base_url.clone(), auth_token: self.auth_token.clone() }
    }
}

/// A client that is about to log in: the base URL has been read, and the
/// credentials are yet to be exchanged for a token.
#[derive(Debug)]
pub struct Login {
    base_url: String,
    username: String,
    password: String,
    accept_invalid_certs: bool,
}

/// What a `Login` holds.
pub struct LoginView {
    /// The base URL, as the `url` crate writes it.
    pub base_url: Seq<char>,
    pub username: Seq<char>,
    pub password: Seq<char>,
    /// Whether the transport is to accept invalid certificates.
    pub accept_invalid_certs: bool,
}

impl View for Login {
    type V = LoginView;

    closed spec fn view(&self) -> LoginView {
        LoginView {
            base_url: self.base_url@,
            username: self.username@,
            password: self.password@,
            accept_invalid_certs: self.accept_invalid_certs,
        }
    }
}

impl Login {
    /// The settings for the transport that the login and the client use.
    pub fn transport(&self) -> (settings: TransportSettings)
        ensures
            settings.default_headers.deep_view() == default_headers(),
            settings.accept_invalid_certs == self@.accept_invalid_certs,
    {
        TransportSettings::from_options(
            &ClientOptions { danger_accept_invalid_certs: self.accept_invalid_certs },
        )
    }

    /// The error that is reported where the transport cannot be set up.
    pub fn transport_failure(message: String) -> (error: ClientError)
        ensures
            error@ == ErrorKind::Other(message@),
    {
        ClientError::Other(message)
    }

    /// Plans the request that exchanges the credentials for a token: a POST
    /// of the two credentials as a JSON object to the login path under the
    /// base URL.
    pub fn request(&self) -> (planned: Result<Request, ClientError>)
        ensures
            match url_join(self@.base_url, login_path()) {
                Some(url) => planned matches Ok(request) && request@ == login_request(
                    url,
                    self@.username,
                    self@.password,
                ),
                None => planned matches Err(error) && error@ == ErrorKind::InvalidUrl,
            },
    {
        let body = login_body(self.username.as_str(), self.password.as_str())?;
        match join_url(self.base_url.as_str(), "account/createtoken") {
            Ok(url) => Ok(
                Request {
                    method: Method::Post,
                    url,
                    bearer_token: None,
                    content_length: None,
                    body: Some(body),
                },
            ),
            Err(error) => Err(ClientError::InvalidUrl(error)),
        }
    }

    /// Makes the client from the outcome of the login request: the response,
    /// or the message of the transport where no response arrived.
    pub fn finish(self, outcome: Result<Response, String>) -> (client: Result<Client, ClientError>)
        ensures
            match outcome {
                Ok(response) => match login_result(response.status, response.body@) {
                    Ok(token) => client matches Ok(client) && client@ == (ClientView {
                        base_url: self@.base_url,
                        auth_token: token,
                    }),
                    Err(kind) => client matches Err(error) && error@ == kind,
                },
                Err(message) => client matches Err(error) && error@ == ErrorKind::HttpClientError(
                    message@,
                ),
            },
    {
        match outcome {
            Ok(response) => {
                let auth_token = token_from_response(&response)?;
                Ok(Client { base_url: self.base_url, auth_token })
            },
            Err(message) => Err(ClientError::HttpClientError(message)),
        }
    }
}

impl Client {
    /// Begins a client for the server at `base_url` with the default options.
    pub fn new(base_url: &str, username: &str, password: &str) -> (login: Result<
        Login,
        ClientError,
    >)
        ensures
            match url_parse(with_trailing_slash(base_url@)) {
                Some(url) => login matches Ok(login) && login@ == (LoginView {
                    base_url: url,
                    username: username@,
                    password: password@,
                    accept_invalid_certs: false,
                }),
                None => login matches Err(error) && error@ == ErrorKind::InvalidUrl,
            },
    {
        Self::new_with_options(base_url, username, password, ClientOptions::default())
    }

    /// Begins a client for the server at `base_url`. The base URL is read
    /// with a `/` at its end, appended where it is missing, so that relative
    /// paths are resolved below it.
    pub fn new_with_options(
        base_url: &str,
        username: &str,
        password: &str,
        options: ClientOptions,
    ) -> (login: Result<Login, ClientError>)
        ensures
            match url_parse(with_trailing_slash(base_url@)) {
                Some(url) => login matches Ok(login) && login@ == (LoginView {
                    base_url: url,
                    username: username@,
                    password: password@,
                    accept_invalid_certs: options.danger_accept_invalid_certs,
                }),
                None => login matches Err(error) && error@ == ErrorKind::InvalidUrl,
            },
    {
        let base = normalize_base_url(base_url);
        match parse_url(base.as_str()) {
            Ok(base_url) => Ok(
                Login {
                    base_url,
                    username: String::from_str(username),
                    password: String::from_str(password),
                    accept_invalid_certs: options.danger_accept_invalid_certs,
                },
            ),
            Err(error) => Err(ClientError::InvalidUrl(error)),
        }
    }

    /// The base URL, as the `url` crate writes it.
    pub fn base_url(&self) -> (base_url: &str)
        ensures
            base_url@ == self@.base_url,
    {
        self.base_url.as_str()
    }

    /// The token that every request carries.
    pub fn auth_token(&self) -> (auth_token: &str)
        ensures
            auth_token@ == self@.auth_token,
    {
        self.auth_token.as_str()
    }

    /// Plans a request to `path`, resolved against the base URL.
    fn plan(&self, method: Method, path: &str, body: Option<String>) -> (planned: Result<
        Request,
        url::ParseError,
    >)
        ensures
            match url_join(self@.base_url, path@) {
                Some(url) => planned matches Ok(request) && request@ == authorized_request(
                    self@.auth_token,
                    method,
                    url,
                    body.deep_view(),
                ),
                None => planned is Err,
            },
    {
        let url = join_url(self.base_url.as_str(), path)?;
        let content_length = match &body {
            Some(text) => text.as_str().as_bytes().len(),
            None => 0,
        };
        Ok(
            Request {
                method,
                url,
                bearer_token: Some(self.auth_token.clone()),
                content_length: Some(content_length),
                body,
            },
        )
    }

    /// Plans a raw request: `path` is resolved against the base URL, the
    /// request carries the client's token, and its content length is the
    /// number of bytes of `body`, or 0 without a body. What the answer means
    /// is left to the caller.
    pub fn raw(&self, method: Method, path: &str, body: Option<String>) -> (planned: Result<
        Request,
        ClientError,
    >)
        ensures
            match url_join(self@.base_url, path@) {
                Some(url) => planned matches Ok(request) && request@ == authorized_request(
                    self@.auth_token,
                    method,
                    url,
                    body.deep_view(),
                ),
                None => planned matches Err(error) && error@ == ErrorKind::InvalidUrl,
            },
    {
        match self.plan(method, path, body) {
            Ok(request) => Ok(request),
            Err(error) => Err(ClientError::InvalidUrl(error)),
        }
    }

    /// Plans the request that registers `payload`: a POST of its JSON object
    /// to the revision path.
    fn register(&self, payload: &RegisterRevisionRequest) -> (planned: Result<Request, ClientError>)
        ensures
            match url_join(self@.base_url, revision_path()) {
                Some(url) => planned matches Ok(request) && request@ == authorized_request(
                    self@.auth_token,
                    Method::Post,
                    url,
                    Some(revision_json(payload@)),
                ),
                None => planned matches Err(error) && error@ is Other,
            },
    {
        let json = payload.to_json()?;
        match self.plan(Method::Post, "api/revision", Some(json)) {
            Ok(request) => Ok(request),
            Err(error) => Err(ClientError::Other(parse_error_message(&error))),
        }
    }

    /// Plans the request that registers the revision `revision_number` for
    /// the application with the identifier `application_id`.
    pub fn register_revision_by_application(
        &self,
        application_id: u128,
        revision_number: &str,
    ) -> (planned: Result<Request, ClientError>)
        ensures
            match url_join(self@.base_url, revision_path()) {
                Some(url) => planned matches Ok(request) && request@ == authorized_request(
                    self@.auth_token,
                    Method::Post,
                    url,
                    Some(
                        revision_json(
                            RevisionPayload {
                                app_id: Some(hyphenated(application_id)),
                                app_storage_id: None,
                                revision_number: revision_number@,
                            },
                        ),
                    ),
                ),
                None => planned matches Err(error) && error@ is Other,
            },
    {
        let application_id = hyphenated_text(application_id);
        let payload = RegisterRevisionRequest::for_app(application_id.as_str(), revision_number);
        self.register(&payload)
    }

    /// Plans the request that registers the revision `revision_number` for
    /// the storage identifier `bindle_name`.
    pub fn register_revision_by_storage_id(
        &self,
        bindle_name: &str,
        revision_number: &str,
    ) -> (planned: Result<Request, ClientError>)
        ensures
            match url_join(self@.base_url, revision_path()) {
                Some(url) => planned matches Ok(request) && request@ == authorized_request(
                    self@.auth_token,
                    Method::Post,
                    url,
                    Some(
                        revision_json(
                            RevisionPayload {
                                app_id: None,
                                app_storage_id: Some(bindle_name@),
                                revision_number: revision_number@,
                            },
                        ),
                    ),
                ),
                None => planned matches Err(error) && error@ is Other,
            },
    {
        let payload = RegisterRevisionRequest::for_bindle_name(bindle_name, revision_number);
        self.register(&payload)
    }

    /// Reads the outcome of a request that registers a revision: the
    /// response, or the message of the transport where no response arrived.
    /// The revision is registered exactly when the status is 201.
    pub fn registration_result(outcome: Result<Response, String>) -> (registered: Result<
        (),
        ClientError,
    >)
        ensures
            match registration_outcome(
                match outcome {
                    Ok(response) => Ok((response.status, response.body@)),
                    Err(message) => Err(message@),
                },
            ) {
                Ok(_) => registered is Ok,
                Err(kind) => registered matches Err(error) && error@ == kind,
            },
            match outcome {
                Ok(response) => response.status != 201 && valid_utf8(response.body@) ==> (registered
                    matches Err(ClientError::InvalidRequest { message: Some(text), .. }) && text@
                    == decode_utf8(response.body@)),
                Err(_) => true,
            },
    {
        match outcome {
            Ok(response) => {
                if response.status == 201 {
                    Ok(())
                } else {
                    Err(
                        ClientError::InvalidRequest {
                            status_code: response.status,
                            message: Some(text_from_bytes(response.body.as_slice())),
                        },
                    )
                }
            },
            Err(message) => Err(ClientError::Other(message)),
        }
    }
}

} // verus!
