//! The errors that the client reports.

use vstd::prelude::*;

verus! {

/// Describes the various errors that the client can report.
#[derive(Debug)]
pub enum ClientError {
    /// The given URL is invalid. Holds the underlying parsing error.
    InvalidUrl(url::ParseError),
    /// Invalid configuration was given to the client.
    InvalidConfig(String),
    /// An operation on the local file system failed. Holds its message.
    Io(String),
    /// JSON could not be written for a request or read from a response.
    SerializationError(serde_json::Error),
    /// The transport failed before a response arrived. Holds its message.
    HttpClientError(String),
    /// The server answered a request with a status other than the expected
    /// one. Holds the status and the text of the response body.
    InvalidRequest { status_code: u16, message: Option<String> },
    /// The server met an error. Holds the text of the response body.
    ServerError(Option<String>),
    /// The credentials are invalid, or the user may not access the resource.
    Unauthorized,
    /// An error that fits no other kind. Holds a message that describes it.
    Other(String),
}

/// What a `ClientError` says: its kind, and the status and the text that it
/// holds. The underlying error of another crate is left out.
pub enum ErrorKind {
    InvalidUrl,
    InvalidConfig(Seq<char>),
    Io(Seq<char>),
    SerializationError,
    HttpClientError(Seq<char>),
    InvalidRequest { status_code: u16, message: Option<Seq<char>> },
    ServerError(Option<Seq<char>>),
    Unauthorized,
    Other(Seq<char>),
}

impl View for ClientError {
    type V = ErrorKind;

    open spec fn view(&self) -> ErrorKind {
        match *self {
            ClientError::InvalidUrl(_) => ErrorKind::InvalidUrl,
            ClientError::InvalidConfig(message) => ErrorKind::InvalidConfig(message@),
            ClientError::Io(message) => ErrorKind::Io(message@),
            ClientError::SerializationError(_) => ErrorKind::SerializationError,
            ClientError::HttpClientError(message) => ErrorKind::HttpClientError(message@),
            ClientError::InvalidRequest { status_code, message } => ErrorKind::InvalidRequest {
                status_code,
                message: message.deep_view(),
            },
            ClientError::ServerError(message) => ErrorKind::ServerError(message.deep_view()),
            ClientError::Unauthorized => ErrorKind::Unauthorized,
            ClientError::Other(message) => ErrorKind::Other(message@),
        }
    }
}

impl From<url::ParseError> for ClientError {
    fn from(error: url::ParseError) -> (converted: Self) {
        ClientError::InvalidUrl(error)
    }
}

impl vstd::std_specs::convert::FromSpecImpl<url::ParseError> for ClientError {
    open spec fn obeys_from_spec() -> bool {
        true
    }

    open spec fn from_spec(error: url::ParseError) -> Self {
        ClientError::InvalidUrl(error)
    }
}

impl From<serde_json::Error> for ClientError {
    fn from(error: serde_json::Error) -> (converted: Self) {
        ClientError::SerializationError(error)
    }
}

impl vstd::std_specs::convert::FromSpecImpl<serde_json::Error> for ClientError {
    open spec fn obeys_from_spec() -> bool {
        true
    }

    open spec fn from_spec(error: serde_json::Error) -> Self {
        ClientError::SerializationError(error)
    }
}

} // verus!
