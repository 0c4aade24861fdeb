//! Requests and responses as plain values. The client plans the first and
//! reads the second; whoever drives it sends and receives them.

use vstd::prelude::*;

verus! {

/// The method of an HTTP request.
#[derive(Debug, PartialEq, Eq)]
pub enum Method {
    Options,
    Get,
    Post,
    Put,
    Delete,
    Head,
    Trace,
    Connect,
    Patch,
    /// A method beyond the standard ones, by its name.
    Extension(String),
}

impl Clone for Method {
    fn clone(&self) -> (copy: Self)
        ensures
            copy == *self,
    {
        match self {
            Method::Options => Method::Options,
            Method::Get => Method::Get,
            Method::Post => Method::Post,
            Method::Put => Method::Put,
            Method::Delete => Method::Delete,
            Method::Head => Method::Head,
            Method::Trace => Method::Trace,
            Method::Connect => Method::Connect,
            Method::Patch => Method::Patch,
            Method::Extension(name) => Method::Extension(name.clone()),
        }
    }
}

/// A request that the client has planned and that is yet to be sent.
#[derive(Debug)]
pub struct Request {
    /// The method to send the request with.
    pub method: Method,
    /// The absolute URL to send the request to.
    pub url: String,
    /// The token for the `Authorization` header, sent under the bearer
    /// scheme. `None` where the request carries no such header.
    pub bearer_token: Option<String>,
    /// The value for the `Content-Length` header. `None` where the header is
    /// left to the transport.
    pub content_length: Option<usize>,
    /// The payload. `None` where the request has none.
    pub body: Option<String>,
}

/// What a `Request` holds.
pub struct RequestView {
    pub method: Method,
    pub url: Seq<char>,
    pub bearer_token: Option<Seq<char>>,
    pub content_length: Option<nat>,
    pub body: Option<Seq<char>>,
}

impl View for Request {
    type V = RequestView;

    open spec fn view(&self) -> RequestView {
        RequestView {
            method: self.method,
            url: self.url@,
            bearer_token: self.bearer_token.deep_view(),
            content_length: match self.content_length {
                Some(length) => Some(length as nat),
                None => None,
            },
            body: self.body.deep_view(),
        }
    }
}

/// A response as it arrived: the status code and the bytes of the body.
#[derive(Debug)]
pub struct Response {
    /// The status code.
    pub status: u16,
    /// The body, read to its end.
    pub body: Vec<u8>,
}

} // verus!
