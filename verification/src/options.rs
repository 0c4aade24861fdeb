//! Options that a client is built with, and what they ask of the transport.

use vstd::prelude::*;
use vstd::string::*;

verus! {

/// Options for the transport of a client.
#[derive(Debug)]
pub struct ClientOptions {
    /// Whether the transport accepts certificates that fail validation.
    pub danger_accept_invalid_certs: bool,
}

impl Default for ClientOptions {
    fn default() -> (options: Self)
        ensures
            !options.danger_accept_invalid_certs,
    {
        Self { danger_accept_invalid_certs: false }
    }
}

/// How the transport of a client is to be set up.
#[derive(Debug)]
pub struct TransportSettings {
    /// The headers that every request carries, each with its value.
    pub default_headers: Vec<(String, String)>,
    /// Whether the validation of certificates is switched off.
    pub accept_invalid_certs: bool,
}

/// The headers that every request of a client carries.
pub open spec fn default_headers() -> Seq<(Seq<char>, Seq<char>)> {
    seq![("Accept"@, "application/json"@), ("Content-Type"@, "application/json"@)]
}

impl TransportSettings {
    /// The settings that `options` ask for. Certificates are validated unless
    /// the options say otherwise.
    pub fn from_options(options: &ClientOptions) -> (settings: Self)
        ensures
            settings.default_headers.deep_view() == default_headers(),
            settings.accept_invalid_certs == options.danger_accept_invalid_certs,
    {
        let mut headers: Vec<(String, String)> = Vec::new();
        headers.push((String::from_str("Accept"), String::from_str("application/json")));
        headers.push((String::from_str("Content-Type"), String::from_str("application/json")));
        assert(headers.deep_view() =~= default_headers());
        Self {
            default_headers: headers,
            accept_invalid_certs: options.danger_accept_invalid_certs,
        }
    }
}

/// Applies `build_method` to `builder` if `condition` holds, and hands the
/// builder back unchanged if it does not.
pub fn and_if<B>(builder: B, condition: bool, build_method: impl Fn(B) -> B) -> (built: B)
    requires
        condition ==> call_requires(build_method, (builder,)),
    ensures
        condition ==> call_ensures(build_method, (builder,), built),
        !condition ==> built == builder,
{
    if condition {
        build_method(builder)
    } else {
        builder
    }
}

} // verus!
