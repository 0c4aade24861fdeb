//! A transport-agnostic core for a client of the Hippo API.
//!
//! The crate plans every request that the client sends and interprets every
//! response that it receives. Sending is left to the caller.

pub mod client;
pub mod error;
pub mod hex;
pub mod ident;
pub mod json;
pub mod options;
pub mod request;
pub mod revision;
pub mod token;
pub mod url_text;

pub use client::{Client, Login};
pub use error::{ClientError, ErrorKind};
pub use options::{ClientOptions, TransportSettings};
pub use request::{Method, Request, Response};
pub use revision::RegisterRevisionRequest;
