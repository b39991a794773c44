//! HTTP transport: timeouts, retries, authentication headers, and the
//! messages exchanged.
pub mod auth;
pub mod authority;
pub mod http;
pub mod resolver;
pub mod retry;
pub mod timeout;

use vstd::prelude::*;

verus! {

/// Whether an endpoint may resolve to private addresses.
#[derive(Clone, Copy, Debug, PartialEq, Eq, Structural)]
pub enum PrivateResolutionPolicy {
    PublicOnly,
    AllowPrivate,
}

/// An HTTP request relative to a transport's base URL.
#[derive(Clone, Debug, PartialEq, Eq)]
pub struct HttpRequest {
    pub method: String,
    pub path: String,
    pub headers: Vec<(String, String)>,
    pub body: String,
}

/// An HTTP response with a UTF-8 body.
#[derive(Clone, Debug, PartialEq, Eq)]
pub struct HttpResponse {
    pub status: u16,
    pub headers: Vec<(String, String)>,
    pub body: String,
}

/// An HTTP response with its body as bytes.
#[derive(Clone, Debug, PartialEq, Eq)]
pub struct HttpRawResponse {
    pub status: u16,
    pub headers: Vec<(String, String)>,
    pub body: Vec<u8>,
}

} // verus!
