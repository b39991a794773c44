//! TLS connections over managed TCP streams: their results, and the client
//! of hosts without TLS.
use crate::error::{HostError, HostErrorCode};
use crate::stream::{handle_fingerprint, ByteStreamOrigin, ByteStreamRef, StreamHandleRef};
use crate::text::{decimal, decimal_text, utf8};
use crate::value::HostRequestId;
use vstd::prelude::*;

verus! {

/// A TLS stream created over a managed TCP stream.
#[derive(Clone, Debug, PartialEq, Eq)]
pub struct TlsStreamRef {
    pub id: String,
    pub origin: ByteStreamOrigin,
}

/// The answer to one TLS connect request.
#[derive(Debug, PartialEq)]
pub struct TlsConnectResponse {
    pub id: HostRequestId,
    pub result: Result<TlsStreamRef, HostError>,
}

/// A TLS client for hosts without TLS: it refuses every request.
#[derive(Clone, Debug, Default)]
pub struct UnavailableTlsClient;

impl UnavailableTlsClient {
    pub fn respond(&self, id: HostRequestId) -> (response: TlsConnectResponse)
        ensures
            response.id == id,
            response.result matches Err(e) && e.code == HostErrorCode::ProviderUnavailable
                && e.message@ == "TLS client is not configured"@,
    {
        TlsConnectResponse {
            id,
            result: Err(HostError::new(HostErrorCode::ProviderUnavailable, "TLS client is not configured")),
        }
    }
}

/// The TCP endpoint a TLS handshake runs over: only a stream of TCP origin
/// can be upgraded.
pub fn tcp_origin(stream: &ByteStreamRef) -> (endpoint: Result<(String, u16), HostError>)
    ensures
        match stream.spec_origin() {
            ByteStreamOrigin::Tcp { host, port } => endpoint matches Ok((h, p)) && h@ == host@ && p
                == port,
            _ => endpoint matches Err(e) && e.code == HostErrorCode::InvalidRequest && e.message@
                == "TLS handshake requires a TCP stream with typed TCP origin"@ && e.details@.len()
                == 1 && e.details@[0].0@ == "stream"@ && utf8(e.details@[0].1@) == handle_fingerprint(
                stream.spec_handle()@,
            ),
        },
{
    match stream.origin() {
        ByteStreamOrigin::Tcp { host, port } => Ok((host.clone(), *port)),
        _ => Err(
            HostError::new(
                HostErrorCode::InvalidRequest,
                "TLS handshake requires a TCP stream with typed TCP origin",
            ).with_detail("stream", stream.handle().identity_fingerprint()),
        ),
    }
}

/// The TCP endpoint a TLS handshake is authorized and run against: the
/// origin the stream store recorded for the stream, never the one the
/// request's reference carries. The request must still name a TCP stream,
/// and the recorded origin must be TCP.
pub fn tls_endpoint(stream: &ByteStreamRef, recorded: &ByteStreamOrigin) -> (endpoint: Result<(String, u16), HostError>)
    ensures
        match (stream.spec_origin(), *recorded) {
            (ByteStreamOrigin::Tcp { .. }, ByteStreamOrigin::Tcp { host, port }) => endpoint matches Ok(
                (h, p),
            ) && h@ == host@ && p == port,
            _ => endpoint matches Err(e) && e.code == HostErrorCode::InvalidRequest && e.message@
                == "TLS handshake requires a TCP stream with typed TCP origin"@ && e.details@.len()
                == 1 && e.details@[0].0@ == "stream"@ && utf8(e.details@[0].1@) == handle_fingerprint(
                stream.spec_handle()@,
            ),
        },
{
    match (stream.origin(), recorded) {
        (ByteStreamOrigin::Tcp { .. }, ByteStreamOrigin::Tcp { host, port }) => Ok((host.clone(), *port)),
        _ => Err(
            HostError::new(
                HostErrorCode::InvalidRequest,
                "TLS handshake requires a TCP stream with typed TCP origin",
            ).with_detail("stream", stream.handle().identity_fingerprint()),
        ),
    }
}

/// A refused upgrade, naming the stream it was refused for.
pub fn upgrade_refused(error: HostError, stream: &ByteStreamRef) -> (refused: HostError)
    ensures
        refused.code == error.code,
        refused.message@ == error.message@,
        refused.details@.len() == error.details@.len() + 1,
        refused.details@.last().0@ == "stream"@,
        utf8(refused.details@.last().1@) == handle_fingerprint(stream.spec_handle()@),
{
    error.with_detail("stream", stream.handle().identity_fingerprint())
}

/// A failed handshake, naming the endpoint and the server name.
pub fn handshake_failed(error: HostError, host: &str, port: u16, server_name: &str) -> (failed: HostError)
    ensures
        failed.code == error.code,
        failed.message@ == error.message@,
        failed.details@.len() == error.details@.len() + 3,
        failed.details@[error.details@.len() as int].0@ == "host"@,
        failed.details@[error.details@.len() as int].1@ == host@,
        failed.details@[error.details@.len() as int + 1].0@ == "port"@,
        failed.details@[error.details@.len() as int + 1].1@ == decimal(port as nat),
        failed.details@[error.details@.len() as int + 2].0@ == "server_name"@,
        failed.details@[error.details@.len() as int + 2].1@ == server_name@,
{
    error.with_detail("host", host.to_owned()).with_detail("port", decimal_text(port as u64)).with_detail(
        "server_name",
        server_name.to_owned(),
    )
}

/// The stream after a finished upgrade: the same token at the new
/// generation, of TLS origin over the same endpoint.
pub fn upgraded_stream(stream: &ByteStreamRef, generation: u64, host: &str, port: u16, server_name: &str) -> (upgraded: ByteStreamRef)
    ensures
        upgraded.spec_handle()@ == (stream.spec_handle()@.0, generation),
        upgraded.spec_origin() matches ByteStreamOrigin::Tls { host: h, port: p, server_name: Some(n) }
            && h@ == host@ && p == port && n@ == server_name@,
{
    ByteStreamRef::issued(
        StreamHandleRef::issued(stream.handle().token(), generation),
        ByteStreamOrigin::Tls {
            host: host.to_owned(),
            port,
            server_name: Some(server_name.to_owned()),
        },
    )
}

} // verus!
