//! Byte streams: capability handles, operations and their results, the
//! lifecycle of one stream slot, and the read buffer a stream keeps.
pub mod buffer;
pub mod request;
pub mod slot;

use crate::digest::{blake3_digest, blake3_hash};
use crate::entropy::random_16;
use crate::error::{HostError, HostErrorCode};
use crate::storage::version::hex_string;
use crate::text::{
    all_hex, decimal, decimal_text, hex_bytes, le_bytes, lemma_hex_bytes, push_bytes, push_le, utf8,
};
use crate::value::HostRequestId;
use vstd::prelude::*;

verus! {

broadcast use {vstd::std_specs::vec::group_vec_axioms, vstd::seq::group_seq_axioms};

/// A capability for one managed stream: an unguessable token and the
/// generation of the stream it was issued for.
#[derive(PartialEq, Eq, Hash)]
pub struct StreamHandleRef {
    token: String,
    generation: u64,
}

impl View for StreamHandleRef {
    type V = (Seq<char>, u64);

    closed spec fn view(&self) -> (Seq<char>, u64) {
        (self.token@, self.generation)
    }
}

impl Clone for StreamHandleRef {
    fn clone(&self) -> (copy: StreamHandleRef)
        ensures
            copy@ == self@,
    {
        StreamHandleRef { token: self.token.clone(), generation: self.generation }
    }
}

/// What the identity fingerprint of a handle hashes: the token's bytes and
/// the generation as 8 little-endian bytes.
pub open spec fn fingerprint_input(handle: (Seq<char>, u64)) -> Seq<u8> {
    utf8(handle.0) + le_bytes(handle.1 as nat, 8)
}

/// The identity fingerprint of a handle: lowercase hexadecimal BLAKE3 of
/// [`fingerprint_input`]. It names a stream in errors without revealing the
/// token.
pub open spec fn handle_fingerprint(handle: (Seq<char>, u64)) -> Seq<u8> {
    hex_bytes(blake3_digest(fingerprint_input(handle)))
}

impl StreamHandleRef {
    pub fn issued(token: &str, generation: u64) -> (handle: StreamHandleRef)
        ensures
            handle@ == (token@, generation),
    {
        StreamHandleRef { token: token.to_owned(), generation }
    }

    pub fn generation(&self) -> (generation: u64)
        ensures
            generation == self@.1,
    {
        self.generation
    }

    pub fn token(&self) -> (token: &str)
        ensures
            token@ == self@.0,
    {
        self.token.as_str()
    }

    pub fn identity_fingerprint(&self) -> (fingerprint: String)
        ensures
            utf8(fingerprint@) == handle_fingerprint(self@),
            utf8(fingerprint@).len() == 64,
            all_hex(utf8(fingerprint@)),
    {
        let mut input: Vec<u8> = Vec::new();
        push_bytes(&mut input, self.token.as_str().as_bytes());
        push_le(&mut input, self.generation, 8);
        let digest = blake3_hash(input.as_slice());
        assert(digest@ =~= blake3_digest(input@));
        proof {
            lemma_hex_bytes(digest@);
        }
        hex_string(&digest)
    }
}

/// Where a managed stream came from.
#[derive(Clone, Debug, PartialEq, Eq)]
pub enum ByteStreamOrigin {
    Tcp { host: String, port: u16 },
    Tls { host: String, port: u16, server_name: Option<String> },
    File { path: String },
    Browser { session: String },
    Opaque,
}

/// A byte stream as language code holds it: the handle and the origin.
#[derive(Clone, PartialEq, Eq)]
pub struct ByteStreamRef {
    handle: StreamHandleRef,
    origin: ByteStreamOrigin,
}

impl ByteStreamRef {
    pub closed spec fn spec_handle(&self) -> StreamHandleRef {
        self.handle
    }

    pub closed spec fn spec_origin(&self) -> ByteStreamOrigin {
        self.origin
    }

    pub fn issued(handle: StreamHandleRef, origin: ByteStreamOrigin) -> (stream: ByteStreamRef)
        ensures
            stream.spec_handle() == handle,
            stream.spec_origin() == origin,
    {
        ByteStreamRef { handle, origin }
    }

    /// A reference to an opaque stream, for tests that never reach a real one.
    pub fn opaque_for_testing(token: &str, generation: u64) -> (stream: ByteStreamRef)
        ensures
            stream.spec_handle()@ == (token@, generation),
            stream.spec_origin() == ByteStreamOrigin::Opaque,
    {
        ByteStreamRef::issued(StreamHandleRef::issued(token, generation), ByteStreamOrigin::Opaque)
    }

    pub fn handle(&self) -> (handle: &StreamHandleRef)
        ensures
            *handle == self.spec_handle(),
    {
        &self.handle
    }

    pub fn origin(&self) -> (origin: &ByteStreamOrigin)
        ensures
            *origin == self.spec_origin(),
    {
        &self.origin
    }
}

/// One operation on a managed stream.
#[derive(Clone, PartialEq, Eq)]
pub enum StreamOperation {
    Read { stream: ByteStreamRef, max_bytes: usize, timeout_ms: Option<u64> },
    ReadUntilLimit { stream: ByteStreamRef, limit_bytes: usize, timeout_ms: Option<u64> },
    WriteAll { stream: ByteStreamRef, body: Vec<u8> },
    Flush { stream: ByteStreamRef },
    Close { stream: ByteStreamRef },
}

/// The bytes a read produced, or the end of the stream.
#[derive(Clone, Debug, PartialEq, Eq)]
pub enum StreamRead {
    Data(Vec<u8>),
    Eof,
}

/// What a successful stream operation returns.
#[derive(Clone, Debug, PartialEq, Eq)]
pub enum StreamPayload {
    Read(StreamRead),
    Unit,
}

/// How a stream operation failed.
#[derive(Clone, Debug, PartialEq)]
pub enum StreamFailure {
    TimedOut,
    Cancelled,
    Closed,
    Interrupted,
    LimitExceeded { limit_bytes: usize },
    Host(HostError),
}

/// The answer to one stream request.
#[derive(Debug, PartialEq)]
pub struct StreamResponse {
    pub id: HostRequestId,
    pub result: Result<StreamPayload, StreamFailure>,
}

/// The failure that a host error stands for: the four stream conditions
/// become their own variants, anything else stays a host error.
pub open spec fn failure_of(error: HostError) -> StreamFailure {
    match error.code {
        HostErrorCode::TimedOut => StreamFailure::TimedOut,
        HostErrorCode::Cancelled => StreamFailure::Cancelled,
        HostErrorCode::Closed => StreamFailure::Closed,
        HostErrorCode::Interrupted => StreamFailure::Interrupted,
        _ => StreamFailure::Host(error),
    }
}

impl StreamFailure {
    pub fn from_host(error: HostError) -> (failure: StreamFailure)
        ensures
            failure == failure_of(error),
    {
        match error.code {
            HostErrorCode::TimedOut => StreamFailure::TimedOut,
            HostErrorCode::Cancelled => StreamFailure::Cancelled,
            HostErrorCode::Closed => StreamFailure::Closed,
            HostErrorCode::Interrupted => StreamFailure::Interrupted,
            _ => StreamFailure::Host(error),
        }
    }
}

/// A stream client for hosts without streams: it refuses every operation.
#[derive(Clone, Debug)]
pub struct UnavailableStreamClient {
    max_read_bytes: usize,
}

/// The error of a stream client that is not configured.
pub open spec fn is_unconfigured_error(e: HostError) -> bool {
    &&& e.code == HostErrorCode::ProviderUnavailable
    &&& e.message@ == "stream client is not configured"@
    &&& e.details@.len() == 0
}

impl Default for UnavailableStreamClient {
    fn default() -> (client: UnavailableStreamClient)
        ensures
            client.max_read_bytes() == 1048576,
    {
        UnavailableStreamClient { max_read_bytes: 1024 * 1024 }
    }
}

impl UnavailableStreamClient {
    pub closed spec fn max_read_bytes(&self) -> usize {
        self.max_read_bytes
    }

    pub fn new(max_read_bytes: usize) -> (client: UnavailableStreamClient)
        ensures
            client.max_read_bytes() == max_read_bytes,
    {
        UnavailableStreamClient { max_read_bytes }
    }

    /// The answer to a request: a read asking for more than the read limit
    /// fails with that limit; everything else fails as not configured.
    pub fn respond(&self, id: HostRequestId, operation: &StreamOperation) -> (response: StreamResponse)
        ensures
            response.id == id,
            match *operation {
                StreamOperation::Read { max_bytes, .. } if max_bytes > self.max_read_bytes() =>
                    response.result == Err::<StreamPayload, StreamFailure>(
                    StreamFailure::LimitExceeded { limit_bytes: self.max_read_bytes() },
                ),
                StreamOperation::ReadUntilLimit { limit_bytes, .. } if limit_bytes
                    > self.max_read_bytes() => response.result == Err::<StreamPayload, StreamFailure>(
                    StreamFailure::LimitExceeded { limit_bytes: self.max_read_bytes() },
                ),
                _ => response.result matches Err(StreamFailure::Host(e)) && is_unconfigured_error(e),
            },
    {
        let max = self.max_read_bytes;
        match operation {
            StreamOperation::Read { max_bytes, .. } => {
                if *max_bytes > max {
                    return StreamResponse {
                        id,
                        result: Err(StreamFailure::LimitExceeded { limit_bytes: max }),
                    };
                }
            },
            StreamOperation::ReadUntilLimit { limit_bytes, .. } => {
                if *limit_bytes > max {
                    return StreamResponse {
                        id,
                        result: Err(StreamFailure::LimitExceeded { limit_bytes: max }),
                    };
                }
            },
            _ => {},
        }
        StreamResponse {
            id,
            result: Err(
                StreamFailure::Host(
                    HostError::new(
                        HostErrorCode::ProviderUnavailable,
                        "stream client is not configured",
                    ),
                ),
            ),
        }
    }
}

/// A fresh stream capability token: sixteen random bytes in lowercase
/// hexadecimal. Nothing is stated of the bytes; the token is 32 hex digits.
pub fn random_stream_token() -> (token: Result<String, HostError>)
    ensures
        match token {
            Ok(t) => utf8(t@).len() == 32 && all_hex(utf8(t@)),
            Err(e) => e.code == HostErrorCode::ProviderUnavailable && e.message@
                == "failed to generate byte stream capability token"@ && e.details@.len() == 1
                && e.details@[0].0@ == "error"@,
        },
{
    match random_16() {
        Ok(bytes) => {
            proof {
                lemma_hex_bytes(bytes@);
            }
            Ok(hex_string(bytes.as_slice()))
        },
        Err(text) => Err(
            HostError::new(
                HostErrorCode::ProviderUnavailable,
                "failed to generate byte stream capability token",
            ).with_detail("error", text),
        ),
    }
}

pub fn unknown_stream(handle: &StreamHandleRef) -> (error: HostError)
    ensures
        error.code == HostErrorCode::InvalidRequest,
        error.message@ == "unknown byte stream"@,
        error.details@.len() == 1,
        error.details@[0].0@ == "stream"@,
        utf8(error.details@[0].1@) == handle_fingerprint(handle@),
{
    HostError::new(HostErrorCode::InvalidRequest, "unknown byte stream").with_detail(
        "stream",
        handle.identity_fingerprint(),
    )
}

/// The error for a handle whose generation is not the stream's current one.
pub open spec fn is_stale_error(e: HostError, handle: (Seq<char>, u64), actual: u64) -> bool {
    &&& e.code == HostErrorCode::Closed
    &&& e.message@ == "byte stream handle generation is stale"@
    &&& e.details@.len() == 2
    &&& e.details@[0].0@ == "stream"@
    &&& utf8(e.details@[0].1@) == handle_fingerprint(handle)
    &&& e.details@[1].0@ == "actual_generation"@
    &&& e.details@[1].1@ == decimal(actual as nat)
}

pub fn stale_stream(handle: &StreamHandleRef, actual_generation: u64) -> (error: HostError)
    ensures
        is_stale_error(error, handle@, actual_generation),
{
    HostError::new(HostErrorCode::Closed, "byte stream handle generation is stale").with_detail(
        "stream",
        handle.identity_fingerprint(),
    ).with_detail("actual_generation", decimal_text(actual_generation))
}

pub open spec fn is_closed_error(e: HostError) -> bool {
    &&& e.code == HostErrorCode::Closed
    &&& e.message@ == "byte stream is closed"@
    &&& e.details@.len() == 0
}

pub fn stream_closed() -> (error: HostError)
    ensures
        is_closed_error(error),
{
    HostError::new(HostErrorCode::Closed, "byte stream is closed")
}

pub open spec fn is_cancelled_error(e: HostError) -> bool {
    &&& e.code == HostErrorCode::Cancelled
    &&& e.message@ == "byte stream operation was cancelled"@
    &&& e.details@.len() == 0
}

pub fn stream_cancelled() -> (error: HostError)
    ensures
        is_cancelled_error(error),
{
    HostError::new(HostErrorCode::Cancelled, "byte stream operation was cancelled")
}

pub fn time_budget_exceeded() -> (error: HostError)
    ensures
        error.code == HostErrorCode::BudgetExceeded,
        error.message@ == "host operation exceeded its time budget"@,
        error.details@.len() == 0,
{
    HostError::new(HostErrorCode::BudgetExceeded, "host operation exceeded its time budget")
}

/// The timeout error; its detail is the timeout in milliseconds (0 when the
/// operation had none).
pub fn stream_timeout(timeout_ms: Option<u64>) -> (error: HostError)
    ensures
        error.code == HostErrorCode::TimedOut,
        error.message@ == "byte stream operation timed out"@,
        error.details@.len() == 1,
        error.details@[0].0@ == "timeout_ms"@,
        error.details@[0].1@ == decimal(
            match timeout_ms {
                Some(t) => t as nat,
                None => 0,
            },
        ),
{
    let millis = match timeout_ms {
        Some(t) => t,
        None => 0,
    };
    HostError::new(HostErrorCode::TimedOut, "byte stream operation timed out").with_detail(
        "timeout_ms",
        decimal_text(millis),
    )
}

/// The kinds of I/O failure a stream distinguishes.
#[derive(Clone, Copy, Debug, PartialEq, Eq, Structural)]
pub enum StreamIoKind {
    TimedOut,
    WouldBlock,
    Interrupted,
    BrokenPipe,
    ConnectionAborted,
    ConnectionReset,
    NotConnected,
    UnexpectedEof,
    WriteZero,
    Other,
}

/// The kinds of I/O failure that mean the peer is gone: the pipe is broken,
/// the connection was aborted, reset or never made, the stream ended early,
/// or a write could not place a byte.
pub open spec fn peer_gone(kind: StreamIoKind) -> bool {
    ||| kind == StreamIoKind::BrokenPipe
    ||| kind == StreamIoKind::ConnectionAborted
    ||| kind == StreamIoKind::ConnectionReset
    ||| kind == StreamIoKind::NotConnected
    ||| kind == StreamIoKind::UnexpectedEof
    ||| kind == StreamIoKind::WriteZero
}

/// A failure that means the peer is gone is reported as a closed stream,
/// and only such a failure is: a timeout, an interruption or any other
/// failure keeps its own code.
pub proof fn lemma_peer_gone_is_closed(kind: StreamIoKind)
    ensures
        peer_gone(kind) <==> io_code(kind) == HostErrorCode::Closed,
        io_code(StreamIoKind::BrokenPipe) == HostErrorCode::Closed,
        io_code(StreamIoKind::ConnectionAborted) == HostErrorCode::Closed,
        io_code(StreamIoKind::ConnectionReset) == HostErrorCode::Closed,
        io_code(StreamIoKind::NotConnected) == HostErrorCode::Closed,
        io_code(StreamIoKind::UnexpectedEof) == HostErrorCode::Closed,
        io_code(StreamIoKind::WriteZero) == HostErrorCode::Closed,
        kind == StreamIoKind::Other ==> io_code(kind) == HostErrorCode::ProviderUnavailable,
{
}

/// The error code an I/O failure of this kind is reported with.
pub open spec fn io_code(kind: StreamIoKind) -> HostErrorCode {
    match kind {
        StreamIoKind::TimedOut | StreamIoKind::WouldBlock => HostErrorCode::TimedOut,
        StreamIoKind::Interrupted => HostErrorCode::Interrupted,
        StreamIoKind::BrokenPipe | StreamIoKind::ConnectionAborted | StreamIoKind::ConnectionReset
        | StreamIoKind::NotConnected | StreamIoKind::UnexpectedEof | StreamIoKind::WriteZero =>
            HostErrorCode::Closed,
        StreamIoKind::Other => HostErrorCode::ProviderUnavailable,
    }
}

/// The error for a failed stream I/O call: its code by [`io_code`], the
/// operation's message, and the I/O error's text as detail.
pub fn stream_io_error(message: &str, kind: StreamIoKind, text: String) -> (error: HostError)
    ensures
        error.code == io_code(kind),
        (kind == StreamIoKind::BrokenPipe || kind == StreamIoKind::ConnectionAborted || kind
            == StreamIoKind::ConnectionReset || kind == StreamIoKind::NotConnected || kind
            == StreamIoKind::UnexpectedEof || kind == StreamIoKind::WriteZero) ==> error.code
            == HostErrorCode::Closed,
        (kind == StreamIoKind::TimedOut || kind == StreamIoKind::WouldBlock) ==> error.code
            == HostErrorCode::TimedOut,
        kind == StreamIoKind::Interrupted ==> error.code == HostErrorCode::Interrupted,
        kind == StreamIoKind::Other ==> error.code == HostErrorCode::ProviderUnavailable,
        error.message@ == message@,
        error.details@.len() == 1,
        error.details@[0].0@ == "error"@,
        error.details@[0].1@ == text@,
{
    let code = match kind {
        StreamIoKind::TimedOut | StreamIoKind::WouldBlock => HostErrorCode::TimedOut,
        StreamIoKind::Interrupted => HostErrorCode::Interrupted,
        StreamIoKind::BrokenPipe | StreamIoKind::ConnectionAborted | StreamIoKind::ConnectionReset
        | StreamIoKind::NotConnected | StreamIoKind::UnexpectedEof | StreamIoKind::WriteZero =>
            HostErrorCode::Closed,
        StreamIoKind::Other => HostErrorCode::ProviderUnavailable,
    };
    HostError::new(code, message).with_detail("error", text)
}

} // verus!
