//! The decisions of executing one stream request: which stream it names,
//! how its deadlines stand, and what each I/O result answers.
use crate::error::{details_view, HostError, HostErrorCode};
use crate::stream::{
    failure_of, handle_fingerprint, stream_timeout, time_budget_exceeded, unknown_stream, ByteStreamRef,
    StreamFailure, StreamOperation, StreamPayload, StreamRead,
};
use crate::text::{decimal, utf8};
use vstd::prelude::*;

verus! {

/// The stream an operation is on.
pub open spec fn operation_stream(op: StreamOperation) -> ByteStreamRef {
    match op {
        StreamOperation::Read { stream, .. } => stream,
        StreamOperation::ReadUntilLimit { stream, .. } => stream,
        StreamOperation::WriteAll { stream, .. } => stream,
        StreamOperation::Flush { stream } => stream,
        StreamOperation::Close { stream } => stream,
    }
}

/// The per-operation timeout: reads may have one, other operations do not.
pub open spec fn operation_timeout(op: StreamOperation) -> Option<u64> {
    match op {
        StreamOperation::Read { timeout_ms, .. } => timeout_ms,
        StreamOperation::ReadUntilLimit { timeout_ms, .. } => timeout_ms,
        _ => None,
    }
}

impl StreamOperation {
    pub fn stream(&self) -> (stream: &ByteStreamRef)
        ensures
            *stream == operation_stream(*self),
    {
        match self {
            StreamOperation::Read { stream, .. } => stream,
            StreamOperation::ReadUntilLimit { stream, .. } => stream,
            StreamOperation::WriteAll { stream, .. } => stream,
            StreamOperation::Flush { stream } => stream,
            StreamOperation::Close { stream } => stream,
        }
    }

    pub fn timeout_ms(&self) -> (timeout: Option<u64>)
        ensures
            timeout == operation_timeout(*self),
    {
        match self {
            StreamOperation::Read { timeout_ms, .. } => *timeout_ms,
            StreamOperation::ReadUntilLimit { timeout_ms, .. } => *timeout_ms,
            _ => None,
        }
    }
}

/// What a plain read answers: a read of zero bytes is empty data without
/// touching the stream; otherwise no bytes means the stream ended.
pub fn read_payload(max_bytes: usize, read: Vec<u8>) -> (payload: StreamPayload)
    ensures
        if max_bytes == 0 {
            payload matches StreamPayload::Read(StreamRead::Data(d)) && d@.len() == 0
        } else if read@.len() == 0 {
            payload == StreamPayload::Read(StreamRead::Eof)
        } else {
            payload matches StreamPayload::Read(StreamRead::Data(d)) && d@ == read@
        },
{
    if max_bytes == 0 {
        StreamPayload::Read(StreamRead::Data(Vec::new()))
    } else if read.len() == 0 {
        StreamPayload::Read(StreamRead::Eof)
    } else {
        StreamPayload::Read(StreamRead::Data(read))
    }
}

/// What an I/O step answers: success is its payload, an error the failure
/// it stands for.
pub fn io_result(result: Result<StreamPayload, HostError>) -> (answer: Result<StreamPayload, StreamFailure>)
    ensures
        match result {
            Ok(p) => answer == Ok::<StreamPayload, StreamFailure>(p),
            Err(e) => answer == Err::<StreamPayload, StreamFailure>(failure_of(e)),
        },
{
    match result {
        Ok(p) => Ok(p),
        Err(e) => Err(StreamFailure::from_host(e)),
    }
}

/// What a request on a stream the store does not hold answers.
pub fn unknown_stream_result(stream: &ByteStreamRef) -> (answer: Result<StreamPayload, StreamFailure>)
    ensures
        answer matches Err(StreamFailure::Host(e)) && e.code == HostErrorCode::InvalidRequest
            && e.message@ == "unknown byte stream"@ && e.details@.len() == 1 && e.details@[0].0@
            == "stream"@ && utf8(e.details@[0].1@) == handle_fingerprint(stream.spec_handle()@),
{
    Err(StreamFailure::Host(unknown_stream(stream.handle())))
}

/// How the deadlines of one operation stand when it is about to wait.
pub struct DeadlineStatus {
    /// The budget could not give a deadline.
    pub budget_error: Option<HostError>,
    /// The operation timeout fits the runtime clock.
    pub operation_deadline_valid: bool,
    /// The budget deadline has passed.
    pub budget_expired: bool,
    /// The operation deadline has passed.
    pub operation_expired: bool,
    pub operation_timeout_ms: Option<u64>,
}

/// Checks the deadlines before waiting, in order: a budget that gave no
/// deadline, an operation timeout beyond the clock, a passed budget, a
/// passed operation deadline.
pub fn check_expired_deadlines(status: &DeadlineStatus) -> (checked: Result<(), HostError>)
    ensures
        match status.budget_error {
            Some(b) => checked matches Err(e) && e.code == b.code && e.message@ == b.message@
                && details_view(e.details@) == details_view(b.details@),
            None => if !status.operation_deadline_valid {
                checked matches Err(e) && e.code == HostErrorCode::InvalidRequest && e.message@
                    == "stream operation timeout exceeds the runtime clock range"@
            } else if status.budget_expired {
                checked matches Err(e) && e.code == HostErrorCode::BudgetExceeded && e.message@
                    == "host operation exceeded its time budget"@
            } else if status.operation_expired {
                checked matches Err(e) && e.code == HostErrorCode::TimedOut && e.message@
                    == "byte stream operation timed out"@ && e.details@.len() == 1
                    && e.details@[0].0@ == "timeout_ms"@ && e.details@[0].1@ == decimal(
                    match status.operation_timeout_ms {
                        Some(t) => t as nat,
                        None => 0,
                    },
                )
            } else {
                checked is Ok
            },
        },
{
    match &status.budget_error {
        Some(error) => {
            return Err(error.clone());
        },
        None => {},
    }
    if !status.operation_deadline_valid {
        return Err(
            HostError::new(
                HostErrorCode::InvalidRequest,
                "stream operation timeout exceeds the runtime clock range",
            ),
        );
    }
    if status.budget_expired {
        return Err(time_budget_exceeded());
    }
    if status.operation_expired {
        return Err(stream_timeout(status.operation_timeout_ms));
    }
    Ok(())
}

} // verus!
