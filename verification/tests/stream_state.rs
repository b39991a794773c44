use etas_host::stream::buffer::{BufferedRead, ReadStep, ReadUntilLimit, StreamReadBuffer, READ_CHUNK_BYTES};
use etas_host::stream::request::{
    check_expired_deadlines, io_result, read_payload, unknown_stream_result, DeadlineStatus,
};
use etas_host::stream::slot::{StreamLifecycle, StreamSlotState};
use etas_host::stream::{
    random_stream_token, stale_stream, stream_io_error, stream_timeout, unknown_stream,
    StreamIoKind,
};
use etas_host::{
    ByteStreamOrigin, ByteStreamRef, HostError, HostErrorCode, HostRequestId, StreamFailure,
    StreamHandleRef, StreamOperation, StreamPayload, StreamRead, UnavailableStreamClient,
};

fn handle(generation: u64) -> StreamHandleRef {
    StreamHandleRef::issued("token", generation)
}

#[test]
fn handle_fingerprint_is_stable_hex_and_generation_bound() {
    let first = handle(0).identity_fingerprint();
    assert_eq!(first.len(), 64);
    assert!(first.bytes().all(|b| b.is_ascii_digit() || (b'a'..=b'f').contains(&b)));
    assert_eq!(first, handle(0).identity_fingerprint());
    assert_ne!(first, handle(1).identity_fingerprint());
    assert!(!first.contains("token"));
}

#[test]
fn byte_stream_refs_keep_handle_and_origin() {
    let stream = ByteStreamRef::opaque_for_testing("t", 3);
    assert_eq!(stream.handle().generation(), 3);
    assert_eq!(stream.handle().token(), "t");
    assert_eq!(stream.origin(), &ByteStreamOrigin::Opaque);
    let tcp = ByteStreamRef::issued(
        handle(1),
        ByteStreamOrigin::Tcp {
            host: "h".to_owned(),
            port: 1,
        },
    );
    assert!(tcp.handle() == &handle(1));
}

#[test]
fn random_stream_tokens_are_hex_and_distinct() {
    let first = random_stream_token().expect("token");
    let second = random_stream_token().expect("token");
    assert_eq!(first.len(), 32);
    assert!(first.bytes().all(|b| b.is_ascii_digit() || (b'a'..=b'f').contains(&b)));
    assert_ne!(first, second);
}

#[test]
fn host_errors_map_to_stream_failures() {
    let failure = |code| StreamFailure::from_host(HostError::new(code, "x"));
    assert_eq!(failure(HostErrorCode::TimedOut), StreamFailure::TimedOut);
    assert_eq!(failure(HostErrorCode::Cancelled), StreamFailure::Cancelled);
    assert_eq!(failure(HostErrorCode::Closed), StreamFailure::Closed);
    assert_eq!(failure(HostErrorCode::Interrupted), StreamFailure::Interrupted);
    assert_eq!(
        failure(HostErrorCode::InvalidRequest),
        StreamFailure::Host(HostError::new(HostErrorCode::InvalidRequest, "x"))
    );
}

#[test]
fn stream_errors_carry_their_details() {
    let stale = stale_stream(&handle(1), 4);
    assert_eq!(stale.code, HostErrorCode::Closed);
    assert_eq!(stale.message, "byte stream handle generation is stale");
    assert_eq!(stale.details[0], ("stream".to_owned(), handle(1).identity_fingerprint()));
    assert_eq!(stale.details[1], ("actual_generation".to_owned(), "4".to_owned()));
    let unknown = unknown_stream(&handle(2));
    assert_eq!(unknown.message, "unknown byte stream");
    assert_eq!(
        stream_timeout(Some(1500)).details,
        vec![("timeout_ms".to_owned(), "1500".to_owned())]
    );
    assert_eq!(stream_timeout(None).details[0].1, "0");
    let io = stream_io_error("stream read failed", StreamIoKind::ConnectionReset, "reset".to_owned());
    assert_eq!(io.code, HostErrorCode::Closed);
    assert_eq!(io.details, vec![("error".to_owned(), "reset".to_owned())]);
    assert_eq!(
        stream_io_error("m", StreamIoKind::WouldBlock, String::new()).code,
        HostErrorCode::TimedOut
    );
    assert_eq!(
        stream_io_error("m", StreamIoKind::Interrupted, String::new()).code,
        HostErrorCode::Interrupted
    );
    assert_eq!(
        stream_io_error("m", StreamIoKind::Other, String::new()).code,
        HostErrorCode::ProviderUnavailable
    );
}

#[test]
fn unavailable_stream_client_refuses_with_limit_or_configuration_error() {
    let client = UnavailableStreamClient::new(10);
    let stream = ByteStreamRef::opaque_for_testing("t", 0);
    let big_read = StreamOperation::Read {
        stream: stream.clone(),
        max_bytes: 11,
        timeout_ms: None,
    };
    let response = client.respond(HostRequestId(7), &big_read);
    assert_eq!(response.id, HostRequestId(7));
    assert_eq!(response.result, Err(StreamFailure::LimitExceeded { limit_bytes: 10 }));
    let big_until = StreamOperation::ReadUntilLimit {
        stream: stream.clone(),
        limit_bytes: 11,
        timeout_ms: Some(5),
    };
    assert_eq!(
        client.respond(HostRequestId(1), &big_until).result,
        Err(StreamFailure::LimitExceeded { limit_bytes: 10 })
    );
    let small = StreamOperation::Read { stream, max_bytes: 10, timeout_ms: None };
    match client.respond(HostRequestId(2), &small).result {
        Err(StreamFailure::Host(error)) => {
            assert_eq!(error.code, HostErrorCode::ProviderUnavailable);
            assert_eq!(error.message, "stream client is not configured");
        }
        other => panic!("unexpected {other:?}"),
    }
    let default_client = UnavailableStreamClient::default();
    let under = StreamOperation::Read {
        stream: ByteStreamRef::opaque_for_testing("t", 0),
        max_bytes: 1024 * 1024,
        timeout_ms: None,
    };
    assert!(matches!(
        default_client.respond(HostRequestId(3), &under).result,
        Err(StreamFailure::Host(_))
    ));
}

#[test]
fn close_is_final_and_a_second_close_is_refused() {
    let mut slot = StreamSlotState::new(false);
    assert_eq!(slot.lifecycle(), StreamLifecycle::OpenTcp);
    slot.begin_close(&handle(0)).expect("first close");
    assert_eq!(slot.lifecycle(), StreamLifecycle::Closing);
    let error = slot.begin_close(&handle(0)).unwrap_err();
    assert_eq!(error.message, "byte stream is closed");
    slot.finish_close();
    assert_eq!(slot.lifecycle(), StreamLifecycle::Closed);
    assert!(slot.check_usable(&handle(0)).is_err());
    assert!(slot.begin_tls_upgrade(&handle(0), true, true).is_err());
}

#[test]
fn stale_stream_generation_is_rejected() {
    let mut slot = StreamSlotState::new(false);
    slot.begin_tls_upgrade(&handle(0), true, true).expect("upgrade starts");
    assert_eq!(slot.lifecycle(), StreamLifecycle::Upgrading);
    assert!(slot.check_usable(&handle(0)).is_err());
    let generation = slot.finish_tls_upgrade().expect("upgrade finishes");
    assert_eq!(generation, 1);
    assert_eq!(slot.lifecycle(), StreamLifecycle::OpenTls);
    let error = slot.check_usable(&handle(0)).unwrap_err();
    assert_eq!(error, stale_stream(&handle(0), 1));
    assert!(slot.begin_close(&handle(0)).is_err());
    assert!(slot.check_usable(&handle(1)).is_ok());
    assert!(slot.validate_generation(&handle(1)).is_ok());
}

#[test]
fn close_during_tls_upgrade_cancels_handshake_without_stream_resurrection() {
    let mut slot = StreamSlotState::new(false);
    slot.begin_tls_upgrade(&handle(0), true, true).expect("upgrade starts");
    slot.begin_close(&handle(0)).expect("close during upgrade");
    let error = slot.finish_tls_upgrade().unwrap_err();
    assert_eq!(error.code, HostErrorCode::Cancelled);
    assert_eq!(slot.lifecycle(), StreamLifecycle::Closed);
    assert_eq!(slot.generation(), 0);
}

#[test]
fn tls_upgrade_requires_idle_unread_tcp() {
    let mut slot = StreamSlotState::new(false);
    let busy = slot.begin_tls_upgrade(&handle(0), false, true).unwrap_err();
    assert_eq!(busy.message, "TLS handshake requires an idle TCP stream");
    let buffered = slot.validate_tls_upgrade(&handle(0), true, false).unwrap_err();
    assert_eq!(buffered.message, "TLS handshake requires an unread plain TCP stream");
    assert_eq!(slot.lifecycle(), StreamLifecycle::OpenTcp);
    let tls = StreamSlotState::new(true);
    assert!(tls.validate_tls_upgrade(&handle(0), true, true).is_err());
    let mut failing = StreamSlotState::new(false);
    failing.begin_tls_upgrade(&handle(0), true, true).expect("upgrade starts");
    failing.fail_tls_upgrade();
    assert_eq!(failing.lifecycle(), StreamLifecycle::Closed);
}

#[test]
fn prepended_bytes_are_read_first() {
    let mut buffer = StreamReadBuffer::new();
    assert!(buffer.is_empty());
    buffer.prepend(vec![3, 4]);
    buffer.prepend(vec![1, 2]);
    assert_eq!(buffer.read_from_buffer(3), vec![1, 2, 3]);
    assert_eq!(buffer.read_from_buffer(10), vec![4]);
    assert!(buffer.is_empty());
    assert_eq!(buffer.read_from_buffer(10), Vec::<u8>::new());
}

#[test]
fn read_until_limit_accumulates_until_eof() {
    let mut reader = ReadUntilLimit::new(10);
    assert_eq!(reader.next_read(), Some(11));
    assert!(matches!(reader.on_data(b"abc"), ReadStep::Continue));
    assert_eq!(reader.next_read(), Some(8));
    assert!(matches!(reader.on_data(b"de"), ReadStep::Continue));
    assert_eq!(
        reader.on_eof(),
        StreamPayload::Read(StreamRead::Data(b"abcde".to_vec()))
    );
    assert_eq!(ReadUntilLimit::new(4).on_eof(), StreamPayload::Read(StreamRead::Eof));
}

#[test]
fn read_until_limit_fails_when_body_exceeds_limit() {
    let mut reader = ReadUntilLimit::new(4);
    assert!(matches!(reader.on_data(b"ab"), ReadStep::Continue));
    match reader.on_data(b"cde") {
        ReadStep::Failed { failure, unread } => {
            assert_eq!(failure, StreamFailure::LimitExceeded { limit_bytes: 4 });
            assert_eq!(unread, b"abcde".to_vec());
        }
        _ => panic!("a body beyond the limit fails"),
    }
}

#[test]
fn read_until_limit_stops_at_the_limit_and_returns_bytes_on_error() {
    let mut reader = ReadUntilLimit::new(3);
    assert!(matches!(reader.on_data(b"abc"), ReadStep::Continue));
    assert_eq!(reader.next_read(), None);
    assert_eq!(reader.finish(), StreamPayload::Read(StreamRead::Data(b"abc".to_vec())));
    let mut reader = ReadUntilLimit::new(100_000);
    assert_eq!(reader.next_read(), Some(READ_CHUNK_BYTES));
    assert!(matches!(reader.on_data(b"x"), ReadStep::Continue));
    let (failure, unread) = reader.on_error(HostError::new(HostErrorCode::Closed, "gone"));
    assert_eq!(failure, StreamFailure::Closed);
    assert_eq!(unread, b"x".to_vec());
    assert_eq!(ReadUntilLimit::new(0).next_read(), None);
}

#[test]
fn zero_length_read_returns_empty_data_without_consuming_eof() {
    assert_eq!(
        read_payload(0, Vec::new()),
        StreamPayload::Read(StreamRead::Data(Vec::new()))
    );
    assert_eq!(read_payload(5, Vec::new()), StreamPayload::Read(StreamRead::Eof));
    assert_eq!(
        read_payload(5, vec![1, 2]),
        StreamPayload::Read(StreamRead::Data(vec![1, 2]))
    );
    assert_eq!(
        io_result(Err(HostError::new(HostErrorCode::TimedOut, "late"))),
        Err(StreamFailure::TimedOut)
    );
    assert_eq!(io_result(Ok(StreamPayload::Unit)), Ok(StreamPayload::Unit));
}

#[test]
fn unknown_stream_is_distinct_from_closed_stream() {
    let stream = ByteStreamRef::opaque_for_testing("missing", 0);
    match unknown_stream_result(&stream) {
        Err(StreamFailure::Host(error)) => {
            assert_eq!(error.code, HostErrorCode::InvalidRequest);
            assert_eq!(error.message, "unknown byte stream");
        }
        other => panic!("unexpected {other:?}"),
    }
    let op = StreamOperation::ReadUntilLimit { stream: stream.clone(), limit_bytes: 1, timeout_ms: Some(9) };
    assert!(op.stream() == &stream);
    assert_eq!(op.timeout_ms(), Some(9));
    assert_eq!(StreamOperation::Flush { stream }.timeout_ms(), None);
}

#[test]
fn stream_operation_timeout_has_typed_error_code() {
    let status = |budget_expired, operation_expired| DeadlineStatus {
        budget_error: None,
        operation_deadline_valid: true,
        budget_expired,
        operation_expired,
        operation_timeout_ms: Some(25),
    };
    assert!(check_expired_deadlines(&status(false, false)).is_ok());
    let error = check_expired_deadlines(&status(false, true)).unwrap_err();
    assert_eq!(error.code, HostErrorCode::TimedOut);
    assert_eq!(error.details[0].1, "25");
    let error = check_expired_deadlines(&status(true, true)).unwrap_err();
    assert_eq!(error.code, HostErrorCode::BudgetExceeded);
    let mut invalid = status(false, false);
    invalid.operation_deadline_valid = false;
    assert_eq!(
        check_expired_deadlines(&invalid).unwrap_err().message,
        "stream operation timeout exceeds the runtime clock range"
    );
    let mut failed = status(true, true);
    failed.budget_error = Some(HostError::new(HostErrorCode::InvalidRequest, "bad budget"));
    assert_eq!(
        check_expired_deadlines(&failed).unwrap_err(),
        HostError::new(HostErrorCode::InvalidRequest, "bad budget")
    );
}

#[test]
fn handle_fingerprint_is_blake3_of_token_and_generation() {
    let mut input = b"token".to_vec();
    input.extend_from_slice(&7u64.to_le_bytes());
    assert_eq!(
        handle(7).identity_fingerprint(),
        blake3::hash(&input).to_hex().to_string()
    );
}

#[test]
fn zero_length_read_is_served_empty_and_consumes_nothing() {
    let mut buffer = StreamReadBuffer::new();
    assert!(matches!(buffer.serve(4), BufferedRead::FromStream));
    buffer.prepend(b"xyz".to_vec());
    assert!(matches!(buffer.serve(0), BufferedRead::Served(bytes) if bytes.is_empty()));
    assert!(matches!(buffer.serve(2), BufferedRead::Served(bytes) if bytes == b"xy".to_vec()));
    assert!(matches!(buffer.serve(5), BufferedRead::Served(bytes) if bytes == b"z".to_vec()));
    assert!(matches!(buffer.serve(5), BufferedRead::FromStream));
}

#[test]
fn bytes_read_past_the_limit_are_served_again_in_order() {
    let mut reader = ReadUntilLimit::new(2);
    let ReadStep::Failed { failure, unread } = reader.on_data(b"abc") else {
        panic!("a body past the limit fails");
    };
    assert_eq!(failure, StreamFailure::LimitExceeded { limit_bytes: 2 });
    let mut buffer = StreamReadBuffer::new();
    buffer.prepend(unread);
    assert!(matches!(buffer.serve(3), BufferedRead::Served(bytes) if bytes == b"abc".to_vec()));
}
