use etas_host::session::flow::{
    context_decision, history_identity_check, history_opening_bytes, history_page_fits,
    scan_query_limit, summary_count, retention_next_after,
    retention_scan_step, rollback_outcome, stored_context_status, stored_retention_progress,
    summary_pair, write_step, ContextDecision, RetentionProgress,
    StoredContext, WriteAction, WriteEvent, WriteStage,
};
use etas_host::session::flow::{check_decoded_message, check_stored_row, stored_row_bytes, dispatch_failure, DispatchFailure, PendingMutation, SessionContextRejection};
use etas_host::session::ledger::{check_config_id, count_encoded_bytes, resolve_write_receipt};
use etas_host::{DispatchError, WriteOutcome};
use etas_host::session::write::limit_error;
use etas_host::{
    HostError, HostErrorCode, SessionRef, StorageLimits, StorageOperationKey, StorageOperationRef,
};

fn operation() -> StorageOperationRef {
    StorageOperationRef {
        key: StorageOperationKey::issue_at(1_000, 60, &[9; 16]).expect("valid key"),
        request_fingerprint: "f".repeat(64),
    }
}

fn receipt() -> etas_host::SessionWriteReceipt {
    resolve_write_receipt(&operation(), &SessionRef { id: "s".to_owned() }, true, &"c".repeat(32))
        .expect("receipt")
}

#[test]
fn history_identity_needs_an_upper_ordinal_and_a_hex_generation() {
    assert!(history_identity_check(-1, &"0".repeat(32)).is_ok());
    assert!(history_identity_check(7, "0123456789abcdefABCDEF0123456789").is_ok());
    let error = history_identity_check(-2, &"0".repeat(32)).unwrap_err();
    assert_eq!(error.code, HostErrorCode::InvalidRequest);
    assert_eq!(error.message, "invalid session history identity");
    assert!(history_identity_check(0, &"0".repeat(31)).is_err());
    assert!(history_identity_check(0, &"g".repeat(32)).is_err());
}

#[test]
fn summary_text_and_count_come_together() {
    assert_eq!(summary_pair(None, None).unwrap(), None);
    assert_eq!(summary_pair(Some("s".to_owned()), Some(3)).unwrap(), Some(("s".to_owned(), 3)));
    let error = summary_pair(Some("s".to_owned()), None).unwrap_err();
    assert_eq!(error.code, HostErrorCode::SchemaMismatch);
    assert_eq!(error.message, "incomplete session summary metadata");
    assert!(summary_pair(None, Some(1)).is_err());
}

#[test]
fn retention_scan_counts_deletions_within_the_result_budget() {
    let mut limits = StorageLimits::default();
    limits.max_result_bytes = 60;
    let progress = RetentionProgress { scanned: 0, deleted_messages: 0, deleted_dedup_keys: 0, next_after: None };
    let (progress, bytes) = retention_scan_step(progress, 0, 20, true, true, &limits).unwrap();
    assert_eq!(bytes, 36);
    assert_eq!(
        progress,
        RetentionProgress { scanned: 1, deleted_messages: 1, deleted_dedup_keys: 1, next_after: None }
    );
    let (progress, bytes) = retention_scan_step(progress, bytes, 4, false, true, &limits).unwrap();
    assert_eq!((progress.scanned, progress.deleted_messages, bytes), (2, 1, 56));
    assert_eq!(retention_scan_step(progress, bytes, 1, true, false, &limits).unwrap_err(), limit_error());
    assert_eq!(retention_next_after(5, 5, 9, 10), Some(9));
    assert_eq!(retention_next_after(4, 5, 9, 10), None);
    assert_eq!(retention_next_after(5, 5, 10, 10), None);
}

#[test]
fn context_publication_commits_the_next_version_of_a_current_fence() {
    assert_eq!(context_decision(false, 3).unwrap(), ContextDecision::Stale);
    assert_eq!(context_decision(true, 3).unwrap(), ContextDecision::Commit(4));
    let error = context_decision(true, i64::MAX as u64).unwrap_err();
    assert_eq!(error.message, "session context version overflow");
    assert_eq!(context_decision(false, u64::MAX).unwrap(), ContextDecision::Stale);
}

#[test]
fn recorded_write_runs_window_lookup_capacity_apply_record_commit() {
    let limits = StorageLimits::default();
    let refused = HostError::new(HostErrorCode::InvalidRequest, "window");
    let (stage, action) = write_step(WriteStage::Start, WriteEvent::Window(Err(refused.clone())), "s", &limits);
    assert!(matches!(stage, WriteStage::Done));
    assert!(matches!(action, WriteAction::Refuse(e) if e == refused));

    let (stage, action) = write_step(WriteStage::Start, WriteEvent::Window(Ok(())), "s", &limits);
    assert!(matches!(stage, WriteStage::Lookup) && matches!(action, WriteAction::OpenAndLookup));
    let (stage, action) = write_step(stage, WriteEvent::Existing(Ok(Some(receipt()))), "s", &limits);
    assert!(matches!(stage, WriteStage::Done) && matches!(action, WriteAction::Commit(_)));

    let failure = HostError::new(HostErrorCode::ProviderUnavailable, "lookup");
    let (stage, action) = write_step(WriteStage::Lookup, WriteEvent::Existing(Err(failure.clone())), "s", &limits);
    assert!(matches!(stage, WriteStage::Done) && matches!(action, WriteAction::Abort(e) if e == failure));

    let (stage, action) = write_step(WriteStage::Lookup, WriteEvent::Existing(Ok(None)), "s", &limits);
    assert!(matches!(stage, WriteStage::Capacity) && matches!(action, WriteAction::ReadCapacity));
    let (stage, action) = write_step(stage, WriteEvent::Capacity(Ok(10)), "s", &limits);
    assert!(matches!(stage, WriteStage::Apply { used: 10 }) && matches!(action, WriteAction::Apply));
    let (stage, action) = write_step(stage, WriteEvent::Applied(Ok(receipt())), "s", &limits);
    assert!(matches!(stage, WriteStage::Record { .. }) && matches!(action, WriteAction::Record));
    let (stage, action) = write_step(stage, WriteEvent::Recorded(Ok(())), "s", &limits);
    assert!(matches!(stage, WriteStage::Done) && matches!(action, WriteAction::Commit(_)));

    let (stage, action) = write_step(WriteStage::Done, WriteEvent::Recorded(Ok(())), "s", &limits);
    assert!(matches!(stage, WriteStage::Done) && matches!(action, WriteAction::Ignore));
}

#[test]
fn recorded_write_is_aborted_when_its_receipt_does_not_fit() {
    let mut limits = StorageLimits::default();
    limits.max_receipt_bytes = 100;
    let (stage, action) =
        write_step(WriteStage::Apply { used: 0 }, WriteEvent::Applied(Ok(receipt())), "s", &limits);
    assert!(matches!(stage, WriteStage::Done));
    assert!(matches!(action, WriteAction::Abort(e) if e.message == "storage receipt byte budget exceeded"));
    let failure = HostError::new(HostErrorCode::ProviderUnavailable, "insert");
    let (_, action) = write_step(
        WriteStage::Record { receipt: receipt() },
        WriteEvent::Recorded(Err(failure.clone())),
        "s",
        &limits,
    );
    assert!(matches!(action, WriteAction::Abort(e) if e == failure));
}

#[test]
fn rollback_outcome_decides_whether_the_connection_is_reused() {
    assert!(rollback_outcome(Ok(()), false).is_none());
    let error = rollback_outcome(Ok(()), true).unwrap();
    assert_eq!(error.message, "SQLite transaction remained active after rollback");
    let error = rollback_outcome(Err("busy".to_owned()), false).unwrap();
    assert_eq!(error.code, HostErrorCode::ProviderUnavailable);
    assert_eq!(error.message, "SQLite rollback failed");
    assert_eq!(error.details, vec![("error".to_owned(), "busy".to_owned())]);
}

#[test]
fn stored_retention_counts_must_be_consistent() {
    assert_eq!(
        stored_retention_progress(true, 5, 3, 2, Some(9)).unwrap(),
        RetentionProgress { scanned: 5, deleted_messages: 3, deleted_dedup_keys: 2, next_after: None.or(Some(9)) }
    );
    for (belongs, scanned, deleted, dedup, next) in
        [(false, 5, 3, 2, None), (true, 5, 3, 4, None), (true, 2, 3, 0, None), (true, 5, 3, 2, Some(-1))]
    {
        let error = stored_retention_progress(belongs, scanned, deleted, dedup, next).unwrap_err();
        assert_eq!(error.code, HostErrorCode::SchemaMismatch);
        assert_eq!(error.message, "invalid retention receipt");
    }
}

#[test]
fn stored_context_status_is_committed_stale_or_invalid() {
    assert!(matches!(
        stored_context_status(Some("committed"), Some("g".to_owned()), Some(4)),
        StoredContext::Committed { generation, version: 4 } if generation == "g"
    ));
    assert!(matches!(stored_context_status(Some("stale"), None, None), StoredContext::Stale));
    assert!(matches!(stored_context_status(Some("committed"), Some("g".to_owned()), Some(0)), StoredContext::Invalid));
    assert!(matches!(stored_context_status(Some("stale"), None, Some(1)), StoredContext::Invalid));
    assert!(matches!(stored_context_status(None, None, None), StoredContext::Invalid));
}

#[test]
fn history_page_bytes_and_counts_stay_within_the_limits() {
    let mut limits = StorageLimits::default();
    limits.max_result_bytes = 100;
    assert_eq!(history_opening_bytes(Some(10), 20, Some(30), &limits), Some(60));
    assert_eq!(history_opening_bytes(None, 20, None, &limits), Some(20));
    assert_eq!(history_opening_bytes(Some(50), 20, Some(31), &limits), None);
    assert_eq!(history_opening_bytes(Some(usize::MAX), 1, None, &limits), None);
    assert!(history_page_fits(60, Some(40), &limits));
    assert!(!history_page_fits(60, Some(41), &limits));
    assert!(history_page_fits(100, None, &limits));
    assert!(!history_page_fits(usize::MAX, Some(1), &limits));
    assert_eq!(scan_query_limit(&StorageLimits::default()), Some(10001));
    limits.max_scan_rows = usize::MAX;
    assert_eq!(scan_query_limit(&limits), None);
    assert_eq!(summary_count(7).unwrap(), 7);
    let error = summary_count(-1).unwrap_err();
    assert_eq!(error.code, HostErrorCode::SchemaMismatch);
    assert_eq!(error.message, "session count cannot be represented");
    assert_eq!(error.details[0].0, "error");
}

#[test]
fn failed_dispatch_of_a_pending_mutation_becomes_its_outcome() {
    let refused = HostError::new(HostErrorCode::ProviderUnavailable, "busy");
    let answer: DispatchFailure<()> = dispatch_failure(
        DispatchError::NotDispatched(refused.clone()),
        Some(PendingMutation::Context(operation())),
    );
    assert!(matches!(
        answer,
        DispatchFailure::Context(WriteOutcome::NotCommitted { reason: SessionContextRejection::Rejected, .. })
    ));
    let answer: DispatchFailure<()> = dispatch_failure(
        DispatchError::NotDispatched(refused.clone()),
        Some(PendingMutation::Write(operation())),
    );
    assert!(matches!(answer, DispatchFailure::Write(WriteOutcome::NotCommitted { reason, .. }) if reason == refused));
    let answer: DispatchFailure<()> = dispatch_failure(
        DispatchError::OutcomeUnavailable(refused.clone()),
        Some(PendingMutation::Write(operation())),
    );
    assert!(matches!(answer, DispatchFailure::Write(WriteOutcome::Unknown { error, .. }) if error == refused));
    let answer: DispatchFailure<()> = dispatch_failure(DispatchError::OutcomeUnavailable(refused.clone()), None);
    assert!(matches!(answer, DispatchFailure::Failed(DispatchError::OutcomeUnavailable(e)) if e == refused));
}

#[test]
fn configuration_ids_and_encodings_are_held_to_the_value_limit() {
    let mut limits = StorageLimits::default();
    limits.max_value_bytes = 3;
    assert!(check_config_id("abc", &limits).is_ok());
    assert_eq!(check_config_id("abcd", &limits).unwrap_err(), limit_error());
    assert_eq!(count_encoded_bytes(1, 2, 3), Some(3));
    assert_eq!(count_encoded_bytes(2, 2, 3), None);
    assert_eq!(count_encoded_bytes(usize::MAX, 1, usize::MAX), None);
}

#[test]
fn all_message_read_paths_reject_over_budget_row_before_payload_decode() {
    // The row's text cells: id, role, creation time, a malformed payload of
    // 256 bytes and the deduplication key. Admission looks at their sizes
    // only, so the payload is never decoded.
    let cells = vec!["m".len(), "user".len(), "0".len(), "!".repeat(256).len(), "d".len()];
    let limits = StorageLimits { max_value_bytes: 4096, max_result_bytes: 128, ..StorageLimits::default() };
    let bytes = stored_row_bytes(&cells).unwrap();
    assert_eq!(bytes, 263);
    // A read by id or by deduplication key has the whole result budget; a
    // history page has what its opening left of it.
    for remaining in [limits.max_result_bytes, limits.max_result_bytes, limits.max_result_bytes - 40] {
        assert_eq!(check_stored_row(bytes, &limits, remaining).unwrap_err().code, HostErrorCode::BudgetExceeded);
    }
    assert!(check_stored_row(bytes, &StorageLimits::default(), 1000).is_ok());
    assert_eq!(stored_row_bytes(&vec![usize::MAX, 1]), None);
    let error = check_decoded_message(129, 128).unwrap_err();
    assert_eq!(error.message, "decoded session message exceeds remaining result budget");
    assert!(check_decoded_message(128, 128).is_ok());
}
