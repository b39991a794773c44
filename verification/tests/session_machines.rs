use etas_host::session::apply::{
    append_start, append_step, reconcile_step, resolve_start, resolve_step, settle_commit,
    settle_rollback, settle_unopened, AppendAction, AppendEvent, AppendStage, ReconcileAction,
    ReconcileEvent, ReconcileStage, ResolveAction, ResolveEvent, ResolveStage,
};
use etas_host::session::flow::{PageState, RetentionProgress};
use etas_host::session::history::{history_step, HistoryAction, HistoryEvent, HistoryStage, PageWindow, SessionRow};
use etas_host::session::publication::{
    publication_step, ContextEvidence, PublicationAction, PublicationEvent, PublicationStage,
};
use etas_host::session::retention::{retention_step, RetentionAction, RetentionEvent, RetentionScope, RetentionStage};
use etas_host::{
    HostError, HostErrorCode, ReceiptLookup, StorageLimits, StorageOperationKey, StorageOperationRef,
    WriteOutcome,
};

fn operation() -> StorageOperationRef {
    StorageOperationRef {
        key: StorageOperationKey::issue_at(1_000, 60, &[9; 16]).expect("valid key"),
        request_fingerprint: "f".repeat(64),
    }
}

fn session_row(summary: Option<(&str, i64)>) -> SessionRow {
    SessionRow {
        upper: 3,
        generation: "a".repeat(32),
        config_bytes: 10,
        summary_text: summary.map(|(t, _)| t.to_owned()),
        summary_count: summary.map(|(_, c)| c),
    }
}

#[test]
fn history_page_takes_retained_rows_in_order_and_ends_with_a_cursor() {
    let mut limits = StorageLimits::default();
    limits.max_result_bytes = 100;
    let (stage, action) = history_step(HistoryStage::Start, HistoryEvent::Session(Some(session_row(Some(("sum", 2))))), &limits);
    assert!(matches!(action, HistoryAction::Open { upper: 3 }));
    let (stage, action) = history_step(
        stage,
        HistoryEvent::Opened { published_context: false, lower: 0, after: -1, limit: 1, fence_len: 7, context_bytes: None },
        &limits,
    );
    assert!(matches!(action, HistoryAction::ReadRows { summary: Some((ref t, 2)) } if t == "sum"));
    let (stage, action) = history_step(stage, HistoryEvent::Row { ordinal: 0, retained: false }, &limits);
    assert!(matches!(action, HistoryAction::NextRow));
    let (stage, action) = history_step(stage, HistoryEvent::Row { ordinal: 1, retained: true }, &limits);
    assert!(matches!(action, HistoryAction::ReadMessage { remaining: 90 }));
    let (stage, action) = history_step(stage, HistoryEvent::Message(40), &limits);
    assert!(matches!(action, HistoryAction::Take));
    assert!(matches!(
        stage,
        HistoryStage::Rows { page: PageState { visited: 2, taken: 1, bytes: 50, after: 1 }, .. }
    ));
    // A row at or before the position is not the query's.
    let (stage, action) = history_step(stage, HistoryEvent::Row { ordinal: 1, retained: true }, &limits);
    assert!(matches!(action, HistoryAction::NextRow));
    let (stage, action) = history_step(stage, HistoryEvent::Row { ordinal: 2, retained: true }, &limits);
    assert!(matches!(action, HistoryAction::EncodeCursor { after: 1 }));
    let (_, action) = history_step(stage, HistoryEvent::CursorEncoded(20), &limits);
    assert!(matches!(action, HistoryAction::Answer { more: true, bytes: 70 }));
}

#[test]
fn history_page_refuses_damaged_identity_and_over_budget_messages() {
    let limits = StorageLimits::default();
    let (_, action) = history_step(HistoryStage::Start, HistoryEvent::Session(None), &limits);
    assert!(matches!(action, HistoryAction::Fail(e) if e.message == "session history identity is missing"));
    let mut row = session_row(None);
    row.generation = "z".repeat(32);
    let (_, action) = history_step(HistoryStage::Start, HistoryEvent::Session(Some(row)), &limits);
    assert!(matches!(action, HistoryAction::Fail(e) if e.message == "invalid session history identity"));
    let mut row = session_row(None);
    row.summary_count = Some(1);
    let (_, action) = history_step(HistoryStage::Start, HistoryEvent::Session(Some(row)), &limits);
    assert!(matches!(action, HistoryAction::Fail(e) if e.code == HostErrorCode::SchemaMismatch));

    let mut small = StorageLimits::default();
    small.max_result_bytes = 50;
    let reading = HistoryStage::Reading {
        window: PageWindow { lower: 0, upper: 9, limit: 5 },
        page: PageState { visited: 1, taken: 0, bytes: 40, after: -1 },
        ordinal: 0,
    };
    let (_, action) = history_step(reading, HistoryEvent::Message(11), &small);
    assert!(matches!(action, HistoryAction::OverLimit));
    let rows = HistoryStage::Rows {
        window: PageWindow { lower: 0, upper: 9, limit: 5 },
        page: PageState { visited: 0, taken: 0, bytes: 40, after: -1 },
    };
    let (_, action) = history_step(rows, HistoryEvent::RowsEnd, &small);
    assert!(matches!(action, HistoryAction::Answer { more: false, bytes: 40 }));
}

#[test]
fn retention_pass_deletes_exactly_the_expired_rows_it_scanned() {
    let limits = StorageLimits::default();
    let scope = RetentionScope { after_ordinal: 0, scan_limit: 2 };
    let (stage, action) = retention_step(RetentionStage::Lookup, RetentionEvent::Existing(false), &scope, &limits);
    assert!(matches!(action, RetentionAction::ReadCapacity));
    let (stage, _) = retention_step(stage, RetentionEvent::Capacity(0), &scope, &limits);
    let (stage, action) = retention_step(stage, RetentionEvent::Selected(10), &scope, &limits);
    assert!(matches!(action, RetentionAction::NextRow));
    let (stage, _) = retention_step(stage, RetentionEvent::Row { ordinal: 1, timestamp_len: 4, expired: true, has_dedup: true }, &scope, &limits);
    let (stage, _) = retention_step(stage, RetentionEvent::Row { ordinal: 2, timestamp_len: 4, expired: false, has_dedup: false }, &scope, &limits);
    // The scan limit is reached: a third row is not the query's.
    let (stage, _) = retention_step(stage, RetentionEvent::Row { ordinal: 3, timestamp_len: 4, expired: true, has_dedup: false }, &scope, &limits);
    let (stage, action) = retention_step(stage, RetentionEvent::RowsEnd, &scope, &limits);
    assert!(matches!(action, RetentionAction::Delete(1)));
    let (stage, action) = retention_step(stage, RetentionEvent::Deleted(1), &scope, &limits);
    let expected = RetentionProgress { scanned: 2, deleted_messages: 1, deleted_dedup_keys: 1, next_after: Some(2) };
    assert!(matches!(action, RetentionAction::IssueReceipt(p) if p == expected));
    let (stage, action) = retention_step(stage, RetentionEvent::Charged(100), &scope, &limits);
    assert!(matches!(action, RetentionAction::Record));
    let (_, action) = retention_step(stage, RetentionEvent::Recorded, &scope, &limits);
    assert!(matches!(action, RetentionAction::Commit(p) if p == expected));
}

#[test]
fn retention_pass_aborts_when_a_delete_misses_or_a_receipt_does_not_fit() {
    let mut limits = StorageLimits::default();
    let scope = RetentionScope { after_ordinal: 0, scan_limit: 5 };
    let progress = RetentionProgress { scanned: 1, deleted_messages: 1, deleted_dedup_keys: 0, next_after: None };
    let deleting = RetentionStage::Delete { used: 0, progress, deletes: vec![4], next: 0 };
    let (_, action) = retention_step(deleting, RetentionEvent::Deleted(0), &scope, &limits);
    assert!(matches!(action, RetentionAction::Abort(e) if e.message == "retention selection changed within transaction"));
    limits.max_receipt_bytes = 10;
    let (_, action) = retention_step(RetentionStage::Charge { used: 5, progress }, RetentionEvent::Charged(6), &scope, &limits);
    assert!(matches!(action, RetentionAction::Abort(e) if e.message == "storage receipt byte budget exceeded"));
    let (_, action) = retention_step(RetentionStage::Lookup, RetentionEvent::Existing(true), &scope, &limits);
    assert!(matches!(action, RetentionAction::AnswerExisting));
}

#[test]
fn publication_stores_the_next_version_of_a_current_fence() {
    let limits = StorageLimits::default();
    let (stage, action) = publication_step(PublicationStage::Start, PublicationEvent::Window(Ok(())), &limits);
    assert!(matches!(action, PublicationAction::OpenAndLookup));
    let (stage, _) = publication_step(stage, PublicationEvent::Existing(false), &limits);
    let (stage, action) = publication_step(stage, PublicationEvent::Capacity(0), &limits);
    assert!(matches!(action, PublicationAction::CheckFence));
    let (stage, action) = publication_step(stage, PublicationEvent::Fence { current: true, version: 4 }, &limits);
    assert!(matches!(action, PublicationAction::Store { version: 5 }));
    let (stage, action) = publication_step(stage, PublicationEvent::Stored { version: 5 }, &limits);
    assert!(matches!(action, PublicationAction::IssueReceipt(ContextEvidence::Committed { version: 5 })));
    let (stage, _) = publication_step(stage, PublicationEvent::Charged(10), &limits);
    let (_, action) = publication_step(stage, PublicationEvent::Recorded, &limits);
    assert!(matches!(action, PublicationAction::Commit(ContextEvidence::Committed { version: 5 })));

    let (_, action) = publication_step(PublicationStage::Fence { used: 0 }, PublicationEvent::Fence { current: false, version: 4 }, &limits);
    assert!(matches!(action, PublicationAction::IssueReceipt(ContextEvidence::Stale)));
    let (_, action) = publication_step(PublicationStage::Store { used: 0, version: 5 }, PublicationEvent::Stored { version: 6 }, &limits);
    assert!(matches!(action, PublicationAction::Abort(e) if e.code == HostErrorCode::SchemaMismatch));
    let refused = HostError::new(HostErrorCode::InvalidRequest, "window");
    let (_, action) = publication_step(PublicationStage::Start, PublicationEvent::Window(Err(refused.clone())), &limits);
    assert!(matches!(action, PublicationAction::Refuse(e) if e == refused));
}

#[test]
fn resolve_inserts_new_sessions_and_compares_existing_ones() {
    assert!(matches!(resolve_start("").1, ResolveAction::Fail(e) if e.message == "session id must not be empty"));
    let (stage, action) = resolve_start("s");
    assert!(matches!(action, ResolveAction::Encode));
    let (stage, action) = resolve_step(stage, ResolveEvent::Encoded("{}".to_owned()));
    assert!(matches!(action, ResolveAction::Insert(ref c) if c == "{}"));
    let (created, action) = resolve_step(ResolveStage::Insert { config: "{}".to_owned() }, ResolveEvent::Inserted(1));
    assert!(matches!(action, ResolveAction::CreateSequence));
    assert!(matches!(resolve_step(created, ResolveEvent::SequenceCreated).1, ResolveAction::Resolved { created: true }));
    let (stage, action) = resolve_step(stage, ResolveEvent::Inserted(0));
    assert!(matches!(action, ResolveAction::ReadStored));
    assert!(matches!(
        resolve_step(ResolveStage::Compare { config: "{}".to_owned() }, ResolveEvent::Stored("{}".to_owned())).1,
        ResolveAction::Resolved { created: false }
    ));
    assert!(matches!(
        resolve_step(stage, ResolveEvent::Stored("{\"x\":1}".to_owned())).1,
        ResolveAction::Fail(e) if e.message == "session identity already has a different configuration"
    ));
}

#[test]
fn append_replays_deduplicated_messages_and_advances_the_sequence() {
    assert!(matches!(append_start("", "s", false).1, AppendAction::Fail(_)));
    let (stage, _) = append_start("m", "s", true);
    let (stage, action) = append_step(stage, AppendEvent::Encoded);
    assert!(matches!(action, AppendAction::CheckSession));
    let (stage, action) = append_step(stage, AppendEvent::SessionExists(true));
    assert!(matches!(action, AppendAction::LookupDedup));
    let (replay, action) = append_step(stage, AppendEvent::DedupFound(true));
    assert!(matches!(action, AppendAction::ValidateReplay));
    assert!(matches!(append_step(replay, AppendEvent::Replayed(4)).1, AppendAction::Deduplicated { ordinal: 4 }));

    let (stage, action) = append_step(AppendStage::Identity, AppendEvent::IdTaken(false));
    assert!(matches!(action, AppendAction::ReadOrdinal));
    let (stage, action) = append_step(stage, AppendEvent::LastOrdinal(-1));
    assert!(matches!(action, AppendAction::Advance { previous: -1, next: 0 }));
    let (stage, action) = append_step(stage, AppendEvent::Advanced(1));
    assert!(matches!(action, AppendAction::Insert { ordinal: 0 }));
    assert!(matches!(append_step(stage, AppendEvent::Inserted).1, AppendAction::Appended { ordinal: 0 }));

    assert!(matches!(
        append_step(AppendStage::Session { dedup: false }, AppendEvent::SessionExists(false)).1,
        AppendAction::Fail(e) if e.message == "cannot append message to an unresolved session"
    ));
    assert!(matches!(
        append_step(AppendStage::Identity, AppendEvent::IdTaken(true)).1,
        AppendAction::Fail(e) if e.message == "session message id already exists"
    ));
    assert!(matches!(
        append_step(AppendStage::Advance { previous: 0, ordinal: 1 }, AppendEvent::Advanced(0)).1,
        AppendAction::Fail(e) if e.code == HostErrorCode::SchemaMismatch
    ));
}

#[test]
fn reconcile_answers_expired_before_any_lookup() {
    let (stage, action) = reconcile_step::<u8>(ReconcileStage::Validate, ReconcileEvent::Validated(Ok(())));
    assert!(matches!(action, ReconcileAction::CheckExpiry));
    assert!(matches!(
        reconcile_step::<u8>(stage, ReconcileEvent::Expiry(Ok(true))).1,
        ReconcileAction::Answer(ReceiptLookup::Expired)
    ));
    assert!(matches!(
        reconcile_step(ReconcileStage::Lookup, ReconcileEvent::Found(Ok(Some(7u8)))).1,
        ReconcileAction::Answer(ReceiptLookup::Found(7))
    ));
    assert!(matches!(
        reconcile_step::<u8>(ReconcileStage::Lookup, ReconcileEvent::Found(Ok(None))).1,
        ReconcileAction::Answer(ReceiptLookup::Unresolved)
    ));
}

#[test]
fn settled_transactions_report_commit_rollback_and_unknown_outcomes() {
    assert!(matches!(settle_commit::<u8>(operation(), 1, Ok(())), WriteOutcome::Committed(1)));
    let outcome = settle_commit::<u8>(operation(), 1, Err("disk".to_owned()));
    assert!(matches!(outcome, WriteOutcome::Unknown { error, .. } if error.message == "SQLite storage transaction failed"));
    let reason = HostError::new(HostErrorCode::BudgetExceeded, "cancel before commit");
    assert!(matches!(
        settle_rollback::<u8>(operation(), reason.clone(), Ok(())),
        WriteOutcome::NotCommitted { reason: r, .. } if r == reason
    ));
    let outcome = settle_rollback::<u8>(operation(), reason, Err("gone".to_owned()));
    assert!(matches!(
        outcome,
        WriteOutcome::Unknown { error, .. } if error.details[1] == ("staging_error".to_owned(), "cancel before commit".to_owned())
    ));
    assert!(matches!(settle_unopened::<u8>(operation(), "busy".to_owned()), WriteOutcome::NotCommitted { .. }));
}
