use etas_host::session::config::{
    context_policy_json, retention_policy_from_json, retention_policy_json, role_from_name,
    role_name, session_config_json,
};
use etas_host::session::ledger::{
    admit_receipt, append_row, needs_migration, resolve_row, append_write_receipt, check_ordinal_update, decode_stored_receipt,
    next_ordinal_value, receipt_capacity, receipt_count_limit, resolve_write_receipt,
    stored_receipt_within_limits, valid_generation, StoredReceipt,
};
use etas_host::session::write::{limit_error, mismatch};
use etas_host::{
    resolve_operation_ref, ContextPolicy, HostErrorCode, HostJsonValue, RetentionPolicy,
    SessionConfig, SessionGeneration, SessionMessageRole, SessionRef, SessionVersion,
    SessionWriteReceipt, StorageDurability, StorageLimits, StorageOperationKey,
    StorageOperationRef,
};

fn key() -> StorageOperationKey {
    StorageOperationKey::issue_at(1_000, 60, &[9; 16]).expect("valid key")
}

fn config(id: &str) -> SessionConfig {
    SessionConfig {
        id: id.to_owned(),
        context: ContextPolicy::LastTurns(4),
        retention: RetentionPolicy::Days(30),
    }
}

fn object(entries: &[(&str, HostJsonValue)]) -> HostJsonValue {
    HostJsonValue::Object(
        entries
            .iter()
            .map(|(k, v)| ((*k).to_owned(), v.clone()))
            .collect(),
    )
}

fn text(value: &str) -> HostJsonValue {
    HostJsonValue::String(value.to_owned())
}

#[test]
fn policies_encode_as_sorted_json_objects() {
    assert_eq!(
        context_policy_json(&ContextPolicy::All),
        object(&[("kind", text("All"))])
    );
    assert_eq!(
        context_policy_json(&ContextPolicy::SummaryPlusRecent { recent: 3 }),
        object(&[("kind", text("SummaryPlusRecent")), ("recent", HostJsonValue::UInt(3))])
    );
    assert_eq!(
        retention_policy_json(&RetentionPolicy::Days(7)),
        object(&[("days", HostJsonValue::UInt(7)), ("kind", text("Days"))])
    );
    assert_eq!(
        session_config_json(&config("s")).unwrap(),
        object(&[
            (
                "context",
                object(&[("kind", text("LastTurns")), ("turns", HostJsonValue::UInt(4))])
            ),
            ("id", text("s")),
            (
                "retention",
                object(&[("days", HostJsonValue::UInt(30)), ("kind", text("Days"))])
            ),
        ])
    );
}

#[test]
fn retention_policy_round_trips_and_rejects_malformed_json() {
    for policy in [RetentionPolicy::Forever, RetentionPolicy::Days(0), RetentionPolicy::Days(u64::MAX)] {
        assert_eq!(retention_policy_from_json(&retention_policy_json(&policy)).unwrap(), policy);
    }
    assert_eq!(
        retention_policy_from_json(&object(&[("kind", text("Days")), ("days", HostJsonValue::Int(5))]))
            .unwrap(),
        RetentionPolicy::Days(5)
    );
    let error = retention_policy_from_json(&object(&[])).unwrap_err();
    assert_eq!(error.code, HostErrorCode::InvalidRequest);
    assert_eq!(error.message, "session retention policy is missing kind");
    let error =
        retention_policy_from_json(&object(&[("kind", text("Days")), ("days", HostJsonValue::Int(-1))]))
            .unwrap_err();
    assert_eq!(error.message, "session retention policy is missing days");
    let error = retention_policy_from_json(&object(&[("kind", text("Weeks"))])).unwrap_err();
    assert_eq!(error.message, "unknown session retention policy `Weeks`");
    assert!(retention_policy_from_json(&HostJsonValue::Null).is_err());
}

#[test]
fn role_names_round_trip() {
    for role in [
        SessionMessageRole::System,
        SessionMessageRole::User,
        SessionMessageRole::Assistant,
        SessionMessageRole::Tool,
    ] {
        assert_eq!(role_from_name(role_name(role)).unwrap(), role);
    }
    assert_eq!(
        role_from_name("robot").unwrap_err(),
        "unknown session message role `robot`"
    );
}

#[test]
fn resolve_fingerprint_is_bound_to_the_configuration() {
    let limits = StorageLimits::default();
    let operation = resolve_operation_ref(&config("s"), key(), &limits).expect("operation");
    assert_eq!(operation.key, key());
    assert_eq!(operation.request_fingerprint.len(), 64);
    assert!(operation.validate().is_ok());
    let again = resolve_operation_ref(&config("s"), key(), &limits).expect("operation");
    assert_eq!(again.request_fingerprint, operation.request_fingerprint);
    let mut other = config("s");
    other.retention = RetentionPolicy::Forever;
    let different = resolve_operation_ref(&other, key(), &limits).expect("operation");
    assert_ne!(different.request_fingerprint, operation.request_fingerprint);
    let error = resolve_operation_ref(&config(""), key(), &limits).unwrap_err();
    assert_eq!(error.message, "session id must not be empty");
    let mut small = StorageLimits::default();
    small.max_value_bytes = 2;
    let error = resolve_operation_ref(&config("abc"), key(), &small).unwrap_err();
    assert_eq!(error, limit_error());
    assert_eq!(error.code, HostErrorCode::BudgetExceeded);
}

fn operation() -> StorageOperationRef {
    StorageOperationRef {
        key: key(),
        request_fingerprint: "f".repeat(64),
    }
}

fn session() -> SessionRef {
    SessionRef { id: "s".to_owned() }
}

fn stored(kind: &str) -> StoredReceipt {
    StoredReceipt {
        fingerprint: "f".repeat(64),
        kind: kind.to_owned(),
        version: None,
        message_id: None,
        deduplicated: None,
        generation: None,
        created: None,
        summary_text: None,
        summary_message_count: None,
    }
}

#[test]
fn stored_resolve_receipt_decodes_to_its_receipt() {
    let mut row = stored("resolve");
    row.generation = Some("a".repeat(32));
    row.created = Some(1);
    let receipt = decode_stored_receipt(row, &session(), &operation()).expect("receipt");
    let SessionWriteReceipt::Resolve(resolve) = &receipt else {
        panic!("a resolve row decodes to a resolve receipt");
    };
    assert!(resolve.created);
    assert_eq!(resolve.session, session());
    assert!(resolve.generation.belongs_to("s"));
    assert_eq!(receipt.durability(), StorageDurability::SqliteWalFull);
    assert_eq!(receipt.operation(), &operation());
    let expected = SessionGeneration::issue("s", &"a".repeat(32)).ok().expect("generation");
    assert_eq!(receipt.revision(), expected.as_token());
}

#[test]
fn stored_append_receipt_decodes_to_its_receipt() {
    let version = SessionVersion::issue("s", &"b".repeat(32), 3).ok().expect("version");
    let mut row = stored("append");
    row.version = Some(version.as_token().to_owned());
    row.message_id = Some("m1".to_owned());
    row.deduplicated = Some(0);
    let receipt = decode_stored_receipt(row, &session(), &operation()).expect("receipt");
    let SessionWriteReceipt::Append(append) = &receipt else {
        panic!("an append row decodes to an append receipt");
    };
    assert_eq!(append.message_id, "m1");
    assert!(!append.deduplicated);
    assert_eq!(receipt.revision(), version.as_token());
}

#[test]
fn stored_receipts_of_other_requests_or_shapes_are_refused() {
    let mut row = stored("resolve");
    row.fingerprint = "0".repeat(64);
    assert_eq!(
        decode_stored_receipt(row, &session(), &operation()).err().expect("refused"),
        mismatch()
    );
    let error = decode_stored_receipt(stored("context"), &session(), &operation()).err().expect("refused");
    assert_eq!(error.message, "context operation requires context reconciliation");
    let error = decode_stored_receipt(stored("compact"), &session(), &operation()).err().expect("refused");
    assert_eq!(error.code, HostErrorCode::SchemaMismatch);
    assert!(error.message.contains("migration to context publication"));
    let mut row = stored("resolve");
    row.generation = Some("a".repeat(32));
    row.created = Some(2);
    let error = decode_stored_receipt(row, &session(), &operation()).err().expect("refused");
    assert_eq!(error.message, "invalid stored session receipt");
    let mut row = stored("append");
    row.summary_text = Some("legacy".to_owned());
    assert!(decode_stored_receipt(row, &session(), &operation()).is_err());
    let foreign = SessionVersion::issue("other", &"b".repeat(32), 3).ok().expect("version");
    let mut row = stored("append");
    row.version = Some(foreign.as_token().to_owned());
    row.message_id = Some("m1".to_owned());
    row.deduplicated = Some(1);
    let error = decode_stored_receipt(row, &session(), &operation()).err().expect("refused");
    assert_eq!(error.message, "invalid stored session receipt");
}

#[test]
fn stored_rows_are_bounded_before_decoding() {
    let limits = StorageLimits::default();
    assert!(stored_receipt_within_limits(&stored("resolve"), &limits));
    let mut row = stored("resolve");
    row.kind = "k".repeat(257);
    assert!(!stored_receipt_within_limits(&row, &limits));
    let mut small = StorageLimits::default();
    small.max_result_bytes = 3;
    let mut row = stored("append");
    row.message_id = Some("abcd".to_owned());
    assert!(!stored_receipt_within_limits(&row, &small));
    assert!(valid_generation(&"AbC0".repeat(8)));
    assert!(!valid_generation(&"g".repeat(32)));
    assert!(!valid_generation("abc"));
}

#[test]
fn ordinals_and_capacity_are_checked() {
    assert_eq!(next_ordinal_value(-1).unwrap(), 0);
    assert_eq!(next_ordinal_value(41).unwrap(), 42);
    assert_eq!(next_ordinal_value(-2).unwrap_err().message, "invalid session ordinal");
    assert_eq!(
        next_ordinal_value(i64::MAX).unwrap_err().message,
        "session ordinal space exhausted"
    );
    assert!(check_ordinal_update(1).is_ok());
    assert_eq!(
        check_ordinal_update(0).unwrap_err().message,
        "session ordinal changed within write transaction"
    );
    let limits = StorageLimits::default();
    assert_eq!(receipt_count_limit(&limits).unwrap(), 10_000);
    assert_eq!(receipt_capacity(3, 10, 100, 20).unwrap(), 120);
    assert_eq!(receipt_capacity(10, 10, 0, 0).unwrap_err(), limit_error());
    assert_eq!(
        receipt_capacity(0, 10, -5, 0).unwrap_err().message,
        "storage receipt byte budget exceeded"
    );
}

#[test]
fn committed_receipts_are_built_charged_and_admitted() {
    let receipt = resolve_write_receipt(&operation(), &session(), false, &"c".repeat(32))
        .expect("receipt");
    let charge = receipt.charge("s").unwrap();
    assert_eq!(charge, 1024 + 2 * (1 + 53 + 64 + 1));
    let mut limits = StorageLimits::default();
    limits.max_receipt_bytes = charge;
    assert!(admit_receipt(&limits, 0, &receipt, "s").is_ok());
    assert!(admit_receipt(&limits, 1, &receipt, "s").is_err());
    assert!(resolve_write_receipt(&operation(), &session(), false, "short").is_err());

    let append = append_write_receipt(&operation(), &session(), &"c".repeat(32), 5, "m".to_owned(), true)
        .expect("receipt");
    let SessionWriteReceipt::Append(inner) = &append else {
        panic!("an append receipt");
    };
    assert!(inner.version.belongs_to("s"));
    assert!(inner.deduplicated);
    assert!(append_write_receipt(&operation(), &session(), &"c".repeat(32), -1, "m".to_owned(), false)
        .is_err());
}

#[test]
fn resolve_fingerprint_is_the_derived_blake3_key_of_the_configuration() {
    let mut material = Vec::new();
    material.extend_from_slice(&1u64.to_le_bytes());
    material.extend_from_slice(b"s");
    material.push(1);
    material.extend_from_slice(&4u64.to_le_bytes());
    material.push(1);
    material.extend_from_slice(&30u64.to_le_bytes());
    let expected = blake3::Hasher::new_derive_key("etas.session.resolve.v2")
        .update(&material)
        .finalize()
        .to_hex()
        .to_string();
    let operation = resolve_operation_ref(&config("s"), key(), &StorageLimits::default()).unwrap();
    assert_eq!(operation.request_fingerprint, expected);
}

#[test]
fn written_receipt_rows_read_back_as_their_receipts() {
    let resolve = resolve_write_receipt(&operation(), &session(), true, &"d".repeat(32)).expect("receipt");
    let row = resolve_row(&operation().request_fingerprint, &"d".repeat(32), true);
    let read = decode_stored_receipt(row, &session(), &operation()).expect("read back");
    assert!(read == resolve);
    let append = append_write_receipt(&operation(), &session(), &"d".repeat(32), 9, "m9".to_owned(), false)
        .expect("receipt");
    let SessionWriteReceipt::Append(inner) = &append else {
        panic!("an append receipt");
    };
    let row = append_row(&operation().request_fingerprint, inner.version.as_token(), "m9", false);
    let read = decode_stored_receipt(row, &session(), &operation()).expect("read back");
    assert!(read == append);
    let empty = append_row(&operation().request_fingerprint, inner.version.as_token(), "", false);
    assert!(decode_stored_receipt(empty, &session(), &operation()).is_err());
}

#[test]
fn schema_formats_outside_the_known_range_are_refused() {
    assert!(etas_host::session::ledger::check_schema_format(None).is_ok());
    assert!(etas_host::session::ledger::check_schema_format(Some(1)).is_ok());
    assert!(etas_host::session::ledger::check_schema_format(Some(9)).is_ok());
    let error = etas_host::session::ledger::check_schema_format(Some(10)).unwrap_err();
    assert_eq!(error.code, HostErrorCode::SchemaMismatch);
    assert!(etas_host::session::ledger::check_schema_format(Some(0)).is_err());
}

#[test]
fn migrations_run_for_new_and_older_schema_formats() {
    assert!(needs_migration(None, 4));
    assert!(needs_migration(Some(3), 4));
    assert!(!needs_migration(Some(4), 4));
    assert!(!needs_migration(Some(9), 7));
}
