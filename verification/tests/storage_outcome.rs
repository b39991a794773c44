use etas_host::storage::outcome::{CommitStatus, StorageWriteEvidence};
use etas_host::{
    ConfirmedOutcome, DispatchError, HostError, HostErrorCode, ReceiptLookup, StorageDurability,
    StorageOperationKey, StorageOperationRef, WriteOutcome,
};

fn operation() -> StorageOperationRef {
    StorageOperationRef {
        key: StorageOperationKey::issue_at(1_000, 60, &[7; 16]).expect("valid key"),
        request_fingerprint: "a".repeat(64),
    }
}

#[test]
fn dispatch_failure_before_start_is_not_committed() {
    let error = HostError::new(HostErrorCode::Cancelled, "cancelled");
    let outcome: WriteOutcome<u8, String> = WriteOutcome::from_dispatch_error(
        DispatchError::NotDispatched(error),
        operation(),
        |error| format!("rejected: {}", error.message),
    );
    assert_eq!(
        outcome,
        WriteOutcome::NotCommitted {
            operation: operation(),
            reason: "rejected: cancelled".to_owned(),
        }
    );
}

#[test]
fn dispatch_failure_after_start_is_unknown() {
    let error = HostError::new(HostErrorCode::ProviderUnavailable, "lost");
    let outcome: WriteOutcome<u8, String> = WriteOutcome::from_dispatch_error(
        DispatchError::OutcomeUnavailable(error.clone()),
        operation(),
        |_| unreachable!("an unknown outcome is never rejected"),
    );
    assert_eq!(
        outcome,
        WriteOutcome::Unknown {
            operation: operation(),
            error,
        }
    );
}

#[test]
fn confirmed_outcomes_round_trip_and_unknown_is_refused() {
    let committed: ConfirmedOutcome<u8, String> = ConfirmedOutcome::Committed(3);
    let write: WriteOutcome<u8, String> = committed.clone().into();
    assert_eq!(ConfirmedOutcome::try_from(write).unwrap(), committed);
    let rejected: ConfirmedOutcome<u8, String> = ConfirmedOutcome::NotCommitted {
        operation: operation(),
        reason: "no".to_owned(),
    };
    let write = WriteOutcome::from(rejected.clone());
    assert_eq!(ConfirmedOutcome::try_from(write).unwrap(), rejected);
    let unknown: WriteOutcome<u8, String> = WriteOutcome::Unknown {
        operation: operation(),
        error: HostError::new(HostErrorCode::TimedOut, "late"),
    };
    let error = ConfirmedOutcome::try_from(unknown).unwrap_err();
    assert_eq!(error.code, HostErrorCode::InvalidResponse);
    assert_eq!(
        error.message,
        "unknown write outcome is not confirmed receipt evidence"
    );
}

#[test]
fn evidence_and_lookup_values_compare_by_content() {
    let evidence = StorageWriteEvidence {
        operation: operation(),
        status: CommitStatus::Committed {
            revision: "r1".to_owned(),
            durability: StorageDurability::SqliteWalFull,
        },
    };
    assert_eq!(evidence.clone(), evidence);
    assert_ne!(
        ReceiptLookup::<u8>::Expired,
        ReceiptLookup::<u8>::Unresolved
    );
    assert_eq!(ReceiptLookup::Found(1u8), ReceiptLookup::Found(1u8));
}
