//! Outcomes of storage writes and the evidence kept about them.
use crate::error::{HostError, HostErrorCode};
use crate::execution::DispatchError;
use crate::storage::receipt::StorageOperationRef;
use vstd::prelude::*;
use vstd::std_specs::convert::FromSpecImpl;

verus! {

/// Outcome of a write: committed with a receipt, rejected before commit
/// with a reason, or unknown (it may or may not have committed).
#[derive(Clone, Debug, PartialEq)]
pub enum WriteOutcome<R, N> {
    Committed(R),
    NotCommitted { operation: StorageOperationRef, reason: N },
    Unknown { operation: StorageOperationRef, error: HostError },
}

/// A write outcome that is known: committed or not committed.
#[derive(Clone, Debug, PartialEq)]
pub enum ConfirmedOutcome<R, N> {
    Committed(R),
    NotCommitted { operation: StorageOperationRef, reason: N },
}

/// The error for an unknown outcome offered as confirmed evidence.
pub open spec fn is_unconfirmed_error(e: HostError) -> bool {
    &&& e.code == HostErrorCode::InvalidResponse
    &&& e.message@ == "unknown write outcome is not confirmed receipt evidence"@
    &&& e.details@.len() == 0
}

/// The write outcome that a confirmed outcome stands for.
pub open spec fn confirmed_as_write<R, N>(c: ConfirmedOutcome<R, N>) -> WriteOutcome<R, N> {
    match c {
        ConfirmedOutcome::Committed(r) => WriteOutcome::Committed(r),
        ConfirmedOutcome::NotCommitted { operation, reason } => WriteOutcome::NotCommitted {
            operation,
            reason,
        },
    }
}

impl<R, N> WriteOutcome<R, N> {
    /// The outcome of a write whose dispatch failed: not committed, with the
    /// reason `rejected` makes of the error, when it never started; unknown
    /// when it may have run.
    pub fn from_dispatch_error<F: FnOnce(HostError) -> N>(
        error: DispatchError,
        operation: StorageOperationRef,
        rejected: F,
    ) -> (outcome: WriteOutcome<R, N>)
        requires
            error matches DispatchError::NotDispatched(e) ==> call_requires(rejected, (e,)),
        ensures
            match error {
                DispatchError::NotDispatched(e) => outcome matches WriteOutcome::NotCommitted {
                    operation: op,
                    reason,
                } && op == operation && call_ensures(rejected, (e,), reason),
                DispatchError::OutcomeUnavailable(e) => outcome == (WriteOutcome::<R, N>::Unknown {
                    operation,
                    error: e,
                }),
            },
    {
        match error {
            DispatchError::NotDispatched(e) => WriteOutcome::NotCommitted {
                operation,
                reason: rejected(e),
            },
            DispatchError::OutcomeUnavailable(e) => WriteOutcome::Unknown { operation, error: e },
        }
    }
}

impl<R, N> ConfirmedOutcome<R, N> {
    /// Keeps a committed or not-committed outcome; refuses an unknown one.
    pub fn try_from(outcome: WriteOutcome<R, N>) -> (confirmed: Result<ConfirmedOutcome<R, N>, HostError>)
        ensures
            match outcome {
                WriteOutcome::Unknown { .. } => confirmed matches Err(e) && is_unconfirmed_error(e),
                _ => confirmed matches Ok(c) && confirmed_as_write(c) == outcome,
            },
    {
        match outcome {
            WriteOutcome::Committed(receipt) => Ok(ConfirmedOutcome::Committed(receipt)),
            WriteOutcome::NotCommitted { operation, reason } => Ok(
                ConfirmedOutcome::NotCommitted { operation, reason },
            ),
            WriteOutcome::Unknown { .. } => Err(
                HostError::new(
                    HostErrorCode::InvalidResponse,
                    "unknown write outcome is not confirmed receipt evidence",
                ),
            ),
        }
    }
}

impl<R, N> From<ConfirmedOutcome<R, N>> for WriteOutcome<R, N> {
    fn from(outcome: ConfirmedOutcome<R, N>) -> (write: WriteOutcome<R, N>) {
        match outcome {
            ConfirmedOutcome::Committed(receipt) => WriteOutcome::Committed(receipt),
            ConfirmedOutcome::NotCommitted { operation, reason } => WriteOutcome::NotCommitted {
                operation,
                reason,
            },
        }
    }
}

impl<R, N> FromSpecImpl<ConfirmedOutcome<R, N>> for WriteOutcome<R, N> {
    open spec fn obeys_from_spec() -> bool {
        true
    }

    open spec fn from_spec(v: ConfirmedOutcome<R, N>) -> WriteOutcome<R, N> {
        confirmed_as_write(v)
    }
}

/// Converting a confirmed outcome to a write outcome and back gives it back
/// unchanged, and only unknown outcomes fail to convert.
pub proof fn lemma_confirmed_round_trip<R, N>(c: ConfirmedOutcome<R, N>)
    ensures
        confirmed_as_write(c) !is Unknown,
        forall|d: ConfirmedOutcome<R, N>|
            confirmed_as_write(d) == confirmed_as_write(c) ==> d == c,
{
}

/// How durably a committed write is stored.
#[derive(Clone, Copy, Debug, PartialEq, Eq, Structural)]
pub enum StorageDurability {
    Volatile,
    SqliteWalFull,
}

/// The stored receipt for an operation: found, not (yet) known, or expired.
#[derive(Clone, Debug, PartialEq)]
pub enum ReceiptLookup<R> {
    Found(R),
    Unresolved,
    Expired,
}

/// What storage reports about one operation.
#[derive(Clone, Debug, PartialEq)]
pub struct StorageWriteEvidence {
    pub operation: StorageOperationRef,
    pub status: CommitStatus,
}

/// The commit status of one operation.
#[derive(Clone, Debug, PartialEq)]
pub enum CommitStatus {
    Committed { revision: String, durability: StorageDurability },
    NotCommitted,
    Unknown,
}

} // verus!
