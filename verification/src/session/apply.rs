//! The branches of a session write, as state machines: resolving a session,
//! appending a message, reconciling an operation's receipt; and how a
//! write's transaction is settled once it commits or rolls back. The
//! queries run outside.
use crate::error::{HostError, HostErrorCode};
use crate::session::ledger::{check_ordinal_update, next_ordinal_value};
use crate::storage::outcome::{ReceiptLookup, WriteOutcome};
use crate::storage::receipt::StorageOperationRef;
use crate::text::str_eq;
use vstd::prelude::*;

verus! {

/// Where resolving a session stands.
pub enum ResolveStage {
    /// The configuration is being encoded.
    Encode,
    /// The session row is being inserted unless it exists, with this
    /// configuration text.
    Insert { config: String },
    /// The session existed: its stored configuration is being read.
    Compare { config: String },
    /// The session is new: its ordinal sequence is being created.
    Sequence,
    /// Decided.
    Done,
}

pub enum ResolveEvent {
    /// The encoded configuration.
    Encoded(String),
    /// How many rows the insert added.
    Inserted(usize),
    /// The configuration stored for the session.
    Stored(String),
    SequenceCreated,
    /// A query or the encoding failed.
    Failed(HostError),
}

pub enum ResolveAction {
    Encode,
    /// Insert the session with this configuration, unless it exists.
    Insert(String),
    ReadStored,
    CreateSequence,
    /// The session is resolved; `created` when this write made it.
    Resolved { created: bool },
    Fail(HostError),
    Ignore,
}

/// The first step of a resolve: a session needs an id.
pub fn resolve_start(id: &str) -> (start: (ResolveStage, ResolveAction))
    ensures
        if id@.len() == 0 {
            start.0 == ResolveStage::Done && (start.1 matches ResolveAction::Fail(e) && e.code
                == HostErrorCode::InvalidRequest && e.message@ == "session id must not be empty"@)
        } else {
            start == (ResolveStage::Encode, ResolveAction::Encode)
        },
{
    if id.unicode_len() == 0 {
        return (
            ResolveStage::Done,
            ResolveAction::Fail(HostError::new(HostErrorCode::InvalidRequest, "session id must not be empty")),
        );
    }
    (ResolveStage::Encode, ResolveAction::Encode)
}

/// The next stage and action of a resolve: the session is inserted unless
/// it exists; an existing session must hold the same configuration; a new
/// one gets its ordinal sequence.
pub fn resolve_step(stage: ResolveStage, event: ResolveEvent) -> (next: (ResolveStage, ResolveAction))
    ensures
        match (stage, event) {
            (ResolveStage::Encode, ResolveEvent::Encoded(config)) => next.0 == (ResolveStage::Insert {
                config,
            }) && (next.1 matches ResolveAction::Insert(c) && c@ == config@),
            (ResolveStage::Insert { config }, ResolveEvent::Inserted(added)) => if added == 1 {
                next == (ResolveStage::Sequence, ResolveAction::CreateSequence)
            } else {
                next == (ResolveStage::Compare { config }, ResolveAction::ReadStored)
            },
            (ResolveStage::Compare { config }, ResolveEvent::Stored(stored)) => if stored@ == config@ {
                next == (ResolveStage::Done, ResolveAction::Resolved { created: false })
            } else {
                next.0 == ResolveStage::Done && (next.1 matches ResolveAction::Fail(e) && e.code
                    == HostErrorCode::InvalidRequest && e.message@
                    == "session identity already has a different configuration"@)
            },
            (ResolveStage::Sequence, ResolveEvent::SequenceCreated) => next == (
                ResolveStage::Done,
                ResolveAction::Resolved { created: true },
            ),
            (ResolveStage::Done, _) => next == (ResolveStage::Done, ResolveAction::Ignore),
            (_, ResolveEvent::Failed(e)) => next == (ResolveStage::Done, ResolveAction::Fail(e)),
            (s, _) => next == (s, ResolveAction::Ignore),
        },
{
    match (stage, event) {
        (ResolveStage::Encode, ResolveEvent::Encoded(config)) => {
            let text = config.clone();
            (ResolveStage::Insert { config }, ResolveAction::Insert(text))
        },
        (ResolveStage::Insert { config }, ResolveEvent::Inserted(added)) => if added == 1 {
            (ResolveStage::Sequence, ResolveAction::CreateSequence)
        } else {
            (ResolveStage::Compare { config }, ResolveAction::ReadStored)
        },
        (ResolveStage::Compare { config }, ResolveEvent::Stored(stored)) => if str_eq(stored.as_str(), config.as_str()) {
            (ResolveStage::Done, ResolveAction::Resolved { created: false })
        } else {
            (
                ResolveStage::Done,
                ResolveAction::Fail(
                    HostError::new(
                        HostErrorCode::InvalidRequest,
                        "session identity already has a different configuration",
                    ),
                ),
            )
        },
        (ResolveStage::Sequence, ResolveEvent::SequenceCreated) => (ResolveStage::Done, ResolveAction::Resolved { created: true }),
        (ResolveStage::Done, _) => (ResolveStage::Done, ResolveAction::Ignore),
        (_, ResolveEvent::Failed(e)) => (ResolveStage::Done, ResolveAction::Fail(e)),
        (s, _) => (s, ResolveAction::Ignore),
    }
}

/// Where appending a message stands.
pub enum AppendStage {
    /// The payload and provenance are being encoded.
    Encode { dedup: bool },
    /// Whether the session exists is being checked.
    Session { dedup: bool },
    /// A message under the same deduplication key is looked for.
    Dedup,
    /// That message is being checked as a replay of this one.
    Replay,
    /// Whether the message id is taken is being checked.
    Identity,
    /// The session's last ordinal is being read.
    Ordinal,
    /// The session's sequence is moving from `previous` to `ordinal`.
    Advance { previous: i64, ordinal: i64 },
    /// The message is being inserted at `ordinal`.
    Insert { ordinal: i64 },
    /// Decided.
    Done,
}

pub enum AppendEvent {
    Encoded,
    SessionExists(bool),
    /// Whether a message under the deduplication key exists.
    DedupFound(bool),
    /// The replayed message is the same; it is stored at this ordinal.
    Replayed(i64),
    /// Whether the message id is taken.
    IdTaken(bool),
    /// The session's last ordinal.
    LastOrdinal(i64),
    /// How many sequence rows the advance changed.
    Advanced(usize),
    Inserted,
    /// A query, the encoding or the replay check failed.
    Failed(HostError),
}

pub enum AppendAction {
    Encode,
    CheckSession,
    LookupDedup,
    ValidateReplay,
    CheckIdentity,
    ReadOrdinal,
    /// Move the sequence from `previous` to `next`, if it still holds
    /// `previous`.
    Advance { previous: i64, next: i64 },
    /// Insert the message at this ordinal.
    Insert { ordinal: i64 },
    /// The message was already stored at this ordinal under its key.
    Deduplicated { ordinal: i64 },
    /// The message is stored at this ordinal.
    Appended { ordinal: i64 },
    Fail(HostError),
    Ignore,
}

/// The first step of an append: the message and its session need ids.
pub fn append_start(message_id: &str, session_id: &str, has_dedup: bool) -> (start: (AppendStage, AppendAction))
    ensures
        if message_id@.len() == 0 || session_id@.len() == 0 {
            start.0 == AppendStage::Done && (start.1 matches AppendAction::Fail(e) && e.code
                == HostErrorCode::InvalidRequest && e.message@
                == "message and session identities must not be empty"@)
        } else {
            start == (AppendStage::Encode { dedup: has_dedup }, AppendAction::Encode)
        },
{
    if message_id.unicode_len() == 0 || session_id.unicode_len() == 0 {
        return (
            AppendStage::Done,
            AppendAction::Fail(
                HostError::new(HostErrorCode::InvalidRequest, "message and session identities must not be empty"),
            ),
        );
    }
    (AppendStage::Encode { dedup: has_dedup }, AppendAction::Encode)
}

/// The next stage and action of an append: the session must exist; a
/// message already stored under the deduplication key answers as a
/// replay; a taken message id is refused; the sequence advances by one
/// from a valid last ordinal, changing exactly one row, and the message is
/// inserted at the new ordinal.
pub fn append_step(stage: AppendStage, event: AppendEvent) -> (next: (AppendStage, AppendAction))
    ensures
        match (stage, event) {
            (AppendStage::Encode { dedup }, AppendEvent::Encoded) => next == (
                AppendStage::Session { dedup },
                AppendAction::CheckSession,
            ),
            (AppendStage::Session { dedup }, AppendEvent::SessionExists(exists)) => if !exists {
                next.0 == AppendStage::Done && (next.1 matches AppendAction::Fail(e) && e.code
                    == HostErrorCode::InvalidRequest && e.message@
                    == "cannot append message to an unresolved session"@)
            } else if dedup {
                next == (AppendStage::Dedup, AppendAction::LookupDedup)
            } else {
                next == (AppendStage::Identity, AppendAction::CheckIdentity)
            },
            (AppendStage::Dedup, AppendEvent::DedupFound(found)) => if found {
                next == (AppendStage::Replay, AppendAction::ValidateReplay)
            } else {
                next == (AppendStage::Identity, AppendAction::CheckIdentity)
            },
            (AppendStage::Replay, AppendEvent::Replayed(ordinal)) => next == (
                AppendStage::Done,
                AppendAction::Deduplicated { ordinal },
            ),
            (AppendStage::Identity, AppendEvent::IdTaken(taken)) => if taken {
                next.0 == AppendStage::Done && (next.1 matches AppendAction::Fail(e) && e.code
                    == HostErrorCode::InvalidRequest && e.message@ == "session message id already exists"@)
            } else {
                next == (AppendStage::Ordinal, AppendAction::ReadOrdinal)
            },
            (AppendStage::Ordinal, AppendEvent::LastOrdinal(previous)) => if previous >= -1 && previous
                < i64::MAX {
                next == (
                    AppendStage::Advance { previous, ordinal: (previous + 1) as i64 },
                    AppendAction::Advance { previous, next: (previous + 1) as i64 },
                )
            } else {
                next.0 == AppendStage::Done && next.1 is Fail
            },
            (AppendStage::Advance { previous, ordinal }, AppendEvent::Advanced(changed)) => if changed
                == 1 {
                next == (AppendStage::Insert { ordinal }, AppendAction::Insert { ordinal })
            } else {
                next.0 == AppendStage::Done && (next.1 matches AppendAction::Fail(e) && e.code
                    == HostErrorCode::SchemaMismatch)
            },
            (AppendStage::Insert { ordinal }, AppendEvent::Inserted) => next == (
                AppendStage::Done,
                AppendAction::Appended { ordinal },
            ),
            (AppendStage::Done, _) => next == (AppendStage::Done, AppendAction::Ignore),
            (_, AppendEvent::Failed(e)) => next == (AppendStage::Done, AppendAction::Fail(e)),
            (s, _) => next == (s, AppendAction::Ignore),
        },
{
    match (stage, event) {
        (AppendStage::Encode { dedup }, AppendEvent::Encoded) => (AppendStage::Session { dedup }, AppendAction::CheckSession),
        (AppendStage::Session { dedup }, AppendEvent::SessionExists(exists)) => if !exists {
            (
                AppendStage::Done,
                AppendAction::Fail(
                    HostError::new(HostErrorCode::InvalidRequest, "cannot append message to an unresolved session"),
                ),
            )
        } else if dedup {
            (AppendStage::Dedup, AppendAction::LookupDedup)
        } else {
            (AppendStage::Identity, AppendAction::CheckIdentity)
        },
        (AppendStage::Dedup, AppendEvent::DedupFound(found)) => if found {
            (AppendStage::Replay, AppendAction::ValidateReplay)
        } else {
            (AppendStage::Identity, AppendAction::CheckIdentity)
        },
        (AppendStage::Replay, AppendEvent::Replayed(ordinal)) => (AppendStage::Done, AppendAction::Deduplicated { ordinal }),
        (AppendStage::Identity, AppendEvent::IdTaken(taken)) => if taken {
            (
                AppendStage::Done,
                AppendAction::Fail(HostError::new(HostErrorCode::InvalidRequest, "session message id already exists")),
            )
        } else {
            (AppendStage::Ordinal, AppendAction::ReadOrdinal)
        },
        (AppendStage::Ordinal, AppendEvent::LastOrdinal(previous)) => match next_ordinal_value(previous) {
            Ok(ordinal) => (AppendStage::Advance { previous, ordinal }, AppendAction::Advance { previous, next: ordinal }),
            Err(e) => (AppendStage::Done, AppendAction::Fail(e)),
        },
        (AppendStage::Advance { previous, ordinal }, AppendEvent::Advanced(changed)) => match check_ordinal_update(changed) {
            Ok(()) => (AppendStage::Insert { ordinal }, AppendAction::Insert { ordinal }),
            Err(e) => (AppendStage::Done, AppendAction::Fail(e)),
        },
        (AppendStage::Insert { ordinal }, AppendEvent::Inserted) => (AppendStage::Done, AppendAction::Appended { ordinal }),
        (AppendStage::Done, _) => (AppendStage::Done, AppendAction::Ignore),
        (_, AppendEvent::Failed(e)) => (AppendStage::Done, AppendAction::Fail(e)),
        (s, _) => (s, AppendAction::Ignore),
    }
}

/// Where reconciling an operation's receipt stands.
pub enum ReconcileStage {
    /// The operation reference is being validated.
    Validate,
    /// Its key's expiry is being checked against the clock.
    Expiry,
    /// Its receipt is being looked up.
    Lookup,
    Done,
}

pub enum ReconcileEvent<R> {
    Validated(Result<(), HostError>),
    Expiry(Result<bool, HostError>),
    Found(Result<Option<R>, HostError>),
}

pub enum ReconcileAction<R> {
    CheckExpiry,
    Lookup,
    Answer(ReceiptLookup<R>),
    Fail(HostError),
    Ignore,
}

/// The next stage and action of a reconcile: a valid reference, then an
/// expired key answers expired without a lookup, otherwise the receipt
/// found, or unresolved when there is none.
pub fn reconcile_step<R>(stage: ReconcileStage, event: ReconcileEvent<R>) -> (next: (ReconcileStage, ReconcileAction<R>))
    ensures
        match (stage, event) {
            (ReconcileStage::Validate, ReconcileEvent::Validated(Ok(()))) => next == (
                ReconcileStage::Expiry,
                ReconcileAction::<R>::CheckExpiry,
            ),
            (ReconcileStage::Expiry, ReconcileEvent::Expiry(Ok(true))) => next == (
                ReconcileStage::Done,
                ReconcileAction::Answer(ReceiptLookup::<R>::Expired),
            ),
            (ReconcileStage::Expiry, ReconcileEvent::Expiry(Ok(false))) => next == (
                ReconcileStage::Lookup,
                ReconcileAction::<R>::Lookup,
            ),
            (ReconcileStage::Lookup, ReconcileEvent::Found(Ok(Some(r)))) => next == (
                ReconcileStage::Done,
                ReconcileAction::Answer(ReceiptLookup::Found(r)),
            ),
            (ReconcileStage::Lookup, ReconcileEvent::Found(Ok(None))) => next == (
                ReconcileStage::Done,
                ReconcileAction::Answer(ReceiptLookup::<R>::Unresolved),
            ),
            (ReconcileStage::Validate, ReconcileEvent::Validated(Err(e))) => next == (
                ReconcileStage::Done,
                ReconcileAction::<R>::Fail(e),
            ),
            (ReconcileStage::Expiry, ReconcileEvent::Expiry(Err(e))) => next == (
                ReconcileStage::Done,
                ReconcileAction::<R>::Fail(e),
            ),
            (ReconcileStage::Lookup, ReconcileEvent::Found(Err(e))) => next == (
                ReconcileStage::Done,
                ReconcileAction::<R>::Fail(e),
            ),
            (s, _) => next == (s, ReconcileAction::<R>::Ignore),
        },
{
    match (stage, event) {
        (ReconcileStage::Validate, ReconcileEvent::Validated(Ok(()))) => (ReconcileStage::Expiry, ReconcileAction::CheckExpiry),
        (ReconcileStage::Expiry, ReconcileEvent::Expiry(Ok(true))) => (ReconcileStage::Done, ReconcileAction::Answer(ReceiptLookup::Expired)),
        (ReconcileStage::Expiry, ReconcileEvent::Expiry(Ok(false))) => (ReconcileStage::Lookup, ReconcileAction::Lookup),
        (ReconcileStage::Lookup, ReconcileEvent::Found(Ok(Some(r)))) => (ReconcileStage::Done, ReconcileAction::Answer(ReceiptLookup::Found(r))),
        (ReconcileStage::Lookup, ReconcileEvent::Found(Ok(None))) => (ReconcileStage::Done, ReconcileAction::Answer(ReceiptLookup::Unresolved)),
        (ReconcileStage::Validate, ReconcileEvent::Validated(Err(e))) => (ReconcileStage::Done, ReconcileAction::Fail(e)),
        (ReconcileStage::Expiry, ReconcileEvent::Expiry(Err(e))) => (ReconcileStage::Done, ReconcileAction::Fail(e)),
        (ReconcileStage::Lookup, ReconcileEvent::Found(Err(e))) => (ReconcileStage::Done, ReconcileAction::Fail(e)),
        (s, _) => (s, ReconcileAction::Ignore),
    }
}

/// The error for a storage transaction that could not be opened, committed
/// or rolled back.
pub open spec fn is_transaction_error(e: HostError, reason: Seq<char>) -> bool {
    &&& e.code == HostErrorCode::ProviderUnavailable
    &&& e.message@ == "SQLite storage transaction failed"@
    &&& e.details@.len() >= 1
    &&& e.details@[0].0@ == "error"@
    &&& e.details@[0].1@ == reason
}

pub fn transaction_error(reason: String) -> (error: HostError)
    ensures
        is_transaction_error(error, reason@),
        error.details@.len() == 1,
{
    HostError::new(HostErrorCode::ProviderUnavailable, "SQLite storage transaction failed").with_detail(
        "error",
        reason,
    )
}

/// A write whose transaction could not be opened did not commit.
pub fn settle_unopened<R>(operation: StorageOperationRef, reason: String) -> (outcome: WriteOutcome<R, HostError>)
    ensures
        outcome matches WriteOutcome::NotCommitted { operation: op, reason: e } && op == operation
            && is_transaction_error(e, reason@) && e.details@.len() == 1,
{
    WriteOutcome::NotCommitted { operation, reason: transaction_error(reason) }
}

/// A write that staged its receipt: committed when the commit succeeded;
/// when the commit failed, it may or may not have committed.
pub fn settle_commit<R>(operation: StorageOperationRef, receipt: R, commit: Result<(), String>) -> (outcome: WriteOutcome<R, HostError>)
    ensures
        match commit {
            Ok(()) => outcome == WriteOutcome::<R, HostError>::Committed(receipt),
            Err(reason) => outcome matches WriteOutcome::Unknown { operation: op, error } && op
                == operation && is_transaction_error(error, reason@) && error.details@.len() == 1,
        },
{
    match commit {
        Ok(()) => WriteOutcome::Committed(receipt),
        Err(reason) => WriteOutcome::Unknown { operation, error: transaction_error(reason) },
    }
}

/// A write that failed while staging: not committed when the rollback
/// succeeded, with the staging error as the reason; when the rollback
/// failed, it may or may not have committed, and the error names the
/// staging error too.
pub fn settle_rollback<R>(operation: StorageOperationRef, reason: HostError, rollback: Result<(), String>) -> (outcome: WriteOutcome<R, HostError>)
    ensures
        match rollback {
            Ok(()) => outcome == WriteOutcome::<R, HostError>::NotCommitted { operation, reason },
            Err(failure) => outcome matches WriteOutcome::Unknown { operation: op, error } && op
                == operation && is_transaction_error(error, failure@) && error.details@.len() == 2
                && error.details@[1].0@ == "staging_error"@ && error.details@[1].1@ == reason.message@,
        },
{
    match rollback {
        Ok(()) => WriteOutcome::NotCommitted { operation, reason },
        Err(failure) => WriteOutcome::Unknown {
            operation,
            error: transaction_error(failure).with_detail("staging_error", reason.message),
        },
    }
}

} // verus!
