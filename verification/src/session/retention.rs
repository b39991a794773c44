//! One retention pass over a session's history, as a state machine: each
//! step takes what the last query returned and says which query comes
//! next. The queries, the fence selection and the cutoff run outside.
use crate::error::{HostError, HostErrorCode};
use crate::session::flow::{progress_consistent, retention_next_after, retention_scan_step, RetentionProgress};
use crate::session::write::is_limit_error;
use crate::storage::limits::StorageLimits;
use crate::storage::receipt_budget::{admit_charge, is_receipt_exceeded};
use vstd::prelude::*;

verus! {

/// What a pass covers: the rows after `after_ordinal`, at most
/// `scan_limit` of them.
#[derive(Clone, Copy, Debug, PartialEq, Eq)]
pub struct RetentionScope {
    pub after_ordinal: i64,
    pub scan_limit: u32,
}

/// Where a retention pass stands.
pub enum RetentionStage {
    /// A receipt already stored under the operation is looked for.
    Lookup,
    /// The receipt ledger's capacity is read.
    Capacity,
    /// The ledger has `used` bytes in use; the fence selection and the
    /// cutoff are prepared.
    Select { used: usize },
    /// Rows up to ordinal `upper` are scanned; `after` is the last scanned,
    /// `deletes` the expired ones.
    Scan { used: usize, upper: i64, progress: RetentionProgress, bytes: usize, after: i64, deletes: Vec<i64> },
    /// The expired row `deletes[next]` is being deleted.
    Delete { used: usize, progress: RetentionProgress, deletes: Vec<i64>, next: usize },
    /// The receipt is issued and its charge computed.
    Charge { used: usize, progress: RetentionProgress },
    /// The admitted receipt is being recorded.
    Record { progress: RetentionProgress },
    /// Decided.
    Done,
}

/// What the last query gave back.
pub enum RetentionEvent {
    /// Whether a receipt is stored under the operation.
    Existing(bool),
    /// The receipt ledger's bytes in use.
    Capacity(usize),
    /// The last ordinal the fence lets the pass reach.
    Selected(i64),
    /// A row: its ordinal, its timestamp's length, whether it is expired
    /// under the cutoff, whether it carries a deduplication key.
    Row { ordinal: i64, timestamp_len: usize, expired: bool, has_dedup: bool },
    /// No further row.
    RowsEnd,
    /// How many rows the delete changed.
    Deleted(usize),
    /// The charge of the issued receipt.
    Charged(usize),
    /// The receipt row is in.
    Recorded,
    /// A query, an issue or a cancellation check failed.
    Failed(HostError),
}

/// What to do next.
pub enum RetentionAction {
    /// Commit and answer with the stored receipt.
    AnswerExisting,
    ReadCapacity,
    /// Prepare the fence selection and the cutoff.
    Select,
    /// Read the next row.
    NextRow,
    /// Delete the row at this ordinal.
    Delete(i64),
    /// Issue the receipt of this progress and compute its charge.
    IssueReceipt(RetentionProgress),
    /// Record the receipt, then check for cancellation.
    Record,
    /// Commit and answer with this progress.
    Commit(RetentionProgress),
    /// Roll back and answer with this error.
    Abort(HostError),
    /// The event does not belong to this stage: nothing changes.
    Ignore,
}

/// What every stage keeps: consistent counts, no more rows scanned than
/// the scope allows, and exactly one deletion per expired row.
pub open spec fn retention_stage_ok(stage: RetentionStage, scope: RetentionScope) -> bool {
    match stage {
        RetentionStage::Scan { progress, deletes, after, .. } => progress_consistent(progress)
            && progress.scanned <= scope.scan_limit && deletes@.len() == progress.deleted_messages
            && scope.after_ordinal <= after,
        RetentionStage::Delete { progress, deletes, next, .. } => progress_consistent(progress)
            && progress.scanned <= scope.scan_limit && deletes@.len() == progress.deleted_messages
            && next < deletes@.len(),
        RetentionStage::Charge { progress, .. } => progress_consistent(progress) && progress.scanned
            <= scope.scan_limit,
        RetentionStage::Record { progress } => progress_consistent(progress) && progress.scanned
            <= scope.scan_limit,
        _ => true,
    }
}

/// A row the pass's query selects: after the last scanned, up to the
/// fence's upper ordinal, while the scan limit is not reached.
pub open spec fn row_scanned(scope: RetentionScope, progress: RetentionProgress, after: i64, upper: i64, ordinal: i64) -> bool {
    after < ordinal <= upper && progress.scanned < scope.scan_limit
}

/// The next stage and action of a retention pass. A stored receipt
/// answers instead of a second pass; the ledger's capacity is read before
/// anything changes; each scanned row counts against the result budget and
/// an expired row is marked for deletion with its deduplication key; the
/// next pass starts after the last row when the scan limit stopped this one
/// short of the upper ordinal; each marked row is deleted, and a delete
/// that does not change exactly one row aborts; the receipt is admitted
/// into the ledger before it is recorded.
pub fn retention_step(stage: RetentionStage, event: RetentionEvent, scope: &RetentionScope, limits: &StorageLimits) -> (next: (RetentionStage, RetentionAction))
    requires
        retention_stage_ok(stage, *scope),
    ensures
        retention_stage_ok(next.0, *scope),
        match (stage, event) {
            (RetentionStage::Lookup, RetentionEvent::Existing(true)) => next == (
                RetentionStage::Done,
                RetentionAction::AnswerExisting,
            ),
            (RetentionStage::Lookup, RetentionEvent::Existing(false)) => next == (
                RetentionStage::Capacity,
                RetentionAction::ReadCapacity,
            ),
            (RetentionStage::Capacity, RetentionEvent::Capacity(used)) => next == (
                RetentionStage::Select { used },
                RetentionAction::Select,
            ),
            (RetentionStage::Select { used }, RetentionEvent::Selected(upper)) => next.1
                == RetentionAction::NextRow && (next.0 matches RetentionStage::Scan {
                used: u,
                upper: up,
                progress: p,
                bytes: b,
                after: a,
                deletes: d,
            } && u == used && up == upper && p == (RetentionProgress {
                scanned: 0,
                deleted_messages: 0,
                deleted_dedup_keys: 0,
                next_after: None,
            }) && b == 0 && a == scope.after_ordinal && d@.len() == 0),
            (
                RetentionStage::Scan { used, upper, progress, bytes, after, deletes },
                RetentionEvent::Row { ordinal, timestamp_len, expired, has_dedup },
            ) => if !row_scanned(*scope, progress, after, upper, ordinal) {
                next.1 == RetentionAction::NextRow && (next.0 matches RetentionStage::Scan {
                    used: u,
                    upper: up,
                    progress: p,
                    bytes: b,
                    after: a,
                    deletes: d,
                } && u == used && up == upper && p == progress && b == bytes && a == after && d@
                    == deletes@)
            } else if bytes + timestamp_len + 16 > limits.max_result_bytes {
                next.0 == RetentionStage::Done && (next.1 matches RetentionAction::Abort(e)
                    && is_limit_error(e))
            } else {
                next.1 == RetentionAction::NextRow && (next.0 matches RetentionStage::Scan {
                    used: u,
                    upper: up,
                    progress: p,
                    bytes: b,
                    after: a,
                    deletes: d,
                } && u == used && up == upper && b == bytes + timestamp_len + 16 && a == ordinal
                    && p.scanned == progress.scanned + 1 && p.deleted_messages
                    == progress.deleted_messages + (if expired { 1int } else { 0int })
                    && p.deleted_dedup_keys == progress.deleted_dedup_keys + (if expired
                    && has_dedup { 1int } else { 0int }) && p.next_after == progress.next_after
                    && d@ == (if expired { deletes@.push(ordinal) } else { deletes@ }))
            },
            (
                RetentionStage::Scan { used, upper, progress, bytes, after, deletes },
                RetentionEvent::RowsEnd,
            ) => {
                let done = RetentionProgress {
                    next_after: if progress.scanned == scope.scan_limit && after < upper {
                        Some(after)
                    } else {
                        None
                    },
                    ..progress
                };
                if deletes@.len() == 0 {
                    next == (RetentionStage::Charge { used, progress: done }, RetentionAction::IssueReceipt(
                        done,
                    ))
                } else {
                    next.1 == RetentionAction::Delete(deletes@[0]) && (next.0 matches RetentionStage::Delete {
                        used: u,
                        progress: p,
                        deletes: d,
                        next: n,
                    } && u == used && p == done && d@ == deletes@ && n == 0)
                }
            },
            (RetentionStage::Delete { used, progress, deletes, next: n }, RetentionEvent::Deleted(changed)) => if changed
                != 1 {
                next.0 == RetentionStage::Done && (next.1 matches RetentionAction::Abort(e) && e.code
                    == HostErrorCode::InvalidRequest && e.message@
                    == "retention selection changed within transaction"@)
            } else if n + 1 < deletes@.len() {
                next.1 == RetentionAction::Delete(deletes@[n + 1]) && (next.0 matches RetentionStage::Delete {
                    used: u,
                    progress: p,
                    deletes: d,
                    next: m,
                } && u == used && p == progress && d@ == deletes@ && m == n + 1)
            } else {
                next == (RetentionStage::Charge { used, progress }, RetentionAction::IssueReceipt(
                    progress,
                ))
            },
            (RetentionStage::Charge { used, progress }, RetentionEvent::Charged(charge)) => if used
                + charge <= limits.max_receipt_bytes {
                next == (RetentionStage::Record { progress }, RetentionAction::Record)
            } else {
                next.0 == RetentionStage::Done && (next.1 matches RetentionAction::Abort(e)
                    && is_receipt_exceeded(e))
            },
            (RetentionStage::Record { progress }, RetentionEvent::Recorded) => next == (
                RetentionStage::Done,
                RetentionAction::Commit(progress),
            ),
            (RetentionStage::Done, _) => next == (RetentionStage::Done, RetentionAction::Ignore),
            (_, RetentionEvent::Failed(e)) => next == (RetentionStage::Done, RetentionAction::Abort(e)),
            (s, _) => next == (s, RetentionAction::Ignore),
        },
{
    match (stage, event) {
        (RetentionStage::Lookup, RetentionEvent::Existing(true)) => (RetentionStage::Done, RetentionAction::AnswerExisting),
        (RetentionStage::Lookup, RetentionEvent::Existing(false)) => (RetentionStage::Capacity, RetentionAction::ReadCapacity),
        (RetentionStage::Capacity, RetentionEvent::Capacity(used)) => (RetentionStage::Select { used }, RetentionAction::Select),
        (RetentionStage::Select { used }, RetentionEvent::Selected(upper)) => (
            RetentionStage::Scan {
                used,
                upper,
                progress: RetentionProgress {
                    scanned: 0,
                    deleted_messages: 0,
                    deleted_dedup_keys: 0,
                    next_after: None,
                },
                bytes: 0,
                after: scope.after_ordinal,
                deletes: Vec::new(),
            },
            RetentionAction::NextRow,
        ),
        (
            RetentionStage::Scan { used, upper, progress, bytes, after, deletes },
            RetentionEvent::Row { ordinal, timestamp_len, expired, has_dedup },
        ) => {
            if !(after < ordinal && ordinal <= upper && progress.scanned < scope.scan_limit) {
                return (
                    RetentionStage::Scan { used, upper, progress, bytes, after, deletes },
                    RetentionAction::NextRow,
                );
            }
            match retention_scan_step(progress, bytes, timestamp_len, expired, has_dedup, limits) {
                Ok((progress, bytes)) => {
                    let mut deletes = deletes;
                    if expired {
                        deletes.push(ordinal);
                    }
                    (
                        RetentionStage::Scan { used, upper, progress, bytes, after: ordinal, deletes },
                        RetentionAction::NextRow,
                    )
                },
                Err(e) => (RetentionStage::Done, RetentionAction::Abort(e)),
            }
        },
        (RetentionStage::Scan { used, upper, progress, after, deletes, .. }, RetentionEvent::RowsEnd) => {
            let done = RetentionProgress {
                next_after: retention_next_after(progress.scanned, scope.scan_limit, after, upper),
                ..progress
            };
            if deletes.len() == 0 {
                (RetentionStage::Charge { used, progress: done }, RetentionAction::IssueReceipt(done))
            } else {
                let first = deletes[0];
                (RetentionStage::Delete { used, progress: done, deletes, next: 0 }, RetentionAction::Delete(first))
            }
        },
        (RetentionStage::Delete { used, progress, deletes, next }, RetentionEvent::Deleted(changed)) => {
            if changed != 1 {
                return (
                    RetentionStage::Done,
                    RetentionAction::Abort(
                        HostError::new(
                            HostErrorCode::InvalidRequest,
                            "retention selection changed within transaction",
                        ),
                    ),
                );
            }
            if next + 1 < deletes.len() {
                let ordinal = deletes[next + 1];
                (RetentionStage::Delete { used, progress, deletes, next: next + 1 }, RetentionAction::Delete(ordinal))
            } else {
                (RetentionStage::Charge { used, progress }, RetentionAction::IssueReceipt(progress))
            }
        },
        (RetentionStage::Charge { used, progress }, RetentionEvent::Charged(charge)) => match admit_charge(limits, used, charge) {
            Ok(()) => (RetentionStage::Record { progress }, RetentionAction::Record),
            Err(e) => (RetentionStage::Done, RetentionAction::Abort(e)),
        },
        (RetentionStage::Record { progress }, RetentionEvent::Recorded) => (RetentionStage::Done, RetentionAction::Commit(progress)),
        (RetentionStage::Done, _) => (RetentionStage::Done, RetentionAction::Ignore),
        (_, RetentionEvent::Failed(e)) => (RetentionStage::Done, RetentionAction::Abort(e)),
        (s, _) => (s, RetentionAction::Ignore),
    }
}

} // verus!
