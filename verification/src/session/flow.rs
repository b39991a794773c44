//! The decisions behind the SQLite-backed session operations: the identity
//! a history page is read under, the step of a page or a retention scan,
//! whether a context publication commits, the order in which a recorded
//! write proceeds, and what a rollback leaves of a connection. The queries
//! themselves run outside; what they return comes in as arguments.
use crate::error::{HostError, HostErrorCode};
use crate::execution::DispatchError;
use crate::storage::outcome::WriteOutcome;
use crate::storage::receipt::StorageOperationRef;
use crate::session::ledger::admit_receipt;
use crate::session::write::{
    doubled_bytes, is_limit_error, limit_error, receipt_parts, SessionWriteReceipt,
};
use crate::storage::limits::StorageLimits;
use crate::storage::receipt_budget::is_receipt_exceeded;
use crate::text::utf8;
use vstd::prelude::*;

verus! {

/// `b` is `0-9`, `A-F` or `a-f`.
pub open spec fn is_ascii_hexdigit(b: u8) -> bool {
    (48 <= b <= 57) || (65 <= b <= 70) || (97 <= b <= 102)
}

/// A history read is anchored at ordinal `upper` (at least `-1`, for an
/// empty history) of generation `generation`: 32 hexadecimal digits.
pub open spec fn valid_history_identity(upper: i64, generation: Seq<char>) -> bool {
    &&& upper >= -1
    &&& utf8(generation).len() == 32
    &&& forall|i: int| 0 <= i < 32 ==> is_ascii_hexdigit(#[trigger] utf8(generation)[i])
}

/// Checks the identity a history page is read under.
pub fn history_identity_check(upper: i64, generation: &str) -> (checked: Result<(), HostError>)
    ensures
        match checked {
            Ok(()) => valid_history_identity(upper, generation@),
            Err(e) => !valid_history_identity(upper, generation@) && e.code
                == HostErrorCode::InvalidRequest && e.message@ == "invalid session history identity"@
                && e.details@.len() == 0,
        },
{
    let bytes = generation.as_bytes();
    let mut valid = upper >= -1 && bytes.len() == 32;
    let mut i: usize = 0;
    while valid && i < bytes.len()
        invariant
            bytes@ == utf8(generation@),
            i <= bytes@.len(),
            valid ==> upper >= -1 && bytes@.len() == 32,
            valid ==> forall|j: int| 0 <= j < i ==> is_ascii_hexdigit(#[trigger] bytes@[j]),
            !valid ==> !valid_history_identity(upper, generation@),
        decreases bytes@.len() - i,
    {
        let b = bytes[i];
        if !((48 <= b && b <= 57) || (65 <= b && b <= 70) || (97 <= b && b <= 102)) {
            valid = false;
        }
        i = i + 1;
    }
    if !valid {
        return Err(HostError::new(HostErrorCode::InvalidRequest, "invalid session history identity"));
    }
    Ok(())
}

/// The stored summary of a history: its text and message count come
/// together or not at all; one without the other is a damaged row.
pub fn summary_pair(text: Option<String>, count: Option<i64>) -> (summary: Result<
    Option<(String, i64)>,
    HostError,
>)
    ensures
        match (text, count) {
            (None, None) => summary matches Ok(None),
            (Some(t), Some(c)) => summary matches Ok(Some((st, sc))) && st@ == t@ && sc == c,
            _ => summary matches Err(e) && e.code == HostErrorCode::SchemaMismatch && e.message@
                == "incomplete session summary metadata"@ && e.details@.len() == 0,
        },
{
    match (text, count) {
        (None, None) => Ok(None),
        (Some(text), Some(count)) => Ok(Some((text, count))),
        _ => Err(HostError::new(HostErrorCode::SchemaMismatch, "incomplete session summary metadata")),
    }
}

/// The message count of a stored summary, which must be a `usize`.
pub fn summary_count(count: i64) -> (n: Result<usize, HostError>)
    ensures
        match n {
            Ok(n) => 0 <= count <= usize::MAX && n == count,
            Err(e) => !(0 <= count <= usize::MAX) && e.code == HostErrorCode::SchemaMismatch
                && e.message@ == "session count cannot be represented"@ && e.details@.len() == 1
                && e.details@[0].0@ == "error"@,
        },
{
    match usize_from_i64(count) {
        Ok(n) => Ok(n),
        Err(reason) => Err(
            HostError::new(HostErrorCode::SchemaMismatch, "session count cannot be represented").with_detail(
                "error",
                reason,
            ),
        ),
    }
}

/// `usize::try_from(value)`: the value when it is a `usize`, otherwise the
/// text std gives for an out-of-range conversion.
fn usize_from_i64(value: i64) -> (n: Result<usize, String>)
    ensures
        match n {
            Ok(n) => 0 <= value <= usize::MAX && n == value,
            Err(_) => !(0 <= value <= usize::MAX),
        },
{
    if value < 0 || value as u64 > usize::MAX as u64 {
        return Err("out of range integral type conversion attempted".to_owned());
    }
    Ok(value as usize)
}

/// The row bound of a history query: one row more than the scan limit, so
/// that a scan past the limit is noticed; `None` when that is no SQL
/// integer.
pub fn scan_query_limit(limits: &StorageLimits) -> (bound: Option<i64>)
    ensures
        match bound {
            Some(n) => n == limits.max_scan_rows + 1,
            None => limits.max_scan_rows + 1 > i64::MAX,
        },
{
    if limits.max_scan_rows as u64 >= 0x7fff_ffff_ffff_ffff {
        return None;
    }
    Some(limits.max_scan_rows as i64 + 1)
}

/// The result bytes a history page opens with: its summary text, its
/// fence token and its published context, if any. `None` when they pass
/// the result limit.
pub fn history_opening_bytes(summary_len: Option<usize>, fence_len: usize, context_bytes: Option<usize>, limits: &StorageLimits) -> (bytes: Option<usize>)
    ensures
        ({
            let total = (match summary_len {
                Some(n) => n as int,
                None => 0,
            }) + fence_len + (match context_bytes {
                Some(n) => n as int,
                None => 0,
            });
            match bytes {
                Some(b) => b == total && total <= limits.max_result_bytes,
                None => total > limits.max_result_bytes,
            }
        }),
{
    let summary = match summary_len {
        Some(n) => n,
        None => 0,
    };
    let mut bytes = match summary.checked_add(fence_len) {
        Some(bytes) => bytes,
        None => return None,
    };
    if let Some(context) = context_bytes {
        bytes = match bytes.checked_add(context) {
            Some(bytes) => bytes,
            None => return None,
        };
    }
    if bytes > limits.max_result_bytes {
        return None;
    }
    Some(bytes)
}

/// Whether a finished page, with its cursor if it has one, fits the
/// result limit.
pub fn history_page_fits(bytes: usize, cursor_len: Option<usize>, limits: &StorageLimits) -> (fits: bool)
    ensures
        fits == (bytes + (match cursor_len {
            Some(n) => n as int,
            None => 0,
        }) <= limits.max_result_bytes),
{
    let cursor = match cursor_len {
        Some(n) => n,
        None => 0,
    };
    match bytes.checked_add(cursor) {
        Some(total) => total <= limits.max_result_bytes,
        None => false,
    }
}

/// How far a history page has got: rows visited, messages taken, result
/// bytes used, and the ordinal of the last message taken.
#[derive(Clone, Copy, Debug, PartialEq, Eq)]
pub struct PageState {
    pub visited: usize,
    pub taken: usize,
    pub bytes: usize,
    pub after: i64,
}

/// What a retention scan has done so far.
#[derive(Clone, Copy, Debug, PartialEq, Eq)]
pub struct RetentionProgress {
    pub scanned: u32,
    pub deleted_messages: u32,
    pub deleted_dedup_keys: u32,
    pub next_after: Option<i64>,
}

/// Counts that a scan can have reached: no more deduplication keys deleted
/// than messages, no more messages than rows scanned.
pub open spec fn progress_consistent(p: RetentionProgress) -> bool {
    p.deleted_dedup_keys <= p.deleted_messages <= p.scanned
}

/// One scanned row of a retention pass: it costs its timestamp and 16
/// bytes of the result, which must stay within the result limit; an
/// expired row is deleted, with its deduplication key if it has one.
pub fn retention_scan_step(progress: RetentionProgress, bytes: usize, timestamp_len: usize, expired: bool, has_dedup: bool, limits: &StorageLimits) -> (next: Result<(RetentionProgress, usize), HostError>)
    requires
        progress_consistent(progress),
        progress.scanned < u32::MAX,
    ensures
        match next {
            Ok((p, b)) => b == bytes + timestamp_len + 16 && b <= limits.max_result_bytes
                && p.scanned == progress.scanned + 1 && p.deleted_messages == progress.deleted_messages
                + (if expired { 1int } else { 0int }) && p.deleted_dedup_keys
                == progress.deleted_dedup_keys + (if expired && has_dedup { 1int } else { 0int })
                && p.next_after == progress.next_after && progress_consistent(p),
            Err(e) => bytes + timestamp_len + 16 > limits.max_result_bytes && is_limit_error(e),
        },
{
    let total = match bytes.checked_add(timestamp_len) {
        Some(total) => match total.checked_add(16) {
            Some(total) => total,
            None => return Err(limit_error()),
        },
        None => return Err(limit_error()),
    };
    if total > limits.max_result_bytes {
        return Err(limit_error());
    }
    let mut next = progress;
    next.scanned = progress.scanned + 1;
    if expired {
        next.deleted_messages = progress.deleted_messages + 1;
        if has_dedup {
            next.deleted_dedup_keys = progress.deleted_dedup_keys + 1;
        }
    }
    Ok((next, total))
}

/// Where the next retention pass starts: after the last row scanned, when
/// this pass stopped at its scan limit short of the upper ordinal.
pub fn retention_next_after(scanned: u32, scan_limit: u32, after: i64, upper: i64) -> (next: Option<i64>)
    ensures
        next == (if scanned == scan_limit && after < upper {
            Some(after)
        } else {
            None
        }),
{
    if scanned == scan_limit && after < upper {
        Some(after)
    } else {
        None
    }
}

/// A stored retention receipt's counts, read back: its generation must
/// belong to the session, no more deduplication keys than messages may be
/// deleted, no more messages than rows scanned, and the next start, if
/// any, is an ordinal.
pub fn stored_retention_progress(generation_belongs: bool, scanned: u32, deleted_messages: u32, deleted_dedup_keys: u32, next_after: Option<i64>) -> (progress: Result<RetentionProgress, HostError>)
    ensures
        match progress {
            Ok(p) => generation_belongs && p == (RetentionProgress {
                scanned,
                deleted_messages,
                deleted_dedup_keys,
                next_after,
            }) && progress_consistent(p) && (next_after matches Some(n) ==> n >= 0),
            Err(e) => !(generation_belongs && deleted_dedup_keys <= deleted_messages <= scanned && (
            next_after matches Some(n) ==> n >= 0)) && e.code == HostErrorCode::SchemaMismatch
                && e.message@ == "invalid retention receipt"@ && e.details@.len() == 0,
        },
{
    let negative = match next_after {
        Some(n) => n < 0,
        None => false,
    };
    if !generation_belongs || deleted_dedup_keys > deleted_messages || deleted_messages > scanned
        || negative {
        return Err(HostError::new(HostErrorCode::SchemaMismatch, "invalid retention receipt"));
    }
    Ok(RetentionProgress { scanned, deleted_messages, deleted_dedup_keys, next_after })
}

/// A stored context receipt, as its status columns say.
pub enum StoredContext {
    /// Committed as `version`, under the generation token `generation`.
    Committed { generation: String, version: u64 },
    /// Refused as stale.
    Stale,
    /// Any other combination: the row is damaged.
    Invalid,
}

/// The status column holds `word`.
pub open spec fn is_status(status: Option<&str>, word: Seq<char>) -> bool {
    status matches Some(s) && s@ == word
}

/// The version column holds a positive version.
pub open spec fn positive(version: Option<i64>) -> bool {
    version matches Some(n) && n > 0
}

/// Reads a context receipt's status, generation and version: `committed`
/// with a generation and a positive version, or `stale` with neither.
pub fn stored_context_status(status: Option<&str>, generation: Option<String>, version: Option<i64>) -> (stored: StoredContext)
    ensures
        match stored {
            StoredContext::Committed { generation: g, version: v } => is_status(status, "committed"@)
                && generation is Some && g@ == generation->0@ && positive(version) && v
                == version->0,
            StoredContext::Stale => is_status(status, "stale"@) && generation is None && version is None,
            StoredContext::Invalid => !(is_status(status, "committed"@) && generation is Some
                && positive(version)) && !(is_status(status, "stale"@) && generation is None
                && version is None),
        },
{
    let committed = match status {
        Some(s) => crate::text::str_eq(s, "committed"),
        None => false,
    };
    let stale = match status {
        Some(s) => crate::text::str_eq(s, "stale"),
        None => false,
    };
    proof {
        reveal_strlit("committed");
        reveal_strlit("stale");
        assert("committed"@.len() == 9 && "stale"@.len() == 5);
        assert("committed"@ != "stale"@);
    }
    if committed {
        assert(!is_status(status, "stale"@));
        return match (generation, version) {
            (Some(generation), Some(version)) => if version > 0 {
                StoredContext::Committed { generation, version: version as u64 }
            } else {
                StoredContext::Invalid
            },
            _ => StoredContext::Invalid,
        };
    }
    if stale && generation.is_none() && version.is_none() {
        return StoredContext::Stale;
    }
    StoredContext::Invalid
}

/// What a context publication does.
#[derive(Clone, Copy, Debug, PartialEq, Eq)]
pub enum ContextDecision {
    /// The history moved on since the fence was issued: not committed.
    Stale,
    /// Commit as this context version.
    Commit(u64),
}

/// A publication against a current fence commits the next context
/// version, which must stay a SQL integer; against a stale fence it is
/// refused as stale.
pub fn context_decision(current: bool, version: u64) -> (decision: Result<ContextDecision, HostError>)
    ensures
        match decision {
            Ok(ContextDecision::Stale) => !current,
            Ok(ContextDecision::Commit(next)) => current && next == version + 1 && next <= i64::MAX,
            Err(e) => current && version + 1 > i64::MAX && e.code == HostErrorCode::InvalidRequest
                && e.message@ == "session context version overflow"@ && e.details@.len() == 0,
        },
{
    if !current {
        return Ok(ContextDecision::Stale);
    }
    if version >= 0x7fff_ffff_ffff_ffff {
        return Err(HostError::new(HostErrorCode::InvalidRequest, "session context version overflow"));
    }
    Ok(ContextDecision::Commit(version + 1))
}

/// Where a recorded session write (a resolve or an append) stands.
pub enum WriteStage {
    /// Nothing done: the key's retention window is checked first.
    Start,
    /// The transaction is open; a receipt stored under the key is looked
    /// for.
    Lookup,
    /// No receipt is stored; the receipt ledger's capacity is read.
    Capacity,
    /// The ledger has `used` bytes in use; the write is applied.
    Apply { used: usize },
    /// The receipt was admitted and is being recorded.
    Record { receipt: SessionWriteReceipt },
    /// Decided.
    Done,
}

/// What the outside work of one stage gave back.
pub enum WriteEvent {
    Window(Result<(), HostError>),
    Existing(Result<Option<SessionWriteReceipt>, HostError>),
    Capacity(Result<usize, HostError>),
    Applied(Result<SessionWriteReceipt, HostError>),
    Recorded(Result<(), HostError>),
}

/// The outside work to do next.
pub enum WriteAction {
    /// Refuse before any transaction: not committed, for this reason.
    Refuse(HostError),
    /// Open the transaction and look up the key's stored receipt.
    OpenAndLookup,
    /// Read the receipt ledger's capacity.
    ReadCapacity,
    /// Apply the write.
    Apply,
    /// Insert the row of the receipt the stage holds, then check for
    /// cancellation.
    Record,
    /// Commit and answer with this receipt.
    Commit(SessionWriteReceipt),
    /// Roll back and answer with this error.
    Abort(HostError),
    /// The event does not belong to this stage: nothing changes.
    Ignore,
}

/// Whether a receipt stored under `session` fits a ledger with `used`
/// bytes in use.
pub open spec fn receipt_fits(limits: StorageLimits, used: usize, r: SessionWriteReceipt, session: Seq<char>) -> bool {
    1024 + doubled_bytes(receipt_parts(r, session)) <= usize::MAX && used + 1024 + doubled_bytes(
        receipt_parts(r, session),
    ) <= limits.max_receipt_bytes
}

/// The next stage and action of a recorded write. The order is fixed: the
/// retention window before any transaction; a receipt already stored under
/// the key answers instead of a second write; the ledger's capacity before
/// the write is applied; admission of the new receipt before its row is
/// inserted; commit only once the row is in.
pub fn write_step(stage: WriteStage, event: WriteEvent, session: &str, limits: &StorageLimits) -> (next: (WriteStage, WriteAction))
    ensures
        match (stage, event) {
            (WriteStage::Start, WriteEvent::Window(Err(e))) => next == (
                WriteStage::Done,
                WriteAction::Refuse(e),
            ),
            (WriteStage::Start, WriteEvent::Window(Ok(()))) => next == (
                WriteStage::Lookup,
                WriteAction::OpenAndLookup,
            ),
            (WriteStage::Lookup, WriteEvent::Existing(Err(e))) => next == (
                WriteStage::Done,
                WriteAction::Abort(e),
            ),
            (WriteStage::Lookup, WriteEvent::Existing(Ok(Some(r)))) => next == (
                WriteStage::Done,
                WriteAction::Commit(r),
            ),
            (WriteStage::Lookup, WriteEvent::Existing(Ok(None))) => next == (
                WriteStage::Capacity,
                WriteAction::ReadCapacity,
            ),
            (WriteStage::Capacity, WriteEvent::Capacity(Err(e))) => next == (
                WriteStage::Done,
                WriteAction::Abort(e),
            ),
            (WriteStage::Capacity, WriteEvent::Capacity(Ok(used))) => next == (
                WriteStage::Apply { used },
                WriteAction::Apply,
            ),
            (WriteStage::Apply { .. }, WriteEvent::Applied(Err(e))) => next == (
                WriteStage::Done,
                WriteAction::Abort(e),
            ),
            (WriteStage::Apply { used }, WriteEvent::Applied(Ok(r))) => if receipt_fits(
                *limits,
                used,
                r,
                session@,
            ) {
                next == (WriteStage::Record { receipt: r }, WriteAction::Record)
            } else {
                next.0 == WriteStage::Done && (next.1 matches WriteAction::Abort(e)
                    && is_receipt_exceeded(e))
            },
            (WriteStage::Record { receipt }, WriteEvent::Recorded(Ok(()))) => next == (
                WriteStage::Done,
                WriteAction::Commit(receipt),
            ),
            (WriteStage::Record { .. }, WriteEvent::Recorded(Err(e))) => next == (
                WriteStage::Done,
                WriteAction::Abort(e),
            ),
            (s, _) => next == (s, WriteAction::Ignore),
        },
{
    match (stage, event) {
        (WriteStage::Start, WriteEvent::Window(Err(e))) => (WriteStage::Done, WriteAction::Refuse(e)),
        (WriteStage::Start, WriteEvent::Window(Ok(()))) => (WriteStage::Lookup, WriteAction::OpenAndLookup),
        (WriteStage::Lookup, WriteEvent::Existing(Err(e))) => (WriteStage::Done, WriteAction::Abort(e)),
        (WriteStage::Lookup, WriteEvent::Existing(Ok(Some(r)))) => (WriteStage::Done, WriteAction::Commit(r)),
        (WriteStage::Lookup, WriteEvent::Existing(Ok(None))) => (WriteStage::Capacity, WriteAction::ReadCapacity),
        (WriteStage::Capacity, WriteEvent::Capacity(Err(e))) => (WriteStage::Done, WriteAction::Abort(e)),
        (WriteStage::Capacity, WriteEvent::Capacity(Ok(used))) => (WriteStage::Apply { used }, WriteAction::Apply),
        (WriteStage::Apply { .. }, WriteEvent::Applied(Err(e))) => (WriteStage::Done, WriteAction::Abort(e)),
        (WriteStage::Apply { used }, WriteEvent::Applied(Ok(r))) => match admit_receipt(limits, used, &r, session) {
            Ok(()) => (WriteStage::Record { receipt: r }, WriteAction::Record),
            Err(e) => (WriteStage::Done, WriteAction::Abort(e)),
        },
        (WriteStage::Record { receipt }, WriteEvent::Recorded(Ok(()))) => (WriteStage::Done, WriteAction::Commit(receipt)),
        (WriteStage::Record { .. }, WriteEvent::Recorded(Err(e))) => (WriteStage::Done, WriteAction::Abort(e)),
        (s, _) => (s, WriteAction::Ignore),
    }
}

/// What a job's rollback leaves of its connection: an error when the
/// rollback failed or left a transaction open, `None` when the connection
/// can serve the next job.
pub fn rollback_outcome(rollback: Result<(), String>, still_active: bool) -> (error: Option<HostError>)
    ensures
        match rollback {
            Err(reason) => error matches Some(e) && e.code == HostErrorCode::ProviderUnavailable
                && e.message@ == "SQLite rollback failed"@ && e.details@.len() == 1
                && e.details@[0].0@ == "error"@ && e.details@[0].1@ == reason@,
            Ok(()) => if still_active {
                error matches Some(e) && e.code == HostErrorCode::ProviderUnavailable && e.message@
                    == "SQLite transaction remained active after rollback"@ && e.details@.len() == 0
            } else {
                error is None
            },
        },
{
    match rollback {
        Err(reason) => Some(
            HostError::new(HostErrorCode::ProviderUnavailable, "SQLite rollback failed").with_detail(
                "error",
                reason,
            ),
        ),
        Ok(()) => if still_active {
            Some(
                HostError::new(
                    HostErrorCode::ProviderUnavailable,
                    "SQLite transaction remained active after rollback",
                ),
            )
        } else {
            None
        },
    }
}

/// Why a context publication was not committed.
#[derive(Clone, Copy, Debug, PartialEq, Eq, Structural)]
pub enum SessionContextRejection {
    /// The job never ran.
    Rejected,
    /// The history moved on since the fence was issued.
    StaleHistory,
}

/// The mutation a session write request stands to make, known before it
/// is dispatched.
pub enum PendingMutation {
    /// A context publication under this operation.
    Context(StorageOperationRef),
    /// A resolve or an append under this operation.
    Write(StorageOperationRef),
}

/// What a failed dispatch of a session write answers.
pub enum DispatchFailure<C> {
    /// A publication's outcome.
    Context(WriteOutcome<C, SessionContextRejection>),
    /// A resolve's or an append's outcome.
    Write(WriteOutcome<crate::session::write::SessionWriteReceipt, HostError>),
    /// A request that mutates nothing answers with the dispatch error.
    Failed(DispatchError),
}

/// The answer to a session write whose dispatch failed. A pending mutation
/// turns the failure into its outcome: not committed when the job never
/// ran (a publication then says it was rejected, a write gives the error
/// as its reason), unknown when it may have run. A request without one
/// keeps the dispatch error.
pub fn dispatch_failure<C>(error: DispatchError, pending: Option<PendingMutation>) -> (answer: DispatchFailure<C>)
    ensures
        match (pending, error) {
            (Some(PendingMutation::Context(op)), DispatchError::NotDispatched(_)) => answer matches DispatchFailure::Context(
                WriteOutcome::NotCommitted { operation, reason },
            ) && operation == op && reason == SessionContextRejection::Rejected,
            (Some(PendingMutation::Context(op)), DispatchError::OutcomeUnavailable(e)) => answer matches DispatchFailure::Context(
                WriteOutcome::Unknown { operation, error },
            ) && operation == op && error == e,
            (Some(PendingMutation::Write(op)), DispatchError::NotDispatched(e)) => answer matches DispatchFailure::Write(
                WriteOutcome::NotCommitted { operation, reason },
            ) && operation == op && reason == e,
            (Some(PendingMutation::Write(op)), DispatchError::OutcomeUnavailable(e)) => answer matches DispatchFailure::Write(
                WriteOutcome::Unknown { operation, error },
            ) && operation == op && error == e,
            (None, err) => answer matches DispatchFailure::Failed(d) && d == err,
        },
{
    match (pending, error) {
        (Some(PendingMutation::Context(operation)), DispatchError::NotDispatched(_)) => DispatchFailure::Context(
            WriteOutcome::NotCommitted { operation, reason: SessionContextRejection::Rejected },
        ),
        (Some(PendingMutation::Context(operation)), DispatchError::OutcomeUnavailable(error)) => DispatchFailure::Context(
            WriteOutcome::Unknown { operation, error },
        ),
        (Some(PendingMutation::Write(operation)), DispatchError::NotDispatched(reason)) => DispatchFailure::Write(
            WriteOutcome::NotCommitted { operation, reason },
        ),
        (Some(PendingMutation::Write(operation)), DispatchError::OutcomeUnavailable(error)) => DispatchFailure::Write(
            WriteOutcome::Unknown { operation, error },
        ),
        (None, error) => DispatchFailure::Failed(error),
    }
}

/// The total of some byte counts.
pub open spec fn total_bytes(cells: Seq<usize>) -> nat
    decreases cells.len(),
{
    if cells.len() == 0 {
        0
    } else {
        total_bytes(cells.drop_last()) + cells.last() as nat
    }
}

/// The bytes of a stored message row: the sum of its text cells, `None`
/// when that is no `usize`.
pub fn stored_row_bytes(cells: &Vec<usize>) -> (total: Option<usize>)
    ensures
        match total {
            Some(t) => t == total_bytes(cells@),
            None => total_bytes(cells@) > usize::MAX,
        },
{
    let mut total: usize = 0;
    let mut i: usize = 0;
    while i < cells.len()
        invariant
            i <= cells@.len(),
            total == total_bytes(cells@.take(i as int)),
        decreases cells@.len() - i,
    {
        assert(cells@.take(i as int + 1).drop_last() =~= cells@.take(i as int));
        match total.checked_add(cells[i]) {
            Some(next) => total = next,
            None => {
                proof {
                    lemma_total_bytes_prefix(cells@, i as int + 1);
                }
                return None;
            },
        }
        i = i + 1;
    }
    assert(cells@.take(cells@.len() as int) =~= cells@);
    Some(total)
}

/// A prefix never holds more bytes than the whole.
proof fn lemma_total_bytes_prefix(cells: Seq<usize>, n: int)
    requires
        0 <= n <= cells.len(),
    ensures
        total_bytes(cells.take(n)) <= total_bytes(cells),
    decreases cells.len() - n,
{
    if n < cells.len() {
        lemma_total_bytes_prefix(cells, n + 1);
        assert(cells.take(n + 1).drop_last() =~= cells.take(n));
    }
    else {
        assert(cells.take(n) =~= cells);
    }
}

/// A stored message row is admitted before anything of it is decoded: its
/// bytes must fit both the value limit and what is left of the result.
pub fn check_stored_row(bytes: usize, limits: &StorageLimits, remaining: usize) -> (checked: Result<(), HostError>)
    ensures
        match checked {
            Ok(()) => bytes <= limits.max_value_bytes && bytes <= remaining,
            Err(e) => !(bytes <= limits.max_value_bytes && bytes <= remaining) && e.code
                == HostErrorCode::BudgetExceeded && e.message@
                == "stored session message exceeds byte limit"@ && e.details@.len() == 0,
        },
{
    if bytes > limits.max_value_bytes || bytes > remaining {
        return Err(HostError::new(HostErrorCode::BudgetExceeded, "stored session message exceeds byte limit"));
    }
    Ok(())
}

/// A decoded message must still fit what is left of the result.
pub fn check_decoded_message(size: usize, remaining: usize) -> (checked: Result<(), HostError>)
    ensures
        match checked {
            Ok(()) => size <= remaining,
            Err(e) => size > remaining && e.code == HostErrorCode::BudgetExceeded && e.message@
                == "decoded session message exceeds remaining result budget"@ && e.details@.len() == 0,
        },
{
    if size > remaining {
        return Err(
            HostError::new(
                HostErrorCode::BudgetExceeded,
                "decoded session message exceeds remaining result budget",
            ),
        );
    }
    Ok(())
}

} // verus!
