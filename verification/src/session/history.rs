//! Reading one page of a session's history, as a state machine: each step
//! takes what the last query returned and says which query comes next. The
//! queries, the cursor and the fence run outside.
use crate::error::{HostError, HostErrorCode};
use crate::session::flow::{
    history_identity_check, history_opening_bytes, summary_count, summary_pair,
    valid_history_identity, PageState,
};
use crate::storage::limits::StorageLimits;
use crate::text::{byte_len, utf8};
use vstd::prelude::*;

verus! {

/// The session row a history read starts from: the last ordinal, the
/// history generation, the size of the stored configuration and, when the
/// context policy asks for it, the stored summary.
pub struct SessionRow {
    pub upper: i64,
    pub generation: String,
    pub config_bytes: usize,
    pub summary_text: Option<String>,
    pub summary_count: Option<i64>,
}

/// The ordinals a page may hold (`lower..=upper`) and how many messages
/// it may hold.
#[derive(Clone, Copy, Debug, PartialEq, Eq)]
pub struct PageWindow {
    pub lower: i64,
    pub upper: i64,
    pub limit: usize,
}

/// Where a history read stands.
pub enum HistoryStage {
    /// The session row is being read.
    Start,
    /// The cursor, the fence and the published context are being prepared
    /// for a history that ends at `upper`, with this stored summary.
    Opening { upper: i64, summary: Option<(String, i64)> },
    /// Rows are being read into the page.
    Rows { window: PageWindow, page: PageState },
    /// The message of the retained row at `ordinal` is being read.
    Reading { window: PageWindow, page: PageState, ordinal: i64 },
    /// The page is full and a further retained row follows: a cursor is
    /// being encoded.
    Full { page: PageState },
    /// Decided.
    Done,
}

/// What the last query gave back.
pub enum HistoryEvent {
    /// The session row, if the session exists.
    Session(Option<SessionRow>),
    /// The page's window, the position it starts after, the size of the
    /// fence token and of the published context, if there is one.
    Opened { published_context: bool, lower: i64, after: i64, limit: usize, fence_len: usize, context_bytes: Option<usize> },
    /// A row at `ordinal`, and whether it is in the retained window.
    Row { ordinal: i64, retained: bool },
    /// The bytes the message just read costs in the result.
    Message(usize),
    /// No further row.
    RowsEnd,
    /// The length of the encoded cursor.
    CursorEncoded(usize),
    /// A query, a decode or a cancellation check failed.
    Failed(HostError),
}

/// What to do next.
pub enum HistoryAction {
    /// Prepare the cursor, the fence and the published context for a
    /// history ending at `upper`.
    Open { upper: i64 },
    /// Answer with this summary, and read the rows after the position.
    ReadRows { summary: Option<(String, usize)> },
    /// Read the next row.
    NextRow,
    /// Read the message of the current row, within `remaining` bytes.
    ReadMessage { remaining: usize },
    /// Keep the message just read, and read the next row.
    Take,
    /// Encode a cursor after `after`.
    EncodeCursor { after: i64 },
    /// Answer with the page: `bytes` in all, with a cursor when `more`.
    Answer { more: bool, bytes: usize },
    /// The page would pass a scan, value or result limit.
    OverLimit,
    /// Fail with this error.
    Fail(HostError),
    /// The event does not belong to this stage: nothing changes.
    Ignore,
}

/// What every stage of a read keeps: a page within the message, scan and
/// result limits, and a message being read that lies after the page's
/// position, inside its window, with room left for it.
pub open spec fn history_stage_ok(stage: HistoryStage, limits: StorageLimits) -> bool {
    match stage {
        HistoryStage::Rows { window, page } => page.taken <= window.limit && page.visited
            <= limits.max_scan_rows && page.bytes <= limits.max_result_bytes,
        HistoryStage::Reading { window, page, ordinal } => page.taken < window.limit
            && page.visited <= limits.max_scan_rows && page.bytes <= limits.max_result_bytes
            && page.after < ordinal && window.lower <= ordinal <= window.upper,
        HistoryStage::Full { page } => page.bytes <= limits.max_result_bytes,
        _ => true,
    }
}

/// The session row holds a text beyond the value limit.
pub open spec fn row_too_large(row: SessionRow, limits: StorageLimits) -> bool {
    row.config_bytes > limits.max_value_bytes || utf8(row.generation@).len() > limits.max_value_bytes
        || (row.summary_text matches Some(t) && utf8(t@).len() > limits.max_value_bytes)
}

/// A row the page's query selects: inside the window and after the
/// position.
pub open spec fn row_selected(window: PageWindow, page: PageState, ordinal: i64) -> bool {
    window.lower <= ordinal <= window.upper && page.after < ordinal
}

/// The summary a page answers with: none beside a published context.
pub open spec fn kept_summary(published: bool, summary: Option<(String, i64)>) -> Option<(String, i64)> {
    if published {
        None
    } else {
        summary
    }
}

pub open spec fn opening_total(summary: Option<(String, i64)>, fence_len: usize, context_bytes: Option<usize>) -> int {
    (match summary {
        Some((t, _)) => utf8(t@).len() as int,
        None => 0,
    }) + fence_len + (match context_bytes {
        Some(n) => n as int,
        None => 0,
    })
}

/// The next stage and action of a history read. The session row is
/// checked first (its text sizes, the summary pair, the identity); the
/// page then opens with the summary, the fence and the published context
/// counted against the result; each selected row counts against the scan
/// limit, a row outside the retained window is passed over, a retained row
/// beyond the page size ends the page with a cursor, and a message read
/// must fit what is left of the result. The ordinals taken increase, the
/// page holds at most `limit` messages and stays within the result limit,
/// and there is a cursor exactly when a further retained row follows.
pub fn history_step(stage: HistoryStage, event: HistoryEvent, limits: &StorageLimits) -> (next: (HistoryStage, HistoryAction))
    requires
        history_stage_ok(stage, *limits),
    ensures
        history_stage_ok(next.0, *limits),
        match (stage, event) {
            (HistoryStage::Start, HistoryEvent::Session(None)) => next.0 == HistoryStage::Done && (
            next.1 matches HistoryAction::Fail(e) && e.code == HostErrorCode::InvalidRequest
                && e.message@ == "session history identity is missing"@),
            (HistoryStage::Start, HistoryEvent::Session(Some(row))) => if row_too_large(row, *limits) {
                next == (HistoryStage::Done, HistoryAction::OverLimit)
            } else if !((row.summary_text is None) == (row.summary_count is None)) {
                next.0 == HistoryStage::Done && (next.1 matches HistoryAction::Fail(e) && e.code
                    == HostErrorCode::SchemaMismatch)
            } else if !valid_history_identity(row.upper, row.generation@) {
                next.0 == HistoryStage::Done && (next.1 matches HistoryAction::Fail(e) && e.code
                    == HostErrorCode::InvalidRequest && e.message@
                    == "invalid session history identity"@)
            } else {
                next.1 == HistoryAction::Open { upper: row.upper } && (next.0 matches HistoryStage::Opening {
                    upper,
                    summary,
                } && upper == row.upper && match (summary, row.summary_text) {
                    (Some((t, c)), Some(text)) => t@ == text@ && c == row.summary_count->0,
                    (None, None) => true,
                    _ => false,
                })
            },
            (
                HistoryStage::Opening { upper, summary },
                HistoryEvent::Opened { published_context, lower, after, limit, fence_len, context_bytes },
            ) => {
                let kept = kept_summary(published_context, summary);
                if kept matches Some((_, c)) && !(0 <= c <= usize::MAX) {
                    next.0 == HistoryStage::Done && (next.1 matches HistoryAction::Fail(e) && e.code
                        == HostErrorCode::SchemaMismatch)
                } else if opening_total(kept, fence_len, context_bytes) > limits.max_result_bytes {
                    next == (HistoryStage::Done, HistoryAction::OverLimit)
                } else {
                    next.0 == (HistoryStage::Rows {
                        window: PageWindow { lower, upper, limit },
                        page: PageState {
                            visited: 0,
                            taken: 0,
                            bytes: opening_total(kept, fence_len, context_bytes) as usize,
                            after,
                        },
                    }) && (next.1 matches HistoryAction::ReadRows { summary: s } && match (s, kept) {
                        (Some((st, sc)), Some((kt, kc))) => st@ == kt@ && sc == kc,
                        (None, None) => true,
                        _ => false,
                    })
                }
            },
            (HistoryStage::Rows { window, page }, HistoryEvent::Row { ordinal, retained }) => if !row_selected(
                window,
                page,
                ordinal,
            ) {
                next == (HistoryStage::Rows { window, page }, HistoryAction::NextRow)
            } else if page.visited >= limits.max_scan_rows {
                next == (HistoryStage::Done, HistoryAction::OverLimit)
            } else if !retained {
                next == (HistoryStage::Rows {
                    window,
                    page: PageState { visited: (page.visited + 1) as usize, ..page },
                }, HistoryAction::NextRow)
            } else if page.taken == window.limit {
                next == (HistoryStage::Full { page }, HistoryAction::EncodeCursor {
                    after: page.after,
                })
            } else {
                next == (HistoryStage::Reading {
                    window,
                    page: PageState { visited: (page.visited + 1) as usize, ..page },
                    ordinal,
                }, HistoryAction::ReadMessage {
                    remaining: (limits.max_result_bytes - page.bytes) as usize,
                })
            },
            (HistoryStage::Rows { window, page }, HistoryEvent::RowsEnd) => next == (
                HistoryStage::Done,
                HistoryAction::Answer { more: false, bytes: page.bytes },
            ),
            (HistoryStage::Reading { window, page, ordinal }, HistoryEvent::Message(size)) => if page.bytes
                + size > limits.max_result_bytes {
                next == (HistoryStage::Done, HistoryAction::OverLimit)
            } else {
                next == (HistoryStage::Rows {
                    window,
                    page: PageState {
                        visited: page.visited,
                        taken: (page.taken + 1) as usize,
                        bytes: (page.bytes + size) as usize,
                        after: ordinal,
                    },
                }, HistoryAction::Take) && page.after < ordinal
            },
            (HistoryStage::Full { page }, HistoryEvent::CursorEncoded(len)) => if page.bytes + len
                <= limits.max_result_bytes {
                next == (HistoryStage::Done, HistoryAction::Answer {
                    more: true,
                    bytes: (page.bytes + len) as usize,
                })
            } else {
                next == (HistoryStage::Done, HistoryAction::OverLimit)
            },
            (HistoryStage::Done, _) => next == (HistoryStage::Done, HistoryAction::Ignore),
            (s, HistoryEvent::Failed(e)) => next == (HistoryStage::Done, HistoryAction::Fail(e)),
            (s, _) => next == (s, HistoryAction::Ignore),
        },
{
    match (stage, event) {
        (HistoryStage::Start, HistoryEvent::Session(None)) => (
            HistoryStage::Done,
            HistoryAction::Fail(
                HostError::new(HostErrorCode::InvalidRequest, "session history identity is missing"),
            ),
        ),
        (HistoryStage::Start, HistoryEvent::Session(Some(row))) => {
            let summary_too_large = match &row.summary_text {
                Some(t) => byte_len(t.as_str()) > limits.max_value_bytes,
                None => false,
            };
            if row.config_bytes > limits.max_value_bytes || byte_len(row.generation.as_str())
                > limits.max_value_bytes || summary_too_large {
                return (HistoryStage::Done, HistoryAction::OverLimit);
            }
            let upper = row.upper;
            let summary = match summary_pair(row.summary_text, row.summary_count) {
                Ok(summary) => summary,
                Err(e) => return (HistoryStage::Done, HistoryAction::Fail(e)),
            };
            match history_identity_check(upper, row.generation.as_str()) {
                Ok(()) => (HistoryStage::Opening { upper, summary }, HistoryAction::Open { upper }),
                Err(e) => (HistoryStage::Done, HistoryAction::Fail(e)),
            }
        },
        (
            HistoryStage::Opening { upper, summary },
            HistoryEvent::Opened { published_context, lower, after, limit, fence_len, context_bytes },
        ) => {
            let kept = if published_context {
                None
            } else {
                summary
            };
            let (text_len, answered) = match kept {
                Some((text, count)) => match summary_count(count) {
                    Ok(n) => (Some(byte_len(text.as_str())), Some((text, n))),
                    Err(e) => return (HistoryStage::Done, HistoryAction::Fail(e)),
                },
                None => (None, None),
            };
            match history_opening_bytes(text_len, fence_len, context_bytes, limits) {
                Some(bytes) => (
                    HistoryStage::Rows {
                        window: PageWindow { lower, upper, limit },
                        page: PageState { visited: 0, taken: 0, bytes, after },
                    },
                    HistoryAction::ReadRows { summary: answered },
                ),
                None => (HistoryStage::Done, HistoryAction::OverLimit),
            }
        },
        (HistoryStage::Rows { window, page }, HistoryEvent::Row { ordinal, retained }) => {
            if !(window.lower <= ordinal && ordinal <= window.upper && page.after < ordinal) {
                return (HistoryStage::Rows { window, page }, HistoryAction::NextRow);
            }
            if page.visited >= limits.max_scan_rows {
                return (HistoryStage::Done, HistoryAction::OverLimit);
            }
            let visited = page.visited + 1;
            if !retained {
                return (HistoryStage::Rows { window, page: PageState { visited, ..page } }, HistoryAction::NextRow);
            }
            if page.taken == window.limit {
                return (HistoryStage::Full { page }, HistoryAction::EncodeCursor { after: page.after });
            }
            (
                HistoryStage::Reading { window, page: PageState { visited, ..page }, ordinal },
                HistoryAction::ReadMessage { remaining: limits.max_result_bytes - page.bytes },
            )
        },
        (HistoryStage::Rows { window, page }, HistoryEvent::RowsEnd) => (
            HistoryStage::Done,
            HistoryAction::Answer { more: false, bytes: page.bytes },
        ),
        (HistoryStage::Reading { window, page, ordinal }, HistoryEvent::Message(size)) => {
            if size > limits.max_result_bytes - page.bytes {
                return (HistoryStage::Done, HistoryAction::OverLimit);
            }
            (
                HistoryStage::Rows {
                    window,
                    page: PageState {
                        visited: page.visited,
                        taken: page.taken + 1,
                        bytes: page.bytes + size,
                        after: ordinal,
                    },
                },
                HistoryAction::Take,
            )
        },
        (HistoryStage::Full { page }, HistoryEvent::CursorEncoded(len)) => {
            if len > limits.max_result_bytes - page.bytes {
                return (HistoryStage::Done, HistoryAction::OverLimit);
            }
            (HistoryStage::Done, HistoryAction::Answer { more: true, bytes: page.bytes + len })
        },
        (HistoryStage::Done, _) => (HistoryStage::Done, HistoryAction::Ignore),
        (_, HistoryEvent::Failed(e)) => (HistoryStage::Done, HistoryAction::Fail(e)),
        (s, _) => (s, HistoryAction::Ignore),
    }
}

} // verus!
