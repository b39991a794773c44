//! Publishing a context for a session's history, as a state machine: each
//! step takes what the last query returned and says which query comes
//! next. The queries, the fence check and the content encoding run outside.
use crate::error::{HostError, HostErrorCode};
use crate::session::flow::{context_decision, ContextDecision};
use crate::storage::limits::StorageLimits;
use crate::storage::receipt_budget::{admit_charge, is_receipt_exceeded};
use vstd::prelude::*;

verus! {

/// What a publication leaves as evidence.
#[derive(Clone, Copy, Debug, PartialEq, Eq, Structural)]
pub enum ContextEvidence {
    /// The fence was stale: nothing was published.
    Stale,
    /// The context was stored as this version.
    Committed { version: u64 },
}

/// Where a publication stands.
pub enum PublicationStage {
    /// Nothing done: the key's retention window is checked first.
    Start,
    /// The transaction is open; evidence stored under the key is looked for.
    Lookup,
    /// The receipt ledger's capacity is read.
    Capacity,
    /// The ledger has `used` bytes in use; the fence is checked against the
    /// history.
    Fence { used: usize },
    /// The context is being stored as `version`.
    Store { used: usize, version: u64 },
    /// The evidence's receipt is issued and its charge computed.
    Charge { used: usize, evidence: ContextEvidence },
    /// The admitted receipt is being recorded.
    Record { evidence: ContextEvidence },
    /// Decided.
    Done,
}

/// What the last query gave back.
pub enum PublicationEvent {
    /// The key's retention window, checked against the clock.
    Window(Result<(), HostError>),
    /// Whether evidence is stored under the key.
    Existing(bool),
    /// The receipt ledger's bytes in use.
    Capacity(usize),
    /// Whether the fence is current, and the history's context version.
    Fence { current: bool, version: u64 },
    /// The context version the history holds after the store.
    Stored { version: u64 },
    /// The charge of the issued receipt.
    Charged(usize),
    /// The receipt row is in.
    Recorded,
    /// A query, an encoding or a cancellation check failed.
    Failed(HostError),
}

/// What to do next.
pub enum PublicationAction {
    /// Refuse before any transaction: not committed, for this reason.
    Refuse(HostError),
    /// Open the transaction and look up the key's evidence.
    OpenAndLookup,
    /// Commit and answer with the stored evidence.
    AnswerExisting,
    ReadCapacity,
    /// Check the fence against the history.
    CheckFence,
    /// Store the context as this version.
    Store { version: u64 },
    /// Issue the receipt of this evidence and compute its charge.
    IssueReceipt(ContextEvidence),
    /// Record the receipt, then check for cancellation.
    Record,
    /// Commit and answer with this evidence.
    Commit(ContextEvidence),
    /// Roll back and answer with this error.
    Abort(HostError),
    /// The event does not belong to this stage: nothing changes.
    Ignore,
}

/// The error for a stored context that does not hold the version it was
/// stored as.
pub open spec fn is_invalid_context_error(e: HostError) -> bool {
    &&& e.code == HostErrorCode::SchemaMismatch
    &&& e.message@ == "invalid stored session context"@
    &&& e.details@.len() == 0
}

pub fn invalid_context() -> (error: HostError)
    ensures
        is_invalid_context_error(error),
{
    HostError::new(HostErrorCode::SchemaMismatch, "invalid stored session context")
}

/// The next stage and action of a publication. The retention window comes
/// before any transaction; stored evidence answers instead of a second
/// publication; the ledger's capacity is read before anything changes; a
/// stale fence leaves stale evidence and stores nothing, a current one
/// stores the next context version, which must be a SQL integer and must
/// be what the history then holds; the receipt is admitted into the ledger
/// before it is recorded, and the commit follows the record.
pub fn publication_step(stage: PublicationStage, event: PublicationEvent, limits: &StorageLimits) -> (next: (PublicationStage, PublicationAction))
    ensures
        match (stage, event) {
            (PublicationStage::Start, PublicationEvent::Window(Err(e))) => next == (
                PublicationStage::Done,
                PublicationAction::Refuse(e),
            ),
            (PublicationStage::Start, PublicationEvent::Window(Ok(()))) => next == (
                PublicationStage::Lookup,
                PublicationAction::OpenAndLookup,
            ),
            (PublicationStage::Lookup, PublicationEvent::Existing(true)) => next == (
                PublicationStage::Done,
                PublicationAction::AnswerExisting,
            ),
            (PublicationStage::Lookup, PublicationEvent::Existing(false)) => next == (
                PublicationStage::Capacity,
                PublicationAction::ReadCapacity,
            ),
            (PublicationStage::Capacity, PublicationEvent::Capacity(used)) => next == (
                PublicationStage::Fence { used },
                PublicationAction::CheckFence,
            ),
            (PublicationStage::Fence { used }, PublicationEvent::Fence { current, version }) => if !current {
                next == (
                    PublicationStage::Charge { used, evidence: ContextEvidence::Stale },
                    PublicationAction::IssueReceipt(ContextEvidence::Stale),
                )
            } else if version + 1 <= i64::MAX {
                next == (
                    PublicationStage::Store { used, version: (version + 1) as u64 },
                    PublicationAction::Store { version: (version + 1) as u64 },
                )
            } else {
                next.0 == PublicationStage::Done && (next.1 matches PublicationAction::Abort(e)
                    && e.code == HostErrorCode::InvalidRequest && e.message@
                    == "session context version overflow"@)
            },
            (PublicationStage::Store { used, version }, PublicationEvent::Stored { version: stored }) => if stored
                == version {
                next == (
                    PublicationStage::Charge { used, evidence: ContextEvidence::Committed { version } },
                    PublicationAction::IssueReceipt(ContextEvidence::Committed { version }),
                )
            } else {
                next.0 == PublicationStage::Done && (next.1 matches PublicationAction::Abort(e)
                    && is_invalid_context_error(e))
            },
            (PublicationStage::Charge { used, evidence }, PublicationEvent::Charged(charge)) => if used
                + charge <= limits.max_receipt_bytes {
                next == (PublicationStage::Record { evidence }, PublicationAction::Record)
            } else {
                next.0 == PublicationStage::Done && (next.1 matches PublicationAction::Abort(e)
                    && is_receipt_exceeded(e))
            },
            (PublicationStage::Record { evidence }, PublicationEvent::Recorded) => next == (
                PublicationStage::Done,
                PublicationAction::Commit(evidence),
            ),
            (PublicationStage::Start, _) => next == (PublicationStage::Start, PublicationAction::Ignore),
            (PublicationStage::Done, _) => next == (PublicationStage::Done, PublicationAction::Ignore),
            (_, PublicationEvent::Failed(e)) => next == (PublicationStage::Done, PublicationAction::Abort(e)),
            (s, _) => next == (s, PublicationAction::Ignore),
        },
{
    match (stage, event) {
        (PublicationStage::Start, PublicationEvent::Window(Err(e))) => (PublicationStage::Done, PublicationAction::Refuse(e)),
        (PublicationStage::Start, PublicationEvent::Window(Ok(()))) => (PublicationStage::Lookup, PublicationAction::OpenAndLookup),
        (PublicationStage::Lookup, PublicationEvent::Existing(true)) => (PublicationStage::Done, PublicationAction::AnswerExisting),
        (PublicationStage::Lookup, PublicationEvent::Existing(false)) => (PublicationStage::Capacity, PublicationAction::ReadCapacity),
        (PublicationStage::Capacity, PublicationEvent::Capacity(used)) => (PublicationStage::Fence { used }, PublicationAction::CheckFence),
        (PublicationStage::Fence { used }, PublicationEvent::Fence { current, version }) => match context_decision(current, version) {
            Ok(ContextDecision::Stale) => (
                PublicationStage::Charge { used, evidence: ContextEvidence::Stale },
                PublicationAction::IssueReceipt(ContextEvidence::Stale),
            ),
            Ok(ContextDecision::Commit(next)) => (
                PublicationStage::Store { used, version: next },
                PublicationAction::Store { version: next },
            ),
            Err(e) => (PublicationStage::Done, PublicationAction::Abort(e)),
        },
        (PublicationStage::Store { used, version }, PublicationEvent::Stored { version: stored }) => {
            if stored != version {
                return (PublicationStage::Done, PublicationAction::Abort(invalid_context()));
            }
            (
                PublicationStage::Charge { used, evidence: ContextEvidence::Committed { version } },
                PublicationAction::IssueReceipt(ContextEvidence::Committed { version }),
            )
        },
        (PublicationStage::Charge { used, evidence }, PublicationEvent::Charged(charge)) => match admit_charge(limits, used, charge) {
            Ok(()) => (PublicationStage::Record { evidence }, PublicationAction::Record),
            Err(e) => (PublicationStage::Done, PublicationAction::Abort(e)),
        },
        (PublicationStage::Record { evidence }, PublicationEvent::Recorded) => (PublicationStage::Done, PublicationAction::Commit(evidence)),
        (PublicationStage::Start, _) => (PublicationStage::Start, PublicationAction::Ignore),
        (PublicationStage::Done, _) => (PublicationStage::Done, PublicationAction::Ignore),
        (_, PublicationEvent::Failed(e)) => (PublicationStage::Done, PublicationAction::Abort(e)),
        (s, _) => (s, PublicationAction::Ignore),
    }
}

} // verus!
