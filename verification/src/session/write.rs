//! Session writes: their receipts, their receipt charges, and the request
//! fingerprint that binds a resolve operation to its configuration.
use crate::digest::{blake3_derive_key, blake3_derived};
use crate::error::{HostError, HostErrorCode};
use crate::session::config::{ContextPolicy, RetentionPolicy, SessionConfig};
use crate::session::version::{SessionGeneration, SessionVersion};
use crate::session::SessionRef;
use crate::storage::limits::StorageLimits;
use crate::storage::outcome::{StorageDurability, WriteOutcome};
use crate::storage::receipt::{StorageOperationKey, StorageOperationRef};
use crate::storage::receipt_budget::{charge, is_receipt_exceeded, receipt_charge};
use crate::storage::version::hex_string;
use crate::text::{byte_len, hex_bytes, le_bytes, push_bytes, push_le, utf8};
use vstd::prelude::*;

verus! {

broadcast use {vstd::std_specs::vec::group_vec_axioms, vstd::seq::group_seq_axioms};

/// Receipt of a resolve: the session, whether it was created, and the
/// history generation it resolved to.
#[derive(Clone, PartialEq)]
pub struct SessionResolveReceipt {
    pub operation: StorageOperationRef,
    pub session: SessionRef,
    pub created: bool,
    pub generation: SessionGeneration,
    pub durability: StorageDurability,
}

/// Receipt of an append: the version it produced and the message identity.
#[derive(Clone, PartialEq)]
pub struct SessionAppendReceipt {
    pub operation: StorageOperationRef,
    pub version: SessionVersion,
    pub message_id: String,
    pub deduplicated: bool,
    pub durability: StorageDurability,
}

/// Receipt of one committed session write.
#[derive(Clone, PartialEq)]
pub enum SessionWriteReceipt {
    Append(SessionAppendReceipt),
    Resolve(SessionResolveReceipt),
}

/// Outcome of one session write.
pub type SessionWriteOutcome = WriteOutcome<SessionWriteReceipt, HostError>;

pub open spec fn receipt_operation(r: SessionWriteReceipt) -> StorageOperationRef {
    match r {
        SessionWriteReceipt::Append(a) => a.operation,
        SessionWriteReceipt::Resolve(s) => s.operation,
    }
}

/// The identity a receipt records: the message id or the session id.
pub open spec fn receipt_identity(r: SessionWriteReceipt) -> Seq<char> {
    match r {
        SessionWriteReceipt::Append(a) => a.message_id@,
        SessionWriteReceipt::Resolve(s) => s.session.id@,
    }
}

/// The identity strings a receipt stored for `session` is charged for.
pub open spec fn receipt_parts(r: SessionWriteReceipt, session: Seq<char>) -> Seq<Seq<char>> {
    seq![
        session,
        receipt_operation(r).key@.token,
        receipt_operation(r).request_fingerprint@,
        receipt_identity(r),
    ]
}

/// Twice the UTF-8 length of every string, summed.
pub open spec fn doubled_bytes(parts: Seq<Seq<char>>) -> nat
    decreases parts.len(),
{
    if parts.len() == 0 {
        0
    } else {
        doubled_bytes(parts.drop_last()) + 2 * utf8(parts.last()).len()
    }
}

impl SessionWriteReceipt {
    pub fn operation(&self) -> (operation: &StorageOperationRef)
        ensures
            *operation == receipt_operation(*self),
    {
        match self {
            SessionWriteReceipt::Append(r) => &r.operation,
            SessionWriteReceipt::Resolve(r) => &r.operation,
        }
    }

    pub fn durability(&self) -> (durability: StorageDurability)
        ensures
            durability == match *self {
                SessionWriteReceipt::Append(r) => r.durability,
                SessionWriteReceipt::Resolve(r) => r.durability,
            },
    {
        match self {
            SessionWriteReceipt::Append(r) => r.durability,
            SessionWriteReceipt::Resolve(r) => r.durability,
        }
    }

    /// The revision the write produced: the version token of an append, the
    /// generation token of a resolve.
    pub fn revision(&self) -> (revision: String)
        ensures
            revision@ == match *self {
                SessionWriteReceipt::Append(r) => r.version@,
                SessionWriteReceipt::Resolve(r) => r.generation@,
            },
    {
        match self {
            SessionWriteReceipt::Append(r) => r.version.as_token().to_owned(),
            SessionWriteReceipt::Resolve(r) => r.generation.as_token().to_owned(),
        }
    }

    /// Receipt bytes charged for storing this receipt under `session`: the
    /// fixed charge plus twice the session id, operation key, request
    /// fingerprint and recorded identity.
    pub fn charge(&self, session: &str) -> (size: Result<usize, HostError>)
        ensures
            match size {
                Ok(n) => n == 1024 + doubled_bytes(receipt_parts(*self, session@)),
                Err(e) => 1024 + doubled_bytes(receipt_parts(*self, session@)) > usize::MAX
                    && is_receipt_exceeded(e),
            },
    {
        let identity = match self {
            SessionWriteReceipt::Append(r) => r.message_id.as_str(),
            SessionWriteReceipt::Resolve(r) => r.session.id.as_str(),
        };
        let operation = self.operation();
        let parts = vec![
            session,
            operation.key.as_str(),
            operation.request_fingerprint.as_str(),
            identity,
        ];
        let ghost views = Seq::new(parts@.len(), |i: int| parts@[i]@);
        proof {
            assert(views =~= receipt_parts(*self, session@));
            lemma_doubled_bytes(parts@, views);
        }
        charge(parts.as_slice())
    }
}

proof fn lemma_doubled_bytes(parts: Seq<&str>, views: Seq<Seq<char>>)
    requires
        views.len() == parts.len(),
        forall|i: int| 0 <= i < parts.len() ==> views[i] == #[trigger] parts[i]@,
    ensures
        receipt_charge(parts) == 1024 + doubled_bytes(views),
    decreases parts.len(),
{
    if parts.len() > 0 {
        lemma_doubled_bytes(parts.drop_last(), views.drop_last());
    }
}

/// The error for a session mutation or receipt beyond the storage limits.
pub open spec fn is_limit_error(e: HostError) -> bool {
    &&& e.code == HostErrorCode::BudgetExceeded
    &&& e.message@ == "session mutation or receipt storage limit exceeded"@
    &&& e.details@.len() == 0
}

pub fn limit_error() -> (error: HostError)
    ensures
        is_limit_error(error),
{
    HostError::new(HostErrorCode::BudgetExceeded, "session mutation or receipt storage limit exceeded")
}

/// The error for an operation key reused with a different request.
pub fn mismatch() -> (error: HostError)
    ensures
        error.code == HostErrorCode::InvalidRequest,
        error.message@ == "session operation identity is bound to a different request"@,
        error.details@.len() == 0,
{
    HostError::new(
        HostErrorCode::InvalidRequest,
        "session operation identity is bound to a different request",
    )
}

/// The tag and count that identify a context policy.
pub open spec fn context_tag(policy: ContextPolicy) -> (u8, nat) {
    match policy {
        ContextPolicy::All => (0u8, 0nat),
        ContextPolicy::LastTurns(n) => (1u8, n as nat),
        ContextPolicy::SummaryPlusRecent { recent } => (2u8, recent as nat),
    }
}

/// The tag and count that identify a retention policy.
pub open spec fn retention_tag(policy: RetentionPolicy) -> (u8, nat) {
    match policy {
        RetentionPolicy::Forever => (0u8, 0nat),
        RetentionPolicy::Days(n) => (1u8, n as nat),
    }
}

/// What a resolve request is fingerprinted by: the length-prefixed session
/// id, then tag and count of the context policy and of the retention policy,
/// integers as 8 little-endian bytes.
pub open spec fn resolve_material(config: SessionConfig) -> Seq<u8> {
    let id = utf8(config.id@);
    le_bytes(id.len(), 8) + id + seq![context_tag(config.context).0] + le_bytes(
        context_tag(config.context).1,
        8,
    ) + seq![retention_tag(config.retention).0] + le_bytes(retention_tag(config.retention).1, 8)
}

/// The fingerprint of a resolve request: hexadecimal BLAKE3 key derived
/// under the resolve context from [`resolve_material`].
pub open spec fn resolve_fingerprint(config: SessionConfig) -> Seq<u8> {
    hex_bytes(blake3_derived("etas.session.resolve.v2"@, resolve_material(config)))
}

/// Binds a resolve operation key to its configuration. An empty session id
/// is refused, an id beyond the value byte limit is a limit error.
pub fn resolve_operation_ref(config: &SessionConfig, key: StorageOperationKey, limits: &StorageLimits) -> (operation: Result<StorageOperationRef, HostError>)
    ensures
        match operation {
            Ok(op) => config.id@.len() > 0 && utf8(config.id@).len() <= limits.max_value_bytes
                && op.key == key && utf8(op.request_fingerprint@) == resolve_fingerprint(*config),
            Err(e) => if config.id@.len() == 0 {
                e.code == HostErrorCode::InvalidRequest && e.message@ == "session id must not be empty"@
            } else {
                utf8(config.id@).len() > limits.max_value_bytes && is_limit_error(e)
            },
        },
{
    let id = config.id.as_str();
    let id_len = byte_len(id);
    if id_len == 0 {
        proof {
            vstd::utf8::encode_utf8_decode_utf8(config.id@);
        }
        return Err(HostError::new(HostErrorCode::InvalidRequest, "session id must not be empty"));
    }
    proof {
        if config.id@.len() == 0 {
            assert(config.id@ =~= Seq::<char>::empty());
        }
    }
    if id_len > limits.max_value_bytes {
        return Err(limit_error());
    }
    let mut material: Vec<u8> = Vec::new();
    push_le(&mut material, id_len as u64, 8);
    push_bytes(&mut material, id.as_bytes());
    let (tag, count) = match config.context {
        ContextPolicy::All => (0u8, 0u64),
        ContextPolicy::LastTurns(n) => (1u8, n as u64),
        ContextPolicy::SummaryPlusRecent { recent } => (2u8, recent as u64),
    };
    material.push(tag);
    push_le(&mut material, count, 8);
    let (tag, count) = match config.retention {
        RetentionPolicy::Forever => (0u8, 0u64),
        RetentionPolicy::Days(n) => (1u8, n),
    };
    material.push(tag);
    push_le(&mut material, count, 8);
    assert(material@ =~= resolve_material(*config));
    let derived = blake3_derive_key("etas.session.resolve.v2", material.as_slice());
    assert(derived@ =~= blake3_derived("etas.session.resolve.v2"@, material@));
    let fingerprint = hex_string(&derived);
    Ok(StorageOperationRef { key, request_fingerprint: fingerprint })
}

} // verus!
