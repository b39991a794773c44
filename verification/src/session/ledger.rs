//! The receipt ledger of session writes: what a stored receipt row must
//! hold to be evidence of a resolve or an append, how receipts are built
//! and admitted, and the bookkeeping around them (ordinals, capacity).
use crate::error::{HostError, HostErrorCode};
use crate::session::version::{
    generation_bytes, is_generation_token, is_invalid_generation_error, is_version_token,
    token_belongs_to, version_bytes, SessionGeneration, SessionVersion,
};
use crate::session::write::{
    doubled_bytes, is_limit_error, limit_error, mismatch, receipt_parts, SessionAppendReceipt,
    SessionResolveReceipt, SessionWriteReceipt,
};
use crate::session::{opt_chars, SessionRef};
use crate::storage::limits::StorageLimits;
use crate::storage::version::is_generation_hex;
use crate::storage::outcome::StorageDurability;
use crate::storage::receipt::StorageOperationRef;
use crate::storage::receipt_budget::{admit_charge, is_receipt_exceeded};
use crate::text::{str_eq, utf8};
use vstd::prelude::*;

verus! {

broadcast use {vstd::std_specs::vec::group_vec_axioms, vstd::seq::group_seq_axioms};

/// One stored receipt row, as read from the ledger.
#[derive(Clone, Debug, PartialEq, Eq)]
pub struct StoredReceipt {
    pub fingerprint: String,
    pub kind: String,
    pub version: Option<String>,
    pub message_id: Option<String>,
    pub deduplicated: Option<i64>,
    pub generation: Option<String>,
    pub created: Option<i64>,
    pub summary_text: Option<String>,
    pub summary_message_count: Option<i64>,
}

/// Longest bounded text column of a receipt row.
pub const MAX_RECEIPT_FIELD_BYTES: usize = 256;

pub open spec fn opt_len(s: Option<String>) -> nat {
    match s {
        Some(t) => utf8(t@).len(),
        None => 0,
    }
}

/// A row whose text fields are within bounds: identifiers and tokens at
/// most 256 bytes, message id and summary at most the smaller of the value
/// and result limits.
pub open spec fn row_within_limits(r: StoredReceipt, limits: StorageLimits) -> bool {
    let long_limit = if limits.max_value_bytes < limits.max_result_bytes {
        limits.max_value_bytes
    } else {
        limits.max_result_bytes
    };
    &&& utf8(r.fingerprint@).len() <= MAX_RECEIPT_FIELD_BYTES
    &&& opt_len(r.version) <= MAX_RECEIPT_FIELD_BYTES
    &&& opt_len(r.message_id) <= long_limit
    &&& utf8(r.kind@).len() <= MAX_RECEIPT_FIELD_BYTES
    &&& opt_len(r.generation) <= MAX_RECEIPT_FIELD_BYTES
    &&& opt_len(r.summary_text) <= long_limit
}

fn opt_byte_len(s: &Option<String>) -> (n: usize)
    ensures
        n == opt_len(*s),
{
    match s {
        Some(t) => crate::text::byte_len(t.as_str()),
        None => 0,
    }
}

/// The byte bounds of a receipt row's text columns: the short bound of the
/// fingerprint, version, kind and generation, and the long bound of the
/// message id and summary text (the smaller of the value and result
/// limits). A row whose columns keep to them is within limits.
pub fn receipt_column_bounds(limits: &StorageLimits) -> (bounds: (usize, usize))
    ensures
        bounds.0 == MAX_RECEIPT_FIELD_BYTES,
        bounds.1 == (if limits.max_value_bytes < limits.max_result_bytes {
            limits.max_value_bytes
        } else {
            limits.max_result_bytes
        }),
{
    let long_limit = if limits.max_value_bytes < limits.max_result_bytes {
        limits.max_value_bytes
    } else {
        limits.max_result_bytes
    };
    (MAX_RECEIPT_FIELD_BYTES, long_limit)
}

/// Whether the text fields of a stored row are within bounds, checked
/// before any of them is decoded.
pub fn stored_receipt_within_limits(r: &StoredReceipt, limits: &StorageLimits) -> (within: bool)
    ensures
        within == row_within_limits(*r, *limits),
{
    let long_limit = if limits.max_value_bytes < limits.max_result_bytes {
        limits.max_value_bytes
    } else {
        limits.max_result_bytes
    };
    crate::text::byte_len(r.fingerprint.as_str()) <= MAX_RECEIPT_FIELD_BYTES && opt_byte_len(
        &r.version,
    ) <= MAX_RECEIPT_FIELD_BYTES && opt_byte_len(&r.message_id) <= long_limit
        && crate::text::byte_len(r.kind.as_str()) <= MAX_RECEIPT_FIELD_BYTES && opt_byte_len(
        &r.generation,
    ) <= MAX_RECEIPT_FIELD_BYTES && opt_byte_len(&r.summary_text) <= long_limit
}

/// `value` is 32 ASCII hexadecimal digits, either case.
pub open spec fn is_stored_generation(value: Seq<u8>) -> bool {
    &&& value.len() == 32
    &&& forall|i: int|
        0 <= i < 32 ==> {
            let b = #[trigger] value[i];
            (48 <= b <= 57) || (97 <= b <= 102) || (65 <= b <= 70)
        }
}

pub fn valid_generation(value: &str) -> (valid: bool)
    ensures
        valid == is_stored_generation(utf8(value@)),
{
    let bytes = value.as_bytes();
    if bytes.len() != 32 {
        return false;
    }
    let mut i: usize = 0;
    while i < 32
        invariant
            bytes@ == utf8(value@),
            bytes@.len() == 32,
            i <= 32,
            forall|j: int|
                0 <= j < i ==> {
                    let b = #[trigger] bytes@[j];
                    (48 <= b <= 57) || (97 <= b <= 102) || (65 <= b <= 70)
                },
        decreases 32 - i,
    {
        let b = bytes[i];
        if !((48 <= b && b <= 57) || (97 <= b && b <= 102) || (65 <= b && b <= 70)) {
            return false;
        }
        i = i + 1;
    }
    true
}

/// What a stored row is evidence of.
pub enum StoredShape {
    /// The row's fingerprint is another request's.
    Mismatch,
    /// A context publication's receipt.
    Context,
    /// A legacy compaction receipt.
    Compact,
    /// Malformed evidence.
    Invalid,
    /// A resolve, with the stored generation and whether it created the session.
    Resolve { generation: Seq<char>, created: bool },
    /// An append, with the stored version token, message id and dedup flag.
    Append { version: Seq<char>, message_id: Seq<char>, deduplicated: bool },
}


/// The shape of a stored row for an operation with this fingerprint.
pub open spec fn stored_shape(r: StoredReceipt, fingerprint: Seq<char>) -> StoredShape {
    if r.fingerprint@ != fingerprint {
        StoredShape::Mismatch
    } else if r.kind@ == "context"@ {
        StoredShape::Context
    } else if r.kind@ == "compact"@ {
        StoredShape::Compact
    } else if r.summary_text is Some || r.summary_message_count is Some {
        StoredShape::Invalid
    } else if r.kind@ == "resolve"@ {
        match (opt_chars(r.generation), r.created, r.version, r.message_id, r.deduplicated) {
            (Some(g), Some(c), None, None, None) => if is_stored_generation(utf8(g)) && (c == 0 || c
                == 1) {
                StoredShape::Resolve { generation: g, created: c == 1 }
            } else {
                StoredShape::Invalid
            },
            _ => StoredShape::Invalid,
        }
    } else {
        match (opt_chars(r.version), opt_chars(r.message_id), r.deduplicated) {
            (Some(v), Some(m), Some(d)) => if r.kind@ == "append"@ && r.generation is None
                && r.created is None && m.len() > 0 && (d == 0 || d == 1) {
                StoredShape::Append { version: v, message_id: m, deduplicated: d == 1 }
            } else {
                StoredShape::Invalid
            },
            _ => StoredShape::Invalid,
        }
    }
}

/// The error for malformed stored evidence.
pub open spec fn is_invalid_receipt_error(e: HostError) -> bool {
    &&& e.code == HostErrorCode::SchemaMismatch
    &&& e.message@ == "invalid stored session receipt"@
    &&& e.details@.len() == 0
}

pub fn invalid_receipt() -> (error: HostError)
    ensures
        is_invalid_receipt_error(error),
{
    HostError::new(HostErrorCode::SchemaMismatch, "invalid stored session receipt")
}

fn opt_is_some<T>(o: &Option<T>) -> (some: bool)
    ensures
        some == o is Some,
{
    match o {
        Some(_) => true,
        None => false,
    }
}

/// Reads a stored row back as the receipt of `operation` on `session`:
/// a row of another request is a mismatch, context and legacy compaction
/// rows are refused, malformed rows are invalid, and a resolve or append
/// row becomes its receipt (the generation or version must be a valid token
/// of this session).
pub fn decode_stored_receipt(stored: StoredReceipt, session: &SessionRef, operation: &StorageOperationRef) -> (receipt: Result<SessionWriteReceipt, HostError>)
    ensures
        match stored_shape(stored, operation.request_fingerprint@) {
            StoredShape::Mismatch => receipt matches Err(e) && e.code == HostErrorCode::InvalidRequest
                && e.message@ == "session operation identity is bound to a different request"@,
            StoredShape::Context => receipt matches Err(e) && e.code == HostErrorCode::InvalidRequest
                && e.message@ == "context operation requires context reconciliation"@,
            StoredShape::Compact => receipt matches Err(e) && e.code == HostErrorCode::SchemaMismatch
                && e.message@
                == "legacy automatic compaction receipt requires migration to context publication"@,
            StoredShape::Invalid => receipt matches Err(e) && is_invalid_receipt_error(e),
            StoredShape::Resolve { generation, created } => if is_generation_token(
                generation_bytes(session.id@, generation),
            ) {
                receipt matches Ok(SessionWriteReceipt::Resolve(r)) && r.operation@ == operation@
                    && r.session@ == session@ && r.created == created && utf8(r.generation@)
                    == generation_bytes(session.id@, generation) && r.durability
                    == StorageDurability::SqliteWalFull
            } else {
                receipt matches Err(e) && is_invalid_generation_error(e)
            },
            StoredShape::Append { version, message_id, deduplicated } => if is_version_token(
                utf8(version),
            ) && token_belongs_to(utf8(version), session.id@) {
                receipt matches Ok(SessionWriteReceipt::Append(r)) && r.operation@ == operation@
                    && r.version@ == version && r.message_id@ == message_id && r.deduplicated
                    == deduplicated && r.durability == StorageDurability::SqliteWalFull
            } else {
                receipt matches Err(e) && is_invalid_receipt_error(e)
            },
        },
{
    if !str_eq(stored.fingerprint.as_str(), operation.request_fingerprint.as_str()) {
        return Err(mismatch());
    }
    if str_eq(stored.kind.as_str(), "context") {
        return Err(
            HostError::new(
                HostErrorCode::InvalidRequest,
                "context operation requires context reconciliation",
            ),
        );
    }
    if str_eq(stored.kind.as_str(), "compact") {
        return Err(
            HostError::new(
                HostErrorCode::SchemaMismatch,
                "legacy automatic compaction receipt requires migration to context publication",
            ),
        );
    }
    if opt_is_some(&stored.summary_text) || opt_is_some(&stored.summary_message_count) {
        return Err(invalid_receipt());
    }
    if str_eq(stored.kind.as_str(), "resolve") {
        let (generation, created) = match (
            stored.generation,
            stored.created,
            stored.version,
            stored.message_id,
            stored.deduplicated,
        ) {
            (Some(generation), Some(created), None, None, None) => (generation, created),
            _ => return Err(invalid_receipt()),
        };
        if !valid_generation(generation.as_str()) || !(created == 0 || created == 1) {
            return Err(invalid_receipt());
        }
        let generation = SessionGeneration::issue(session.id.as_str(), generation.as_str())?;
        return Ok(
            SessionWriteReceipt::Resolve(
                SessionResolveReceipt {
                    operation: operation.clone(),
                    session: session.clone(),
                    created: created == 1,
                    generation,
                    durability: StorageDurability::SqliteWalFull,
                },
            ),
        );
    }
    let is_append = str_eq(stored.kind.as_str(), "append");
    let generation_some = opt_is_some(&stored.generation);
    let created_some = opt_is_some(&stored.created);
    let (version, message_id, deduplicated) = match (
        stored.version,
        stored.message_id,
        stored.deduplicated,
    ) {
        (Some(version), Some(message_id), Some(deduplicated)) => (version, message_id, deduplicated),
        _ => return Err(invalid_receipt()),
    };
    if !is_append || generation_some || created_some || message_id.as_str().is_empty() || !(
    deduplicated == 0 || deduplicated == 1) {
        return Err(invalid_receipt());
    }
    let version = match SessionVersion::parse(version.as_str()) {
        Ok(v) => v,
        Err(_) => return Err(invalid_receipt()),
    };
    if !version.belongs_to(session.id.as_str()) {
        return Err(invalid_receipt());
    }
    Ok(
        SessionWriteReceipt::Append(
            SessionAppendReceipt {
                operation: operation.clone(),
                version,
                message_id,
                deduplicated: deduplicated == 1,
                durability: StorageDurability::SqliteWalFull,
            },
        ),
    )
}

/// The row the ledger stores for a committed resolve: its fingerprint,
/// the stored generation and whether the session was created.
pub fn resolve_row(fingerprint: &str, generation: &str, created: bool) -> (row: StoredReceipt)
    ensures
        row.fingerprint@ == fingerprint@,
        row.kind@ == "resolve"@,
        opt_chars(row.generation) == Some(generation@),
        row.created == Some(if created {
            1i64
        } else {
            0i64
        }),
        row.version is None && row.message_id is None && row.deduplicated is None,
        row.summary_text is None && row.summary_message_count is None,
{
    StoredReceipt {
        fingerprint: fingerprint.to_owned(),
        kind: "resolve".to_owned(),
        version: None,
        message_id: None,
        deduplicated: None,
        generation: Some(generation.to_owned()),
        created: Some(
            if created {
                1
            } else {
                0
            },
        ),
        summary_text: None,
        summary_message_count: None,
    }
}

/// The row the ledger stores for a committed append: its fingerprint, the
/// version token, the message id and whether the append was deduplicated.
pub fn append_row(fingerprint: &str, version: &str, message_id: &str, deduplicated: bool) -> (row: StoredReceipt)
    ensures
        row.fingerprint@ == fingerprint@,
        row.kind@ == "append"@,
        opt_chars(row.version) == Some(version@),
        opt_chars(row.message_id) == Some(message_id@),
        row.deduplicated == Some(if deduplicated {
            1i64
        } else {
            0i64
        }),
        row.generation is None && row.created is None,
        row.summary_text is None && row.summary_message_count is None,
{
    StoredReceipt {
        fingerprint: fingerprint.to_owned(),
        kind: "append".to_owned(),
        version: Some(version.to_owned()),
        message_id: Some(message_id.to_owned()),
        deduplicated: Some(
            if deduplicated {
                1
            } else {
                0
            },
        ),
        generation: None,
        created: None,
        summary_text: None,
        summary_message_count: None,
    }
}

/// A resolve row reads back, for the same request, as the resolve it
/// recorded: the stored generation and the created flag.
pub proof fn lemma_resolve_row_read_back(row: StoredReceipt, fingerprint: Seq<char>, generation: Seq<char>, created: bool)
    requires
        row.fingerprint@ == fingerprint,
        row.kind@ == "resolve"@,
        opt_chars(row.generation) == Some(generation),
        row.created == Some(if created {
            1i64
        } else {
            0i64
        }),
        row.version is None && row.message_id is None && row.deduplicated is None,
        row.summary_text is None && row.summary_message_count is None,
        is_stored_generation(utf8(generation)),
    ensures
        stored_shape(row, fingerprint) == (StoredShape::Resolve { generation, created }),
{
    reveal_strlit("resolve");
    reveal_strlit("context");
    reveal_strlit("compact");
    assert("resolve"@[1] != "context"@[1]);
    assert("resolve"@[0] != "compact"@[0]);
}

/// An append row with a message id reads back, for the same request, as
/// the append it recorded: version token, message id and dedup flag.
pub proof fn lemma_append_row_read_back(row: StoredReceipt, fingerprint: Seq<char>, version: Seq<char>, message_id: Seq<char>, deduplicated: bool)
    requires
        row.fingerprint@ == fingerprint,
        row.kind@ == "append"@,
        opt_chars(row.version) == Some(version),
        opt_chars(row.message_id) == Some(message_id),
        row.deduplicated == Some(if deduplicated {
            1i64
        } else {
            0i64
        }),
        row.generation is None && row.created is None,
        row.summary_text is None && row.summary_message_count is None,
        message_id.len() > 0,
    ensures
        stored_shape(row, fingerprint) == (StoredShape::Append { version, message_id, deduplicated }),
{
    reveal_strlit("append");
    reveal_strlit("resolve");
    reveal_strlit("context");
    reveal_strlit("compact");
    assert("append"@.len() != "resolve"@.len());
    assert("append"@.len() != "context"@.len());
    assert("append"@.len() != "compact"@.len());
}

/// What the ledger writes for a committed resolve of `session` reads back,
/// for the same request, as that resolve: the stored generation re-issues
/// the receipt's generation token, which belongs to the session.
pub proof fn lemma_resolve_receipt_read_back(row: StoredReceipt, session: Seq<char>, fingerprint: Seq<char>, generation: Seq<char>, created: bool)
    requires
        is_generation_hex(utf8(generation)),
        row.fingerprint@ == fingerprint,
        row.kind@ == "resolve"@,
        opt_chars(row.generation) == Some(generation),
        row.created == Some(if created {
            1i64
        } else {
            0i64
        }),
        row.version is None && row.message_id is None && row.deduplicated is None,
        row.summary_text is None && row.summary_message_count is None,
    ensures
        stored_shape(row, fingerprint) == (StoredShape::Resolve { generation, created }),
        is_generation_token(generation_bytes(session, generation)),
        token_belongs_to(generation_bytes(session, generation), session),
{
    assert(is_stored_generation(utf8(generation))) by {
        assert forall|i: int| 0 <= i < 32 implies {
            let b = #[trigger] utf8(generation)[i];
            (48 <= b <= 57) || (97 <= b <= 102) || (65 <= b <= 70)
        } by {
            assert(crate::text::is_hex_digit(utf8(generation)[i]));
        }
    }
    lemma_resolve_row_read_back(row, fingerprint, generation, created);
    crate::session::version::lemma_issued_generation(session, generation);
}

/// What the ledger writes for a committed append of `session` reads back,
/// for the same request, as that append: its version token is valid and
/// belongs to the session. An empty message id is the one exception: such
/// a row reads back as invalid.
pub proof fn lemma_append_receipt_read_back(row: StoredReceipt, session: Seq<char>, fingerprint: Seq<char>, generation: Seq<char>, ordinal: i64, version: Seq<char>, message_id: Seq<char>, deduplicated: bool)
    requires
        is_generation_hex(utf8(generation)),
        ordinal >= 0,
        utf8(version) == version_bytes(session, generation, ordinal),
        message_id.len() > 0,
        row.fingerprint@ == fingerprint,
        row.kind@ == "append"@,
        opt_chars(row.version) == Some(version),
        opt_chars(row.message_id) == Some(message_id),
        row.deduplicated == Some(if deduplicated {
            1i64
        } else {
            0i64
        }),
        row.generation is None && row.created is None,
        row.summary_text is None && row.summary_message_count is None,
    ensures
        stored_shape(row, fingerprint) == (StoredShape::Append { version, message_id, deduplicated }),
        is_version_token(utf8(version)),
        token_belongs_to(utf8(version), session),
{
    lemma_append_row_read_back(row, fingerprint, version, message_id, deduplicated);
    crate::session::version::lemma_issued_version(session, generation, ordinal);
}

/// Accepts a session database whose schema format is unset (a new
/// database) or one of the formats 1 to 9.
pub fn check_schema_format(format: Option<i64>) -> (checked: Result<(), HostError>)
    ensures
        checked is Ok <==> (format matches Some(v) ==> 1 <= v <= 9),
        checked matches Err(e) ==> e.code == HostErrorCode::SchemaMismatch && e.message@
            == "unsupported session schema version"@,
{
    match format {
        Some(v) => {
            if v < 1 || v > 9 {
                return Err(
                    HostError::new(HostErrorCode::SchemaMismatch, "unsupported session schema version"),
                );
            }
            Ok(())
        },
        None => Ok(()),
    }
}

/// The ordinal after `previous` in a session's sequence (`-1` before the
/// first message).
pub fn next_ordinal_value(previous: i64) -> (next: Result<i64, HostError>)
    ensures
        match next {
            Ok(n) => previous >= -1 && n == previous + 1,
            Err(e) => if previous < -1 {
                e.code == HostErrorCode::SchemaMismatch && e.message@ == "invalid session ordinal"@
            } else {
                previous == i64::MAX && e.code == HostErrorCode::ProviderUnavailable && e.message@
                    == "session ordinal space exhausted"@
            },
        },
{
    if previous < -1 {
        return Err(HostError::new(HostErrorCode::SchemaMismatch, "invalid session ordinal"));
    }
    match previous.checked_add(1) {
        Some(n) => Ok(n),
        None => Err(HostError::new(HostErrorCode::ProviderUnavailable, "session ordinal space exhausted")),
    }
}

/// The sequence update that advances an ordinal must change exactly one row.
pub fn check_ordinal_update(changed: usize) -> (checked: Result<(), HostError>)
    ensures
        checked is Ok <==> changed == 1,
        checked matches Err(e) ==> e.code == HostErrorCode::SchemaMismatch && e.message@
            == "session ordinal changed within write transaction"@,
{
    if changed != 1 {
        return Err(
            HostError::new(
                HostErrorCode::SchemaMismatch,
                "session ordinal changed within write transaction",
            ),
        );
    }
    Ok(())
}

/// The receipt count limit as a SQL integer.
pub fn receipt_count_limit(limits: &StorageLimits) -> (maximum: Result<i64, HostError>)
    ensures
        match maximum {
            Ok(m) => m == limits.max_receipts,
            Err(e) => limits.max_receipts > i64::MAX && is_limit_error(e),
        },
{
    if limits.max_receipts as u64 > 0x7fff_ffff_ffff_ffff {
        return Err(limit_error());
    }
    Ok(limits.max_receipts as i64)
}

/// The receipt bytes in use, given the ledger's receipt count and the
/// bytes charged to write and retention receipts: a full ledger is a limit
/// error, a total that is no `usize` a receipt budget error.
pub fn receipt_capacity(count: i64, maximum: i64, used: i64, maintenance: i64) -> (capacity: Result<usize, HostError>)
    ensures
        match capacity {
            Ok(n) => count < maximum && n == used + maintenance,
            Err(e) => if count >= maximum {
                is_limit_error(e)
            } else {
                !(0 <= used + maintenance <= i64::MAX && used + maintenance <= usize::MAX)
                    && is_receipt_exceeded(e)
            },
        },
{
    if count >= maximum {
        return Err(limit_error());
    }
    match used.checked_add(maintenance) {
        Some(total) => {
            if total < 0 || total as u64 > usize::MAX as u64 {
                Err(crate::storage::receipt_budget::exceeded())
            } else {
                Ok(total as usize)
            }
        },
        None => Err(crate::storage::receipt_budget::exceeded()),
    }
}

/// The receipt of a resolve that just committed.
pub fn resolve_write_receipt(operation: &StorageOperationRef, session: &SessionRef, created: bool, generation: &str) -> (receipt: Result<SessionWriteReceipt, HostError>)
    ensures
        match receipt {
            Ok(SessionWriteReceipt::Resolve(r)) => r.operation@ == operation@ && r.session@ == session@
                && r.created == created && utf8(r.generation@) == generation_bytes(
                session.id@,
                generation@,
            ) && r.durability == StorageDurability::SqliteWalFull,
            Ok(_) => false,
            Err(e) => !is_generation_token(generation_bytes(session.id@, generation@))
                && is_invalid_generation_error(e),
        },
{
    let generation = SessionGeneration::issue(session.id.as_str(), generation)?;
    Ok(
        SessionWriteReceipt::Resolve(
            SessionResolveReceipt {
                operation: operation.clone(),
                session: session.clone(),
                created,
                generation,
                durability: StorageDurability::SqliteWalFull,
            },
        ),
    )
}

/// The receipt of an append that just committed at `ordinal`.
pub fn append_write_receipt(operation: &StorageOperationRef, session: &SessionRef, generation: &str, ordinal: i64, message_id: String, deduplicated: bool) -> (receipt: Result<SessionWriteReceipt, HostError>)
    ensures
        match receipt {
            Ok(SessionWriteReceipt::Append(r)) => r.operation@ == operation@ && utf8(r.version@)
                == version_bytes(session.id@, generation@, ordinal) && r.message_id@ == message_id@
                && r.deduplicated == deduplicated && r.durability == StorageDurability::SqliteWalFull,
            Ok(_) => false,
            Err(e) => !is_version_token(version_bytes(session.id@, generation@, ordinal))
                && e.code == HostErrorCode::InvalidRequest,
        },
{
    let version = SessionVersion::issue(session.id.as_str(), generation, ordinal)?;
    Ok(
        SessionWriteReceipt::Append(
            SessionAppendReceipt {
                operation: operation.clone(),
                version,
                message_id,
                deduplicated,
                durability: StorageDurability::SqliteWalFull,
            },
        ),
    )
}

/// Admits a receipt stored under `session` into a ledger with `used` bytes
/// in use: its charge must fit, and the total must stay within the receipt
/// byte limit.
pub fn admit_receipt(limits: &StorageLimits, used: usize, receipt: &SessionWriteReceipt, session: &str) -> (admitted: Result<(), HostError>)
    ensures
        admitted is Ok <==> (1024 + doubled_bytes(receipt_parts(*receipt, session@)) <= usize::MAX
            && used + 1024 + doubled_bytes(receipt_parts(*receipt, session@))
            <= limits.max_receipt_bytes),
        admitted matches Err(e) ==> is_receipt_exceeded(e),
{
    let charge = receipt.charge(session)?;
    admit_charge(limits, used, charge)
}

/// A session id may be stored only within the value byte limit.
pub fn check_config_id(id: &str, limits: &StorageLimits) -> (checked: Result<(), HostError>)
    ensures
        match checked {
            Ok(()) => utf8(id@).len() <= limits.max_value_bytes,
            Err(e) => utf8(id@).len() > limits.max_value_bytes && is_limit_error(e),
        },
{
    if crate::text::byte_len(id) > limits.max_value_bytes {
        return Err(limit_error());
    }
    Ok(())
}

/// Counting the encoded bytes of a configuration: `used` bytes so far and a
/// `chunk` more, which must stay within `maximum`.
pub fn count_encoded_bytes(used: usize, chunk: usize, maximum: usize) -> (total: Option<usize>)
    ensures
        match total {
            Some(t) => t == used + chunk && t <= maximum,
            None => used + chunk > maximum,
        },
{
    match used.checked_add(chunk) {
        Some(total) => if total <= maximum {
            Some(total)
        } else {
            None
        },
        None => None,
    }
}

/// Whether a database at schema format `format` (unset for a new one)
/// still needs the migration that brings it to `target`.
pub fn needs_migration(format: Option<i64>, target: i64) -> (needed: bool)
    ensures
        needed == match format {
            Some(v) => v < target,
            None => true,
        },
{
    match format {
        Some(v) => v < target,
        None => true,
    }
}

} // verus!
