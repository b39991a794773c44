//! Host-side protocol values, identities, budgets and storage/stream state
//! rules, with their contracts checked by Verus.
pub mod digest;
pub mod entropy;
pub mod error;
pub mod execution;
pub mod platform;
pub mod session;
pub mod storage;
pub mod stream;
pub mod text;
pub mod tls;
pub mod tool;
pub mod transport;
pub mod value;

pub use error::{HostError, HostErrorCode};
pub use execution::DispatchError;
pub use session::config::{ContextPolicy, RetentionPolicy, SessionConfig};
pub use session::value::{
    message_envelope_from_host_value, message_envelope_to_host_value,
    session_message_from_host_value, session_message_to_host_value, MessageEnvelope,
};
pub use session::version::{SessionGeneration, SessionVersion};
pub use session::write::{
    resolve_operation_ref, SessionAppendReceipt, SessionResolveReceipt, SessionWriteOutcome,
    SessionWriteReceipt,
};
pub use session::{SessionMessage, SessionMessageRole, SessionRef};
pub use storage::limits::StorageLimits;
pub use storage::outcome::{
    CommitStatus, ConfirmedOutcome, ReceiptLookup, StorageDurability, StorageWriteEvidence,
    WriteOutcome,
};
pub use storage::receipt::{StorageOperationKey, StorageOperationRef};
pub use storage::version::{MemoryVersion, WriteCondition};
pub use stream::{
    ByteStreamOrigin, ByteStreamRef, StreamFailure, StreamHandleRef, StreamOperation,
    StreamPayload, StreamRead, StreamResponse, UnavailableStreamClient,
};
pub use tls::{TlsConnectResponse, TlsStreamRef, UnavailableTlsClient};
pub use tool::{
    HttpToolResponseEnvelope, McpToolResponseEnvelope, ProcessToolProtocolAdapter,
    ProcessToolResponseEnvelope, ToolResponse,
};
pub use transport::auth::AuthConfig;
pub use transport::retry::RetryPolicy;
pub use transport::timeout::TransportTimeoutPolicy;
pub use transport::{HttpRawResponse, HttpRequest, HttpResponse, PrivateResolutionPolicy};
pub use value::{HostJsonValue, HostRequestId, HostValue};
