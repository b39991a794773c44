//! Storage operation keys (idempotency identities with a built-in expiry) and
//! operation references.
use crate::digest::{blake3_derive_key, blake3_derived};
use crate::entropy::random_16;
use crate::error::{HostError, HostErrorCode};
use crate::platform::{ascii_string, duration_as_secs, duration_since_unix_epoch, system_time_now};
use crate::storage::version::hex_run;
use crate::text::{
    all_hex, be_bytes, hex_bytes, hex_fixed, hex_value, is_ascii_bytes, is_hex_range, lemma_hex_bytes,
    lemma_hex_fixed, lemma_pow16_16, parse_hex_u64, push_be, push_bytes, push_hex_bytes,
    push_hex_fixed, utf8,
};
use vstd::prelude::*;

verus! {

broadcast use {vstd::std_specs::vec::group_vec_axioms, vstd::seq::group_seq_axioms};

/// `so1:<expiry as 16 hex digits>:<nonce as 32 hex digits>`, with an expiry
/// from 1 to `i64::MAX` seconds after the Unix epoch.
pub open spec fn is_operation_key_token(b: Seq<u8>) -> bool {
    &&& b.len() == 53
    &&& b[0] == 115 && b[1] == 111 && b[2] == 49 && b[3] == 58
    &&& b[20] == 58
    &&& hex_run(b, 4, 16)
    &&& hex_run(b, 21, 32)
    &&& 1 <= hex_value(b.subrange(4, 20)) <= i64::MAX
}

pub open spec fn key_expiry(b: Seq<u8>) -> nat {
    hex_value(b.subrange(4, 20))
}

pub open spec fn key_bytes(expires_at: u64, nonce_hex: Seq<u8>) -> Seq<u8> {
    seq![115u8, 111, 49, 58] + hex_fixed(expires_at as nat, 16) + seq![58u8] + nonce_hex
}

/// The error for a malformed, expired or out-of-window operation key.
pub open spec fn is_invalid_key_error(e: HostError) -> bool {
    &&& e.code == HostErrorCode::InvalidRequest
    &&& e.message@ == "invalid or expired storage operation key"@
    &&& e.details@.len() == 0
}

fn invalid() -> (error: HostError)
    ensures
        is_invalid_key_error(error),
{
    HostError::new(HostErrorCode::InvalidRequest, "invalid or expired storage operation key")
}

/// The clock error raised when the system time precedes the Unix epoch.
pub open spec fn is_clock_error(e: HostError) -> bool {
    &&& e.code == HostErrorCode::ProviderUnavailable
    &&& e.message@ == "storage clock precedes epoch"@
}

/// Seconds since the Unix epoch by the system clock.
pub fn now() -> (seconds: Result<u64, HostError>)
    ensures
        seconds matches Err(e) ==> is_clock_error(e),
{
    match duration_since_unix_epoch(system_time_now()) {
        Some(elapsed) => Ok(duration_as_secs(&elapsed)),
        None => Err(HostError::new(HostErrorCode::ProviderUnavailable, "storage clock precedes epoch")),
    }
}

fn key_token_valid(b: &[u8]) -> (valid: bool)
    ensures
        valid == is_operation_key_token(b@),
{
    if b.len() != 53 || b[0] != 115 || b[1] != 111 || b[2] != 49 || b[3] != 58 || b[20] != 58 {
        return false;
    }
    if !is_hex_range(b, 4, 20) || !is_hex_range(b, 21, 53) {
        return false;
    }
    let expires = parse_hex_u64(b, 4, 20);
    expires != 0 && expires <= 0x7fff_ffff_ffff_ffff
}

proof fn lemma_key_ascii(b: Seq<u8>)
    requires
        is_operation_key_token(b),
    ensures
        is_ascii_bytes(b),
{
    assert forall|i: int| 0 <= i < b.len() implies #[trigger] b[i] < 128 by {
        if 4 <= i < 20 {
            assert(b.subrange(4, 20)[i - 4] == b[i]);
        } else if 21 <= i < 53 {
            assert(b.subrange(21, 53)[i - 21] == b[i]);
        }
    }
}

/// Identity of one storage write, for idempotent replay and reconciliation.
/// The expiry is part of identity, so evicting evidence never permits this
/// key to execute again.
#[derive(Debug, PartialEq, Eq, PartialOrd, Ord)]
pub struct StorageOperationKey {
    token: String,
    expires_at: u64,
}

/// Mathematical model of a [`StorageOperationKey`]: its token and expiry.
pub struct OperationKeyModel {
    pub token: Seq<char>,
    pub expires_at: u64,
}

impl View for StorageOperationKey {
    type V = OperationKeyModel;

    closed spec fn view(&self) -> OperationKeyModel {
        OperationKeyModel { token: self.token@, expires_at: self.expires_at }
    }
}

impl Clone for StorageOperationKey {
    fn clone(&self) -> (copy: StorageOperationKey)
        ensures
            copy@ == self@,
    {
        proof {
            use_type_invariant(self);
        }
        StorageOperationKey { token: self.token.clone(), expires_at: self.expires_at }
    }
}

impl StorageOperationKey {
    #[verifier::type_invariant]
    spec fn well_formed(self) -> bool {
        &&& is_operation_key_token(utf8(self.token@))
        &&& self.expires_at == key_expiry(utf8(self.token@))
    }

    fn from_valid_bytes(bytes: Vec<u8>) -> (key: StorageOperationKey)
        requires
            is_operation_key_token(bytes@),
        ensures
            utf8(key@.token) == bytes@,
            key@.expires_at == key_expiry(bytes@),
    {
        let expires_at = parse_hex_u64(bytes.as_slice(), 4, 20);
        proof {
            lemma_key_ascii(bytes@);
        }
        let token = ascii_string(bytes);
        StorageOperationKey { token, expires_at }
    }

    /// Accepts exactly the canonical operation key tokens; the expiry is read
    /// from the token.
    pub fn parse(value: &str) -> (key: Result<StorageOperationKey, HostError>)
        ensures
            match key {
                Ok(k) => is_operation_key_token(utf8(value@)) && k@.token == value@
                    && k@.expires_at == key_expiry(utf8(value@)),
                Err(e) => !is_operation_key_token(utf8(value@)) && is_invalid_key_error(e),
            },
    {
        let bytes = value.as_bytes();
        if key_token_valid(bytes) {
            let expires_at = parse_hex_u64(bytes, 4, 20);
            Ok(StorageOperationKey { token: value.to_owned(), expires_at })
        } else {
            Err(invalid())
        }
    }

    pub fn as_str(&self) -> (token: &str)
        ensures
            token@ == self@.token,
            is_operation_key_token(utf8(token@)),
    {
        proof {
            use_type_invariant(self);
        }
        self.token.as_str()
    }

    /// Expiry, in seconds since the Unix epoch.
    pub fn expires_at(&self) -> (expires_at: u64)
        ensures
            expires_at == self@.expires_at,
            1 <= expires_at <= i64::MAX,
            expires_at == key_expiry(utf8(self@.token)),
    {
        proof {
            use_type_invariant(self);
        }
        self.expires_at
    }

    /// A key expiring `retention_secs` after `now`, with the given nonce.
    /// Rejected when the retention is zero or the expiry leaves `1..=i64::MAX`.
    pub fn issue_at(now: u64, retention_secs: u64, nonce: &[u8; 16]) -> (key: Result<
        StorageOperationKey,
        HostError,
    >)
        ensures
            match key {
                Ok(k) => retention_secs > 0 && now + retention_secs <= i64::MAX && k@.expires_at
                    == now + retention_secs && utf8(k@.token) == key_bytes(
                    (now + retention_secs) as u64,
                    hex_bytes(nonce@),
                ),
                Err(e) => (retention_secs == 0 || now + retention_secs > i64::MAX)
                    && is_invalid_key_error(e),
            },
    {
        let expires = match now.checked_add(retention_secs) {
            Some(expires) => expires,
            None => return Err(invalid()),
        };
        if retention_secs == 0 || expires > 0x7fff_ffff_ffff_ffff {
            return Err(invalid());
        }
        let bytes = Self::token_bytes(expires, nonce.as_slice());
        proof {
            lemma_key_token(expires, nonce@);
        }
        Ok(Self::from_valid_bytes(bytes))
    }

    fn token_bytes(expires: u64, nonce: &[u8]) -> (bytes: Vec<u8>)
        ensures
            bytes@ == key_bytes(expires, hex_bytes(nonce@)),
    {
        let mut bytes: Vec<u8> = Vec::new();
        bytes.push(115);
        bytes.push(111);
        bytes.push(49);
        bytes.push(58);
        push_hex_fixed(&mut bytes, expires, 16);
        bytes.push(58);
        push_hex_bytes(&mut bytes, nonce);
        assert(bytes@ =~= key_bytes(expires, hex_bytes(nonce@)));
        bytes
    }

    /// A fresh key expiring `retention` from now, with a random nonce. The
    /// clock and the random source decide the key; what is stated is how it
    /// can fail.
    pub fn new(retention: std::time::Duration) -> (key: Result<StorageOperationKey, HostError>)
        ensures
            key matches Err(e) ==> is_clock_error(e) || is_invalid_key_error(e) || (e.code
                == HostErrorCode::ProviderUnavailable && e.message@
                == "cannot allocate storage operation identity"@),
            crate::platform::duration_seconds(retention) == 0 ==> key is Err,
            key matches Ok(k) ==> k@.expires_at >= crate::platform::duration_seconds(retention),
    {
        let now = now()?;
        let retention_secs = crate::platform::duration_as_secs(&retention);
        let expires = match now.checked_add(retention_secs) {
            Some(expires) => expires,
            None => return Err(invalid()),
        };
        if retention_secs == 0 || expires > 0x7fff_ffff_ffff_ffff {
            return Err(invalid());
        }
        match random_16() {
            Ok(nonce) => Self::issue_at(now, retention_secs, &nonce),
            Err(_) => Err(
                HostError::new(
                    HostErrorCode::ProviderUnavailable,
                    "cannot allocate storage operation identity",
                ),
            ),
        }
    }

    /// The key of occurrence `occurrence` of this operation: same expiry, with
    /// a nonce derived by BLAKE3 from this key's token and the occurrence.
    pub fn derive(&self, occurrence: u64) -> (key: Result<StorageOperationKey, HostError>)
        ensures
            key matches Ok(k) && k@.expires_at == self@.expires_at && utf8(k@.token) == key_bytes(
                self@.expires_at,
                hex_bytes(
                    blake3_derived(
                        "etas.storage.occurrence.v1"@,
                        utf8(self@.token) + be_bytes(occurrence as nat, 8),
                    ).subrange(0, 16),
                ),
            ),
    {
        proof {
            use_type_invariant(self);
        }
        let mut material: Vec<u8> = Vec::new();
        push_bytes(&mut material, self.token.as_str().as_bytes());
        push_be(&mut material, occurrence, 8);
        let derived = blake3_derive_key("etas.storage.occurrence.v1", material.as_slice());
        let mut nonce: Vec<u8> = Vec::new();
        let mut i: usize = 0;
        while i < 16
            invariant
                i <= 16,
                nonce@ == derived@.subrange(0, i as int),
            decreases 16 - i,
        {
            nonce.push(derived[i]);
            i = i + 1;
            assert(nonce@ =~= derived@.subrange(0, i as int));
        }
        assert(derived@ =~= blake3_derived(
            "etas.storage.occurrence.v1"@,
            utf8(self@.token) + be_bytes(occurrence as nat, 8),
        ));
        let bytes = Self::token_bytes(self.expires_at, nonce.as_slice());
        proof {
            lemma_key_token(self.expires_at, nonce@);
        }
        Ok(Self::from_valid_bytes(bytes))
    }

    /// Whether the key has expired at time `now`.
    pub fn is_expired_at(&self, now: u64) -> (expired: bool)
        ensures
            expired == (self@.expires_at <= now),
    {
        self.expires_at <= now
    }

    /// Whether the key has expired by the system clock.
    pub fn is_expired(&self) -> (expired: Result<bool, HostError>)
        ensures
            expired matches Err(e) ==> is_clock_error(e),
    {
        let now = now()?;
        Ok(self.is_expired_at(now))
    }

    /// Accepts the key at time `now` only while it is unexpired and expires at
    /// most `maximum_seconds` later.
    pub fn validate_window_at(&self, maximum_seconds: u64, now: u64) -> (valid: Result<(), HostError>)
        ensures
            match valid {
                Ok(()) => now < self@.expires_at && self@.expires_at - now <= maximum_seconds,
                Err(e) => !(now < self@.expires_at && self@.expires_at - now <= maximum_seconds)
                    && is_invalid_key_error(e),
            },
    {
        if self.expires_at <= now || self.expires_at - now > maximum_seconds {
            return Err(invalid());
        }
        Ok(())
    }

    /// [`Self::validate_window_at`] by the system clock.
    pub fn validate_window(&self, maximum_seconds: u64) -> (valid: Result<(), HostError>)
        ensures
            valid matches Err(e) ==> is_clock_error(e) || is_invalid_key_error(e),
    {
        let now = now()?;
        self.validate_window_at(maximum_seconds, now)
    }
}

/// The token built from an in-range expiry and a sixteen-byte nonce is valid
/// and records that expiry: an issued key parses back as itself.
pub proof fn lemma_key_token(expires: u64, nonce: Seq<u8>)
    requires
        1 <= expires <= i64::MAX,
        nonce.len() == 16,
    ensures
        is_operation_key_token(key_bytes(expires, hex_bytes(nonce))),
        key_expiry(key_bytes(expires, hex_bytes(nonce))) == expires,
{
    lemma_pow16_16();
    lemma_hex_fixed(expires as nat, 16);
    lemma_hex_bytes(nonce);
    let b = key_bytes(expires, hex_bytes(nonce));
    assert(b.subrange(4, 20) =~= hex_fixed(expires as nat, 16));
    assert(b.subrange(21, 53) =~= hex_bytes(nonce));
}

/// A reference to one storage operation: its key and the fingerprint of the
/// request bound to it.
#[derive(Debug, PartialEq, Eq)]
pub struct StorageOperationRef {
    pub key: StorageOperationKey,
    pub request_fingerprint: String,
}

impl View for StorageOperationRef {
    type V = (OperationKeyModel, Seq<char>);

    open spec fn view(&self) -> (OperationKeyModel, Seq<char>) {
        (self.key@, self.request_fingerprint@)
    }
}

impl Clone for StorageOperationRef {
    fn clone(&self) -> (copy: StorageOperationRef)
        ensures
            copy@ == self@,
    {
        StorageOperationRef { key: self.key.clone(), request_fingerprint: self.request_fingerprint.clone() }
    }
}

impl StorageOperationRef {
    /// Accepts the reference only if its fingerprint is 64 lowercase
    /// hexadecimal digits.
    pub fn validate(&self) -> (valid: Result<(), HostError>)
        ensures
            match valid {
                Ok(()) => utf8(self.request_fingerprint@).len() == 64 && all_hex(
                    utf8(self.request_fingerprint@),
                ),
                Err(e) => !(utf8(self.request_fingerprint@).len() == 64 && all_hex(
                    utf8(self.request_fingerprint@),
                )) && e.code == HostErrorCode::InvalidRequest && e.message@
                    == "invalid storage request fingerprint"@,
            },
    {
        let bytes = self.request_fingerprint.as_str().as_bytes();
        if bytes.len() == 64 && is_hex_range(bytes, 0, 64) {
            assert(bytes@.subrange(0, 64) =~= bytes@);
            Ok(())
        } else {
            proof {
                if bytes@.len() == 64 {
                    assert(bytes@.subrange(0, 64) =~= bytes@);
                }
            }
            Err(HostError::new(HostErrorCode::InvalidRequest, "invalid storage request fingerprint"))
        }
    }
}

} // verus!
