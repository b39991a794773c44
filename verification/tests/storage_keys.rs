use etas_host::storage::receipt::now;
use etas_host::storage::version::{next_revision, scope_identity, StoreGeneration};
use etas_host::{HostErrorCode, MemoryVersion, StorageOperationKey, StorageOperationRef, WriteCondition};
use std::time::Duration;

#[test]
fn operation_key_is_issued_in_canonical_form() {
    let key = StorageOperationKey::issue_at(16, 16, &[0xab; 16]).expect("valid key");
    assert_eq!(
        key.as_str(),
        format!("so1:{:016x}:{}", 32, "ab".repeat(16))
    );
    assert_eq!(key.expires_at(), 32);
    let parsed = StorageOperationKey::parse(key.as_str()).expect("round trip");
    assert_eq!(parsed, key);
}

#[test]
fn operation_key_rejects_zero_retention_and_overflowing_expiry() {
    let error = StorageOperationKey::issue_at(5, 0, &[0; 16]).unwrap_err();
    assert_eq!(error.code, HostErrorCode::InvalidRequest);
    assert_eq!(error.message, "invalid or expired storage operation key");
    assert!(StorageOperationKey::issue_at(i64::MAX as u64, 1, &[0; 16]).is_err());
    assert!(StorageOperationKey::parse("so1:0000000000000000:00000000000000000000000000000000").is_err());
    assert!(StorageOperationKey::parse("so1:000000000000000A:00000000000000000000000000000000").is_err());
}

#[test]
fn operation_key_window_and_expiry_follow_the_clock() {
    let key = StorageOperationKey::new(Duration::from_secs(60)).expect("fresh key");
    let current = now().expect("clock after epoch");
    assert!(!key.is_expired().unwrap());
    assert!(key.is_expired_at(key.expires_at()));
    assert!(!key.is_expired_at(key.expires_at() - 1));
    assert!(key.validate_window_at(3600, current).is_ok());
    assert!(key.validate_window_at(10, current).is_err());
    assert!(key.validate_window(3600).is_ok());
    assert!(StorageOperationKey::new(Duration::from_secs(0)).is_err());
}

#[test]
fn derived_occurrences_keep_expiry_and_differ() {
    let key = StorageOperationKey::issue_at(100, 50, &[1; 16]).expect("key");
    let first = key.derive(1).expect("derived");
    let second = key.derive(2).expect("derived");
    assert_eq!(first.expires_at(), key.expires_at());
    assert_ne!(first, second);
    assert_eq!(key.derive(1).expect("derived"), first);
}

#[test]
fn operation_ref_requires_a_hex_fingerprint() {
    let key = StorageOperationKey::issue_at(100, 50, &[1; 16]).expect("key");
    let good = StorageOperationRef { key: key.clone(), request_fingerprint: "0f".repeat(32) };
    assert!(good.validate().is_ok());
    let bad = StorageOperationRef { key, request_fingerprint: "0F".repeat(32) };
    assert_eq!(bad.validate().unwrap_err().message, "invalid storage request fingerprint");
}

#[test]
fn scope_identity_is_deterministic_hex_and_separates_parts() {
    let one = scope_identity("memory", "region", &["a".to_owned(), "b".to_owned()]);
    assert_eq!(one.len(), 64);
    assert!(one.bytes().all(|b| b.is_ascii_digit() || (b'a'..=b'f').contains(&b)));
    assert_eq!(one, scope_identity("memory", "region", &["a".to_owned(), "b".to_owned()]));
    assert_ne!(one, scope_identity("memory", "region", &["ab".to_owned()]));
    assert_ne!(one, scope_identity("memory", "regio", &["na".to_owned(), "b".to_owned()]));
}

#[test]
fn memory_versions_are_issued_parsed_and_matched() {
    let generation = StoreGeneration::from_stored("0123456789abcdef0123456789abcdef".to_owned())
        .ok()
        .expect("stored generation");
    let scope = scope_identity("memory", "r", &[]);
    let version = MemoryVersion::issue(&scope, &generation, 7).ok().expect("version");
    assert!(version.as_token().starts_with("mv1:"));
    assert!(version.as_token().ends_with(":0000000000000007"));
    let parsed = MemoryVersion::parse(version.as_token()).ok().expect("round trip");
    assert!(parsed == version);
    assert!(MemoryVersion::issue(&scope, &generation, -1).is_err());
    assert!(WriteCondition::Match(version.clone()).is_satisfied_by(Some(&parsed)));
    assert!(!WriteCondition::Missing.is_satisfied_by(Some(&parsed)));
    assert!(WriteCondition::Missing.is_satisfied_by(None));
    assert!(WriteCondition::Exists.is_satisfied_by(Some(&parsed)));
    assert!(WriteCondition::Any.is_satisfied_by(None));
    assert!(WriteCondition::Match(version).expected_version().is_some());
    assert!(WriteCondition::Any.expected_version().is_none());
}

#[test]
fn store_generations_and_revisions_are_checked() {
    let fresh = StoreGeneration::new().ok().expect("random generation");
    assert_eq!(fresh.as_str().len(), 32);
    let error = StoreGeneration::from_stored("xyz".to_owned()).err().expect("invalid");
    assert_eq!(error.code, HostErrorCode::SchemaMismatch);
    assert_eq!(next_revision(0).unwrap(), 1);
    assert_eq!(next_revision(-1).unwrap_err().message, "negative stored revision");
    assert_eq!(
        next_revision(i64::MAX).unwrap_err().message,
        "storage revision space exhausted"
    );
}
