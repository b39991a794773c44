//! Memory version tokens, store generations, scope identities and write
//! conditions.
use crate::digest::{blake3_digest, blake3_hash};
use crate::entropy::random_16;
use crate::error::{HostError, HostErrorCode};
use crate::platform::ascii_string;
use crate::text::{
    is_hex_digit, lemma_hex_fixed, lemma_pow16_16, str_eq,
    all_hex, hex_bytes, hex_fixed, hex_value, is_ascii_bytes, is_hex_range, le_bytes, lemma_hex_bytes,
    parse_hex_u64, push_bytes, push_hex_bytes, push_hex_fixed, push_le, utf8,
};
use vstd::prelude::*;

verus! {

broadcast use {vstd::std_specs::vec::group_vec_axioms, vstd::seq::group_seq_axioms};

/// One length-prefixed part of a scope identity: its byte length as eight
/// little-endian bytes, then the bytes.
pub open spec fn scope_part(bytes: Seq<u8>) -> Seq<u8> {
    le_bytes(bytes.len(), 8) + bytes
}

pub open spec fn scope_parts(parts: Seq<Seq<u8>>) -> Seq<u8>
    decreases parts.len(),
{
    if parts.len() == 0 {
        seq![]
    } else {
        scope_parts(parts.drop_last()) + scope_part(parts.last())
    }
}

pub open spec fn strings_utf8(path: Seq<String>) -> Seq<Seq<u8>> {
    Seq::new(path.len(), |i: int| utf8(path[i]@))
}

/// The bytes hashed into a scope identity.
pub open spec fn scope_input(namespace: Seq<u8>, region: Seq<u8>, path: Seq<Seq<u8>>) -> Seq<u8> {
    utf8("etas.storage.scope.v1"@) + scope_part(namespace) + scope_part(region) + scope_parts(path)
}

/// The scope identity: lowercase hexadecimal of the BLAKE3 hash of the scope input.
pub open spec fn scope_hex(namespace: Seq<u8>, region: Seq<u8>, path: Seq<Seq<u8>>) -> Seq<u8> {
    hex_bytes(blake3_digest(scope_input(namespace, region, path)))
}

fn push_part(out: &mut Vec<u8>, bytes: &[u8])
    ensures
        final(out)@ == old(out)@ + scope_part(bytes@),
{
    push_le(out, bytes.len() as u64, 8);
    push_bytes(out, bytes);
    assert(final(out)@ =~= old(out)@ + scope_part(bytes@));
}

/// Lowercase hexadecimal of `digest`, as a string.
pub fn hex_string(digest: &[u8]) -> (text: String)
    ensures
        utf8(text@) == hex_bytes(digest@),
{
    let mut hex: Vec<u8> = Vec::new();
    push_hex_bytes(&mut hex, digest);
    proof {
        lemma_hex_bytes(digest@);
        assert(hex@ =~= hex_bytes(digest@));
    }
    ascii_string(hex)
}

/// Identity of a storage scope: the BLAKE3 hash, in lowercase hexadecimal, of
/// a versioned domain tag followed by the length-prefixed namespace, region
/// and path parts.
pub fn scope_identity(namespace: &str, region: &str, path: &[String]) -> (identity: String)
    ensures
        utf8(identity@) == scope_hex(utf8(namespace@), utf8(region@), strings_utf8(path@)),
        utf8(identity@).len() == 64,
        all_hex(utf8(identity@)),
{
    let mut input: Vec<u8> = Vec::new();
    push_bytes(&mut input, "etas.storage.scope.v1".as_bytes());
    push_part(&mut input, namespace.as_bytes());
    push_part(&mut input, region.as_bytes());
    let mut i: usize = 0;
    while i < path.len()
        invariant
            i <= path@.len(),
            input@ == utf8("etas.storage.scope.v1"@) + scope_part(utf8(namespace@)) + scope_part(
                utf8(region@),
            ) + scope_parts(strings_utf8(path@).subrange(0, i as int)),
        decreases path@.len() - i,
    {
        proof {
            let s = strings_utf8(path@).subrange(0, i + 1);
            assert(s.drop_last() =~= strings_utf8(path@).subrange(0, i as int));
        }
        push_part(&mut input, path[i].as_str().as_bytes());
        i = i + 1;
        assert(input@ =~= utf8("etas.storage.scope.v1"@) + scope_part(utf8(namespace@))
            + scope_part(utf8(region@)) + scope_parts(strings_utf8(path@).subrange(0, i as int)));
    }
    assert(strings_utf8(path@).subrange(0, path@.len() as int) =~= strings_utf8(path@));
    let digest = blake3_hash(input.as_slice());
    proof {
        lemma_hex_bytes(digest@);
        assert(digest@ =~= blake3_digest(input@));
    }
    hex_string(digest.as_slice())
}

/// Lowercase hexadecimal bytes of exactly `n` digits starting at `start`.
pub open spec fn hex_run(b: Seq<u8>, start: int, n: int) -> bool {
    start + n <= b.len() && all_hex(b.subrange(start, start + n))
}

/// Bytes of a memory version token `mv1:<scope>:<generation>:<revision>`: 64,
/// 32 and 16 lowercase hexadecimal digits, with a revision from 1 to `i64::MAX`.
pub open spec fn is_memory_version_token(b: Seq<u8>) -> bool {
    &&& b.len() == 118
    &&& b[0] == 109 && b[1] == 118 && b[2] == 49 && b[3] == 58
    &&& hex_run(b, 4, 64)
    &&& b[68] == 58
    &&& hex_run(b, 69, 32)
    &&& b[101] == 58
    &&& hex_run(b, 102, 16)
    &&& 1 <= hex_value(b.subrange(102, 118)) <= i64::MAX
}

/// A version of one stored memory value.
#[derive(PartialEq, Eq)]
pub struct MemoryVersion {
    token: String,
}

impl Clone for MemoryVersion {
    fn clone(&self) -> (copy: MemoryVersion)
        ensures
            copy@ == self@,
    {
        proof {
            use_type_invariant(self);
        }
        MemoryVersion { token: self.token.clone() }
    }
}

impl View for MemoryVersion {
    type V = Seq<char>;

    closed spec fn view(&self) -> Seq<char> {
        self.token@
    }
}

impl MemoryVersion {
    #[verifier::type_invariant]
    spec fn well_formed(self) -> bool {
        is_memory_version_token(utf8(self.token@))
    }

    /// Accepts exactly the canonical memory version tokens.
    pub fn parse(token: &str) -> (version: Result<MemoryVersion, HostError>)
        ensures
            match version {
                Ok(v) => is_memory_version_token(utf8(token@)) && v@ == token@,
                Err(e) => !is_memory_version_token(utf8(token@)) && is_invalid_token_error(e),
            },
    {
        if memory_version_bytes_valid(token.as_bytes()) {
            Ok(MemoryVersion { token: token.to_owned() })
        } else {
            Err(invalid_token())
        }
    }

    pub fn as_token(&self) -> (token: &str)
        ensures
            token@ == self@,
            is_memory_version_token(utf8(token@)),
    {
        proof {
            use_type_invariant(self);
        }
        self.token.as_str()
    }

    /// Issues `mv1:<scope>:<generation>:<revision as 16 hex digits>` (a negative
    /// revision is written in two's complement, and so is rejected).
    pub fn issue(scope: &str, generation: &StoreGeneration, revision: i64) -> (version: Result<
        MemoryVersion,
        HostError,
    >)
        ensures
            match version {
                Ok(v) => is_memory_version_token(memory_version_bytes(scope@, generation@, revision))
                    && utf8(v@) == memory_version_bytes(scope@, generation@, revision),
                Err(e) => !is_memory_version_token(
                    memory_version_bytes(scope@, generation@, revision),
                ) && is_invalid_token_error(e),
            },
    {
        let mut bytes: Vec<u8> = Vec::new();
        bytes.push(109);
        bytes.push(118);
        bytes.push(49);
        bytes.push(58);
        push_bytes(&mut bytes, scope.as_bytes());
        bytes.push(58);
        push_bytes(&mut bytes, generation.as_str().as_bytes());
        bytes.push(58);
        push_hex_fixed(&mut bytes, revision as u64, 16);
        assert(bytes@ =~= memory_version_bytes(scope@, generation@, revision));
        if memory_version_bytes_valid(bytes.as_slice()) {
            proof {
                lemma_token_ascii(bytes@);
            }
            let token = ascii_string(bytes);
            Ok(MemoryVersion { token })
        } else {
            Err(invalid_token())
        }
    }
}

pub open spec fn memory_version_bytes(scope: Seq<char>, generation: Seq<char>, revision: i64) -> Seq<u8> {
    seq![109u8, 118, 49, 58] + utf8(scope) + seq![58u8] + utf8(generation) + seq![58u8] + hex_fixed(
        revision as u64 as nat,
        16,
    )
}

/// Tokens are ASCII: lowercase hexadecimal digits, the tag letters and colons.
proof fn lemma_token_ascii(b: Seq<u8>)
    requires
        b.len() == 118,
        b[0] < 128 && b[1] < 128 && b[2] < 128 && b[3] == 58,
        hex_run(b, 4, 64),
        b[68] == 58,
        hex_run(b, 69, 32),
        b[101] == 58,
        hex_run(b, 102, 16),
    ensures
        is_ascii_bytes(b),
{
    assert forall|i: int| 0 <= i < b.len() implies #[trigger] b[i] < 128 by {
        if 4 <= i < 68 {
            assert(b.subrange(4, 68)[i - 4] == b[i]);
        } else if 69 <= i < 101 {
            assert(b.subrange(69, 101)[i - 69] == b[i]);
        } else if 102 <= i < 118 {
            assert(b.subrange(102, 118)[i - 102] == b[i]);
        }
    }
}

fn memory_version_bytes_valid(b: &[u8]) -> (valid: bool)
    ensures
        valid == is_memory_version_token(b@),
{
    if b.len() != 118 || b[0] != 109 || b[1] != 118 || b[2] != 49 || b[3] != 58 {
        return false;
    }
    if !is_hex_range(b, 4, 68) || b[68] != 58 || !is_hex_range(b, 69, 101) || b[101] != 58
        || !is_hex_range(b, 102, 118) {
        return false;
    }
    let revision = parse_hex_u64(b, 102, 118);
    revision != 0 && revision <= 0x7fff_ffff_ffff_ffff
}

/// Identity of one store instance: 32 lowercase hexadecimal digits.
#[derive(Debug)]
pub struct StoreGeneration(String);

impl Clone for StoreGeneration {
    fn clone(&self) -> (copy: StoreGeneration)
        ensures
            copy@ == self@,
    {
        proof {
            use_type_invariant(self);
        }
        StoreGeneration(self.0.clone())
    }
}

pub open spec fn is_generation_hex(b: Seq<u8>) -> bool {
    b.len() == 32 && all_hex(b)
}

impl View for StoreGeneration {
    type V = Seq<char>;

    closed spec fn view(&self) -> Seq<char> {
        self.0@
    }
}

impl StoreGeneration {
    #[verifier::type_invariant]
    spec fn well_formed(self) -> bool {
        is_generation_hex(utf8(self.0@))
    }

    /// A fresh generation: sixteen random bytes in lowercase hexadecimal.
    pub fn new() -> (generation: Result<StoreGeneration, HostError>)
        ensures
            match generation {
                Ok(g) => is_generation_hex(utf8(g@)),
                Err(e) => e.code == HostErrorCode::ProviderUnavailable && e.message@
                    == "cannot allocate storage generation"@,
            },
    {
        match random_16() {
            Ok(bytes) => {
                let text = hex_string(bytes.as_slice());
                proof {
                    lemma_hex_bytes(bytes@);
                }
                Ok(StoreGeneration(text))
            },
            Err(_) => Err(
                HostError::new(
                    HostErrorCode::ProviderUnavailable,
                    "cannot allocate storage generation",
                ),
            ),
        }
    }

    /// Accepts a stored generation only if it is 32 lowercase hexadecimal digits.
    pub fn from_stored(value: String) -> (generation: Result<StoreGeneration, HostError>)
        ensures
            match generation {
                Ok(g) => is_generation_hex(utf8(value@)) && g@ == value@,
                Err(e) => !is_generation_hex(utf8(value@)) && e.code == HostErrorCode::SchemaMismatch
                    && e.message@ == "invalid stored generation"@,
            },
    {
        let bytes = value.as_str().as_bytes();
        if bytes.len() == 32 && is_hex_range(bytes, 0, 32) {
            assert(bytes@.subrange(0, 32) =~= bytes@);
            Ok(StoreGeneration(value))
        } else {
            proof {
                if bytes@.len() == 32 {
                    assert(bytes@.subrange(0, 32) =~= bytes@);
                }
            }
            Err(HostError::new(HostErrorCode::SchemaMismatch, "invalid stored generation"))
        }
    }

    pub fn as_str(&self) -> (text: &str)
        ensures
            text@ == self@,
            is_generation_hex(utf8(text@)),
    {
        proof {
            use_type_invariant(self);
        }
        self.0.as_str()
    }
}

/// The revision after `revision`: rejects a negative stored revision and
/// reports exhaustion at `i64::MAX`.
pub fn next_revision(revision: i64) -> (next: Result<i64, HostError>)
    ensures
        match next {
            Ok(n) => 0 <= revision < i64::MAX && n == revision + 1,
            Err(e) => (revision < 0 && e.code == HostErrorCode::SchemaMismatch && e.message@
                == "negative stored revision"@) || (revision == i64::MAX && e.code
                == HostErrorCode::ProviderUnavailable && e.message@
                == "storage revision space exhausted"@),
        },
{
    if revision < 0 {
        return Err(HostError::new(HostErrorCode::SchemaMismatch, "negative stored revision"));
    }
    match revision.checked_add(1) {
        Some(n) => Ok(n),
        None => Err(
            HostError::new(HostErrorCode::ProviderUnavailable, "storage revision space exhausted"),
        ),
    }
}

/// The condition a conditional memory write places on the current version.
#[derive(Clone, PartialEq, Eq)]
pub enum WriteCondition {
    Any,
    Missing,
    Exists,
    Match(MemoryVersion),
}

impl WriteCondition {
    /// Whether a value whose current version is `current` (`None` when absent)
    /// may be written under this condition.
    pub fn is_satisfied_by(&self, current: Option<&MemoryVersion>) -> (satisfied: bool)
        ensures
            satisfied == match self {
                WriteCondition::Any => true,
                WriteCondition::Missing => current is None,
                WriteCondition::Exists => current is Some,
                WriteCondition::Match(expected) => current matches Some(c) && c@ == expected@,
            },
    {
        match self {
            WriteCondition::Any => true,
            WriteCondition::Missing => current.is_none(),
            WriteCondition::Exists => current.is_some(),
            WriteCondition::Match(expected) => match current {
                Some(c) => str_eq(c.as_token(), expected.as_token()),
                None => false,
            },
        }
    }

    pub fn expected_version(&self) -> (expected: Option<&MemoryVersion>)
        ensures
            match self {
                WriteCondition::Match(v) => expected == Some(v),
                _ => expected is None,
            },
    {
        match self {
            WriteCondition::Match(version) => Some(version),
            _ => None,
        }
    }
}

/// The error for a malformed or obsolete memory version token.
pub open spec fn is_invalid_token_error(e: HostError) -> bool {
    &&& e.code == HostErrorCode::InvalidRequest
    &&& e.message@ == "invalid or obsolete memory version token"@
    &&& e.details@.len() == 0
}

fn invalid_token() -> (error: HostError)
    ensures
        is_invalid_token_error(error),
{
    HostError::new(HostErrorCode::InvalidRequest, "invalid or obsolete memory version token")
}

/// A memory version issued under a 64-digit scope and a store generation for a
/// positive revision is a valid token that records that revision.
pub proof fn lemma_issued_memory_version(scope: Seq<char>, generation: Seq<char>, revision: i64)
    requires
        utf8(scope).len() == 64,
        all_hex(utf8(scope)),
        is_generation_hex(utf8(generation)),
        revision >= 1,
    ensures
        is_memory_version_token(memory_version_bytes(scope, generation, revision)),
        hex_value(memory_version_bytes(scope, generation, revision).subrange(102, 118)) == revision,
{
    lemma_pow16_16();
    lemma_hex_fixed(revision as u64 as nat, 16);
    let b = memory_version_bytes(scope, generation, revision);
    assert(b.subrange(4, 68) =~= utf8(scope));
    assert(b.subrange(69, 101) =~= utf8(generation));
    assert(b.subrange(102, 118) =~= hex_fixed(revision as u64 as nat, 16));
}

} // verus!
