//! Session generation and session version tokens, bound to one session by
//! its scope identity.
use crate::error::{HostError, HostErrorCode};
use crate::platform::ascii_string;
use crate::storage::version::{
    hex_run, is_generation_hex, scope_hex, scope_identity, scope_input, strings_utf8,
};
use crate::digest::blake3_digest;
use crate::text::{
    all_hex, bytes_equal_at, hex_bytes, hex_fixed, hex_value, is_ascii_bytes, is_hex_range,
    lemma_hex_bytes, lemma_hex_fixed, lemma_pow16_16, parse_hex_u64, push_bytes, push_hex_fixed,
    utf8,
};
use vstd::prelude::*;

verus! {

broadcast use {vstd::std_specs::vec::group_vec_axioms, vstd::seq::group_seq_axioms};

/// Scope identity of a session: the scope `("session", session, [])`.
pub open spec fn session_scope(session: Seq<char>) -> Seq<u8> {
    scope_hex(utf8("session"@), utf8(session), seq![])
}

/// `sg1:<scope>:<generation>` with 64 and 32 lowercase hexadecimal digits.
pub open spec fn is_generation_token(b: Seq<u8>) -> bool {
    &&& b.len() == 101
    &&& b[0] == 115 && b[1] == 103 && b[2] == 49 && b[3] == 58
    &&& hex_run(b, 4, 64)
    &&& b[68] == 58
    &&& hex_run(b, 69, 32)
}

/// `sv1:<scope>:<generation>:<ordinal>` with 64, 32 and 16 lowercase
/// hexadecimal digits and an ordinal of at most `i64::MAX`.
pub open spec fn is_version_token(b: Seq<u8>) -> bool {
    &&& b.len() == 118
    &&& b[0] == 115 && b[1] == 118 && b[2] == 49 && b[3] == 58
    &&& hex_run(b, 4, 64)
    &&& b[68] == 58
    &&& hex_run(b, 69, 32)
    &&& b[101] == 58
    &&& hex_run(b, 102, 16)
    &&& hex_value(b.subrange(102, 118)) <= i64::MAX
}

pub open spec fn generation_bytes(session: Seq<char>, generation: Seq<char>) -> Seq<u8> {
    seq![115u8, 103, 49, 58] + session_scope(session) + seq![58u8] + utf8(generation)
}

pub open spec fn version_bytes(session: Seq<char>, generation: Seq<char>, ordinal: i64) -> Seq<u8> {
    seq![115u8, 118, 49, 58] + session_scope(session) + seq![58u8] + utf8(generation) + seq![58u8]
        + hex_fixed(ordinal as u64 as nat, 16)
}

/// The token names the scope of `session`.
pub open spec fn token_belongs_to(b: Seq<u8>, session: Seq<char>) -> bool {
    b.subrange(4, 68) == session_scope(session)
}

pub open spec fn is_invalid_generation_error(e: HostError) -> bool {
    &&& e.code == HostErrorCode::InvalidRequest
    &&& e.message@ == "invalid session generation token"@
}

pub open spec fn is_invalid_version_error(e: HostError) -> bool {
    &&& e.code == HostErrorCode::InvalidRequest
    &&& e.message@ == "invalid session version token"@
}

proof fn lemma_ascii_runs(b: Seq<u8>)
    requires
        forall|i: int|
            0 <= i < b.len() && !(4 <= i < 68) && !(69 <= i < 101) && !(102 <= i < 118) ==> b[i]
                < 128,
        b.len() >= 68 ==> hex_run(b, 4, 64),
        b.len() >= 101 ==> hex_run(b, 69, 32),
        b.len() >= 118 ==> hex_run(b, 102, 16),
        b.len() == 101 || b.len() == 118,
    ensures
        is_ascii_bytes(b),
{
    assert forall|i: int| 0 <= i < b.len() implies #[trigger] b[i] < 128 by {
        if 4 <= i < 68 {
            assert(b.subrange(4, 68)[i - 4] == b[i]);
        } else if 69 <= i < 101 {
            assert(b.subrange(69, 101)[i - 69] == b[i]);
        } else if 102 <= i < 118 && b.len() == 118 {
            assert(b.subrange(102, 118)[i - 102] == b[i]);
        }
    }
}

fn generation_bytes_valid(b: &[u8]) -> (valid: bool)
    ensures
        valid == is_generation_token(b@),
{
    b.len() == 101 && b[0] == 115 && b[1] == 103 && b[2] == 49 && b[3] == 58 && is_hex_range(
        b,
        4,
        68,
    ) && b[68] == 58 && is_hex_range(b, 69, 101)
}

fn version_bytes_valid(b: &[u8]) -> (valid: bool)
    ensures
        valid == is_version_token(b@),
{
    if b.len() != 118 || b[0] != 115 || b[1] != 118 || b[2] != 49 || b[3] != 58 {
        return false;
    }
    if !is_hex_range(b, 4, 68) || b[68] != 58 || !is_hex_range(b, 69, 101) || b[101] != 58
        || !is_hex_range(b, 102, 118) {
        return false;
    }
    parse_hex_u64(b, 102, 118) <= 0x7fff_ffff_ffff_ffff
}

fn session_scope_bytes(session: &str) -> (scope: String)
    ensures
        utf8(scope@) == session_scope(session@),
        utf8(scope@).len() == 64,
        all_hex(utf8(scope@)),
{
    let path: Vec<String> = Vec::new();
    let scope = scope_identity("session", session, path.as_slice());
    assert(strings_utf8(path@) =~= Seq::<Seq<u8>>::empty());
    scope
}

/// A history generation of one session.
#[derive(PartialEq, Eq)]
pub struct SessionGeneration(String);

impl View for SessionGeneration {
    type V = Seq<char>;

    closed spec fn view(&self) -> Seq<char> {
        self.0@
    }
}

impl Clone for SessionGeneration {
    fn clone(&self) -> (copy: SessionGeneration)
        ensures
            copy@ == self@,
    {
        proof {
            use_type_invariant(self);
        }
        SessionGeneration(self.0.clone())
    }
}

impl SessionGeneration {
    #[verifier::type_invariant]
    spec fn well_formed(self) -> bool {
        is_generation_token(utf8(self.0@))
    }

    /// Accepts exactly the canonical generation tokens.
    pub fn parse(token: &str) -> (generation: Result<SessionGeneration, HostError>)
        ensures
            match generation {
                Ok(g) => is_generation_token(utf8(token@)) && g@ == token@,
                Err(e) => !is_generation_token(utf8(token@)) && is_invalid_generation_error(e),
            },
    {
        if generation_bytes_valid(token.as_bytes()) {
            Ok(SessionGeneration(token.to_owned()))
        } else {
            Err(HostError::new(HostErrorCode::InvalidRequest, "invalid session generation token"))
        }
    }

    pub fn as_token(&self) -> (token: &str)
        ensures
            token@ == self@,
            is_generation_token(utf8(token@)),
    {
        proof {
            use_type_invariant(self);
        }
        self.0.as_str()
    }

    /// Whether this generation was issued for `session`.
    pub fn belongs_to(&self, session: &str) -> (belongs: bool)
        ensures
            belongs == token_belongs_to(utf8(self@), session@),
    {
        proof {
            use_type_invariant(self);
        }
        let scope = session_scope_bytes(session);
        bytes_equal_at(self.0.as_str().as_bytes(), 4, scope.as_str().as_bytes())
    }

    /// The generation token `sg1:<scope of session>:<generation>`; rejected
    /// unless `generation` is 32 lowercase hexadecimal digits.
    pub fn issue(session: &str, generation: &str) -> (issued: Result<SessionGeneration, HostError>)
        ensures
            match issued {
                Ok(g) => is_generation_token(generation_bytes(session@, generation@)) && utf8(g@)
                    == generation_bytes(session@, generation@),
                Err(e) => !is_generation_token(generation_bytes(session@, generation@))
                    && is_invalid_generation_error(e),
            },
    {
        let scope = session_scope_bytes(session);
        let mut bytes: Vec<u8> = Vec::new();
        bytes.push(115);
        bytes.push(103);
        bytes.push(49);
        bytes.push(58);
        push_bytes(&mut bytes, scope.as_str().as_bytes());
        bytes.push(58);
        push_bytes(&mut bytes, generation.as_bytes());
        assert(bytes@ =~= generation_bytes(session@, generation@));
        if generation_bytes_valid(bytes.as_slice()) {
            proof {
                lemma_ascii_runs(bytes@);
            }
            Ok(SessionGeneration(ascii_string(bytes)))
        } else {
            Err(HostError::new(HostErrorCode::InvalidRequest, "invalid session generation token"))
        }
    }
}

/// The position of one appended message in a session history generation.
#[derive(PartialEq, Eq)]
pub struct SessionVersion(String);

impl View for SessionVersion {
    type V = Seq<char>;

    closed spec fn view(&self) -> Seq<char> {
        self.0@
    }
}

impl Clone for SessionVersion {
    fn clone(&self) -> (copy: SessionVersion)
        ensures
            copy@ == self@,
    {
        proof {
            use_type_invariant(self);
        }
        SessionVersion(self.0.clone())
    }
}

impl SessionVersion {
    #[verifier::type_invariant]
    spec fn well_formed(self) -> bool {
        is_version_token(utf8(self.0@))
    }

    /// Accepts exactly the canonical session version tokens.
    pub fn parse(token: &str) -> (version: Result<SessionVersion, HostError>)
        ensures
            match version {
                Ok(v) => is_version_token(utf8(token@)) && v@ == token@,
                Err(e) => !is_version_token(utf8(token@)) && is_invalid_version_error(e),
            },
    {
        if version_bytes_valid(token.as_bytes()) {
            Ok(SessionVersion(token.to_owned()))
        } else {
            Err(HostError::new(HostErrorCode::InvalidRequest, "invalid session version token"))
        }
    }

    pub fn as_token(&self) -> (token: &str)
        ensures
            token@ == self@,
            is_version_token(utf8(token@)),
    {
        proof {
            use_type_invariant(self);
        }
        self.0.as_str()
    }

    /// Whether this version was issued for `session`.
    pub fn belongs_to(&self, session: &str) -> (belongs: bool)
        ensures
            belongs == token_belongs_to(utf8(self@), session@),
    {
        proof {
            use_type_invariant(self);
        }
        let scope = session_scope_bytes(session);
        bytes_equal_at(self.0.as_str().as_bytes(), 4, scope.as_str().as_bytes())
    }

    /// The version token `sv1:<scope of session>:<generation>:<ordinal as 16
    /// hex digits>` (a negative ordinal is written in two's complement, and so
    /// is rejected).
    pub fn issue(session: &str, generation: &str, ordinal: i64) -> (issued: Result<
        SessionVersion,
        HostError,
    >)
        ensures
            match issued {
                Ok(v) => is_version_token(version_bytes(session@, generation@, ordinal)) && utf8(v@)
                    == version_bytes(session@, generation@, ordinal),
                Err(e) => !is_version_token(version_bytes(session@, generation@, ordinal))
                    && is_invalid_version_error(e),
            },
    {
        let scope = session_scope_bytes(session);
        let mut bytes: Vec<u8> = Vec::new();
        bytes.push(115);
        bytes.push(118);
        bytes.push(49);
        bytes.push(58);
        push_bytes(&mut bytes, scope.as_str().as_bytes());
        bytes.push(58);
        push_bytes(&mut bytes, generation.as_bytes());
        bytes.push(58);
        push_hex_fixed(&mut bytes, ordinal as u64, 16);
        assert(bytes@ =~= version_bytes(session@, generation@, ordinal));
        if version_bytes_valid(bytes.as_slice()) {
            proof {
                lemma_ascii_runs(bytes@);
            }
            Ok(SessionVersion(ascii_string(bytes)))
        } else {
            Err(HostError::new(HostErrorCode::InvalidRequest, "invalid session version token"))
        }
    }
}


proof fn lemma_session_scope(session: Seq<char>)
    ensures
        session_scope(session).len() == 64,
        all_hex(session_scope(session)),
{
    lemma_hex_bytes(blake3_digest(scope_input(utf8("session"@), utf8(session), seq![])));
}

/// A generation issued for a session from 32 hexadecimal digits is a valid
/// generation token, and it belongs to that session.
pub proof fn lemma_issued_generation(session: Seq<char>, generation: Seq<char>)
    requires
        is_generation_hex(utf8(generation)),
    ensures
        is_generation_token(generation_bytes(session, generation)),
        token_belongs_to(generation_bytes(session, generation), session),
{
    lemma_session_scope(session);
    let b = generation_bytes(session, generation);
    let scope = session_scope(session);
    assert(b.subrange(4, 68) =~= scope);
    assert(b.subrange(69, 101) =~= utf8(generation));
}

/// A version issued for a session from 32 hexadecimal digits and a
/// non-negative ordinal is a valid version token that belongs to that session
/// and records that ordinal.
pub proof fn lemma_issued_version(session: Seq<char>, generation: Seq<char>, ordinal: i64)
    requires
        is_generation_hex(utf8(generation)),
        ordinal >= 0,
    ensures
        is_version_token(version_bytes(session, generation, ordinal)),
        token_belongs_to(version_bytes(session, generation, ordinal), session),
        hex_value(version_bytes(session, generation, ordinal).subrange(102, 118)) == ordinal,
{
    lemma_session_scope(session);
    lemma_pow16_16();
    lemma_hex_fixed(ordinal as u64 as nat, 16);
    let b = version_bytes(session, generation, ordinal);
    assert(b.subrange(4, 68) =~= session_scope(session));
    assert(b.subrange(69, 101) =~= utf8(generation));
    assert(b.subrange(102, 118) =~= hex_fixed(ordinal as u64 as nat, 16));
}

/// No token is both a generation token and a version token.
pub proof fn lemma_generation_and_version_disjoint(b: Seq<u8>)
    ensures
        !(is_generation_token(b) && is_version_token(b)),
{
}

} // verus!
