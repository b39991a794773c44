//! Session configuration, its JSON form, and the names of message roles.
use crate::error::{HostError, HostErrorCode};
use crate::session::SessionMessageRole;
use crate::text::{quoted, str_eq};
use crate::value::{json_entries_model, lemma_json_object_model, HostJsonValue, JsonModel};
use vstd::prelude::*;

verus! {

broadcast use {vstd::std_specs::vec::group_vec_axioms, vstd::seq::group_seq_axioms};

/// Which history a session load returns.
#[derive(Clone, Copy, Debug, PartialEq, Eq, Structural)]
pub enum ContextPolicy {
    All,
    LastTurns(usize),
    SummaryPlusRecent { recent: usize },
}

/// How long session history is kept.
#[derive(Clone, Copy, Debug, PartialEq, Eq, Structural)]
pub enum RetentionPolicy {
    Forever,
    Days(u64),
}

/// Configuration of one session.
#[derive(Clone, Debug, PartialEq)]
pub struct SessionConfig {
    pub id: String,
    pub context: ContextPolicy,
    pub retention: RetentionPolicy,
}

pub open spec fn json_str(s: &str) -> JsonModel {
    JsonModel::String(s@)
}

/// `{"kind": "All"}`, `{"kind": "LastTurns", "turns": n}` or
/// `{"kind": "SummaryPlusRecent", "recent": n}`, keys in sorted order.
pub open spec fn context_policy_model(policy: ContextPolicy) -> JsonModel {
    match policy {
        ContextPolicy::All => JsonModel::Object(seq![("kind"@, json_str("All"))]),
        ContextPolicy::LastTurns(turns) => JsonModel::Object(
            seq![("kind"@, json_str("LastTurns")), ("turns"@, JsonModel::UInt(turns as u64))],
        ),
        ContextPolicy::SummaryPlusRecent { recent } => JsonModel::Object(
            seq![("kind"@, json_str("SummaryPlusRecent")), ("recent"@, JsonModel::UInt(recent as u64))],
        ),
    }
}

/// `{"kind": "Forever"}` or `{"days": n, "kind": "Days"}`, keys in sorted order.
pub open spec fn retention_policy_model(policy: RetentionPolicy) -> JsonModel {
    match policy {
        RetentionPolicy::Forever => JsonModel::Object(seq![("kind"@, json_str("Forever"))]),
        RetentionPolicy::Days(days) => JsonModel::Object(
            seq![("days"@, JsonModel::UInt(days)), ("kind"@, json_str("Days"))],
        ),
    }
}

/// `{"context": .., "id": .., "retention": ..}`.
pub open spec fn session_config_model(config: SessionConfig) -> JsonModel {
    JsonModel::Object(
        seq![
            ("context"@, context_policy_model(config.context)),
            ("id"@, JsonModel::String(config.id@)),
            ("retention"@, retention_policy_model(config.retention)),
        ],
    )
}

fn json_string(text: &str) -> (value: HostJsonValue)
    ensures
        value@ == json_str(text),
{
    HostJsonValue::String(text.to_owned())
}

/// Appends the entry `key: value` to the entries of a JSON object.
fn push_entry(entries: &mut Vec<(String, HostJsonValue)>, key: &str, value: HostJsonValue)
    ensures
        json_entries_model(final(entries)@) == json_entries_model(old(entries)@).push((key@, value@)),
{
    entries.push((key.to_owned(), value));
    assert(json_entries_model(entries@) =~= json_entries_model(old(entries)@).push((key@, value@)));
}

fn json_object(entries: Vec<(String, HostJsonValue)>) -> (value: HostJsonValue)
    ensures
        value@ == JsonModel::Object(json_entries_model(entries@)),
{
    let ghost e = entries;
    let value = HostJsonValue::Object(entries);
    proof {
        lemma_json_object_model(e);
    }
    value
}

pub fn context_policy_json(policy: &ContextPolicy) -> (value: HostJsonValue)
    ensures
        value@ == context_policy_model(*policy),
{
    let mut entries: Vec<(String, HostJsonValue)> = Vec::new();
    assert(json_entries_model(entries@) =~= Seq::<(Seq<char>, JsonModel)>::empty());
    match policy {
        ContextPolicy::All => {
            push_entry(&mut entries, "kind", json_string("All"));
        },
        ContextPolicy::LastTurns(turns) => {
            push_entry(&mut entries, "kind", json_string("LastTurns"));
            push_entry(&mut entries, "turns", HostJsonValue::UInt(*turns as u64));
        },
        ContextPolicy::SummaryPlusRecent { recent } => {
            push_entry(&mut entries, "kind", json_string("SummaryPlusRecent"));
            push_entry(&mut entries, "recent", HostJsonValue::UInt(*recent as u64));
        },
    }
    assert(json_entries_model(entries@) =~= context_policy_model(*policy)->Object_0);
    let value = json_object(entries);
    value
}

pub fn retention_policy_json(policy: &RetentionPolicy) -> (value: HostJsonValue)
    ensures
        value@ == retention_policy_model(*policy),
{
    let mut entries: Vec<(String, HostJsonValue)> = Vec::new();
    assert(json_entries_model(entries@) =~= Seq::<(Seq<char>, JsonModel)>::empty());
    match policy {
        RetentionPolicy::Forever => {
            push_entry(&mut entries, "kind", json_string("Forever"));
        },
        RetentionPolicy::Days(days) => {
            push_entry(&mut entries, "days", HostJsonValue::UInt(*days));
            push_entry(&mut entries, "kind", json_string("Days"));
        },
    }
    assert(json_entries_model(entries@) =~= retention_policy_model(*policy)->Object_0);
    let value = json_object(entries);
    value
}

/// The JSON form of a session configuration; it never fails.
pub fn session_config_json(config: &SessionConfig) -> (value: Result<HostJsonValue, HostError>)
    ensures
        value matches Ok(v) && v@ == session_config_model(*config),
{
    let mut entries: Vec<(String, HostJsonValue)> = Vec::new();
    assert(json_entries_model(entries@) =~= Seq::<(Seq<char>, JsonModel)>::empty());
    push_entry(&mut entries, "context", context_policy_json(&config.context));
    push_entry(&mut entries, "id", json_string(config.id.as_str()));
    push_entry(&mut entries, "retention", retention_policy_json(&config.retention));
    assert(json_entries_model(entries@) =~= session_config_model(*config)->Object_0);
    let value = json_object(entries);
    Ok(value)
}

/// The value of the first entry named `key`.
pub open spec fn entries_get(entries: Seq<(Seq<char>, JsonModel)>, key: Seq<char>) -> Option<JsonModel>
    decreases entries.len(),
{
    if entries.len() == 0 {
        None
    } else if entries[0].0 == key {
        Some(entries[0].1)
    } else {
        entries_get(entries.drop_first(), key)
    }
}

/// The value of the first entry named `key` of a JSON object; `None` for a
/// missing key or a value that is not an object.
pub open spec fn json_get(value: JsonModel, key: Seq<char>) -> Option<JsonModel> {
    match value {
        JsonModel::Object(entries) => entries_get(entries, key),
        _ => None,
    }
}

/// A JSON number read as an unsigned 64-bit integer, as `serde_json` does.
pub open spec fn json_as_u64(value: JsonModel) -> Option<u64> {
    match value {
        JsonModel::UInt(u) => Some(u),
        JsonModel::Int(i) => if i >= 0 {
            Some(i as u64)
        } else {
            None
        },
        _ => None,
    }
}

pub open spec fn json_as_str(value: JsonModel) -> Option<Seq<char>> {
    match value {
        JsonModel::String(s) => Some(s),
        _ => None,
    }
}

/// Why a stored retention policy cannot be read.
pub enum RetentionFault {
    MissingKind,
    MissingDays,
    Unknown(Seq<char>),
}

pub open spec fn retention_fault_message(fault: RetentionFault) -> Seq<char> {
    match fault {
        RetentionFault::MissingKind => "session retention policy is missing kind"@,
        RetentionFault::MissingDays => "session retention policy is missing days"@,
        RetentionFault::Unknown(kind) => "unknown session retention policy `"@ + kind + "`"@,
    }
}

/// Reading a retention policy back from its JSON form.
pub open spec fn decode_retention(value: JsonModel) -> Result<RetentionPolicy, RetentionFault> {
    match json_get(value, "kind"@) {
        Some(k) => match json_as_str(k) {
            Some(kind) => if kind == "Forever"@ {
                Ok(RetentionPolicy::Forever)
            } else if kind == "Days"@ {
                match json_get(value, "days"@) {
                    Some(d) => match json_as_u64(d) {
                        Some(days) => Ok(RetentionPolicy::Days(days)),
                        None => Err(RetentionFault::MissingDays),
                    },
                    None => Err(RetentionFault::MissingDays),
                }
            } else {
                Err(RetentionFault::Unknown(kind))
            },
            None => Err(RetentionFault::MissingKind),
        },
        None => Err(RetentionFault::MissingKind),
    }
}

/// Looks up the first entry named `key` of a JSON object.
fn get<'a>(value: &'a HostJsonValue, key: &str) -> (found: Option<&'a HostJsonValue>)
    ensures
        match json_get(value@, key@) {
            Some(v) => found matches Some(f) && f@ == v,
            None => found is None,
        },
{
    match value {
        HostJsonValue::Object(entries) => {
            proof {
                lemma_json_object_model(*entries);
            }
            let ghost model = json_entries_model(entries@);
            assert(model.skip(0) =~= model);
            let mut i: usize = 0;
            while i < entries.len()
                invariant
                    i <= entries@.len(),
                    model == json_entries_model(entries@),
                    json_get(value@, key@) == entries_get(model.skip(i as int), key@),
                decreases entries@.len() - i,
            {
                assert(model.skip(i as int).drop_first() =~= model.skip(i + 1));
                if str_eq(entries[i].0.as_str(), key) {
                    return Some(&entries[i].1);
                }
                i = i + 1;
            }
            None
        },
        _ => None,
    }
}

fn as_u64(value: &HostJsonValue) -> (n: Option<u64>)
    ensures
        n == json_as_u64(value@),
{
    match value {
        HostJsonValue::UInt(u) => Some(*u),
        HostJsonValue::Int(i) => if *i >= 0 {
            Some(*i as u64)
        } else {
            None
        },
        _ => None,
    }
}

fn invalid_request(message: String) -> (error: HostError)
    ensures
        error.code == HostErrorCode::InvalidRequest,
        error.message@ == message@,
        error.details@.len() == 0,
{
    HostError::with_message(HostErrorCode::InvalidRequest, message)
}

/// Reads a retention policy from its JSON form, as [`decode_retention`] says.
pub fn retention_policy_from_json(value: &HostJsonValue) -> (policy: Result<RetentionPolicy, HostError>)
    ensures
        match decode_retention(value@) {
            Ok(p) => policy == Ok::<RetentionPolicy, HostError>(p),
            Err(f) => policy matches Err(e) && e.code == HostErrorCode::InvalidRequest && e.message@
                == retention_fault_message(f),
        },
{
    let kind = match get(value, "kind") {
        Some(HostJsonValue::String(kind)) => kind,
        _ => return Err(invalid_request("session retention policy is missing kind".to_owned())),
    };
    if str_eq(kind.as_str(), "Forever") {
        Ok(RetentionPolicy::Forever)
    } else if str_eq(kind.as_str(), "Days") {
        match get(value, "days") {
            Some(days) => match as_u64(days) {
                Some(d) => Ok(RetentionPolicy::Days(d)),
                None => Err(invalid_request("session retention policy is missing days".to_owned())),
            },
            None => Err(invalid_request("session retention policy is missing days".to_owned())),
        }
    } else {
        Err(invalid_request(quoted("unknown session retention policy `", kind.as_str(), "`")))
    }
}

/// Every retention policy reads back from its JSON form unchanged.
pub proof fn lemma_retention_round_trip(policy: RetentionPolicy)
    ensures
        decode_retention(retention_policy_model(policy)) == Ok::<RetentionPolicy, RetentionFault>(
            policy,
        ),
{
    reveal_strlit("kind");
    reveal_strlit("days");
    reveal_strlit("Days");
    reveal_strlit("Forever");
    let m = retention_policy_model(policy);
    let entries = m->Object_0;
    assert("Days"@.len() != "Forever"@.len());
    match policy {
        RetentionPolicy::Forever => {
            assert(json_get(m, "kind"@) == Some(json_str("Forever")));
        },
        RetentionPolicy::Days(days) => {
            assert("days"@[0] != "kind"@[0]);
            assert(entries.drop_first() =~= seq![("kind"@, json_str("Days"))]);
            reveal_with_fuel(entries_get, 2);
            assert(json_get(m, "kind"@) == Some(json_str("Days")));
            assert(json_get(m, "days"@) == Some(JsonModel::UInt(days)));
        },
    }
}

/// The retention policy stored in a configuration's JSON form reads back
/// as the configuration's policy.
pub proof fn lemma_config_retention_read_back(config: SessionConfig)
    ensures
        json_get(session_config_model(config), "retention"@) == Some(
            retention_policy_model(config.retention),
        ),
        decode_retention(retention_policy_model(config.retention)) == Ok::<
            RetentionPolicy,
            RetentionFault,
        >(config.retention),
{
    reveal_strlit("retention");
    reveal_strlit("context");
    reveal_strlit("id");
    assert("context"@[0] != "retention"@[0]);
    assert("id"@.len() != "retention"@.len());
    let entries = session_config_model(config)->Object_0;
    assert(entries.drop_first() =~= seq![("id"@, JsonModel::String(config.id@)), ("retention"@, retention_policy_model(config.retention))]);
    assert(entries.drop_first().drop_first() =~= seq![("retention"@, retention_policy_model(config.retention))]);
    reveal_with_fuel(entries_get, 3);
    lemma_retention_round_trip(config.retention);
}

/// The stored name of a message role.
pub fn role_name(role: SessionMessageRole) -> (name: &'static str)
    ensures
        name@ == crate::session::value::role_label(role),
{
    match role {
        SessionMessageRole::System => "system",
        SessionMessageRole::User => "user",
        SessionMessageRole::Assistant => "assistant",
        SessionMessageRole::Tool => "tool",
    }
}

/// The role a stored name denotes; any other name is an error message
/// naming it.
pub fn role_from_name(value: &str) -> (role: Result<SessionMessageRole, String>)
    ensures
        match crate::session::value::role_from_label(value@) {
            Ok(r) => role == Ok::<SessionMessageRole, String>(r),
            Err(_) => role matches Err(m) && m@ == "unknown session message role `"@ + value@ + "`"@,
        },
{
    if str_eq(value, "system") {
        Ok(SessionMessageRole::System)
    } else if str_eq(value, "user") {
        Ok(SessionMessageRole::User)
    } else if str_eq(value, "assistant") {
        Ok(SessionMessageRole::Assistant)
    } else if str_eq(value, "tool") {
        Ok(SessionMessageRole::Tool)
    } else {
        Err(quoted("unknown session message role `", value, "`"))
    }
}

/// Every role reads back from its stored name.
pub proof fn lemma_role_name_round_trip(role: SessionMessageRole)
    ensures
        crate::session::value::role_from_label(crate::session::value::role_label(role))
            == Ok::<SessionMessageRole, crate::session::value::EnvelopeFault>(role),
{
    reveal_strlit("system");
    reveal_strlit("user");
    reveal_strlit("assistant");
    reveal_strlit("tool");
    assert("system"@.len() != "user"@.len());
    assert("system"@.len() != "assistant"@.len());
    assert("system"@.len() != "tool"@.len());
    assert("user"@.len() != "assistant"@.len());
    assert("user"@[0] != "tool"@[0]);
    assert("assistant"@.len() != "tool"@.len());
}

} // verus!
