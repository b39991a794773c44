//! Encoding of session messages and generic message envelopes as host records,
//! and the fail-closed decoding back.
use super::{opt_chars, opt_model, SessionMessage, SessionMessageModel, SessionMessageRole, SessionRef};
use crate::error::{HostError, HostErrorCode};
use crate::session::config::role_name;
use crate::text::{quoted, str_eq};
use crate::value::{
    clone_value, lemma_record_model, lemma_variant_model, record_model, value_model, values_model, HostValue,
    ValueModel,
};
use vstd::prelude::*;

verus! {

broadcast use {vstd::std_specs::vec::group_vec_axioms, vstd::seq::group_seq_axioms};

/// A message as seen by language code, optionally bound to a session.
#[derive(Clone, Debug, PartialEq)]
pub struct MessageEnvelope {
    pub id: String,
    pub from: Option<String>,
    pub to: Option<String>,
    pub role: SessionMessageRole,
    pub session: Option<SessionRef>,
    pub created_at: String,
    pub payload: HostValue,
    pub provenance: Option<HostValue>,
}

/// Mathematical model of a [`MessageEnvelope`].
pub struct EnvelopeModel {
    pub id: Seq<char>,
    pub from: Option<Seq<char>>,
    pub to: Option<Seq<char>>,
    pub role: SessionMessageRole,
    pub session: Option<Seq<char>>,
    pub created_at: Seq<char>,
    pub payload: ValueModel,
    pub provenance: Option<ValueModel>,
}

pub open spec fn opt_session(o: Option<SessionRef>) -> Option<Seq<char>> {
    match o {
        Some(s) => Some(s.id@),
        None => None,
    }
}

impl View for MessageEnvelope {
    type V = EnvelopeModel;

    open spec fn view(&self) -> EnvelopeModel {
        EnvelopeModel {
            id: self.id@,
            from: opt_chars(self.from),
            to: opt_chars(self.to),
            role: self.role,
            session: opt_session(self.session),
            created_at: self.created_at@,
            payload: self.payload@,
            provenance: opt_model(self.provenance),
        }
    }
}

/// Why an envelope was rejected; each fault names the offending field or value.
pub enum EnvelopeFault {
    NotRecord,
    SessionNotRecord,
    Missing(Seq<char>),
    NotString(Seq<char>),
    NotOptionString(Seq<char>),
    NotOption(Seq<char>),
    UnknownField(Seq<char>),
    UnknownRole(Seq<char>),
    MissingSession,
}

pub open spec fn fault_message(fault: EnvelopeFault) -> Seq<char> {
    match fault {
        EnvelopeFault::NotRecord => "Message envelope must be a host record"@,
        EnvelopeFault::SessionNotRecord => "SessionMessage envelope must be a host record"@,
        EnvelopeFault::Missing(n) => "Message envelope is missing `"@ + n + "`"@,
        EnvelopeFault::NotString(n) => "Message envelope field `"@ + n + "` must be a string"@,
        EnvelopeFault::NotOptionString(n) => "Message envelope field `"@ + n
            + "` must contain a string"@,
        EnvelopeFault::NotOption(n) => "Message envelope field `"@ + n
            + "` must be an Option value"@,
        EnvelopeFault::UnknownField(n) => "Message envelope contains unknown field `"@ + n + "`"@,
        EnvelopeFault::UnknownRole(v) => "Message envelope contains unknown role `"@ + v + "`"@,
        EnvelopeFault::MissingSession => "SessionMessage envelope is missing `session`"@,
    }
}

/// `error` is the schema error reporting `fault`.
pub open spec fn reports(error: HostError, fault: EnvelopeFault) -> bool {
    &&& error.code == HostErrorCode::SchemaMismatch
    &&& error.message@ == fault_message(fault)
    &&& error.details@.len() == 0
}

pub open spec fn role_label(role: SessionMessageRole) -> Seq<char> {
    match role {
        SessionMessageRole::System => "system"@,
        SessionMessageRole::User => "user"@,
        SessionMessageRole::Assistant => "assistant"@,
        SessionMessageRole::Tool => "tool"@,
    }
}

pub open spec fn role_from_label(label: Seq<char>) -> Result<SessionMessageRole, EnvelopeFault> {
    if label == "system"@ {
        Ok(SessionMessageRole::System)
    } else if label == "user"@ {
        Ok(SessionMessageRole::User)
    } else if label == "assistant"@ {
        Ok(SessionMessageRole::Assistant)
    } else if label == "tool"@ {
        Ok(SessionMessageRole::Tool)
    } else {
        Err(EnvelopeFault::UnknownRole(label))
    }
}

/// `Some(v)` / `None` written as the host variants `Some` (one field) and `None` (no fields).
pub open spec fn option_value(v: Option<ValueModel>) -> ValueModel {
    match v {
        Some(x) => ValueModel::Variant { name: "Some"@, fields: seq![x] },
        None => ValueModel::Variant { name: "None"@, fields: seq![] },
    }
}

pub open spec fn option_string(v: Option<Seq<char>>) -> ValueModel {
    match v {
        Some(s) => option_value(Some(ValueModel::String(s))),
        None => option_value(None),
    }
}

pub type FieldsModel = Seq<(Seq<char>, ValueModel)>;

/// The record fields of an envelope, in their fixed order.
pub open spec fn envelope_fields(m: EnvelopeModel) -> FieldsModel {
    seq![
        ("id"@, ValueModel::String(m.id)),
        ("from"@, option_string(m.from)),
        ("to"@, option_string(m.to)),
        ("role"@, ValueModel::String(role_label(m.role))),
        ("session"@, option_string(m.session)),
        ("created_at"@, ValueModel::String(m.created_at)),
        ("payload"@, m.payload),
        ("provenance"@, option_value(m.provenance)),
    ]
}

pub open spec fn envelope_of(m: SessionMessageModel) -> EnvelopeModel {
    EnvelopeModel {
        id: m.id,
        from: m.from,
        to: m.to,
        role: m.role,
        session: Some(m.session),
        created_at: m.created_at,
        payload: m.payload,
        provenance: m.provenance,
    }
}

/// The record fields of a session message: the envelope fields, then `dedup_key`.
pub open spec fn session_message_fields(m: SessionMessageModel) -> FieldsModel {
    envelope_fields(envelope_of(m)).push(("dedup_key"@, option_string(m.dedup_key)))
}

/// `i` is the first position whose field is called `name`.
pub open spec fn first_named(s: FieldsModel, name: Seq<char>, i: int) -> bool {
    &&& 0 <= i < s.len()
    &&& s[i].0 == name
    &&& forall|j: int| 0 <= j < i ==> s[j].0 != name
}

pub open spec fn has_named(s: FieldsModel, name: Seq<char>) -> bool {
    exists|i: int| 0 <= i < s.len() && s[i].0 == name
}

/// Removes the first field called `name`, giving its value and the remaining fields.
pub open spec fn take_field(s: FieldsModel, name: Seq<char>) -> Option<(ValueModel, FieldsModel)> {
    if has_named(s, name) {
        let i = choose|i: int| first_named(s, name, i);
        Some((s[i].1, s.remove(i)))
    } else {
        None
    }
}

pub open spec fn take_required_field(s: FieldsModel, name: Seq<char>) -> Result<
    (ValueModel, FieldsModel),
    EnvelopeFault,
> {
    match take_field(s, name) {
        Some(r) => Ok(r),
        None => Err(EnvelopeFault::Missing(name)),
    }
}

pub open spec fn take_string(s: FieldsModel, name: Seq<char>) -> Result<
    (Seq<char>, FieldsModel),
    EnvelopeFault,
> {
    match take_required_field(s, name) {
        Err(f) => Err(f),
        Ok((ValueModel::String(x), rest)) => Ok((x, rest)),
        Ok(_) => Err(EnvelopeFault::NotString(name)),
    }
}

pub open spec fn option_content(v: ValueModel) -> Option<Option<ValueModel>> {
    match v {
        ValueModel::Variant { name, fields } => if name == "None"@ && fields.len() == 0 {
            Some(None)
        } else if name == "Some"@ && fields.len() == 1 {
            Some(Some(fields[0]))
        } else {
            None
        },
        _ => None,
    }
}

pub open spec fn take_option(s: FieldsModel, name: Seq<char>) -> Result<
    (Option<ValueModel>, FieldsModel),
    EnvelopeFault,
> {
    match take_required_field(s, name) {
        Err(f) => Err(f),
        Ok((v, rest)) => match option_content(v) {
            Some(o) => Ok((o, rest)),
            None => Err(EnvelopeFault::NotOption(name)),
        },
    }
}

pub open spec fn take_option_string(s: FieldsModel, name: Seq<char>) -> Result<
    (Option<Seq<char>>, FieldsModel),
    EnvelopeFault,
> {
    match take_option(s, name) {
        Err(f) => Err(f),
        Ok((None, rest)) => Ok((None, rest)),
        Ok((Some(ValueModel::String(x)), rest)) => Ok((Some(x), rest)),
        Ok((Some(_), _)) => Err(EnvelopeFault::NotOptionString(name)),
    }
}

/// Decoding of envelope record fields: each field is taken by name in the
/// encoding order, and any field left over is rejected.
pub open spec fn decode_envelope_fields(s0: FieldsModel) -> Result<EnvelopeModel, EnvelopeFault> {
    match take_string(s0, "id"@) {
        Err(f) => Err(f),
        Ok((id, s1)) => match take_option_string(s1, "from"@) {
            Err(f) => Err(f),
            Ok((from, s2)) => match take_option_string(s2, "to"@) {
                Err(f) => Err(f),
                Ok((to, s3)) => match take_string(s3, "role"@) {
                    Err(f) => Err(f),
                    Ok((label, s4)) => match role_from_label(label) {
                        Err(f) => Err(f),
                        Ok(role) => match take_option_string(s4, "session"@) {
                            Err(f) => Err(f),
                            Ok((session, s5)) => match take_string(s5, "created_at"@) {
                                Err(f) => Err(f),
                                Ok((created_at, s6)) => match take_required_field(s6, "payload"@) {
                                    Err(f) => Err(f),
                                    Ok((payload, s7)) => match take_option(s7, "provenance"@) {
                                        Err(f) => Err(f),
                                        Ok((provenance, s8)) => if s8.len() > 0 {
                                            Err(EnvelopeFault::UnknownField(s8[0].0))
                                        } else {
                                            Ok(
                                                EnvelopeModel {
                                                    id,
                                                    from,
                                                    to,
                                                    role,
                                                    session,
                                                    created_at,
                                                    payload,
                                                    provenance,
                                                },
                                            )
                                        },
                                    },
                                },
                            },
                        },
                    },
                },
            },
        },
    }
}

pub open spec fn decode_envelope(v: ValueModel) -> Result<EnvelopeModel, EnvelopeFault> {
    match v {
        ValueModel::Record(s) => decode_envelope_fields(s),
        _ => Err(EnvelopeFault::NotRecord),
    }
}

pub open spec fn decode_session_message(v: ValueModel) -> Result<SessionMessageModel, EnvelopeFault> {
    match v {
        ValueModel::Record(s) => match take_option_string(s, "dedup_key"@) {
            Err(f) => Err(f),
            Ok((dedup_key, rest)) => match decode_envelope_fields(rest) {
                Err(f) => Err(f),
                Ok(e) => match e.session {
                    None => Err(EnvelopeFault::MissingSession),
                    Some(session) => Ok(
                        SessionMessageModel {
                            id: e.id,
                            from: e.from,
                            to: e.to,
                            role: e.role,
                            session,
                            created_at: e.created_at,
                            payload: e.payload,
                            provenance: e.provenance,
                            dedup_key,
                        },
                    ),
                },
            },
        },
        _ => Err(EnvelopeFault::SessionNotRecord),
    }
}

// ---------------------------------------------------------------------------
// Executable codec

fn schema_error(message: String) -> (error: HostError)
    ensures
        error.code == HostErrorCode::SchemaMismatch,
        error.message@ == message@,
        error.details@.len() == 0,
{
    HostError::with_message(HostErrorCode::SchemaMismatch, message)
}

fn parse_role(value: &str) -> (role: Result<SessionMessageRole, HostError>)
    ensures
        match role_from_label(value@) {
            Ok(r) => role == Ok::<SessionMessageRole, HostError>(r),
            Err(f) => role matches Err(e) && reports(e, f),
        },
{
    if str_eq(value, "system") {
        Ok(SessionMessageRole::System)
    } else if str_eq(value, "user") {
        Ok(SessionMessageRole::User)
    } else if str_eq(value, "assistant") {
        Ok(SessionMessageRole::Assistant)
    } else if str_eq(value, "tool") {
        Ok(SessionMessageRole::Tool)
    } else {
        Err(schema_error(quoted("Message envelope contains unknown role `", value, "`")))
    }
}

fn optional_value(value: Option<HostValue>) -> (encoded: HostValue)
    ensures
        encoded@ == option_value(opt_model(value)),
{
    match value {
        Some(value) => {
            let mut fields: Vec<HostValue> = Vec::new();
            fields.push(value);
            let name = String::from_str("Some");
            proof {
                lemma_variant_model(name, fields);
                assert(values_model(fields@) =~= seq![fields@[0]@]);
            }
            HostValue::Variant { name, fields }
        },
        None => {
            let fields: Vec<HostValue> = Vec::new();
            let name = String::from_str("None");
            proof {
                lemma_variant_model(name, fields);
                assert(values_model(fields@) =~= Seq::<ValueModel>::empty());
            }
            HostValue::Variant { name, fields }
        },
    }
}

fn optional_string(value: Option<&str>) -> (encoded: HostValue)
    ensures
        encoded@ == option_string(
            match value {
                Some(s) => Some(s@),
                None => None,
            },
        ),
{
    match value {
        Some(s) => optional_value(Some(HostValue::String(s.to_owned()))),
        None => optional_value(None),
    }
}

fn opt_str(value: &Option<String>) -> (view: Option<&str>)
    ensures
        match view {
            Some(s) => Some(s@) == opt_chars(*value),
            None => opt_chars(*value) == None::<Seq<char>>,
        },
{
    match value {
        Some(s) => Some(s.as_str()),
        None => None,
    }
}

fn clone_optional_value(value: &Option<HostValue>) -> (copy: Option<HostValue>)
    ensures
        opt_model(copy) == opt_model(*value),
{
    match value {
        Some(v) => Some(clone_value(v)),
        None => None,
    }
}

fn message_envelope_fields(message: &MessageEnvelope) -> (fields: Vec<(String, HostValue)>)
    ensures
        record_model(fields@) == envelope_fields(message@),
{
    let mut fields: Vec<(String, HostValue)> = Vec::new();
    fields.push((String::from_str("id"), HostValue::String(message.id.clone())));
    fields.push((String::from_str("from"), optional_string(opt_str(&message.from))));
    fields.push((String::from_str("to"), optional_string(opt_str(&message.to))));
    fields.push(
        (String::from_str("role"), HostValue::String(String::from_str(role_name(message.role)))),
    );
    let session = match &message.session {
        Some(session) => Some(session.id.as_str()),
        None => None,
    };
    fields.push((String::from_str("session"), optional_string(session)));
    fields.push((String::from_str("created_at"), HostValue::String(message.created_at.clone())));
    fields.push((String::from_str("payload"), clone_value(&message.payload)));
    fields.push(
        (String::from_str("provenance"), optional_value(clone_optional_value(&message.provenance))),
    );
    assert(record_model(fields@) =~= envelope_fields(message@));
    fields
}

/// Encodes a message envelope as a host record with fields `id`, `from`, `to`,
/// `role`, `session`, `created_at`, `payload` and `provenance`, in that order.
pub fn message_envelope_to_host_value(message: &MessageEnvelope) -> (value: HostValue)
    ensures
        value@ == ValueModel::Record(envelope_fields(message@)),
        value@ matches ValueModel::Record(fs) && fs.len() == 8 && fs[0] == ("id"@, ValueModel::String(
            message.id@,
        )) && fs[1] == ("from"@, option_string(opt_chars(message.from))) && fs[2] == (
            "to"@,
            option_string(opt_chars(message.to)),
        ),
{
    let fields = message_envelope_fields(message);
    proof {
        lemma_record_model(fields);
    }
    HostValue::Record(fields)
}

/// Encodes a session message: the envelope fields of the message, then `dedup_key`.
pub fn session_message_to_host_value(message: &SessionMessage) -> (value: HostValue)
    ensures
        value@ == ValueModel::Record(session_message_fields(message@)),
        value@ matches ValueModel::Record(fs) && fs.len() == 9 && fs[0] == ("id"@, ValueModel::String(
            message.id@,
        )) && fs[1] == ("from"@, option_string(opt_chars(message.from))) && fs[2] == (
            "to"@,
            option_string(opt_chars(message.to)),
        ) && fs[8] == ("dedup_key"@, option_string(opt_chars(message.dedup_key))),
{
    let envelope = MessageEnvelope {
        id: message.id.clone(),
        from: message.from.clone(),
        to: message.to.clone(),
        role: message.role,
        session: Some(SessionRef { id: message.session.id.clone() }),
        created_at: message.created_at.clone(),
        payload: clone_value(&message.payload),
        provenance: clone_optional_value(&message.provenance),
    };
    assert(opt_chars(envelope.from) == opt_chars(message.from));
    assert(opt_chars(envelope.to) == opt_chars(message.to));
    assert(envelope@ == envelope_of(message@));
    let mut fields = message_envelope_fields(&envelope);
    fields.push((String::from_str("dedup_key"), optional_string(opt_str(&message.dedup_key))));
    assert(record_model(fields@) =~= session_message_fields(message@));
    proof {
        lemma_record_model(fields);
    }
    HostValue::Record(fields)
}

/// Removes the first field called `name` and returns its value.
fn take_required(fields: &mut Vec<(String, HostValue)>, name: &str) -> (taken: Result<
    HostValue,
    HostError,
>)
    ensures
        match take_required_field(record_model(old(fields)@), name@) {
            Ok((v, rest)) => taken matches Ok(x) && x@ == v && record_model(final(fields)@) == rest,
            Err(f) => taken matches Err(e) && reports(e, f),
        },
{
    let ghost s = record_model(fields@);
    let mut i: usize = 0;
    while i < fields.len()
        invariant
            i <= fields@.len(),
            s == record_model(fields@),
            fields@ == old(fields)@,
            forall|j: int| 0 <= j < i ==> s[j].0 != name@,
        decreases fields@.len() - i,
    {
        if str_eq(fields[i].0.as_str(), name) {
            proof {
                assert(first_named(s, name@, i as int));
                assert(has_named(s, name@));
                let k = choose|k: int| first_named(s, name@, k);
                assert(k == i);
                assert(take_field(s, name@) == Some((s[i as int].1, s.remove(i as int))));
            }
            let ghost before = fields@;
            let (_, value) = fields.remove(i);
            assert(s[i as int].1 == value_model(before[i as int].1));
            assert(record_model(fields@) =~= s.remove(i as int));
            return Ok(value);
        }
        i = i + 1;
    }
    assert(!has_named(s, name@));
    Err(schema_error(quoted("Message envelope is missing `", name, "`")))
}

fn required_string(fields: &mut Vec<(String, HostValue)>, name: &str) -> (taken: Result<
    String,
    HostError,
>)
    ensures
        match take_string(record_model(old(fields)@), name@) {
            Ok((v, rest)) => taken matches Ok(x) && x@ == v && record_model(final(fields)@) == rest,
            Err(f) => taken matches Err(e) && reports(e, f),
        },
{
    match take_required(fields, name) {
        Ok(HostValue::String(value)) => Ok(value),
        Ok(_) => Err(schema_error(quoted("Message envelope field `", name, "` must be a string"))),
        Err(e) => Err(e),
    }
}

fn optional_value_field(fields: &mut Vec<(String, HostValue)>, name: &str) -> (taken: Result<
    Option<HostValue>,
    HostError,
>)
    ensures
        match take_option(record_model(old(fields)@), name@) {
            Ok((v, rest)) => taken matches Ok(x) && opt_model(x) == v && record_model(
                final(fields)@,
            ) == rest,
            Err(f) => taken matches Err(e) && reports(e, f),
        },
{
    let value = take_required(fields, name);
    match value {
        Err(e) => Err(e),
        Ok(HostValue::Variant { name: variant, fields: mut inner }) => {
            proof {
                lemma_variant_model(variant, inner);
            }
            if str_eq(variant.as_str(), "None") && inner.len() == 0 {
                Ok(None)
            } else if str_eq(variant.as_str(), "Some") && inner.len() == 1 {
                let v = inner.pop();
                Ok(v)
            } else {
                Err(
                    schema_error(
                        quoted("Message envelope field `", name, "` must be an Option value"),
                    ),
                )
            }
        },
        Ok(_) => Err(
            schema_error(quoted("Message envelope field `", name, "` must be an Option value")),
        ),
    }
}

fn optional_string_field(fields: &mut Vec<(String, HostValue)>, name: &str) -> (taken: Result<
    Option<String>,
    HostError,
>)
    ensures
        match take_option_string(record_model(old(fields)@), name@) {
            Ok((v, rest)) => taken matches Ok(x) && opt_chars(x) == v && record_model(
                final(fields)@,
            ) == rest,
            Err(f) => taken matches Err(e) && reports(e, f),
        },
{
    match optional_value_field(fields, name) {
        Ok(Some(HostValue::String(value))) => Ok(Some(value)),
        Ok(Some(_)) => Err(
            schema_error(quoted("Message envelope field `", name, "` must contain a string")),
        ),
        Ok(None) => Ok(None),
        Err(e) => Err(e),
    }
}

fn decode_fields(fields: Vec<(String, HostValue)>) -> (decoded: Result<MessageEnvelope, HostError>)
    ensures
        match decode_envelope_fields(record_model(fields@)) {
            Ok(m) => decoded matches Ok(x) && x@ == m,
            Err(f) => decoded matches Err(e) && reports(e, f),
        },
{
    let mut fields = fields;
    let id = required_string(&mut fields, "id")?;
    let from = optional_string_field(&mut fields, "from")?;
    let to = optional_string_field(&mut fields, "to")?;
    let label = required_string(&mut fields, "role")?;
    let role = parse_role(label.as_str())?;
    let session = match optional_string_field(&mut fields, "session")? {
        Some(id) => Some(SessionRef { id }),
        None => None,
    };
    let created_at = required_string(&mut fields, "created_at")?;
    let payload = take_required(&mut fields, "payload")?;
    let provenance = optional_value_field(&mut fields, "provenance")?;
    if fields.len() > 0 {
        let (name, _) = fields.remove(0);
        return Err(
            schema_error(quoted("Message envelope contains unknown field `", name.as_str(), "`")),
        );
    }
    Ok(MessageEnvelope { id, from, to, role, session, created_at, payload, provenance })
}

/// Decodes a host record into a message envelope. Every envelope field must be
/// present with its expected shape, and no other field may appear.
pub fn message_envelope_from_host_value(value: HostValue) -> (decoded: Result<
    MessageEnvelope,
    HostError,
>)
    ensures
        match decode_envelope(value@) {
            Ok(m) => decoded matches Ok(x) && x@ == m,
            Err(f) => decoded matches Err(e) && reports(e, f),
        },
{
    match value {
        HostValue::Record(fields) => {
            proof {
                lemma_record_model(fields);
            }
            decode_fields(fields)
        },
        _ => Err(schema_error(String::from_str("Message envelope must be a host record"))),
    }
}

/// Decodes a host record into a session message: `dedup_key` is taken first,
/// the rest must be a message envelope that names its session.
pub fn session_message_from_host_value(value: HostValue) -> (decoded: Result<
    SessionMessage,
    HostError,
>)
    ensures
        match decode_session_message(value@) {
            Ok(m) => decoded matches Ok(x) && x@ == m,
            Err(f) => decoded matches Err(e) && reports(e, f),
        },
{
    match value {
        HostValue::Record(fields) => {
            proof {
                lemma_record_model(fields);
            }
            let mut fields = fields;
            let dedup_key = optional_string_field(&mut fields, "dedup_key")?;
            let message = decode_fields(fields)?;
            match message.session {
                None => Err(
                    schema_error(String::from_str("SessionMessage envelope is missing `session`")),
                ),
                Some(session) => Ok(
                    SessionMessage {
                        id: message.id,
                        from: message.from,
                        to: message.to,
                        role: message.role,
                        session,
                        created_at: message.created_at,
                        payload: message.payload,
                        provenance: message.provenance,
                        dedup_key,
                    },
                ),
            }
        },
        _ => Err(schema_error(String::from_str("SessionMessage envelope must be a host record"))),
    }
}


// ---------------------------------------------------------------------------
// Laws of the codec

proof fn lemma_take_first(s: FieldsModel, name: Seq<char>)
    requires
        s.len() > 0,
        s[0].0 == name,
    ensures
        take_field(s, name) == Some((s[0].1, s.drop_first())),
{
    assert(first_named(s, name, 0));
    let k = choose|k: int| first_named(s, name, k);
    assert(k == 0);
    assert(s.remove(0) =~= s.drop_first());
}

proof fn lemma_take_absent(s: FieldsModel, name: Seq<char>)
    requires
        forall|i: int| 0 <= i < s.len() ==> s[i].0 != name,
    ensures
        take_field(s, name) == None::<(ValueModel, FieldsModel)>,
{
}

proof fn lemma_role_label(role: SessionMessageRole)
    ensures
        role_from_label(role_label(role)) == Ok::<SessionMessageRole, EnvelopeFault>(role),
{
    broadcast use vstd::string::group_string_axioms;

    reveal_strlit("system");
    reveal_strlit("user");
    reveal_strlit("assistant");
    reveal_strlit("tool");
    assert("user"@[0] != "tool"@[0]);
    assert("system"@.len() != "user"@.len());
    assert("system"@.len() != "assistant"@.len());
    assert("system"@.len() != "tool"@.len());
    assert("user"@.len() != "assistant"@.len());
    assert("assistant"@.len() != "tool"@.len());
    assert("system"@ != "user"@ && "system"@ != "assistant"@ && "system"@ != "tool"@);
    assert("user"@ != "assistant"@ && "user"@ != "tool"@ && "assistant"@ != "tool"@);
}

proof fn lemma_option_content(v: Option<ValueModel>)
    ensures
        option_content(option_value(v)) == Some(v),
{
    reveal_strlit("None");
    reveal_strlit("Some");
}

proof fn lemma_option_string_head(s: FieldsModel, name: Seq<char>, v: Option<Seq<char>>)
    requires
        s.len() > 0,
        s[0] == (name, option_string(v)),
    ensures
        take_option_string(s, name) == Ok::<(Option<Seq<char>>, FieldsModel), EnvelopeFault>(
            (v, s.drop_first()),
        ),
{
    lemma_take_first(s, name);
    match v {
        Some(x) => lemma_option_content(Some(ValueModel::String(x))),
        None => lemma_option_content(None),
    }
}

proof fn lemma_first_named_unique(s: FieldsModel, name: Seq<char>, a: int, b: int)
    requires
        first_named(s, name, a),
        first_named(s, name, b),
    ensures
        a == b,
{
    if a < b {
        assert(s[a].0 == name);
    } else if b < a {
        assert(s[b].0 == name);
    }
}

proof fn lemma_first_exists(s: FieldsModel, name: Seq<char>, n: int)
    requires
        0 <= n < s.len(),
        s[n].0 == name,
    ensures
        exists|i: int| first_named(s, name, i),
    decreases n,
{
    if exists|m: int| 0 <= m < n && s[m].0 == name {
        let m = choose|m: int| 0 <= m < n && s[m].0 == name;
        lemma_first_exists(s, name, m);
    } else {
        assert(first_named(s, name, n));
    }
}

/// Taking the field called `name` takes its first occurrence.
proof fn lemma_take_named(s: FieldsModel, name: Seq<char>, i: int)
    requires
        first_named(s, name, i),
    ensures
        take_field(s, name) == Some((s[i].1, s.remove(i))),
{
    assert(has_named(s, name)) by {
        assert(0 <= i < s.len() && s[i].0 == name);
    }
    let k = choose|k: int| first_named(s, name, k);
    lemma_first_named_unique(s, name, k, i);
}

/// Removing a field of another name keeps the first field called `name`,
/// with its value.
proof fn lemma_named_after_removal(s: FieldsModel, name: Seq<char>, i: int, j: int)
    requires
        first_named(s, name, i),
        0 <= j < s.len(),
        s[j].0 != name,
    ensures
        first_named(s.remove(j), name, if j < i { i - 1 } else { i }),
        s.remove(j)[if j < i { i - 1 } else { i }].1 == s[i].1,
{
    let r = s.remove(j);
    let i2 = if j < i { i - 1 } else { i };
    assert forall|m: int| 0 <= m < i2 implies r[m].0 != name by {
        if m < j {
            assert(r[m] == s[m]);
        } else {
            assert(r[m] == s[m + 1]);
        }
    }
}

/// Reading an optional string field written as `option_string(v)` gives `v`.
proof fn lemma_option_string_read(s: FieldsModel, name: Seq<char>, i: int, v: Option<Seq<char>>)
    requires
        first_named(s, name, i),
        s[i].1 == option_string(v),
    ensures
        take_option_string(s, name) == Ok::<(Option<Seq<char>>, FieldsModel), EnvelopeFault>(
            (v, s.remove(i)),
        ),
{
    lemma_take_named(s, name, i);
    match v {
        Some(x) => lemma_option_content(Some(ValueModel::String(x))),
        None => lemma_option_content(None),
    }
}

/// Decoding reads the sender from the field called `from` and the
/// recipient from the field called `to`, wherever they stand in the record:
/// a record whose `from` field holds `Some(x)` decodes to an envelope from
/// `x`, and likewise for `to`.
pub proof fn lemma_decoded_sender_and_recipient(s0: FieldsModel, i: int, k: int, from: Option<Seq<char>>, to: Option<Seq<char>>)
    requires
        decode_envelope_fields(s0) is Ok,
        first_named(s0, "from"@, i),
        s0[i].1 == option_string(from),
        first_named(s0, "to"@, k),
        s0[k].1 == option_string(to),
    ensures
        decode_envelope_fields(s0)->Ok_0.from == from,
        decode_envelope_fields(s0)->Ok_0.to == to,
{
    broadcast use vstd::string::group_string_axioms;

    reveal_strlit("id");
    reveal_strlit("from");
    reveal_strlit("to");
    assert("id"@[0] != "to"@[0]);
    assert("id"@ != "from"@ && "id"@ != "to"@ && "from"@ != "to"@);
    assert(has_named(s0, "id"@));
    let n = choose|n: int| 0 <= n < s0.len() && s0[n].0 == "id"@;
    lemma_first_exists(s0, "id"@, n);
    let j = choose|j: int| first_named(s0, "id"@, j);
    lemma_take_named(s0, "id"@, j);
    let s1 = s0.remove(j);
    lemma_named_after_removal(s0, "from"@, i, j);
    let i1 = if j < i { i - 1 } else { i };
    lemma_option_string_read(s1, "from"@, i1, from);
    let s2 = s1.remove(i1);
    lemma_named_after_removal(s0, "to"@, k, j);
    let k1 = if j < k { k - 1 } else { k };
    lemma_named_after_removal(s1, "to"@, k1, i1);
    let k2 = if i1 < k1 { k1 - 1 } else { k1 };
    lemma_option_string_read(s2, "to"@, k2, to);
}

/// Decoding an encoded envelope gives back exactly the envelope: no field is
/// synthesized, dropped or altered.
pub proof fn lemma_envelope_round_trip(m: EnvelopeModel)
    ensures
        decode_envelope(ValueModel::Record(envelope_fields(m))) == Ok::<
            EnvelopeModel,
            EnvelopeFault,
        >(m),
{
    let s0 = envelope_fields(m);
    lemma_take_first(s0, "id"@);
    let s1 = s0.drop_first();
    lemma_option_string_head(s1, "from"@, m.from);
    let s2 = s1.drop_first();
    lemma_option_string_head(s2, "to"@, m.to);
    let s3 = s2.drop_first();
    lemma_take_first(s3, "role"@);
    lemma_role_label(m.role);
    let s4 = s3.drop_first();
    lemma_option_string_head(s4, "session"@, m.session);
    let s5 = s4.drop_first();
    lemma_take_first(s5, "created_at"@);
    let s6 = s5.drop_first();
    lemma_take_first(s6, "payload"@);
    let s7 = s6.drop_first();
    lemma_take_first(s7, "provenance"@);
    lemma_option_content(m.provenance);
    let s8 = s7.drop_first();
    assert(s8.len() == 0);
}


proof fn lemma_envelope_names_distinct(m: EnvelopeModel)
    ensures
        forall|a: int, b: int|
            0 <= a < 8 && 0 <= b < 8 && a != b ==> #[trigger] envelope_fields(m)[a].0
                != #[trigger] envelope_fields(m)[b].0,
        forall|a: int| 0 <= a < 8 ==> #[trigger] envelope_fields(m)[a].0 != "dedup_key"@,
{
    broadcast use vstd::string::group_string_axioms;

    reveal_strlit("id");
    reveal_strlit("from");
    reveal_strlit("to");
    reveal_strlit("role");
    reveal_strlit("session");
    reveal_strlit("created_at");
    reveal_strlit("payload");
    reveal_strlit("provenance");
    reveal_strlit("dedup_key");
    assert("id"@[0] != "to"@[0]);
    assert("from"@[0] != "role"@[0]);
    assert("session"@[0] != "payload"@[0]);
    assert("created_at"@[0] != "provenance"@[0]);
    let f = envelope_fields(m);
    assert forall|a: int, b: int|
        0 <= a < 8 && 0 <= b < 8 && a != b implies #[trigger] f[a].0 != #[trigger] f[b].0 by {
        if f[a].0.len() == f[b].0.len() {
            assert(f[a].0[0] != f[b].0[0]);
        }
    }
}

/// Decoding a session message's encoding gives back exactly that message.
pub proof fn lemma_session_message_round_trip(m: SessionMessageModel)
    ensures
        decode_session_message(ValueModel::Record(session_message_fields(m))) == Ok::<
            SessionMessageModel,
            EnvelopeFault,
        >(m),
{
    let e = envelope_of(m);
    let f = envelope_fields(e);
    let s = session_message_fields(m);
    lemma_envelope_names_distinct(e);
    assert(first_named(s, "dedup_key"@, 8));
    let k = choose|k: int| first_named(s, "dedup_key"@, k);
    assert(k == 8);
    match m.dedup_key {
        Some(x) => lemma_option_content(Some(ValueModel::String(x))),
        None => lemma_option_content(None),
    }
    assert(s.remove(8) =~= f);
    lemma_envelope_round_trip(e);
}

proof fn lemma_later_names_differ(m: EnvelopeModel, k: int)
    requires
        0 <= k < 8,
    ensures
        forall|i: int|
            0 <= i < envelope_fields(m).skip(k + 1).len() ==> (#[trigger] envelope_fields(m).skip(
                k + 1,
            )[i]).0 != envelope_fields(m)[k].0,
{
    let f = envelope_fields(m);
    lemma_envelope_names_distinct(m);
    assert forall|i: int| 0 <= i < f.skip(k + 1).len() implies (#[trigger] f.skip(k + 1)[i]).0
        != f[k].0 by {
        assert(f.skip(k + 1)[i] == f[k + 1 + i]);
    }
}

/// An envelope lacking any one of its fields is rejected, naming that field.
pub proof fn lemma_envelope_missing_field(m: EnvelopeModel, k: int)
    requires
        0 <= k < 8,
    ensures
        decode_envelope(ValueModel::Record(envelope_fields(m).remove(k))) == Err::<
            EnvelopeModel,
            EnvelopeFault,
        >(EnvelopeFault::Missing(envelope_fields(m)[k].0)),
{
    let f = envelope_fields(m);
    let r = f.remove(k);
    lemma_envelope_names_distinct(m);
    assert(forall|j: int| k <= j < 7 ==> r[j] == f[j + 1]);
    assert(forall|j: int| 0 <= j < k ==> r[j] == f[j]);
    if k == 0 {
        assert(r =~= f.skip(k + 1));
        lemma_later_names_differ(m, k);
        lemma_take_absent(r, "id"@);
        return;
    }
    lemma_take_first(r, "id"@);
    let r1 = r.drop_first();
    if k == 1 {
        assert(r1 =~= f.skip(k + 1));
        lemma_later_names_differ(m, k);
        lemma_take_absent(r1, "from"@);
        return;
    }
    lemma_option_string_head(r1, "from"@, m.from);
    let r2 = r1.drop_first();
    if k == 2 {
        assert(r2 =~= f.skip(k + 1));
        lemma_later_names_differ(m, k);
        lemma_take_absent(r2, "to"@);
        return;
    }
    lemma_option_string_head(r2, "to"@, m.to);
    let r3 = r2.drop_first();
    if k == 3 {
        assert(r3 =~= f.skip(k + 1));
        lemma_later_names_differ(m, k);
        lemma_take_absent(r3, "role"@);
        return;
    }
    lemma_take_first(r3, "role"@);
    lemma_role_label(m.role);
    let r4 = r3.drop_first();
    if k == 4 {
        assert(r4 =~= f.skip(k + 1));
        lemma_later_names_differ(m, k);
        lemma_take_absent(r4, "session"@);
        return;
    }
    lemma_option_string_head(r4, "session"@, m.session);
    let r5 = r4.drop_first();
    if k == 5 {
        assert(r5 =~= f.skip(k + 1));
        lemma_later_names_differ(m, k);
        lemma_take_absent(r5, "created_at"@);
        return;
    }
    lemma_take_first(r5, "created_at"@);
    let r6 = r5.drop_first();
    if k == 6 {
        assert(r6 =~= f.skip(k + 1));
        lemma_later_names_differ(m, k);
        lemma_take_absent(r6, "payload"@);
        return;
    }
    lemma_take_first(r6, "payload"@);
    let r7 = r6.drop_first();
    assert(r7 =~= f.skip(k + 1));
    lemma_later_names_differ(m, k);
    lemma_take_absent(r7, "provenance"@);
}

/// Any field appended after the envelope fields is rejected by name, even one
/// that repeats an envelope field or belongs to the session protocol.
pub proof fn lemma_envelope_extra_field(m: EnvelopeModel, name: Seq<char>, value: ValueModel)
    ensures
        decode_envelope(ValueModel::Record(envelope_fields(m).push((name, value)))) == Err::<
            EnvelopeModel,
            EnvelopeFault,
        >(EnvelopeFault::UnknownField(name)),
{
    let s0 = envelope_fields(m).push((name, value));
    lemma_take_first(s0, "id"@);
    let s1 = s0.drop_first();
    lemma_option_string_head(s1, "from"@, m.from);
    let s2 = s1.drop_first();
    lemma_option_string_head(s2, "to"@, m.to);
    let s3 = s2.drop_first();
    lemma_take_first(s3, "role"@);
    lemma_role_label(m.role);
    let s4 = s3.drop_first();
    lemma_option_string_head(s4, "session"@, m.session);
    let s5 = s4.drop_first();
    lemma_take_first(s5, "created_at"@);
    let s6 = s5.drop_first();
    lemma_take_first(s6, "payload"@);
    let s7 = s6.drop_first();
    lemma_take_first(s7, "provenance"@);
    lemma_option_content(m.provenance);
    let s8 = s7.drop_first();
    assert(s8 =~= seq![(name, value)]);
}

} // verus!
