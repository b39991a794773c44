use etas_host::{
    message_envelope_from_host_value, message_envelope_to_host_value,
    session_message_from_host_value, session_message_to_host_value, HostErrorCode, HostValue,
    MessageEnvelope, SessionMessage, SessionMessageRole, SessionRef,
};

#[test]
fn message_envelope_round_trips_without_synthesizing_fields() {
    let message = SessionMessage {
        id: "message-1".to_owned(),
        from: Some("agent-a".to_owned()),
        to: Some("agent-b".to_owned()),
        role: SessionMessageRole::Assistant,
        session: SessionRef {
            id: "session-1".to_owned(),
        },
        created_at: "2026-07-18T00:00:00Z".to_owned(),
        payload: HostValue::Float(1.5f64.to_bits()),
        provenance: Some(HostValue::String("trace-1".to_owned())),
        dedup_key: Some("dedup-1".to_owned()),
    };
    let decoded = session_message_from_host_value(session_message_to_host_value(&message))
        .expect("valid envelope");
    assert_eq!(decoded, message);
}

#[test]
fn message_envelope_rejects_missing_runtime_identity() {
    let error = session_message_from_host_value(HostValue::Record(vec![]))
        .expect_err("missing envelope fields must fail closed");
    assert_eq!(error.code, HostErrorCode::SchemaMismatch);
}

#[test]
fn generic_message_envelope_round_trips_without_session() {
    let message = MessageEnvelope {
        id: "message-2".to_owned(),
        from: None,
        to: None,
        role: SessionMessageRole::User,
        session: None,
        created_at: "2026-07-18T00:00:01Z".to_owned(),
        payload: HostValue::String("hello".to_owned()),
        provenance: None,
    };
    let decoded = message_envelope_from_host_value(message_envelope_to_host_value(&message))
        .expect("generic Message envelope should not require a session");
    assert_eq!(decoded, message);
}

#[test]
fn generic_message_envelope_rejects_every_missing_or_protocol_only_field() {
    let message = MessageEnvelope {
        id: "message-3".to_owned(),
        from: None,
        to: None,
        role: SessionMessageRole::User,
        session: None,
        created_at: "2026-07-18T00:00:02Z".to_owned(),
        payload: HostValue::String("payload".to_owned()),
        provenance: None,
    };
    let HostValue::Record(fields) = message_envelope_to_host_value(&message) else {
        panic!("message envelope must encode as a record");
    };
    for required in [
        "id",
        "from",
        "to",
        "role",
        "session",
        "created_at",
        "payload",
        "provenance",
    ] {
        let damaged = fields
            .iter()
            .filter(|(name, _)| name != required)
            .cloned()
            .collect();
        let error = message_envelope_from_host_value(HostValue::Record(damaged))
            .expect_err("missing message field must fail closed");
        assert!(error.message.contains(required), "{error:?}");
    }

    let mut damaged = fields;
    damaged.push((
        "dedup_key".to_owned(),
        HostValue::String("protocol-only".to_owned()),
    ));
    let error = message_envelope_from_host_value(HostValue::Record(damaged))
        .expect_err("session protocol fields must not enter MessageEnvelope");
    assert!(error.message.contains("dedup_key"), "{error:?}");
}
