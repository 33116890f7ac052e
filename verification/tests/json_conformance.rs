//! The JSON text the library writes, held against `serde_json` on values
//! whose strings and numbers need every kind of escape and sign.
use personal_secretary::{
    agenda_detail_json, candidate_fingerprint, map_row, reminder_payload_json, AgendaRow,
    CommitmentMemory, CommitmentStatus, ContentTrustLevel, MemoryCandidateSource, MemoryPayload,
    MessageSource, PersonMemory, SourceAccountRef, SourceEventId, ThreadActorRef,
};
use serde_json::Value;

type Object = serde_json::Map<String, Value>;

const TRICKY: [&str; 12] = [
    "",
    "\"quoted\"",
    "back\\slash",
    "line\nfeed\r\ttab",
    "\u{8}\u{c}",
    "\u{0}\u{1}\u{1f}",
    "\u{7f}del",
    "中文 客户",
    "emoji 😀",
    "\u{2028}\u{2029}",
    "</script>",
    "a/b",
];

fn account() -> SourceAccountRef {
    SourceAccountRef::new(MessageSource::NapCat, "acc\"1\n").unwrap()
}

fn actor(id: &str) -> ThreadActorRef {
    ThreadActorRef {
        account: account(),
        actor_id: id.into(),
    }
}

fn account_value() -> Value {
    let mut m = Object::new();
    m.insert("channel".into(), Value::from("napcat"));
    m.insert("account_id".into(), Value::from("acc\"1\n"));
    Value::Object(m)
}

fn actor_value(id: &str) -> Value {
    let mut m = Object::new();
    m.insert("account".into(), account_value());
    m.insert("actor_id".into(), Value::from(id));
    Value::Object(m)
}

fn source(id: &str) -> MemoryCandidateSource {
    MemoryCandidateSource {
        source_event_id: SourceEventId::new(id).unwrap(),
        actor: actor("alice"),
        occurred_at_unix_secs: 1,
        content_trust_level: ContentTrustLevel::Normal,
    }
}

fn fingerprint_of_value(kind: &str, subject: &str, payload_data: Value, sources: &[&str]) -> String {
    let mut payload = Object::new();
    payload.insert("kind".into(), Value::from(kind));
    payload.insert("data".into(), payload_data);
    let mut canonical = Object::new();
    canonical.insert(
        "account".into(),
        Value::Array(vec![Value::from("napcat"), Value::from("acc\"1\n")]),
    );
    canonical.insert("kind".into(), Value::from(kind));
    canonical.insert("subject".into(), Value::from(subject));
    canonical.insert("payload".into(), Value::Object(payload));
    canonical.insert(
        "sources".into(),
        Value::Array(sources.iter().map(|s| Value::from(*s)).collect()),
    );
    canonical.insert("extractor_version".into(), Value::from("v\u{1}"));
    let text = Value::Object(canonical).to_string();
    uuid::Uuid::new_v5(&uuid::Uuid::NAMESPACE_OID, text.as_bytes()).to_string()
}

#[test]
fn reminder_payload_escapes_as_serde_json_does() {
    for (i, text) in TRICKY.iter().enumerate() {
        let other = TRICKY[(i + 5) % TRICKY.len()];
        let mut expected = Object::new();
        expected.insert("candidate_id".into(), Value::from(*text));
        expected.insert("source_version".into(), Value::from(u64::MAX - i as u64));
        expected.insert("owner_actor_id".into(), Value::from(other));
        assert_eq!(
            reminder_payload_json(text, u64::MAX - i as u64, other),
            Value::Object(expected).to_string(),
            "text {text:?}"
        );
    }
}

#[test]
fn person_fingerprint_text_matches_serde_json() {
    for text in TRICKY {
        let payload = MemoryPayload::Person(PersonMemory {
            person: actor(text),
            relationship: if text.is_empty() { None } else { Some(text.into()) },
            responsibilities: TRICKY.iter().map(|s| s.to_string()).collect(),
            communication_preferences: vec![text.into()],
        });
        let mut data = Object::new();
        data.insert("person".into(), actor_value(text));
        data.insert(
            "relationship".into(),
            if text.is_empty() { Value::Null } else { Value::from(text) },
        );
        data.insert(
            "responsibilities".into(),
            Value::Array(TRICKY.iter().map(|s| Value::from(*s)).collect()),
        );
        data.insert("communication_preferences".into(), Value::Array(vec![Value::from(text)]));
        let fingerprint = candidate_fingerprint(
            &account(),
            &payload,
            "person:x",
            &[source("e\"2"), source("e1")],
            "v\u{1}",
        );
        assert_eq!(
            fingerprint,
            fingerprint_of_value("person", "person:x", Value::Object(data), &["e\"2", "e1"]),
            "text {text:?}"
        );
    }
}

#[test]
fn commitment_fingerprint_text_matches_serde_json_at_the_integer_limits() {
    for due in [Some(i64::MIN), Some(-1), Some(0), Some(i64::MAX), None] {
        let payload = MemoryPayload::Commitment(CommitmentMemory {
            promisor: actor("bob"),
            beneficiary: actor("a\\b"),
            action: "send \"quote\"\n".into(),
            due_at_unix_secs: due,
            status: CommitmentStatus::Fulfilled,
            completion_source_event_id: Some(SourceEventId::new("e9").unwrap()),
        });
        let mut data = Object::new();
        data.insert("promisor".into(), actor_value("bob"));
        data.insert("beneficiary".into(), actor_value("a\\b"));
        data.insert("action".into(), Value::from("send \"quote\"\n"));
        data.insert(
            "due_at_unix_secs".into(),
            match due {
                Some(t) => Value::from(t),
                None => Value::Null,
            },
        );
        data.insert("status".into(), Value::from("fulfilled"));
        data.insert("completion_source_event_id".into(), Value::from("e9"));
        let fingerprint =
            candidate_fingerprint(&account(), &payload, "c:1", &[source("e1")], "v\u{1}");
        assert_eq!(
            fingerprint,
            fingerprint_of_value("commitment", "c:1", Value::Object(data), &["e1"]),
            "due {due:?}"
        );
    }
}

#[test]
fn agenda_detail_matches_serde_json_at_the_integer_limits() {
    for (version, at) in [(0u64, Some(i64::MIN)), (u64::MAX, Some(i64::MAX)), (7, None)] {
        let row = AgendaRow {
            item_id: "item\u{7f}\"1".into(),
            item_kind: "task".into(),
            title: "t".into(),
            scheduled_at_unix_secs: at,
            timezone_name: "UTC".into(),
            item_status: "cancelled".into(),
            version,
            created_command_event_id: "c1".into(),
            current_command_event_id: "c2".into(),
            created_at_unix_secs: 0,
            updated_at_unix_secs: 0,
        };
        let item = map_row(row, account()).unwrap();
        let mut expected = Object::new();
        expected.insert("item_id".into(), Value::from("item\u{7f}\"1"));
        expected.insert("status".into(), Value::from("cancelled"));
        expected.insert("version".into(), Value::from(version));
        expected.insert(
            "scheduled_at_unix_secs".into(),
            match at {
                Some(t) => Value::from(t),
                None => Value::Null,
            },
        );
        assert_eq!(agenda_detail_json(&item), Value::Object(expected).to_string());
    }
}
