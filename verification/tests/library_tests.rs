use personal_secretary::{
    automatic_reply_scope_key, candidate_error_from_fact, candidate_fingerprint,
    candidate_status_name, checked_count, decision_reason_name, feedback_policy_scope,
    filter_excerpt_by_trust, notification_category_name, outcome_name, parse_actor_kind,
    parse_content_trust_level, parse_conversation_kind, parse_fact_status, parse_message_role,
    parse_message_source, parse_mutation_status, parse_policy_kind, parse_source_event_id_list,
    parse_thread_status, policy_kind_name, revision_kind_name, sorted_distinct_texts,
    source_account_from_db, text_fits, text_is_blank, text_less, to_domain_family, trim_text,
    utf8_len_within, validate_memory_delete, validate_quiet_hours, validate_write_request,
    winning_policy_kind, decision_completion, ContentTrustLevel, ConversationKind, ConversationMode,
    ConversationNotificationRule, ConversationRef, DecisionReason, EvaluationInput, EvaluationPlan,
    EventKind, FamilyRow, IdentityError, MatchField, MemoryCandidateError, MemoryCandidateId,
    MemoryCandidateSource, MemoryCandidateVersion, MemoryDeleteInput, MemoryFactError,
    MemoryFactId, MemoryFactStatus, MemoryPayload, MessageRole, MessageSource,
    NotificationCandidateRef, NotificationCategory, NotificationMatchKeyV1, NotificationOutcome,
    NotificationPolicyError, NotificationPolicyEvaluator, NotificationPolicyKind,
    NotificationPolicyRule, PersonMemory, PolicyFamilyId, PolicyStoreError, QuietHoursRule,
    RevisionKind, DELAY_REEVALUATION_SECS, SourceAccountRef, SourceEventId, StoredValueError, StructuredImportance,
    ThreadActorRef, ThreadMutationProposalStatus, ThreadStatus, VerifiedActorKind,
};

fn account() -> SourceAccountRef {
    SourceAccountRef::new(MessageSource::NapCat, "account-1").unwrap()
}

fn actor(id: &str) -> ThreadActorRef {
    ThreadActorRef {
        account: account(),
        actor_id: id.into(),
    }
}

fn source(id: &str) -> MemoryCandidateSource {
    MemoryCandidateSource {
        source_event_id: SourceEventId::new(id).unwrap(),
        actor: actor("alice"),
        occurred_at_unix_secs: 1,
        content_trust_level: ContentTrustLevel::Normal,
    }
}

fn person_payload() -> MemoryPayload {
    MemoryPayload::Person(PersonMemory {
        person: actor("alice"),
        relationship: Some("客户".into()),
        responsibilities: vec!["报价".into()],
        communication_preferences: Vec::new(),
    })
}

fn match_key(
    conversation: MatchField<ConversationRef>,
    actor_id: MatchField<String>,
    category: MatchField<NotificationCategory>,
) -> NotificationMatchKeyV1 {
    NotificationMatchKeyV1::new(
        account(),
        conversation,
        actor_id,
        category,
        MatchField::Known(false),
        MatchField::Known(StructuredImportance::Normal),
        MatchField::Known(EventKind::AgendaDue),
    )
    .unwrap()
}

fn rule(outcome: NotificationOutcome, bypass_quiet: bool) -> NotificationPolicyRule {
    NotificationPolicyRule {
        match_key: match_key(MatchField::Absent, MatchField::Absent, MatchField::Absent),
        outcome,
        bypass_quiet,
        conversation: None,
        quiet_hours: None,
    }
}

fn input(now_unix_secs: i64) -> EvaluationInput {
    EvaluationInput {
        candidate_is_current: true,
        matching_rule: None,
        conversation_rule: None,
        contact_rule: None,
        category_rule: None,
        account_default_rule: None,
        quiet_hours: None,
        now_unix_secs,
    }
}

fn shanghai_night() -> QuietHoursRule {
    QuietHoursRule {
        timezone_name: "Asia/Shanghai".into(),
        start_local_time: "23:00".into(),
        end_local_time: "07:00".into(),
        effective_from_local_date: None,
        effective_until_local_date: None,
        allow_bypass: false,
    }
}

// 2024-01-02 00:15 in Shanghai.
const SHANGHAI_NIGHT: i64 = 1_704_125_700;
// 2024-01-02 12:00 in Shanghai.
const SHANGHAI_NOON: i64 = 1_704_168_000;

// ---------------------------------------------------------------------------
// Text helpers.

#[test]
fn blank_text_is_white_space_only() {
    assert!(text_is_blank(""));
    assert!(text_is_blank(" \t\n\u{3000}"));
    assert!(!text_is_blank(" a "));
}

#[test]
fn text_fits_counts_characters_not_bytes() {
    assert!(text_fits("长长", 2));
    assert!(!text_fits("长长长", 2));
    assert!(!text_fits("   ", 10));
    assert!(utf8_len_within("长长", 6));
    assert!(!utf8_len_within("长长", 5));
}

#[test]
fn trim_text_removes_outer_white_space() {
    assert_eq!(trim_text("  person:alice \n"), "person:alice");
    assert_eq!(trim_text("\u{3000}a b\u{3000}"), "a b");
    assert_eq!(trim_text("   "), "");
}

#[test]
fn text_order_is_code_point_order() {
    assert!(text_less("a", "b"));
    assert!(text_less("a", "ab"));
    assert!(!text_less("b", "a"));
    assert!(!text_less("a", "a"));
    assert!(text_less("Z", "a"));
}

#[test]
fn sorted_distinct_texts_sorts_and_removes_repeats() {
    let ids = vec!["e2".to_string(), "e1".into(), "e2".into(), "e10".into()];
    assert_eq!(
        sorted_distinct_texts(&ids),
        vec!["e1".to_string(), "e10".into(), "e2".into()]
    );
    assert!(sorted_distinct_texts(&Vec::new()).is_empty());
}

// ---------------------------------------------------------------------------
// Identifiers.

#[test]
fn blank_identifiers_are_rejected() {
    assert_eq!(
        SourceAccountRef::new(MessageSource::NapCat, "  "),
        Err(IdentityError::EmptyAccountId)
    );
    assert!(SourceEventId::new(" ").is_err());
    assert!(MemoryFactId::new("\t").is_err());
    assert!(MemoryCandidateId::new("").is_err());
    assert!(PolicyFamilyId::new(" ").is_err());
}

#[test]
fn policy_and_candidate_ids_hold_at_most_36_bytes() {
    let exact = "a".repeat(36);
    let long = "a".repeat(37);
    assert!(PolicyFamilyId::new(&exact).is_ok());
    assert!(matches!(
        PolicyFamilyId::new(&long),
        Err(NotificationPolicyError::InvalidIdentity(_))
    ));
    assert!(MemoryCandidateId::new(&exact).is_ok());
    assert!(matches!(
        MemoryCandidateId::new(&long),
        Err(MemoryCandidateError::InvalidData(_))
    ));
    // Twelve three-byte characters take 36 bytes; thirteen take 39.
    assert!(PolicyFamilyId::new(&"长".repeat(12)).is_ok());
    assert!(PolicyFamilyId::new(&"长".repeat(13)).is_err());
}

fn is_uuid_text(s: &str) -> bool {
    uuid::Uuid::parse_str(s).is_ok() && s.len() == 36 && s.chars().filter(|c| *c == '-').count() == 4
}

#[test]
fn generated_ids_are_distinct_hyphenated_uuids() {
    let a = MemoryFactId::generate();
    let b = MemoryFactId::generate();
    assert!(is_uuid_text(a.as_str()));
    assert!(is_uuid_text(b.as_str()));
    assert_ne!(a.as_str(), b.as_str());
    assert!(is_uuid_text(MemoryCandidateId::generate().as_str()));
    assert!(is_uuid_text(PolicyFamilyId::generate().as_str()));
}

#[test]
fn candidate_version_starts_at_one() {
    assert!(matches!(
        MemoryCandidateVersion::new(0),
        Err(MemoryCandidateError::InvalidData(_))
    ));
    assert_eq!(MemoryCandidateVersion::new(7).unwrap().as_u64(), 7);
}

#[test]
fn candidate_ref_needs_kind_and_id() {
    assert_eq!(
        NotificationCandidateRef::new("agenda", " ", 1, account()),
        Err(NotificationPolicyError::InvalidCandidateRef)
    );
    let reference = NotificationCandidateRef::new("agenda", "a-1", 3, account()).unwrap();
    assert_eq!(reference.source_version, 3);
    assert_eq!(reference.source_id, "a-1");
}

#[test]
fn known_actor_id_must_not_be_blank() {
    let result = NotificationMatchKeyV1::new(
        account(),
        MatchField::Absent,
        MatchField::Known("  ".into()),
        MatchField::Absent,
        MatchField::Absent,
        MatchField::Absent,
        MatchField::Absent,
    );
    assert!(matches!(
        result,
        Err(NotificationPolicyError::InvalidMatchKey(_))
    ));
}

#[test]
fn fact_error_becomes_invalid_candidate_data() {
    let error = candidate_error_from_fact(MemoryFactError::Invalid("x".into()));
    assert_eq!(
        error,
        MemoryCandidateError::InvalidData("invalid memory fact: x".into())
    );
}

#[test]
fn delete_reason_must_be_short_and_not_blank() {
    let ok = MemoryDeleteInput {
        fact_id: MemoryFactId::new("f").unwrap(),
        command_source_event_id: SourceEventId::new("e").unwrap(),
        reason: "owner asked".into(),
    };
    assert_eq!(validate_memory_delete(&ok), Ok(()));
    let blank = MemoryDeleteInput {
        reason: " ".into(),
        ..ok
    };
    assert!(validate_memory_delete(&blank).is_err());
}

// ---------------------------------------------------------------------------
// Fingerprint.

fn serde_fingerprint(sources: &[&str], subject: &str) -> String {
    let mut account_obj = serde_json::Map::new();
    account_obj.insert("channel".into(), serde_json::Value::from("napcat"));
    account_obj.insert("account_id".into(), serde_json::Value::from("account-1"));
    let mut person_obj = serde_json::Map::new();
    person_obj.insert("account".into(), serde_json::Value::Object(account_obj));
    person_obj.insert("actor_id".into(), serde_json::Value::from("alice"));
    let mut data = serde_json::Map::new();
    data.insert("person".into(), serde_json::Value::Object(person_obj));
    data.insert("relationship".into(), serde_json::Value::from("客户"));
    data.insert("responsibilities".into(), serde_json::Value::Array(vec![serde_json::Value::from("报价")]));
    data.insert("communication_preferences".into(), serde_json::Value::Array(Vec::new()));
    let mut payload = serde_json::Map::new();
    payload.insert("kind".into(), serde_json::Value::from("person"));
    payload.insert("data".into(), serde_json::Value::Object(data));
    let mut canonical = serde_json::Map::new();
    canonical.insert(
        "account".into(),
        serde_json::Value::Array(vec![serde_json::Value::from("napcat"), serde_json::Value::from("account-1")]),
    );
    canonical.insert("kind".into(), serde_json::Value::from("person"));
    canonical.insert("subject".into(), serde_json::Value::from(subject));
    canonical.insert("payload".into(), serde_json::Value::Object(payload));
    canonical.insert(
        "sources".into(),
        serde_json::Value::Array(sources.iter().map(|s| serde_json::Value::from(*s)).collect()),
    );
    canonical.insert("extractor_version".into(), serde_json::Value::from("v1"));
    let text = serde_json::Value::Object(canonical).to_string();
    uuid::Uuid::new_v5(&uuid::Uuid::NAMESPACE_OID, text.as_bytes()).to_string()
}

#[test]
fn fingerprint_is_uuid_v5_of_canonical_json() {
    let fingerprint = candidate_fingerprint(
        &account(),
        &person_payload(),
        "  person:alice ",
        &[source("e2"), source("e1"), source("e2")],
        "v1",
    );
    assert_eq!(fingerprint, serde_fingerprint(&["e1", "e2"], "person:alice"));
    assert!(is_uuid_text(&fingerprint));
    assert_ne!(fingerprint, "person:alice");
}

#[test]
fn fingerprint_ignores_source_order_and_repeats() {
    let a = candidate_fingerprint(
        &account(),
        &person_payload(),
        "person:alice",
        &[source("e1"), source("e2")],
        "v1",
    );
    let b = candidate_fingerprint(
        &account(),
        &person_payload(),
        "person:alice",
        &[source("e2"), source("e1"), source("e1")],
        "v1",
    );
    assert_eq!(a, b);
    let c = candidate_fingerprint(
        &account(),
        &person_payload(),
        "person:alice",
        &[source("e1")],
        "v1",
    );
    assert_ne!(a, c);
    let d = candidate_fingerprint(
        &account(),
        &person_payload(),
        "person:alice",
        &[source("e1"), source("e2")],
        "v2",
    );
    assert_ne!(a, d);
}

// ---------------------------------------------------------------------------
// Stored codes.

#[test]
fn stored_codes_read_back_to_their_values() {
    for status in [
        MemoryFactStatus::Proposed,
        MemoryFactStatus::Confirmed,
        MemoryFactStatus::Superseded,
        MemoryFactStatus::Expired,
        MemoryFactStatus::Deleted,
    ] {
        assert_eq!(parse_fact_status(status.as_str()), Ok(status));
    }
    for source in [MessageSource::NapCat, MessageSource::QqOpenPlatform] {
        assert_eq!(parse_message_source(source.as_str()), Ok(source));
    }
    for kind in [
        ConversationKind::Private,
        ConversationKind::Group,
        ConversationKind::OwnerControl,
    ] {
        assert_eq!(parse_conversation_kind(kind.as_str()), Ok(kind));
    }
    for kind in [
        NotificationPolicyKind::AccountDefault,
        NotificationPolicyKind::Conversation,
        NotificationPolicyKind::Contact,
        NotificationPolicyKind::Category,
        NotificationPolicyKind::QuietHours,
        NotificationPolicyKind::SimilarNotification,
        NotificationPolicyKind::AutomaticReplyDenied,
    ] {
        assert_eq!(parse_policy_kind(policy_kind_name(kind)), Ok(kind));
    }
}

#[test]
fn stored_codes_have_exact_spellings() {
    assert_eq!(parse_content_trust_level("local_only"), Ok(ContentTrustLevel::LocalOnly));
    assert_eq!(
        parse_content_trust_level("never_long_term"),
        Ok(ContentTrustLevel::NeverLongTerm)
    );
    assert_eq!(parse_actor_kind("official_bot"), Ok(VerifiedActorKind::OfficialBot));
    assert_eq!(
        parse_message_role("external_observation"),
        Ok(MessageRole::ExternalObservation)
    );
    assert_eq!(parse_thread_status("reopened"), Ok(ThreadStatus::Reopened));
    assert_eq!(
        parse_mutation_status("unknown_commit"),
        Ok(ThreadMutationProposalStatus::UnknownCommit)
    );
    assert_eq!(policy_kind_name(NotificationPolicyKind::QuietHours), "quiet_hours");
    assert_eq!(notification_category_name(NotificationCategory::FollowUp), "follow_up");
    assert_eq!(revision_kind_name(RevisionKind::Tombstone), "tombstone");
    assert_eq!(outcome_name(NotificationOutcome::ScheduleTimeAmbiguous), "schedule_time_ambiguous");
    assert_eq!(decision_reason_name(DecisionReason::QuietHours), "quiet_hours");
}

#[test]
fn unknown_stored_codes_are_invalid_data() {
    assert!(matches!(
        parse_content_trust_level("Normal"),
        Err(StoredValueError::InvalidData(_))
    ));
    assert!(matches!(parse_fact_status(""), Err(StoredValueError::InvalidData(_))));
    assert!(matches!(
        parse_message_source("qq"),
        Err(StoredValueError::InvalidData(_))
    ));
    assert!(matches!(
        parse_conversation_kind("channel"),
        Err(StoredValueError::InvalidData(_))
    ));
    assert!(matches!(parse_actor_kind("bot"), Err(StoredValueError::InvalidData(_))));
    assert!(matches!(
        parse_message_role("owner"),
        Err(StoredValueError::InvalidData(_))
    ));
    assert!(matches!(
        parse_thread_status("done"),
        Err(StoredValueError::InvalidData(_))
    ));
    assert!(matches!(
        parse_mutation_status("pending"),
        Err(StoredValueError::InvalidData(_))
    ));
    assert_eq!(parse_policy_kind("default"), Err(PolicyStoreError::Database));
}

#[test]
fn stored_account_needs_known_channel_and_account_id() {
    let stored = source_account_from_db("qq_open_platform", "bot-1").unwrap();
    assert_eq!(stored.channel, MessageSource::QqOpenPlatform);
    assert_eq!(stored.account_id, "bot-1");
    assert!(source_account_from_db("wechat", "bot-1").is_err());
    assert!(source_account_from_db("napcat", " ").is_err());
}

#[test]
fn excerpts_are_withheld_for_restricted_content() {
    assert_eq!(filter_excerpt_by_trust("hi".into(), ContentTrustLevel::Normal), "hi");
    assert_eq!(filter_excerpt_by_trust("hi".into(), ContentTrustLevel::LocalOnly), "hi");
    assert_eq!(filter_excerpt_by_trust("hi".into(), ContentTrustLevel::EnvelopeOnly), "");
    assert_eq!(filter_excerpt_by_trust("hi".into(), ContentTrustLevel::NeverLongTerm), "");
}

#[test]
fn stored_source_lists_skip_empty_pieces_and_reject_blank_ones() {
    let ids = parse_source_event_id_list(Some("a,,b,".into())).unwrap();
    let texts: Vec<&str> = ids.iter().map(|id| id.as_str()).collect();
    assert_eq!(texts, vec!["a", "b"]);
    assert!(parse_source_event_id_list(None).unwrap().is_empty());
    assert!(parse_source_event_id_list(Some(String::new())).unwrap().is_empty());
    assert!(matches!(
        parse_source_event_id_list(Some("a, ,b".into())),
        Err(StoredValueError::InvalidData(_))
    ));
}

#[test]
fn negative_counts_are_invalid() {
    assert_eq!(checked_count(0), Ok(0));
    assert_eq!(checked_count(42), Ok(42));
    assert!(matches!(checked_count(-1), Err(StoredValueError::InvalidData(_))));
}

// ---------------------------------------------------------------------------
// Policy store rules.

#[test]
fn feedback_scopes_follow_the_single_known_dimension() {
    let conversation = ConversationRef::new(ConversationKind::Group, "g-1").unwrap();
    let scope = feedback_policy_scope(&match_key(
        MatchField::Known(conversation),
        MatchField::Absent,
        MatchField::Absent,
    ));
    assert_eq!(
        scope,
        Ok(("conversation:group:g-1".to_string(), NotificationPolicyKind::Conversation))
    );
    let scope = feedback_policy_scope(&match_key(
        MatchField::Absent,
        MatchField::Known("bob".into()),
        MatchField::Absent,
    ));
    assert_eq!(scope, Ok(("contact:bob".to_string(), NotificationPolicyKind::Contact)));
    let scope = feedback_policy_scope(&match_key(
        MatchField::Absent,
        MatchField::Absent,
        MatchField::Known(NotificationCategory::Agenda),
    ));
    assert_eq!(scope, Ok(("category:agenda".to_string(), NotificationPolicyKind::Category)));
    let scope =
        feedback_policy_scope(&match_key(MatchField::Absent, MatchField::Absent, MatchField::Absent));
    assert_eq!(
        scope,
        Ok(("account:default".to_string(), NotificationPolicyKind::AccountDefault))
    );
    let scope = feedback_policy_scope(&match_key(
        MatchField::Absent,
        MatchField::Known("bob".into()),
        MatchField::Known(NotificationCategory::Agenda),
    ));
    assert_eq!(scope, Err(PolicyStoreError::Conflict));
    let scope =
        feedback_policy_scope(&match_key(MatchField::Unknown, MatchField::Absent, MatchField::Absent));
    assert_eq!(scope, Err(PolicyStoreError::Conflict));
}

#[test]
fn automatic_reply_scope_is_contact_scoped() {
    assert_eq!(automatic_reply_scope_key("alice"), "contact:alice");
}

#[test]
fn write_requests_need_bounded_scope_and_summary() {
    assert_eq!(validate_write_request("contact:bob", "owner feedback"), Ok(()));
    assert_eq!(validate_write_request(" ", "owner feedback"), Err(PolicyStoreError::Conflict));
    assert_eq!(validate_write_request("contact:bob", ""), Err(PolicyStoreError::Conflict));
    assert_eq!(
        validate_write_request(&"k".repeat(513), "summary"),
        Err(PolicyStoreError::Conflict)
    );
    assert_eq!(validate_write_request(&"k".repeat(512), "summary"), Ok(()));
    assert_eq!(
        validate_write_request("contact:bob", &"s".repeat(1025)),
        Err(PolicyStoreError::Conflict)
    );
}

#[test]
fn decisions_are_attributed_to_stored_policy_kinds() {
    assert_eq!(
        winning_policy_kind(DecisionReason::ContactPolicy),
        Some(NotificationPolicyKind::Contact)
    );
    assert_eq!(
        winning_policy_kind(DecisionReason::AccountDefaultPolicy),
        Some(NotificationPolicyKind::AccountDefault)
    );
    assert_eq!(winning_policy_kind(DecisionReason::QuietHours), None);
    assert_eq!(winning_policy_kind(DecisionReason::CandidateExpired), None);
}

#[test]
fn outcomes_map_to_candidate_statuses() {
    assert_eq!(candidate_status_name(NotificationOutcome::Remind), "reminded");
    assert_eq!(candidate_status_name(NotificationOutcome::Delay), "delayed");
    assert_eq!(candidate_status_name(NotificationOutcome::Suppress), "suppressed");
    assert_eq!(candidate_status_name(NotificationOutcome::DeliveryWindowExpired), "expired");
    assert_eq!(
        candidate_status_name(NotificationOutcome::ScheduleTimeAmbiguous),
        "failed_terminal"
    );
}

fn family_row(id: &str, kind: &str, current: Option<&str>) -> FamilyRow {
    FamilyRow {
        policy_family_id: id.into(),
        canonical_scope_key: "contact:bob".into(),
        policy_kind: kind.into(),
        current_revision_id: current.map(|s| s.to_string()),
        generation: 4,
    }
}

#[test]
fn stored_families_are_checked_when_read() {
    let family = to_domain_family(family_row("fam-1", "contact", Some("rev-1")), account()).unwrap();
    assert_eq!(family.policy_family_id.as_str(), "fam-1");
    assert_eq!(family.current_revision_id.as_str(), "rev-1");
    assert_eq!(family.policy_kind, NotificationPolicyKind::Contact);
    assert_eq!(family.generation, 4);
    assert_eq!(
        to_domain_family(family_row(" ", "contact", Some("rev-1")), account()),
        Err(PolicyStoreError::Conflict)
    );
    assert_eq!(
        to_domain_family(family_row("fam-1", "nope", Some("rev-1")), account()),
        Err(PolicyStoreError::Database)
    );
    assert_eq!(
        to_domain_family(family_row("fam-1", "contact", None), account()),
        Err(PolicyStoreError::Conflict)
    );
}

// ---------------------------------------------------------------------------
// Evaluator.

#[test]
fn stale_candidate_expires_whatever_the_rules() {
    let mut input = input(SHANGHAI_NIGHT);
    input.candidate_is_current = false;
    input.matching_rule = Some(rule(NotificationOutcome::Remind, true));
    input.quiet_hours = Some(shanghai_night());
    assert_eq!(
        NotificationPolicyEvaluator.evaluate(&input),
        EvaluationPlan {
            outcome: NotificationOutcome::CandidateExpired,
            reason: DecisionReason::CandidateExpired,
            next_allowed_at_unix_secs: None,
        }
    );
}

#[test]
fn first_present_rule_decides() {
    let mut input = input(SHANGHAI_NOON);
    assert_eq!(
        NotificationPolicyEvaluator.evaluate(&input).reason,
        DecisionReason::AccountDefaultPolicy
    );
    assert_eq!(
        NotificationPolicyEvaluator.evaluate(&input).outcome,
        NotificationOutcome::Remind
    );
    input.account_default_rule = Some(rule(NotificationOutcome::Delay, false));
    input.category_rule = Some(rule(NotificationOutcome::Suppress, false));
    assert_eq!(
        NotificationPolicyEvaluator.evaluate(&input),
        EvaluationPlan {
            outcome: NotificationOutcome::Suppress,
            reason: DecisionReason::CategoryPolicy,
            next_allowed_at_unix_secs: None,
        }
    );
    input.contact_rule = Some(rule(NotificationOutcome::Delay, false));
    assert_eq!(
        NotificationPolicyEvaluator.evaluate(&input).reason,
        DecisionReason::ContactPolicy
    );
    input.matching_rule = Some(rule(NotificationOutcome::Remind, false));
    assert_eq!(
        NotificationPolicyEvaluator.evaluate(&input).reason,
        DecisionReason::ConversationPolicy
    );
}

#[test]
fn a_delay_carries_its_next_evaluation_time_from_the_clock() {
    let mut input = input(SHANGHAI_NOON);
    input.contact_rule = Some(rule(NotificationOutcome::Delay, false));
    let plan = NotificationPolicyEvaluator.evaluate(&input);
    assert_eq!(
        plan,
        EvaluationPlan {
            outcome: NotificationOutcome::Delay,
            reason: DecisionReason::ContactPolicy,
            next_allowed_at_unix_secs: Some(SHANGHAI_NOON + 3600),
        }
    );
    assert_eq!(DELAY_REEVALUATION_SECS, 3600);
    let completion = decision_completion(plan).unwrap();
    assert_eq!(completion.request_status, "pending");
    assert_eq!(completion.next_allowed_at_unix_secs, Some(SHANGHAI_NOON + 3600));

    input.now_unix_secs = i64::MAX - 10;
    assert_eq!(
        NotificationPolicyEvaluator.evaluate(&input).next_allowed_at_unix_secs,
        Some(i64::MAX)
    );
    input.now_unix_secs = SHANGHAI_NOON;
    input.contact_rule = Some(rule(NotificationOutcome::Suppress, false));
    assert_eq!(
        NotificationPolicyEvaluator.evaluate(&input).next_allowed_at_unix_secs,
        None
    );
}

#[test]
fn normal_conversation_mode_does_not_silence() {
    let mut input = input(SHANGHAI_NOON);
    input.conversation_rule = Some(ConversationNotificationRule {
        mode: ConversationMode::Normal,
        allow_bypass: false,
    });
    assert_eq!(
        NotificationPolicyEvaluator.evaluate(&input).outcome,
        NotificationOutcome::Remind
    );
}

#[test]
fn quiet_hours_outside_the_period_let_the_rule_decide() {
    let mut input = input(SHANGHAI_NOON);
    input.quiet_hours = Some(shanghai_night());
    input.contact_rule = Some(rule(NotificationOutcome::Delay, false));
    assert_eq!(
        NotificationPolicyEvaluator.evaluate(&input).reason,
        DecisionReason::ContactPolicy
    );
}

#[test]
fn quiet_hours_apply_only_on_effective_dates() {
    let mut input = input(SHANGHAI_NIGHT);
    let mut quiet = shanghai_night();
    quiet.effective_from_local_date = Some("2024-02-01".into());
    input.quiet_hours = Some(quiet);
    assert_eq!(
        NotificationPolicyEvaluator.evaluate(&input).reason,
        DecisionReason::AccountDefaultPolicy
    );
    let mut quiet = shanghai_night();
    quiet.effective_until_local_date = Some("2024-01-02".into());
    input.quiet_hours = Some(quiet);
    assert_eq!(
        NotificationPolicyEvaluator.evaluate(&input).reason,
        DecisionReason::QuietHours
    );
}

#[test]
fn unknown_zone_fails_the_evaluation() {
    let mut input = input(SHANGHAI_NIGHT);
    let mut quiet = shanghai_night();
    quiet.timezone_name = "Mars/Olympus".into();
    input.quiet_hours = Some(quiet);
    let plan = NotificationPolicyEvaluator.evaluate(&input);
    assert_eq!(plan.outcome, NotificationOutcome::EvaluationFailedTerminal);
    assert_eq!(plan.reason, DecisionReason::InvalidQuietHours);
}

#[test]
fn evaluation_on_a_dst_gap_day_is_ambiguous() {
    // 2026-03-08 02:45 local would not exist; at 2026-03-08 12:00 EDT the
    // boundary 02:30 does not exist on that date.
    let mut input = input(1_772_985_600);
    input.quiet_hours = Some(QuietHoursRule {
        timezone_name: "America/New_York".into(),
        start_local_time: "02:30".into(),
        end_local_time: "13:00".into(),
        effective_from_local_date: None,
        effective_until_local_date: None,
        allow_bypass: false,
    });
    let plan = NotificationPolicyEvaluator.evaluate(&input);
    assert_eq!(plan.outcome, NotificationOutcome::ScheduleTimeAmbiguous);
    assert_eq!(plan.reason, DecisionReason::ScheduleTimeAmbiguous);
}

#[test]
fn delay_plan_carries_next_evaluation_time() {
    let plan = EvaluationPlan {
        outcome: NotificationOutcome::Delay,
        reason: DecisionReason::ContactPolicy,
        next_allowed_at_unix_secs: None,
    }
    .with_next_allowed_at_unix_secs(99);
    assert_eq!(plan.next_allowed_at_unix_secs, Some(99));
    assert_eq!(plan.outcome, NotificationOutcome::Delay);
}

#[test]
fn quiet_hours_check_accepts_regular_rules_and_rejects_malformed_ones() {
    assert_eq!(validate_quiet_hours(&shanghai_night(), SHANGHAI_NIGHT), Ok(()));
    let mut bad = shanghai_night();
    bad.end_local_time = "7am".into();
    assert!(matches!(
        validate_quiet_hours(&bad, SHANGHAI_NIGHT),
        Err(NotificationPolicyError::InvalidQuietHours(_))
    ));
    let mut bad = shanghai_night();
    bad.timezone_name = "Nowhere".into();
    assert!(matches!(
        validate_quiet_hours(&bad, SHANGHAI_NIGHT),
        Err(NotificationPolicyError::InvalidQuietHours(_))
    ));
    let mut bad = shanghai_night();
    bad.effective_from_local_date = Some("2024-13-01".into());
    assert!(matches!(
        validate_quiet_hours(&bad, SHANGHAI_NIGHT),
        Err(NotificationPolicyError::InvalidQuietHours(_))
    ));
    assert!(matches!(
        validate_quiet_hours(&shanghai_night(), i64::MAX),
        Err(NotificationPolicyError::InvalidQuietHours(_))
    ));
}

#[test]
fn quiet_hours_check_skips_days_out_of_effect() {
    // The gap day lies before the rule takes effect, so it is not checked.
    let rule = QuietHoursRule {
        timezone_name: "America/New_York".into(),
        start_local_time: "02:30".into(),
        end_local_time: "03:30".into(),
        effective_from_local_date: Some("2026-03-09".into()),
        effective_until_local_date: Some("2026-03-20".into()),
        allow_bypass: false,
    };
    assert_eq!(validate_quiet_hours(&rule, 1_772_928_000), Ok(()));
}

#[test]
fn fingerprint_ignores_subject_padding() {
    let padded = candidate_fingerprint(
        &account(),
        &person_payload(),
        " person:alice\t",
        &[source("e1")],
        "v1",
    );
    let plain = candidate_fingerprint(&account(), &person_payload(), "person:alice", &[source("e1")], "v1");
    assert_eq!(padded, plain);
}

#[test]
fn blank_means_unicode_white_space_for_every_character() {
    let mut buf = [0u8; 4];
    for c in (0u32..=0x10FFFF).filter_map(char::from_u32) {
        let s: &str = c.encode_utf8(&mut buf);
        assert_eq!(text_is_blank(s), c.is_whitespace(), "char {:#x}", c as u32);
    }
}
