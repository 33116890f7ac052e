use personal_secretary::{
    validate_quiet_hours, ConversationKind, ConversationMode, ConversationNotificationRule,
    ConversationRef, DecisionReason, EvaluationInput, EventKind, MatchField, MessageSource,
    NotificationCategory, NotificationMatchKeyV1, NotificationOutcome, NotificationPolicyError,
    NotificationPolicyEvaluator, NotificationPolicyRevision, NotificationPolicyRule,
    PolicyFamilyId, PolicyRevisionId, QuietHoursRule, RevisionKind, SourceAccountRef,
    StructuredImportance,
};

fn account() -> SourceAccountRef {
    SourceAccountRef::new(MessageSource::NapCat, "account-1").unwrap()
}

fn key(conversation: MatchField<ConversationRef>) -> NotificationMatchKeyV1 {
    NotificationMatchKeyV1::new(
        account(),
        conversation,
        MatchField::Known("actor-1".into()),
        MatchField::Known(NotificationCategory::Agenda),
        MatchField::Known(true),
        MatchField::Known(StructuredImportance::Normal),
        MatchField::Known(EventKind::AgendaDue),
    )
    .unwrap()
}

#[test]
fn unknown_match_field_never_matches_absent_field() {
    assert!(!MatchField::<bool>::Unknown.matches(&MatchField::Absent));
}

#[test]
fn feedback_with_unknown_required_metadata_cannot_promote_rule() {
    let key = key(MatchField::Unknown);
    assert_eq!(
        key.eligibility_for_long_term_rule(),
        Err(NotificationPolicyError::UnknownMatchMetadata)
    );
}

#[test]
fn known_conversation_can_be_used_for_long_term_rule() {
    let conversation = ConversationRef::new(ConversationKind::Group, "group-1").unwrap();
    assert_eq!(
        key(MatchField::Known(conversation)).eligibility_for_long_term_rule(),
        Ok(())
    );
}

#[test]
fn revision_requires_rule_or_tombstone_shape() {
    let revision = NotificationPolicyRevision {
        policy_revision_id: PolicyRevisionId::generate(),
        policy_family_id: PolicyFamilyId::generate(),
        revision_number: 1,
        supersedes_revision_id: None,
        revision_kind: RevisionKind::Rule,
        rule: None,
    };
    assert_eq!(
        revision.validate(),
        Err(NotificationPolicyError::InvalidRevisionShape)
    );
}

fn rule(outcome: NotificationOutcome, bypass_quiet: bool) -> NotificationPolicyRule {
    NotificationPolicyRule {
        match_key: key(MatchField::Absent),
        outcome,
        bypass_quiet,
        conversation: None,
        quiet_hours: None,
    }
}

fn input(now_unix_secs: i64) -> EvaluationInput {
    EvaluationInput {
        candidate_is_current: true,
        matching_rule: None,
        conversation_rule: None,
        contact_rule: None,
        category_rule: None,
        account_default_rule: None,
        quiet_hours: None,
        now_unix_secs,
    }
}

#[test]
fn fully_silent_conversation_requires_two_explicit_bypass_grants() {
    let mut input = input(0);
    input.conversation_rule = Some(ConversationNotificationRule {
        mode: ConversationMode::FullySilent,
        allow_bypass: false,
    });
    input.matching_rule = Some(rule(NotificationOutcome::Remind, true));
    let decision = NotificationPolicyEvaluator.evaluate(&input);
    assert_eq!(decision.outcome, NotificationOutcome::Suppress);
    assert_eq!(decision.reason, DecisionReason::ConversationFullySilent);

    input.conversation_rule = Some(ConversationNotificationRule {
        mode: ConversationMode::FullySilent,
        allow_bypass: true,
    });
    assert_eq!(
        NotificationPolicyEvaluator.evaluate(&input).outcome,
        NotificationOutcome::Remind
    );
}

#[test]
fn quiet_hours_bypass_requires_rule_and_quiet_hours_grants() {
    let mut input = input(1_704_125_700);
    input.quiet_hours = Some(QuietHoursRule {
        timezone_name: "Asia/Shanghai".into(),
        start_local_time: "23:00".into(),
        end_local_time: "07:00".into(),
        effective_from_local_date: None,
        effective_until_local_date: None,
        allow_bypass: true,
    });
    input.contact_rule = Some(rule(NotificationOutcome::Remind, false));
    assert_eq!(
        NotificationPolicyEvaluator.evaluate(&input).reason,
        DecisionReason::QuietHours
    );

    input.contact_rule = Some(rule(NotificationOutcome::Remind, true));
    assert_eq!(
        NotificationPolicyEvaluator.evaluate(&input).outcome,
        NotificationOutcome::Remind
    );

    input.quiet_hours.as_mut().unwrap().allow_bypass = false;
    assert_eq!(
        NotificationPolicyEvaluator.evaluate(&input).reason,
        DecisionReason::QuietHours
    );
}

#[test]
fn quiet_hours_cross_midnight_are_suppressed() {
    let mut input = input(1_704_125_700);
    input.quiet_hours = Some(QuietHoursRule {
        timezone_name: "Asia/Shanghai".into(),
        start_local_time: "23:00".into(),
        end_local_time: "07:00".into(),
        effective_from_local_date: None,
        effective_until_local_date: None,
        allow_bypass: false,
    });
    assert_eq!(
        NotificationPolicyEvaluator.evaluate(&input).reason,
        DecisionReason::QuietHours
    );
}

#[test]
fn malformed_quiet_hours_are_not_classified_as_schedule_ambiguity() {
    let mut input = input(1_704_125_700);
    input.quiet_hours = Some(QuietHoursRule {
        timezone_name: "Asia/Shanghai".into(),
        start_local_time: "25:00".into(),
        end_local_time: "07:00".into(),
        effective_from_local_date: None,
        effective_until_local_date: None,
        allow_bypass: false,
    });
    let decision = NotificationPolicyEvaluator.evaluate(&input);
    assert_eq!(
        decision.outcome,
        NotificationOutcome::EvaluationFailedTerminal
    );
    assert_eq!(decision.reason, DecisionReason::InvalidQuietHours);
}

#[test]
fn dst_nonexistent_and_repeated_boundaries_are_rejected() {
    let nonexistent = QuietHoursRule {
        timezone_name: "America/New_York".into(),
        start_local_time: "02:30".into(),
        end_local_time: "03:30".into(),
        effective_from_local_date: Some("2026-03-08".into()),
        effective_until_local_date: Some("2026-03-08".into()),
        allow_bypass: false,
    };
    assert_eq!(
        validate_quiet_hours(&nonexistent, 1_772_928_000),
        Err(NotificationPolicyError::AmbiguousScheduleTime)
    );

    let repeated = QuietHoursRule {
        timezone_name: "America/New_York".into(),
        start_local_time: "01:30".into(),
        end_local_time: "02:30".into(),
        effective_from_local_date: Some("2026-11-01".into()),
        effective_until_local_date: Some("2026-11-01".into()),
        allow_bypass: false,
    };
    assert_eq!(
        validate_quiet_hours(&repeated, 1_793_491_200),
        Err(NotificationPolicyError::AmbiguousScheduleTime)
    );
}
