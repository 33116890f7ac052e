use sha2::{Digest, Sha256};

use personal_secretary::{
    stable_id,
    claim_lease_expiry, decision_artifact, policy_family_artifact, reminder_payload_json,
    DecisionArtifactRow, PolicyArtifactRow,
    feedback_id, notification_occurrence_id,
    append_fact_replay, facts_equal,
    agenda_detail_json, agenda_item_id_of_result_ref, agenda_result_ref, check_feedback_request,
    check_limit, check_memory_source, check_superseded_fact, conversation_mode_change,
    decision_completion, evaluation_commit_step, evaluation_snapshot_stale, family_head_unchanged,
    map_row, EvaluationCommitStep, FamilyGenerationSnapshot, PolicyFamilyId,
    map_thread_claim_row, map_thread_decision_row, map_thread_question_row, map_thread_row,
    map_upcoming_row, memory_delete_step, memory_source_excerpt, policy_family_result_ref,
    prepare_policy_write, source_match_key, AgendaItemKind, AgendaItemStatus, AgendaRow,
    ContentTrustLevel, ConversationKind, ConversationMode, ConversationRef, DecisionCompletion,
    DecisionReason, EvaluationPlan, EvaluationRequestCommitRow, EventKind, FamilyRow,
    LockedNotificationSource, MatchField, MemoryDeleteContextRow, MemoryDeleteInput,
    MemoryDeleteStep, MemoryDeletionRow, MemoryExcerptRow, MemoryFact, MemoryFactId,
    MemoryFactStatus, MemoryPayload, MemorySourceRow, MessageSource, NotificationCandidateRef,
    NotificationCategory, NotificationMatchKeyV1, NotificationOutcome, NotificationPolicyKind,
    PersonMemory, PolicyHeadFenceRow, PolicyRevisionId, PolicyStoreError, PolicyWriteAction,
    PreviousFactRow, QuietHoursRule, SourceAccountRef, SourceEventId, StoredValueError,
    StructuredImportance, ThreadActorRef, ThreadClaimRow, ThreadDecisionRow, ThreadQuestionRow,
    ThreadSearchRow, ThreadStatus, UpcomingItemRow, MAX_ACTIVE_FACTS_LIMIT,
};

fn account() -> SourceAccountRef {
    SourceAccountRef::new(MessageSource::NapCat, "account-1").unwrap()
}

fn other_account() -> SourceAccountRef {
    SourceAccountRef::new(MessageSource::NapCat, "account-2").unwrap()
}

fn known_key() -> NotificationMatchKeyV1 {
    NotificationMatchKeyV1::new(
        account(),
        MatchField::Absent,
        MatchField::Known("bob".into()),
        MatchField::Known(NotificationCategory::Agenda),
        MatchField::Known(false),
        MatchField::Known(StructuredImportance::High),
        MatchField::Known(EventKind::AgendaDue),
    )
    .unwrap()
}

fn partly_unknown_key() -> NotificationMatchKeyV1 {
    NotificationMatchKeyV1::new(
        account(),
        MatchField::Unknown,
        MatchField::Known("bob".into()),
        MatchField::Absent,
        MatchField::Absent,
        MatchField::Absent,
        MatchField::Absent,
    )
    .unwrap()
}

// ---------------------------------------------------------------------------
// Policy writes.

#[test]
fn policy_commands_write_their_kind_and_rule() {
    let write = prepare_policy_write(PolicyWriteAction::SetImportantContact {
        canonical_scope_key: "contact:bob".into(),
        match_key: known_key(),
        outcome: NotificationOutcome::Remind,
        bypass_quiet: true,
    })
    .unwrap();
    assert_eq!(write.policy_kind, NotificationPolicyKind::Contact);
    assert_eq!(write.canonical_scope_key, "contact:bob");
    assert_eq!(write.audit_summary, "owner set important notification contact");
    assert_eq!(write.rule.outcome, NotificationOutcome::Remind);
    assert!(write.rule.bypass_quiet);
    assert_eq!(write.rule.conversation, None);
    assert_eq!(write.rule.match_key, known_key());

    let write = prepare_policy_write(PolicyWriteAction::SetConversationNotificationMode {
        canonical_scope_key: "conversation:group:g-1".into(),
        match_key: known_key(),
        outcome: NotificationOutcome::Suppress,
        bypass_quiet: false,
        fully_silent: true,
        allow_bypass: true,
    })
    .unwrap();
    assert_eq!(write.policy_kind, NotificationPolicyKind::Conversation);
    let conversation = write.rule.conversation.unwrap();
    assert_eq!(conversation.mode, ConversationMode::FullySilent);
    assert!(conversation.allow_bypass);
}

#[test]
fn quiet_hours_and_reply_denials_suppress_without_bypass() {
    let quiet = QuietHoursRule {
        timezone_name: "Asia/Shanghai".into(),
        start_local_time: "23:00".into(),
        end_local_time: "07:00".into(),
        effective_from_local_date: None,
        effective_until_local_date: None,
        allow_bypass: true,
    };
    let write = prepare_policy_write(PolicyWriteAction::SetQuietHours {
        canonical_scope_key: "account:quiet_hours".into(),
        match_key: known_key(),
        quiet_hours: quiet,
    })
    .unwrap();
    assert_eq!(write.policy_kind, NotificationPolicyKind::QuietHours);
    assert_eq!(write.rule.outcome, NotificationOutcome::Suppress);
    assert!(!write.rule.bypass_quiet);
    assert_eq!(write.rule.quiet_hours.unwrap().start_local_time, "23:00");
    assert_eq!(write.audit_summary, "owner set notification quiet hours");

    let write = prepare_policy_write(PolicyWriteAction::SetAutomaticReplyDeniedForContact {
        canonical_scope_key: "contact:bob".into(),
        match_key: known_key(),
    })
    .unwrap();
    assert_eq!(write.policy_kind, NotificationPolicyKind::AutomaticReplyDenied);
    assert_eq!(write.rule.outcome, NotificationOutcome::Suppress);
    assert!(!write.rule.bypass_quiet);
}

#[test]
fn policy_writes_need_known_metadata_and_a_bounded_scope() {
    assert!(matches!(
        prepare_policy_write(PolicyWriteAction::CreateSimilarNotificationRule {
            canonical_scope_key: "similar:1".into(),
            match_key: partly_unknown_key(),
            outcome: NotificationOutcome::Suppress,
            bypass_quiet: false,
        }),
        Err(PolicyStoreError::Conflict)
    ));
    assert!(matches!(
        prepare_policy_write(PolicyWriteAction::SetNotificationCategoryImportance {
            canonical_scope_key: "  ".into(),
            match_key: known_key(),
            outcome: NotificationOutcome::Remind,
            bypass_quiet: false,
        }),
        Err(PolicyStoreError::Conflict)
    ));
    assert!(matches!(
        prepare_policy_write(PolicyWriteAction::SetAccountDefaultNotificationMode {
            canonical_scope_key: "k".repeat(513),
            match_key: known_key(),
            outcome: NotificationOutcome::Remind,
            bypass_quiet: false,
        }),
        Err(PolicyStoreError::Conflict)
    ));
    assert!(prepare_policy_write(PolicyWriteAction::SetAccountDefaultNotificationMode {
        canonical_scope_key: "k".repeat(512),
        match_key: known_key(),
        outcome: NotificationOutcome::Remind,
        bypass_quiet: false,
    })
    .is_ok());
}

#[test]
fn feedback_must_stay_in_the_commanding_account() {
    let candidate = NotificationCandidateRef::new("agenda", "a-1", 1, account()).unwrap();
    assert_eq!(check_feedback_request(&account(), &candidate, &known_key(), true), Ok(()));
    assert_eq!(
        check_feedback_request(&other_account(), &candidate, &known_key(), false),
        Err(PolicyStoreError::Conflict)
    );
    assert_eq!(
        check_feedback_request(&account(), &candidate, &partly_unknown_key(), true),
        Err(PolicyStoreError::Conflict)
    );
    assert_eq!(
        check_feedback_request(&account(), &candidate, &partly_unknown_key(), false),
        Ok(())
    );
}

#[test]
fn family_receipt_is_the_sorted_json_object() {
    let row = FamilyRow {
        policy_family_id: "fam-1".into(),
        canonical_scope_key: "contact:\"bob\"".into(),
        policy_kind: "contact".into(),
        current_revision_id: Some("rev-2".into()),
        generation: 3,
    };
    let receipt = policy_family_result_ref(row, account(), "rule", "policy_written").unwrap();
    let mut expected = serde_json::Map::new();
    expected.insert("scope".into(), serde_json::Value::from("contact:\"bob\""));
    expected.insert("policy_family_id".into(), serde_json::Value::from("fam-1"));
    expected.insert("policy_revision_id".into(), serde_json::Value::from("rev-2"));
    expected.insert("decision_id".into(), serde_json::Value::Null);
    expected.insert("status".into(), serde_json::Value::from("rule"));
    expected.insert("priority".into(), serde_json::Value::from("contact"));
    expected.insert("typed_reason".into(), serde_json::Value::from("policy_written"));
    expected.insert("audit_reference".into(), serde_json::Value::from("generation:3"));
    assert_eq!(receipt, serde_json::Value::Object(expected).to_string());

    let missing_head = FamilyRow {
        policy_family_id: "fam-1".into(),
        canonical_scope_key: "contact:bob".into(),
        policy_kind: "contact".into(),
        current_revision_id: None,
        generation: 3,
    };
    assert_eq!(
        policy_family_result_ref(missing_head, account(), "rule", "policy_written"),
        Err(PolicyStoreError::Conflict)
    );
}

// ---------------------------------------------------------------------------
// Committing evaluations.

fn commit_row(status: &str) -> EvaluationRequestCommitRow {
    EvaluationRequestCommitRow {
        evaluation_request_id: "req-1".into(),
        notification_candidate_id: "cand-1".into(),
        account_id: 7,
        source_kind: "agenda".into(),
        source_id: "a-1".into(),
        source_version: 2,
        candidate_status: status.into(),
        policy_epoch: 9,
        previous_decision_id: None,
    }
}

#[test]
fn snapshots_go_stale_when_the_locked_request_moved_on() {
    let candidate = NotificationCandidateRef::new("agenda", "a-1", 2, account()).unwrap();
    assert!(!evaluation_snapshot_stale(&commit_row("pending"), &candidate, 9, &account()));
    assert!(!evaluation_snapshot_stale(&commit_row("delayed"), &candidate, 9, &account()));
    assert!(evaluation_snapshot_stale(&commit_row("reminded"), &candidate, 9, &account()));
    assert!(evaluation_snapshot_stale(&commit_row("pending"), &candidate, 10, &account()));
    assert!(evaluation_snapshot_stale(&commit_row("pending"), &candidate, 9, &other_account()));
    let newer = NotificationCandidateRef::new("agenda", "a-1", 3, account()).unwrap();
    assert!(evaluation_snapshot_stale(&commit_row("pending"), &newer, 9, &account()));
}

#[test]
fn family_heads_are_fenced_by_generation_and_revision() {
    let revision = PolicyRevisionId::new("rev-1").unwrap();
    let head = Some(PolicyHeadFenceRow {
        current_revision_id: "rev-1".into(),
        generation: 4,
    });
    assert!(family_head_unchanged(&head, 4, &revision));
    assert!(!family_head_unchanged(&head, 5, &revision));
    assert!(!family_head_unchanged(&head, 4, &PolicyRevisionId::new("rev-2").unwrap()));
    assert!(!family_head_unchanged(&None, 4, &revision));
}

#[test]
fn committing_an_evaluation_fences_lease_snapshot_and_heads() {
    let candidate = NotificationCandidateRef::new("agenda", "a-1", 2, account()).unwrap();
    let families = vec![FamilyGenerationSnapshot {
        policy_family_id: PolicyFamilyId::new("fam-1").unwrap(),
        current_revision_id: PolicyRevisionId::new("rev-1").unwrap(),
        generation: 4,
    }];
    let heads = || {
        vec![Some(PolicyHeadFenceRow {
            current_revision_id: "rev-1".into(),
            generation: 4,
        })]
    };
    let step = |row: Option<EvaluationRequestCommitRow>,
                current: bool,
                command: Option<u64>,
                heads: Vec<Option<PolicyHeadFenceRow>>,
                plan: EvaluationPlan| {
        evaluation_commit_step(&row, &candidate, 9, &account(), current, command, &families, &heads, plan)
    };
    let remind = plan(NotificationOutcome::Remind, None);
    assert!(matches!(
        step(None, true, Some(3), heads(), remind),
        Ok(EvaluationCommitStep::LeaseLost)
    ));
    assert!(matches!(
        step(Some(commit_row("reminded")), true, Some(3), heads(), remind),
        Ok(EvaluationCommitStep::SnapshotStale)
    ));
    assert!(matches!(
        step(Some(commit_row("pending")), false, Some(3), heads(), remind),
        Ok(EvaluationCommitStep::SnapshotStale)
    ));
    assert!(matches!(
        step(Some(commit_row("pending")), true, None, heads(), remind),
        Ok(EvaluationCommitStep::SnapshotStale)
    ));
    let moved = vec![Some(PolicyHeadFenceRow {
        current_revision_id: "rev-2".into(),
        generation: 5,
    })];
    assert!(matches!(
        step(Some(commit_row("pending")), true, Some(3), moved, remind),
        Ok(EvaluationCommitStep::SnapshotStale)
    ));
    assert!(matches!(
        step(Some(commit_row("pending")), true, Some(3), vec![None], remind),
        Ok(EvaluationCommitStep::SnapshotStale)
    ));
    match step(Some(commit_row("delayed")), true, Some(3), heads(), remind) {
        Ok(EvaluationCommitStep::Decide {
            outcome_code,
            reason_code,
            completion,
        }) => {
            assert_eq!(outcome_code, "remind");
            assert_eq!(reason_code, "contact_policy");
            assert_eq!(completion.request_status, "completed");
            assert_eq!(completion.candidate_status, "reminded");
        }
        other => panic!("unexpected {other:?}"),
    }
    match step(
        Some(commit_row("pending")),
        true,
        Some(3),
        heads(),
        plan(NotificationOutcome::Delay, Some(120)),
    ) {
        Ok(EvaluationCommitStep::Decide { completion, .. }) => {
            assert_eq!(completion.request_status, "pending");
            assert_eq!(completion.next_allowed_at_unix_secs, Some(120));
        }
        other => panic!("unexpected {other:?}"),
    }
    assert!(matches!(
        step(
            Some(commit_row("pending")),
            true,
            Some(3),
            heads(),
            plan(NotificationOutcome::Delay, None)
        ),
        Err(PolicyStoreError::Conflict)
    ));
}

fn plan(outcome: NotificationOutcome, next: Option<i64>) -> EvaluationPlan {
    EvaluationPlan {
        outcome,
        reason: DecisionReason::ContactPolicy,
        next_allowed_at_unix_secs: next,
    }
}

#[test]
fn committed_decisions_complete_request_and_candidate() {
    assert_eq!(
        decision_completion(plan(NotificationOutcome::Remind, None)),
        Ok(DecisionCompletion {
            request_status: "completed",
            candidate_status: "reminded",
            next_allowed_at_unix_secs: None,
        })
    );
    assert_eq!(
        decision_completion(plan(NotificationOutcome::Delay, Some(60))),
        Ok(DecisionCompletion {
            request_status: "pending",
            candidate_status: "delayed",
            next_allowed_at_unix_secs: Some(60),
        })
    );
    assert_eq!(
        decision_completion(plan(NotificationOutcome::Suppress, Some(60))),
        Ok(DecisionCompletion {
            request_status: "terminal",
            candidate_status: "suppressed",
            next_allowed_at_unix_secs: None,
        })
    );
    assert_eq!(
        decision_completion(plan(NotificationOutcome::Delay, None)),
        Err(PolicyStoreError::Conflict)
    );
    assert_eq!(
        decision_completion(plan(NotificationOutcome::Delay, Some(0))),
        Err(PolicyStoreError::Conflict)
    );
}

// ---------------------------------------------------------------------------
// Memory store.

fn fact(subject: &str) -> MemoryFact {
    MemoryFact {
        fact_id: MemoryFactId::new("fact-2").unwrap(),
        account: account(),
        subject_key: subject.into(),
        payload: MemoryPayload::Person(PersonMemory {
            person: ThreadActorRef {
                account: account(),
                actor_id: "alice".into(),
            },
            relationship: None,
            responsibilities: Vec::new(),
            communication_preferences: Vec::new(),
        }),
        status: MemoryFactStatus::Confirmed,
        confidence_bps: 9000,
        source_event_ids: vec![SourceEventId::new("e1").unwrap()],
        valid_until_unix_secs: None,
        supersedes_fact_id: Some(MemoryFactId::new("fact-1").unwrap()),
    }
}

#[test]
fn query_limits_are_bounded_below_and_above() {
    assert!(check_limit(1, MAX_ACTIVE_FACTS_LIMIT, "limit").is_ok());
    assert!(check_limit(200, MAX_ACTIVE_FACTS_LIMIT, "limit").is_ok());
    assert!(matches!(
        check_limit(0, MAX_ACTIVE_FACTS_LIMIT, "limit"),
        Err(StoredValueError::InvalidData(_))
    ));
    assert!(check_limit(201, MAX_ACTIVE_FACTS_LIMIT, "limit").is_err());
}

#[test]
fn only_permitted_sources_of_the_account_back_facts() {
    let row = |account_id: u64, memory: &str, content: &str| MemorySourceRow {
        account_id,
        memory_mode: memory.into(),
        content_mode: content.into(),
    };
    assert!(check_memory_source(&row(7, "normal", "local_only"), 7).is_ok());
    assert!(check_memory_source(&row(8, "normal", "normal"), 7).is_err());
    assert!(check_memory_source(&row(7, "envelope_only", "normal"), 7).is_err());
    assert!(check_memory_source(&row(7, "normal", "never_long_term"), 7).is_err());
}

#[test]
fn only_active_facts_of_the_same_subject_are_superseded() {
    let previous = |account_id: u64, kind: &str, subject: &str, status: &str| PreviousFactRow {
        account_id,
        fact_kind: kind.into(),
        subject_key: subject.into(),
        fact_status: status.into(),
    };
    let new_fact = fact("person:alice");
    assert!(check_superseded_fact(&previous(7, "person", "person:alice", "confirmed"), 7, &new_fact).is_ok());
    assert!(check_superseded_fact(&previous(7, "person", "person:alice", "proposed"), 7, &new_fact).is_ok());
    assert!(check_superseded_fact(&previous(7, "person", "person:alice", "deleted"), 7, &new_fact).is_err());
    assert!(check_superseded_fact(&previous(7, "project", "person:alice", "confirmed"), 7, &new_fact).is_err());
    assert!(check_superseded_fact(&previous(7, "person", "person:bob", "confirmed"), 7, &new_fact).is_err());
    assert!(check_superseded_fact(&previous(8, "person", "person:alice", "confirmed"), 7, &new_fact).is_err());
}

fn delete_input(reason: &str) -> MemoryDeleteInput {
    MemoryDeleteInput {
        fact_id: MemoryFactId::new("fact-1").unwrap(),
        command_source_event_id: SourceEventId::new("cmd-1").unwrap(),
        reason: reason.into(),
    }
}

fn delete_context(role: &str, status: &str) -> MemoryDeleteContextRow {
    MemoryDeleteContextRow {
        fact_status: status.into(),
        message_role: role.into(),
        actor_platform_id: "owner".into(),
    }
}

#[test]
fn deletions_are_owner_commands_and_replay_idempotently() {
    let input = delete_input("wrong");
    assert_eq!(
        memory_delete_step(&delete_context("owner_command", "confirmed"), &None, &input),
        Ok(MemoryDeleteStep::Delete)
    );
    let recorded = Some(MemoryDeletionRow {
        command_source_event_id: "cmd-1".into(),
        reason: "wrong".into(),
    });
    assert_eq!(
        memory_delete_step(&delete_context("owner_command", "deleted"), &recorded, &input),
        Ok(MemoryDeleteStep::Replay)
    );
    assert!(memory_delete_step(
        &delete_context("owner_command", "deleted"),
        &recorded,
        &delete_input("other reason")
    )
    .is_err());
    assert!(memory_delete_step(&delete_context("owner_observation", "confirmed"), &None, &input).is_err());
    assert!(memory_delete_step(&delete_context("owner_command", "expired"), &None, &input).is_err());
    assert!(memory_delete_step(&delete_context("owner_command", "superseded"), &None, &input).is_err());
}

#[test]
fn memory_mode_changes_only_when_different() {
    let receipt =
        conversation_mode_change("owner_command", "normal", ContentTrustLevel::LocalOnly).unwrap();
    assert!(receipt.changed);
    assert_eq!(receipt.previous_mode, ContentTrustLevel::Normal);
    assert_eq!(receipt.current_mode, ContentTrustLevel::LocalOnly);
    let receipt =
        conversation_mode_change("owner_command", "local_only", ContentTrustLevel::LocalOnly)
            .unwrap();
    assert!(!receipt.changed);
    assert!(conversation_mode_change("external_observation", "normal", ContentTrustLevel::Normal)
        .is_err());
    assert!(conversation_mode_change("owner_command", "bogus", ContentTrustLevel::Normal).is_err());
}

#[test]
fn source_excerpts_are_cut_by_characters() {
    let row = |id: &str| MemoryExcerptRow {
        source_event_id: id.into(),
        conversation_kind: "group".into(),
        platform_conversation_id: "g-1".into(),
        actor_platform_id: "alice".into(),
        occurred_at_unix_secs: 5,
        normalized_text: "报价单已发送".into(),
    };
    let excerpt = memory_source_excerpt(row("e1"), 3).unwrap();
    assert_eq!(excerpt.excerpt, "报价单");
    assert_eq!(excerpt.source_event_id.as_str(), "e1");
    assert_eq!(excerpt.conversation_id, "g-1");
    assert_eq!(memory_source_excerpt(row("e1"), 2000).unwrap().excerpt, "报价单已发送");
    assert!(memory_source_excerpt(row(" "), 3).is_err());
}

// ---------------------------------------------------------------------------
// Notification sources.

#[test]
fn response_expectations_match_by_conversation_and_actor() {
    let conversation = ConversationRef::new(ConversationKind::Private, "p-1").unwrap();
    let source = LockedNotificationSource::ResponseExpectation {
        account_id: 7,
        expectation_id: "x-1".into(),
        source_version: 3,
        source_channel: "napcat".into(),
        platform_account_id: "account-1".into(),
        conversation: conversation.clone(),
        actor_id: "alice".into(),
    };
    let parts = source.parts();
    assert_eq!(parts.source_kind, "response_expectation");
    assert_eq!(parts.event_kind, EventKind::ResponseOverdue);
    assert_eq!(parts.category, NotificationCategory::FollowUp);
    let key = source_match_key(parts).unwrap();
    assert_eq!(key.account, account());
    assert_eq!(key.conversation, MatchField::Known(conversation));
    assert_eq!(key.actor_id, MatchField::Known("alice".to_string()));
    assert_eq!(key.mentioned_owner, MatchField::Known(false));
    assert_eq!(
        key.structured_importance,
        MatchField::Known(StructuredImportance::Normal)
    );
}

#[test]
fn agenda_sources_match_by_category_only() {
    let source = LockedNotificationSource::Agenda {
        account_id: 7,
        item_id: "a-1".into(),
        version: 2,
        source_channel: "qq_open_platform".into(),
        platform_account_id: "bot".into(),
    };
    let parts = source.parts();
    assert_eq!(parts.source_kind, "agenda");
    assert_eq!(parts.source_version, 2);
    let key = source_match_key(parts).unwrap();
    assert_eq!(key.account.channel, MessageSource::QqOpenPlatform);
    assert_eq!(key.conversation, MatchField::Absent);
    assert_eq!(key.category, MatchField::Known(NotificationCategory::Agenda));
    assert_eq!(key.event_kind, MatchField::Known(EventKind::AgendaDue));

    let unknown_channel = LockedNotificationSource::FollowUp {
        account_id: 7,
        follow_up_id: "f-1".into(),
        source_version: 1,
        source_channel: "wechat".into(),
        platform_account_id: "bot".into(),
    };
    assert!(source_match_key(unknown_channel.parts()).is_err());
}

// ---------------------------------------------------------------------------
// Retrieval rows and agenda.

#[test]
fn thread_summaries_read_their_source_lists() {
    let claim = map_thread_claim_row(ThreadClaimRow {
        claim_id: "c-1".into(),
        claim_kind: "promise".into(),
        claimant_actor_id: "alice".into(),
        status: "open".into(),
        statement: "will send".into(),
        source_event_ids: Some("e1,e2".into()),
    })
    .unwrap();
    let ids: Vec<&str> = claim.source_event_ids.iter().map(|id| id.as_str()).collect();
    assert_eq!(ids, vec!["e1", "e2"]);
    assert_eq!(claim.claim_kind, "promise");

    let decision = map_thread_decision_row(ThreadDecisionRow {
        decision_id: "d-1".into(),
        status: "accepted".into(),
        statement: "go".into(),
        source_event_ids: None,
    })
    .unwrap();
    assert!(decision.source_event_ids.is_empty());

    assert!(map_thread_question_row(ThreadQuestionRow {
        question_id: "q-1".into(),
        raised_by_actor_id: "bob".into(),
        status: "open".into(),
        question: "when?".into(),
        source_event_ids: Some("e1, ".into()),
    })
    .is_err());
}

#[test]
fn found_threads_default_missing_fields() {
    let thread = map_thread_row(ThreadSearchRow {
        thread_id: "t-1".into(),
        status: "waiting".into(),
        event_count: 4,
        latest_at: None,
        latest_excerpt: None,
    })
    .unwrap();
    assert_eq!(thread.status, ThreadStatus::Waiting);
    assert_eq!(thread.event_count, 4);
    assert_eq!(thread.latest_event_at_unix_secs, 0);
    assert_eq!(thread.latest_excerpt, "");
    assert!(map_thread_row(ThreadSearchRow {
        thread_id: "t-1".into(),
        status: "archived".into(),
        event_count: 4,
        latest_at: Some(1),
        latest_excerpt: None,
    })
    .is_err());

    let item = map_upcoming_row(UpcomingItemRow {
        item_id: "i-1".into(),
        kind: "agenda".into(),
        due_at_unix_secs: 100,
        excerpt: Some("call".into()),
        source_event_id: "e9".into(),
    })
    .unwrap();
    assert_eq!(item.excerpt, "call");
    assert_eq!(item.source_event_id.as_str(), "e9");
}

fn agenda_row(kind: &str, status: &str) -> AgendaRow {
    AgendaRow {
        item_id: "item-1".into(),
        item_kind: kind.into(),
        title: "dentist".into(),
        scheduled_at_unix_secs: Some(-5),
        timezone_name: "Asia/Shanghai".into(),
        item_status: status.into(),
        version: 3,
        created_command_event_id: "cmd-1".into(),
        current_command_event_id: "cmd-2".into(),
        created_at_unix_secs: 1,
        updated_at_unix_secs: 2,
    }
}

#[test]
fn agenda_rows_read_back_as_items() {
    let item = map_row(agenda_row("reminder", "completed"), account()).unwrap();
    assert_eq!(item.kind, AgendaItemKind::Reminder);
    assert_eq!(item.status, AgendaItemStatus::Completed);
    assert_eq!(item.current_version_command.as_str(), "cmd-2");
    assert!(matches!(
        map_row(agenda_row("meeting", "completed"), account()),
        Err(StoredValueError::InvalidData(_))
    ));
    assert!(map_row(agenda_row("task", "done"), account()).is_err());
}

#[test]
fn agenda_receipt_reference_names_the_item() {
    let item = map_row(agenda_row("task", "scheduled"), account()).unwrap();
    let reference = agenda_result_ref(&item);
    assert_eq!(reference, "agenda:item-1:v3:scheduled:-5");
    assert_eq!(
        agenda_item_id_of_result_ref(&reference).unwrap().as_str(),
        "item-1"
    );
    let mut unscheduled = agenda_row("task", "cancelled");
    unscheduled.scheduled_at_unix_secs = None;
    let item = map_row(unscheduled, account()).unwrap();
    assert_eq!(agenda_result_ref(&item), "agenda:item-1:v3:cancelled:none");
    assert!(agenda_item_id_of_result_ref("agenda").is_err());
    assert!(agenda_item_id_of_result_ref("agenda::v1").is_err());
    assert_eq!(agenda_item_id_of_result_ref("agenda:x").unwrap().as_str(), "x");
}

#[test]
fn agenda_detail_is_the_sorted_json_object() {
    let item = map_row(agenda_row("task", "scheduled"), account()).unwrap();
    let mut expected = serde_json::Map::new();
    expected.insert("item_id".into(), serde_json::Value::from("item-1"));
    expected.insert("status".into(), serde_json::Value::from("scheduled"));
    expected.insert("version".into(), serde_json::Value::from(3u64));
    expected.insert("scheduled_at_unix_secs".into(), serde_json::Value::from(-5i64));
    assert_eq!(agenda_detail_json(&item), serde_json::Value::Object(expected).to_string());
}

#[test]
fn reappending_a_stored_fact_is_a_replay() {
    let stored = fact("person:alice");
    let receipt = append_fact_replay(&stored, &fact("person:alice")).unwrap();
    assert!(!receipt.changed);
    assert_eq!(receipt.fact_id.as_str(), "fact-2");
    assert!(facts_equal(&stored, &fact("person:alice")));
    assert!(!facts_equal(&stored, &fact("person:bob")));
    assert!(matches!(
        append_fact_replay(&stored, &fact("person:bob")),
        Err(StoredValueError::InvalidData(_))
    ));
    let mut changed = fact("person:alice");
    changed.confidence_bps = 10;
    assert!(append_fact_replay(&stored, &changed).is_err());
}

fn digest_uuid(parts: &[&[u8]]) -> String {
    let mut hasher = Sha256::new();
    for part in parts {
        hasher.update(part);
    }
    let digest = hasher.finalize();
    let mut bytes = [0_u8; 16];
    bytes.copy_from_slice(&digest[..16]);
    uuid::Uuid::from_bytes(bytes).to_string()
}

#[test]
fn occurrence_ids_hash_the_framed_source_version() {
    let id = notification_occurrence_id("agenda", "a-1", 258, "owner_policy_reminder");
    let expected = digest_uuid(&[
        b"notification-policy-occurrence-v2\0",
        b"agenda",
        &[0],
        b"a-1",
        &[0],
        &258u64.to_be_bytes(),
        &[0],
        b"owner_policy_reminder",
    ]);
    assert_eq!(id, expected);
    assert_eq!(id.len(), 36);
    assert_ne!(
        id,
        notification_occurrence_id("agenda", "a-1", 259, "owner_policy_reminder")
    );
}

#[test]
fn feedback_ids_hash_account_command_and_importance() {
    let id = feedback_id(&account(), "cmd-1", true);
    let expected = digest_uuid(&[b"napcat", &[0], b"account-1", &[0], b"cmd-1", &[1]]);
    assert_eq!(id, expected);
    assert_ne!(id, feedback_id(&account(), "cmd-1", false));
    assert_eq!(id, feedback_id(&account(), "cmd-1", true));
}

#[test]
fn policy_artifacts_describe_family_heads() {
    let artifact = policy_family_artifact(PolicyArtifactRow {
        canonical_scope_key: "contact:bob".into(),
        policy_family_id: "fam-1".into(),
        current_revision_id: "rev-1".into(),
        generation: 12,
        policy_kind: "similar_notification".into(),
        revision_kind: "tombstone".into(),
    })
    .unwrap();
    assert_eq!(artifact.scope, "contact:bob");
    assert_eq!(artifact.priority, "similar_notification");
    assert_eq!(artifact.status, "tombstone");
    assert_eq!(artifact.typed_reason, "generation:12");
    assert_eq!(artifact.audit_reference, "policy_family_head");
    assert_eq!(artifact.policy_family_id.unwrap().as_str(), "fam-1");
    assert!(artifact.decision_id.is_none());
    let bad_kind = PolicyArtifactRow {
        canonical_scope_key: "contact:bob".into(),
        policy_family_id: "fam-1".into(),
        current_revision_id: "rev-1".into(),
        generation: 12,
        policy_kind: "unknown".into(),
        revision_kind: "rule".into(),
    };
    assert_eq!(policy_family_artifact(bad_kind), Err(PolicyStoreError::Database));
    let bad_id = PolicyArtifactRow {
        canonical_scope_key: "contact:bob".into(),
        policy_family_id: "f".repeat(37),
        current_revision_id: "rev-1".into(),
        generation: 12,
        policy_kind: "contact".into(),
        revision_kind: "rule".into(),
    };
    assert_eq!(policy_family_artifact(bad_id), Err(PolicyStoreError::Conflict));
}

#[test]
fn decision_artifacts_describe_outcome_and_revision() {
    let artifact = decision_artifact(DecisionArtifactRow {
        notification_decision_id: "dec-1".into(),
        policy_family_id: None,
        policy_revision_id: Some("rev-1".into()),
        outcome: "suppress".into(),
        reason_code: "quiet_hours".into(),
        audit_reference: "req-1".into(),
    })
    .unwrap();
    assert_eq!(artifact.scope, "notification_decision");
    assert_eq!(artifact.priority, "decision");
    assert!(artifact.policy_family_id.is_none());
    assert_eq!(artifact.policy_revision_id.unwrap().as_str(), "rev-1");
    assert_eq!(artifact.decision_id.unwrap().as_str(), "dec-1");
    assert_eq!(artifact.status, "suppress");
    assert_eq!(artifact.typed_reason, "quiet_hours");
    assert_eq!(
        decision_artifact(DecisionArtifactRow {
            notification_decision_id: " ".into(),
            policy_family_id: None,
            policy_revision_id: None,
            outcome: "remind".into(),
            reason_code: "contact_policy".into(),
            audit_reference: "req-1".into(),
        }),
        Err(PolicyStoreError::Conflict)
    );
}

#[test]
fn evaluation_leases_need_a_worker_and_a_fitting_expiry() {
    assert_eq!(claim_lease_expiry("worker-1", 100, 30), Ok(130));
    assert_eq!(claim_lease_expiry(" ", 100, 30), Err(PolicyStoreError::Conflict));
    assert_eq!(claim_lease_expiry("worker-1", 100, 0), Err(PolicyStoreError::Conflict));
    assert_eq!(
        claim_lease_expiry("worker-1", i64::MAX - 1, 2),
        Err(PolicyStoreError::Conflict)
    );
    assert_eq!(
        claim_lease_expiry("worker-1", i64::MIN, u64::MAX),
        Err(PolicyStoreError::Conflict)
    );
}

#[test]
fn reminder_payload_is_the_sorted_json_object() {
    let mut expected = serde_json::Map::new();
    expected.insert("candidate_id".into(), serde_json::Value::from("cand-\"1\""));
    expected.insert("source_version".into(), serde_json::Value::from(7u64));
    expected.insert("owner_actor_id".into(), serde_json::Value::from("owner"));
    assert_eq!(
        reminder_payload_json("cand-\"1\"", 7, "owner"),
        serde_json::Value::Object(expected).to_string()
    );
}

#[test]
fn stable_ids_are_name_based_uuids_of_namespace_and_effect() {
    let id = stable_id("follow_up_dismiss", "effect-1");
    let expected =
        uuid::Uuid::new_v5(&uuid::Uuid::NAMESPACE_OID, b"follow_up_dismiss:effect-1").to_string();
    assert_eq!(id, expected);
    assert_eq!(id, stable_id("follow_up_dismiss", "effect-1"));
    assert_ne!(id, stable_id("follow_up_snooze", "effect-1"));
}
