use personal_secretary::{
    gap_is_claimable, reclaim_schedule_change, ScheduleChange, SUSPENDED_UNTIL_UNIX_SECS,
    budget_semantic_texts,
    append_profile_source, first_chars_of, merge_profile_alias, participant_profile_step,
    CurrentProfileRow, ProfileAlias, ProfileUpsert, MAX_PROFILE_ALIASES, MAX_PROFILE_NAME_CHARS,
    MAX_PROFILE_SOURCE_EVENTS,
    total_of, RunCounter, RunCounters, ScopeEvidence,
    agenda_mutation_step, agenda_receipt, agenda_replayed_receipt, AgendaItemId, AgendaItemKind,
    AgendaMutation, AgendaRow, AgendaStoreError, MessageSource, SourceAccountRef, SourceEventId,
    participant_observation_step, proposal_coverage_check, EventPrivacyRow,
    batch_snooze_step, finalize_run_step, lock_order, message_insert_step, proposal_persist_step,
    proposal_scope_check, recall_actor_platform_id, recall_step, semantic_patch_step,
    BackfillOutcome, EventMembershipRow, FinalizeStep, FollowUpItemRow, FollowUpTarget,
    HistoryCompleteness, InboundStoreError, IngestStep, OwnedRunRow, ProposalIdentityRow,
    ReclaimPolicy, SemanticLeaseRow, StoredEventRow, StoredValueError, TombstoneStatus,
};

fn target(id: &str, version: u64) -> FollowUpTarget {
    FollowUpTarget {
        follow_up_id: id.into(),
        expected_source_version: version,
    }
}

fn row(status: &str, due: i64, version: u64) -> Option<FollowUpItemRow> {
    Some(FollowUpItemRow {
        status: status.into(),
        due_at_unix_secs: due,
        source_version: version,
    })
}

fn statuses(items: &[&str]) -> Vec<String> {
    items.iter().map(|s| s.to_string()).collect()
}

#[test]
fn targets_are_locked_in_stable_identifier_order() {
    let ordered = lock_order(&vec![target("f-b", 1), target("f-a", 2), target("f-b", 3)]);
    let ids: Vec<(&str, u64)> = ordered
        .iter()
        .map(|t| (t.follow_up_id.as_str(), t.expected_source_version))
        .collect();
    assert_eq!(ids, vec![("f-a", 2), ("f-b", 1), ("f-b", 3)]);
}

#[test]
fn batch_snooze_applies_to_every_target_or_none() {
    let targets = vec![target("f-2", 5), target("f-1", 7)];
    // Rows come in lock order: f-1, then f-2.
    let rows = vec![row("scheduled", 100, 7), row("scheduled", 200, 5)];
    let clear = vec![statuses(&["delivered", "pending"]), statuses(&[])];
    let batch = batch_snooze_step(&targets, &rows, &clear, 500, true, true, "busy").unwrap();
    assert_eq!(batch.controls.len(), 2);
    let first = &batch.controls[0];
    assert_eq!(first.follow_up_id, "f-1");
    assert_eq!(first.control_kind, "snooze");
    assert_eq!(first.previous_source_version, 7);
    assert_eq!(first.current_source_version, 8);
    assert_eq!(first.previous_due_at_unix_secs, Some(100));
    assert_eq!(first.current_due_at_unix_secs, Some(500));
    assert_eq!(first.reason, "busy");
    assert_eq!(first.result_ref, "跟进事项 f-1 已推迟到 500（版本 7 -> 8）");
    assert_eq!(batch.result_ref, "已批量推迟 2 条跟进事项到 500：f-1, f-2");

    let stale = vec![row("scheduled", 100, 7), row("scheduled", 200, 6)];
    assert!(matches!(
        batch_snooze_step(&targets, &stale, &clear, 500, true, true, "busy"),
        Err(StoredValueError::InvalidData(_))
    ));
    let dismissed = vec![row("dismissed", 100, 7), row("scheduled", 200, 5)];
    assert!(batch_snooze_step(&targets, &dismissed, &clear, 500, true, true, "busy").is_err());
    assert!(batch_snooze_step(&targets, &rows, &clear, 150, true, true, "busy").is_err());
    assert!(batch_snooze_step(&targets, &rows, &clear, 500, false, true, "busy").is_err());
    assert!(batch_snooze_step(&targets, &rows, &clear, 500, true, false, "busy").is_err());
    assert!(batch_snooze_step(&targets, &vec![row("scheduled", 100, 7), None], &clear, 500, true, true, "x").is_err());
}

#[test]
fn batch_snooze_is_refused_while_a_notification_is_claimed() {
    let targets = vec![target("f-2", 5), target("f-1", 7)];
    let rows = vec![row("scheduled", 100, 7), row("scheduled", 200, 5)];
    let claimed = vec![statuses(&["pending"]), statuses(&["delivered", "claimed"])];
    assert!(matches!(
        batch_snooze_step(&targets, &rows, &claimed, 500, true, true, "busy"),
        Err(StoredValueError::InvalidData(m)) if m.contains("claimed or unknown_commit")
    ));
    let unknown = vec![statuses(&["unknown_commit"]), statuses(&[])];
    assert!(batch_snooze_step(&targets, &rows, &unknown, 500, true, true, "busy").is_err());
    let suppressed = vec![statuses(&["suppressed", "failed"]), statuses(&["delivered"])];
    assert!(batch_snooze_step(&targets, &rows, &suppressed, 500, true, true, "busy").is_ok());
    let one_short = vec![statuses(&[])];
    assert!(batch_snooze_step(&targets, &rows, &one_short, 500, true, true, "busy").is_err());
}

fn outcome(completeness: HistoryCompleteness, policy: ReclaimPolicy) -> BackfillOutcome {
    BackfillOutcome {
        gap_id: "gap-1".into(),
        completeness,
        gap_target_status: "suspended".into(),
        gap_reason: None,
        reclaim_policy: policy,
        scopes: vec![
            ScopeEvidence {
                pages_read: 3,
                events_read: 40,
                accepted: 30,
                duplicates: 10,
                anomaly_count: 1,
            },
            ScopeEvidence {
                pages_read: 2,
                events_read: 5,
                accepted: 4,
                duplicates: 1,
                anomaly_count: 2,
            },
        ],
        budget_exhausted: true,
    }
}

fn run(status: &str, completeness: &str) -> Option<OwnedRunRow> {
    Some(OwnedRunRow {
        gap_id: "gap-1".into(),
        status: status.into(),
        completeness: completeness.into(),
    })
}

#[test]
fn finalising_a_run_fixes_status_and_reclaim_policy() {
    let out = outcome(HistoryCompleteness::KnownScopesComplete, ReclaimPolicy::Suspended);
    let step = finalize_run_step(
        &run("backfilling", "unprovable"),
        &Some("backfilling".into()),
        &out,
    )
    .unwrap();
    assert_eq!(
        step,
        FinalizeStep::Finalize {
            update_gap: true,
            run_status: "unprovable",
            completeness: "known_scopes_complete",
            failure_class: Some("known_scopes_complete".into()),
            reclaim_policy: ReclaimPolicy::Suspended,
            counters: RunCounters {
                pages_read: 5,
                events_read: 45,
                accepted: 34,
                duplicates: 11,
                anomaly_count: 3,
                budget_exhausted: true,
            },
        }
    );
    let proven = outcome(HistoryCompleteness::ProvenComplete, ReclaimPolicy::Terminal);
    match finalize_run_step(&run("backfilling", "unprovable"), &Some("suspended".into()), &proven)
        .unwrap()
    {
        FinalizeStep::Finalize {
            update_gap,
            run_status,
            failure_class,
            ..
        } => {
            assert!(!update_gap);
            assert_eq!(run_status, "verified_complete");
            assert_eq!(failure_class, None);
        }
        other => panic!("unexpected {other:?}"),
    }
    assert!(matches!(
        finalize_run_step(&run("backfilling", "unprovable"), &Some("closed".into()), &proven),
        Err(InboundStoreError::InvalidData(_))
    ));
}

#[test]
fn run_counters_sum_over_scopes() {
    let out = outcome(HistoryCompleteness::Unprovable, ReclaimPolicy::Backoff(60));
    assert_eq!(total_of(&out.scopes, RunCounter::PagesRead), 5);
    assert_eq!(total_of(&out.scopes, RunCounter::Anomalies), 3);
    assert_eq!(total_of(&Vec::new(), RunCounter::Accepted), 0);
}

#[test]
fn finalise_retries_are_no_ops_and_foreign_tokens_lose_the_lease() {
    let out = outcome(HistoryCompleteness::Unrecoverable, ReclaimPolicy::Terminal);
    assert_eq!(
        finalize_run_step(&run("unrecoverable", "unrecoverable"), &Some("suspended".into()), &out),
        Ok(FinalizeStep::AlreadyFinalized)
    );
    assert!(finalize_run_step(&run("unrecoverable", "unprovable"), &Some("suspended".into()), &out)
        .is_err());
    assert_eq!(
        finalize_run_step(&None, &Some("backfilling".into()), &out),
        Err(InboundStoreError::LeaseLost)
    );
    let mut other_gap = run("backfilling", "unprovable");
    other_gap.as_mut().unwrap().gap_id = "gap-2".into();
    assert!(matches!(
        finalize_run_step(&other_gap, &Some("backfilling".into()), &out),
        Err(InboundStoreError::InvalidData(_))
    ));
}

#[test]
fn messages_seen_before_are_duplicates() {
    let stored = Some(StoredEventRow {
        source_event_id: "e-old".into(),
    });
    match message_insert_step(&stored, "e-new").unwrap() {
        IngestStep::Duplicate { source_event_id } => assert_eq!(source_event_id.as_str(), "e-old"),
        other => panic!("unexpected {other:?}"),
    }
    let fresh = Some(StoredEventRow {
        source_event_id: "e-new".into(),
    });
    assert!(matches!(
        message_insert_step(&fresh, "e-new"),
        Ok(IngestStep::Accepted { .. })
    ));
    assert_eq!(message_insert_step(&None, "e-new"), Err(InboundStoreError::Unavailable));
}

#[test]
fn semantic_patches_need_the_live_lease() {
    let state = Some(SemanticLeaseRow {
        lease_token: Some("tok".into()),
        lease_expires_at_unix_micros: 1000,
    });
    assert_eq!(semantic_patch_step(&state, "tok", 1000), Ok(()));
    assert_eq!(semantic_patch_step(&state, "tok", 1001), Err(InboundStoreError::LeaseLost));
    assert_eq!(semantic_patch_step(&state, "other", 10), Err(InboundStoreError::LeaseLost));
    assert_eq!(semantic_patch_step(&None, "tok", 10), Err(InboundStoreError::LeaseLost));
}

#[test]
fn proposals_are_immutable_once_stored() {
    let stored = Some(ProposalIdentityRow {
        account_id: 7,
        mutation_kind: "merge".into(),
        impact_json: "{\"a\":1}".into(),
    });
    assert_eq!(proposal_persist_step(true, &None, 7, "merge", "{}"), Ok(true));
    assert_eq!(proposal_persist_step(false, &stored, 7, "merge", "{\"a\":1}"), Ok(false));
    assert!(matches!(
        proposal_persist_step(false, &stored, 7, "merge", "{\"a\":2}"),
        Err(InboundStoreError::InvalidData(_))
    ));
    assert!(proposal_persist_step(false, &None, 7, "merge", "{}").is_err());
}

#[test]
fn proposals_stay_in_their_account_and_threads() {
    let threads = vec!["t-1".to_string(), "t-2".to_string()];
    let event = |account_id: u64, thread: &str| {
        Some(EventMembershipRow {
            account_id,
            conversation_id: 1,
            thread_id: thread.into(),
        })
    };
    assert!(proposal_scope_check(7, &vec![Some(7), Some(7)], &vec![event(7, "t-2")], &threads).is_ok());
    assert!(proposal_scope_check(7, &vec![Some(7), Some(8)], &vec![], &threads).is_err());
    assert!(proposal_scope_check(7, &vec![Some(7)], &vec![event(7, "t-3")], &threads).is_err());
    assert!(proposal_scope_check(7, &vec![Some(7)], &vec![event(8, "t-1")], &threads).is_err());
    assert!(proposal_scope_check(7, &vec![None], &vec![], &threads).is_err());
}

#[test]
fn recalls_apply_when_the_message_is_stored() {
    let applied = recall_step(false, &Some("e-1".into()), 42);
    assert_eq!(applied.status, TombstoneStatus::Applied);
    assert_eq!(applied.source_event_id.as_deref(), Some("e-1"));
    assert_eq!(applied.invalidation_reason, "message recalled");
    assert_eq!(applied.invalidated_at_unix_secs, 42);
    let pending = recall_step(false, &None, 42);
    assert_eq!(pending.status, TombstoneStatus::Pending);
    assert_eq!(pending.invalidation_reason, "recall arrived before original message");
    assert_eq!(recall_step(true, &None, 42).status, TombstoneStatus::IdempotentReapply);
    assert_eq!(recall_actor_platform_id(&Some(" ".into())), "unknown-operator");
    assert_eq!(recall_actor_platform_id(&Some("op".into())), "op");
    assert_eq!(recall_actor_platform_id(&None), "unknown-operator");
}

#[test]
fn sender_profiles_are_observed_only_for_unrestricted_messages() {
    let open = Some(EventPrivacyRow {
        content_mode: Some("normal".into()),
        tombstone_status: None,
    });
    assert_eq!(participant_observation_step(&open, &Some("normal".into())), Ok(true));
    assert_eq!(participant_observation_step(&open, &Some("never_long_term".into())), Ok(false));
    assert!(participant_observation_step(&open, &None).is_err());
    let recalled = Some(EventPrivacyRow {
        content_mode: Some("normal".into()),
        tombstone_status: Some("applied".into()),
    });
    assert_eq!(participant_observation_step(&recalled, &None), Ok(false));
    let restricted = Some(EventPrivacyRow {
        content_mode: Some("never_long_term".into()),
        tombstone_status: None,
    });
    assert_eq!(participant_observation_step(&restricted, &None), Ok(false));
    assert_eq!(participant_observation_step(&None, &None), Ok(false));
}

#[test]
fn proposals_cover_what_they_claim() {
    let ids = |xs: &[&str]| xs.iter().map(|x| x.to_string()).collect::<Vec<_>>();
    assert!(proposal_coverage_check(true, &ids(&["e1", "e2"]), &ids(&["e2", "e1"]), 0, &vec![3, 3, 4], 2).is_ok());
    assert!(proposal_coverage_check(true, &ids(&["e1"]), &ids(&["e2", "e1"]), 0, &vec![3], 1).is_err());
    assert!(proposal_coverage_check(true, &ids(&["e1"]), &ids(&["e1"]), 0, &vec![3, 4], 1).is_err());
    assert!(proposal_coverage_check(false, &ids(&["e1"]), &ids(&[]), 2, &vec![3], 1).is_ok());
    assert!(proposal_coverage_check(false, &ids(&["e1", "e2"]), &ids(&[]), 2, &vec![3], 1).is_err());
}

fn account() -> SourceAccountRef {
    SourceAccountRef::new(MessageSource::NapCat, "account-1").unwrap()
}

fn stored_item(status: &str, version: u64) -> AgendaRow {
    AgendaRow {
        item_id: "item-1".into(),
        item_kind: "task".into(),
        title: "dentist".into(),
        scheduled_at_unix_secs: Some(100),
        timezone_name: "Asia/Shanghai".into(),
        item_status: status.into(),
        version,
        created_command_event_id: "cmd-1".into(),
        current_command_event_id: "cmd-1".into(),
        created_at_unix_secs: 1,
        updated_at_unix_secs: 2,
    }
}

#[test]
fn agenda_mutations_write_their_status_and_raise_the_version() {
    let item_id = || AgendaItemId::new("item-1").unwrap();
    let fresh = AgendaItemId::new("item-9").unwrap();
    let command = SourceEventId::new("cmd-7").unwrap();
    let snooze = AgendaMutation::Snooze {
        item_id: item_id(),
        expected_version: 3,
        scheduled_at_unix_secs: 900,
        timezone: "UTC".into(),
    };
    assert_eq!(snooze.kind(), "snooze");
    let t = agenda_mutation_step(&snooze, &Some(stored_item("scheduled", 3)), &fresh, &command, 50)
        .unwrap();
    assert_eq!(t.from_version, Some(3));
    assert_eq!(t.row.version, 4);
    assert_eq!(t.row.item_status, "scheduled");
    assert_eq!(t.row.scheduled_at_unix_secs, Some(900));
    assert_eq!(t.row.timezone_name, "UTC");
    assert_eq!(t.row.current_command_event_id, "cmd-7");
    assert_eq!(t.row.created_command_event_id, "cmd-1");
    assert_eq!(t.row.updated_at_unix_secs, 50);
    let receipt = agenda_receipt(t.row, account()).unwrap();
    assert_eq!(receipt.result_ref, "agenda:item-1:v4:scheduled:900");

    let complete = AgendaMutation::Complete { item_id: item_id(), expected_version: 3 };
    let t = agenda_mutation_step(&complete, &Some(stored_item("scheduled", 3)), &fresh, &command, 50)
        .unwrap();
    assert_eq!(t.row.item_status, "completed");
    assert_eq!(t.row.scheduled_at_unix_secs, Some(100));
    let cancel = AgendaMutation::Cancel { item_id: item_id(), expected_version: 3 };
    let t = agenda_mutation_step(&cancel, &Some(stored_item("scheduled", 3)), &fresh, &command, 50)
        .unwrap();
    assert_eq!(t.row.item_status, "cancelled");
    assert_eq!(t.row.version, 4);

    assert_eq!(
        agenda_mutation_step(&cancel, &Some(stored_item("scheduled", 2)), &fresh, &command, 50).err(),
        Some(AgendaStoreError::VersionConflict)
    );
    assert_eq!(
        agenda_mutation_step(&cancel, &Some(stored_item("completed", 3)), &fresh, &command, 50).err(),
        Some(AgendaStoreError::VersionConflict)
    );
    assert_eq!(
        agenda_mutation_step(&cancel, &None, &fresh, &command, 50).err(),
        Some(AgendaStoreError::VersionConflict)
    );
    let worn = AgendaMutation::Complete { item_id: item_id(), expected_version: u64::MAX };
    assert!(matches!(
        agenda_mutation_step(&worn, &Some(stored_item("scheduled", u64::MAX)), &fresh, &command, 50),
        Err(AgendaStoreError::Store(_))
    ));
}

#[test]
fn agenda_creation_is_idempotent_by_key() {
    let fresh = AgendaItemId::new("item-9").unwrap();
    let command = SourceEventId::new("cmd-7").unwrap();
    let create = AgendaMutation::Create {
        kind: AgendaItemKind::Reminder,
        title: "call mum".into(),
        scheduled_at_unix_secs: 700,
        timezone: "Asia/Shanghai".into(),
    };
    assert_eq!(create.kind(), "create");
    let t = agenda_mutation_step(&create, &None, &fresh, &command, 60).unwrap();
    assert_eq!(t.from_version, None);
    assert_eq!(t.row.item_id, "item-9");
    assert_eq!(t.row.item_kind, "reminder");
    assert_eq!(t.row.item_status, "scheduled");
    assert_eq!(t.row.version, 1);
    assert_eq!(t.row.created_command_event_id, "cmd-7");
    let again = agenda_mutation_step(&create, &Some(stored_item("scheduled", 2)), &fresh, &command, 60)
        .unwrap();
    assert_eq!(again.row.item_id, "item-1");
    assert_eq!(again.row.version, 2);

    let replay = agenda_replayed_receipt("agenda:item-1:v2:scheduled:100", stored_item("completed", 3), account())
        .unwrap();
    assert_eq!(replay.result_ref, "agenda:item-1:v2:scheduled:100");
    assert_eq!(replay.item.version, 3);
}

fn texts(items: &[&str]) -> Vec<String> {
    items.iter().map(|s| s.to_string()).collect()
}

#[test]
fn profile_sources_are_bounded_and_evict_the_oldest() {
    assert_eq!(append_profile_source(&texts(&["e1"]), "e2"), texts(&["e1", "e2"]));
    assert_eq!(append_profile_source(&texts(&["e1", "e2"]), "e1"), texts(&["e1", "e2"]));
    let full = texts(&["e1", "e2", "e3", "e4", "e5", "e6", "e7", "e8", "e9", "e10"]);
    let next = append_profile_source(&full, "e11");
    assert_eq!(next.len(), MAX_PROFILE_SOURCE_EVENTS);
    assert_eq!(next.first().map(String::as_str), Some("e2"));
    assert_eq!(next.last().map(String::as_str), Some("e11"));
}

fn alias(name: &str, source: &str) -> ProfileAlias {
    ProfileAlias {
        alias: name.into(),
        source_event_id: source.into(),
    }
}

#[test]
fn profile_aliases_are_bounded_distinct_and_cut() {
    let merged = merge_profile_alias(&vec![alias("Bob", "e1")], "Bobby", "e2");
    assert_eq!(merged, vec![alias("Bob", "e1"), alias("Bobby", "e2")]);
    assert_eq!(merge_profile_alias(&merged, "Bob", "e3"), merged);
    assert_eq!(merge_profile_alias(&merged, "", "e3"), merged);
    let ten: Vec<ProfileAlias> = (0..10).map(|i| alias(&format!("n{i}"), "e")).collect();
    assert_eq!(merge_profile_alias(&ten, "new", "e9"), ten);
    let long = "长".repeat(250);
    let cut = merge_profile_alias(&Vec::new(), &long, "e1");
    assert_eq!(cut[0].alias.chars().count(), MAX_PROFILE_NAME_CHARS);
    assert_eq!(first_chars_of("abc", 2), "ab");
    assert_eq!(MAX_PROFILE_ALIASES, 10);
}

#[test]
fn observing_a_sender_inserts_appends_or_supersedes() {
    assert_eq!(
        participant_profile_step(&None, "Alice", "e1"),
        ProfileUpsert::Insert {
            display_name: "Alice".into(),
            source_event_ids: texts(&["e1"]),
        }
    );
    let current = Some(CurrentProfileRow {
        profile_id: 4,
        display_name: "Alice".into(),
        aliases: Vec::new(),
        source_event_ids: texts(&["e1"]),
        established_by_event_id: Some("e1".into()),
    });
    assert_eq!(
        participant_profile_step(&current, "Alice", "e2"),
        ProfileUpsert::AppendSource {
            profile_id: 4,
            source_event_ids: texts(&["e1", "e2"]),
        }
    );
    assert_eq!(
        participant_profile_step(&current, "Ally", "e3"),
        ProfileUpsert::Supersede {
            retired_profile_id: 4,
            display_name: "Ally".into(),
            aliases: vec![alias("Alice", "e1")],
            source_event_ids: texts(&["e1", "e3"]),
        }
    );
}

#[test]
fn a_semantic_text_is_omitted_only_when_it_exceeds_the_budget_left() {
    let batch = texts(&["你好呀", "this is long", "ok", ""]);
    let out = budget_semantic_texts(&batch, 6);
    let view: Vec<(&str, bool)> = out
        .iter()
        .map(|t| (t.normalized_text.as_str(), t.content_omitted))
        .collect();
    assert_eq!(
        view,
        vec![("你好呀", false), ("", true), ("ok", false), ("", false)]
    );
    let none = budget_semantic_texts(&batch, 0);
    assert!(none[0].content_omitted && none[2].content_omitted && !none[3].content_omitted);
}

#[test]
fn reclaim_schedules_decide_when_a_gap_is_claimed_again() {
    assert_eq!(reclaim_schedule_change(ReclaimPolicy::Terminal, 100), ScheduleChange::Remove);
    assert_eq!(
        reclaim_schedule_change(ReclaimPolicy::Backoff(60), 100),
        ScheduleChange::EligibleAt(160)
    );
    assert_eq!(
        reclaim_schedule_change(ReclaimPolicy::Suspended, 100),
        ScheduleChange::EligibleAt(SUSPENDED_UNTIL_UNIX_SECS)
    );
    let suspended_until = chrono::NaiveDate::from_ymd_opt(9999, 12, 31)
        .unwrap()
        .and_hms_opt(23, 59, 59)
        .unwrap()
        .and_utc()
        .timestamp();
    assert_eq!(SUSPENDED_UNTIL_UNIX_SECS, suspended_until);
    assert!(!gap_is_claimable("uncertain", true, Some(160), 159));
    assert!(gap_is_claimable("uncertain", true, Some(160), 160));
    assert!(gap_is_claimable("uncertain", true, None, 0));
    assert!(!gap_is_claimable("uncertain", false, None, 0));
    assert!(!gap_is_claimable("backfilling", true, None, 0));
    assert!(!gap_is_claimable("uncertain", true, Some(SUSPENDED_UNTIL_UNIX_SECS), 4_102_444_800));
}
