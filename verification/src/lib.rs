//! Verified domain core of a personal secretary: structured memory facts and
//! the candidates that become them, owner-notification policy and its
//! evaluator, and the decisions, stored codes and receipts of the stores that
//! keep them.
mod agenda;
mod follow_up_control;
mod generated_id;
mod identity;
mod inbound_store_rules;
mod json_text;
pub mod laws;
mod local_time;
mod memory;
mod memory_candidate;
mod memory_store_rules;
mod notification_ids;
mod notification_policy;
mod notification_source;
mod payload_json;
mod policy_artifacts;
mod policy_effects;
mod policy_store_rules;
mod retrieval_rows;
mod store_codes;
mod text;
mod text_order;

pub use agenda::{
    agenda_detail_json, agenda_item_id_of_result_ref, agenda_mutation_step, agenda_receipt,
    agenda_replayed_receipt, agenda_result_ref, map_row, AgendaItem, AgendaItemId, AgendaItemKind,
    AgendaItemStatus, AgendaMutation, AgendaMutationReceipt, AgendaRow, AgendaStoreError,
    AgendaTransition,
};
pub use follow_up_control::{
    batch_snooze_step, lock_order, AppliedControl, AppliedControlBatch, FollowUpItemRow,
    FollowUpTarget,
};
pub use generated_id::stable_id;
pub use identity::{
    str_equals, ContentTrustLevel, ConversationKind, ConversationRef, IdentityError,
    MessageRole, MessageSource, SourceAccountRef, SourceEventId, ThreadActorRef,
    ThreadDecisionId, ThreadMutationProposalStatus, ThreadStatus, VerifiedActorKind,
};
pub use inbound_store_rules::{
    finalize_run_step, message_insert_step, participant_observation_step, proposal_coverage_check, proposal_persist_step,
    proposal_scope_check,
    recall_actor_platform_id, recall_step, semantic_patch_step, BackfillOutcome,
    EventMembershipRow, EventPrivacyRow, FinalizeStep, HistoryCompleteness, InboundStoreError, IngestStep,
    OwnedRunRow, ProposalIdentityRow, RecallStep, ReclaimPolicy, SemanticLeaseRow,
    StoredEventRow, TombstoneStatus, total_of, RunCounter, RunCounters, ScopeEvidence,
    append_profile_source, first_chars_of, merge_profile_alias, participant_profile_step,
    CurrentProfileRow, ProfileAlias, ProfileUpsert, MAX_PROFILE_ALIASES, MAX_PROFILE_NAME_CHARS,
    MAX_PROFILE_SOURCE_EVENTS, budget_semantic_texts, BudgetedText, gap_is_claimable,
    reclaim_schedule_change, ScheduleChange, SUSPENDED_UNTIL_UNIX_SECS,
};
pub use local_time::{LocalDate, LocalTime};
pub use memory::{
    validate_memory_delete, validate_memory_fact, validate_memory_payload, CommitmentMemory,
    CommitmentStatus, ConversationMemoryModeInput, ConversationMemoryModeReceipt,
    MemoryDeleteInput, MemoryDeleteReceipt, MemoryFact, MemoryFactError, MemoryFactId,
    MemoryFactStatus, MemoryFactView, MemoryPayload, MemorySourceExcerpt, MemoryWriteReceipt,
    PersonMemory, ProjectMemory,
};
pub use memory_candidate::{
    candidate_error_from_fact, candidate_fingerprint, candidate_to_confirmed_fact, clone_payload,
    is_eligible_for_candidate_extraction, validate_memory_candidate, MemoryCandidate,
    MemoryCandidateBatch, MemoryCandidateCursor, MemoryCandidateError, MemoryCandidateEvent,
    MemoryCandidateId, MemoryCandidateKind, MemoryCandidateLeaseToken, MemoryCandidateSource,
    MemoryCandidateSourceExcerpt, MemoryCandidateStatus, MemoryCandidateVersion,
    MemoryCandidateView, APPROVED_CANDIDATE_CONFIDENCE_BPS, INITIAL_CANDIDATE_VERSION,
    MAX_CANDIDATE_PAYLOAD_BYTES, MAX_CANDIDATE_SOURCES,
};
pub use memory_store_rules::{
    append_fact_replay, check_limit, check_memory_source, check_superseded_fact,
    conversation_mode_change, facts_equal, memory_delete_step, memory_source_excerpt,
    MemoryDeleteContextRow, MemoryDeleteStep, MemoryDeletionRow, MemoryExcerptRow,
    MemorySourceRow, PreviousFactRow, MAX_ACTIVE_FACTS_LIMIT, MAX_EXPIRY_BATCH,
    MAX_SOURCE_EXCERPT_CHARS,
};
pub use notification_policy::{
    validate_quiet_hours, ConversationMode, ConversationNotificationRule, DecisionReason,
    EvaluationInput, EvaluationPlan, EvaluationRequestId, EventKind, MatchField,
    NotificationCandidateId, NotificationCandidateRef, NotificationCategory,
    NotificationDecisionId, NotificationMatchKeyV1, NotificationOutcome, NotificationPolicyError,
    NotificationPolicyEvaluator, NotificationPolicyFamily, NotificationPolicyKind,
    NotificationPolicyRevision, NotificationPolicyRule, PolicyFamilyId, PolicyRevisionId,
    QuietHoursFault, QuietHoursRule, RevisionKind, StructuredImportance,
    DELAY_REEVALUATION_SECS, MAX_CANONICAL_SCOPE_KEY_BYTES, MAX_NOTIFICATION_AUDIT_SUMMARY_BYTES,
    MAX_NOTIFICATION_JSON_BYTES, MAX_NOTIFICATION_POLICY_ID_BYTES,
    MAX_NOTIFICATION_REASON_BYTES, QUIET_HOURS_CHECK_DAYS,
};
pub use notification_ids::{feedback_id, notification_occurrence_id};
pub use notification_source::{
    source_match_key, LockedNotificationSource, LockedNotificationSourceParts,
};
pub use policy_artifacts::{
    claim_lease_expiry, decision_artifact, policy_family_artifact, DecisionArtifactRow,
    NotificationPolicyResponseArtifact, PolicyArtifactRow,
};
pub use policy_effects::{
    check_feedback_request, decision_completion, evaluation_commit_step,
    evaluation_snapshot_stale, family_head_unchanged, policy_family_result_ref,
    prepare_policy_write, reminder_payload_json, DecisionCompletion, EvaluationCommitStep,
    EvaluationRequestCommitRow, FamilyGenerationSnapshot, PolicyHeadFenceRow, PolicyWrite,
    PolicyWriteAction,
};
pub use policy_store_rules::{
    automatic_reply_scope_key, basic_policy_rule, candidate_status_name, clone_match_key,
    decision_reason_name, feedback_policy_scope, notification_category_name, outcome_name,
    parse_policy_kind, policy_error, policy_kind_name, revision_kind_name, to_domain_family,
    validate_write_request, winning_policy_kind, FamilyRow, PolicyStoreError,
};
pub use retrieval_rows::{
    map_thread_claim_row, map_thread_decision_row, map_thread_question_row, map_thread_row,
    map_upcoming_row, EventThreadId, ThreadClaimRow, ThreadClaimSummary, ThreadDecisionRow,
    ThreadDecisionSummary, ThreadQuestionRow, ThreadQuestionSummary, ThreadSearchResult,
    ThreadSearchRow, UpcomingItem, UpcomingItemRow,
};
pub use store_codes::{
    checked_count, filter_excerpt_by_trust, parse_actor_kind, parse_content_trust_level,
    parse_conversation_kind, parse_fact_status, parse_message_role, parse_message_source,
    parse_mutation_status, parse_source_event_id_list, parse_thread_status,
    source_account_from_db, StoredValueError,
};
pub use text::{text_fits, text_is_blank, trim_text, utf8_len_within};
pub use text_order::{sorted_distinct_texts, text_less};
