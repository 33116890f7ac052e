//! Properties that hold across the library's functions.
use vstd::prelude::*;

use crate::identity::{ContentTrustLevel, ConversationKind, MessageRole, MessageSource,
    ThreadMutationProposalStatus, ThreadStatus, VerifiedActorKind};
use crate::local_time::{
    date_plus_days, local_clock, single_local, utc_representable, zone_known, LocalDate, LocalTime,
};
use crate::memory::{fact_ok, payload_ok, CommitmentStatus, MemoryFactStatus, MemoryPayload};
use crate::identity::SourceEventId;
use crate::memory_candidate::{
    approval_ok, approved_payload, candidate_ok, fingerprint_of, source_id_texts,
    MemoryCandidate, MemoryCandidateBatch, MemoryCandidateSource,
};
use crate::notification_policy::{
    boundaries_of, delayed_until, effective_range_of, evaluation_plan, first_failing_day,
    in_effect, plan_of, quiet_hours_bypassed, quiet_hours_outcome, rule_decision, rule_plan,
    schedule_check, schedule_day_ok, checked_day, QUIET_HOURS_CHECK_DAYS,
    selected_rule, silenced_by_conversation, within_period, ConversationMode, DecisionReason,
    EvaluationInput, NotificationOutcome, NotificationPolicyKind, QuietHoursFault,
    QuietHoursRule,
};
use crate::identity::SourceAccountRef;
use crate::policy_effects::{completion_permitted, write_kind, write_rule, PolicyWriteAction};
use crate::inbound_store_rules::{
    appended_sources, backoff_fits, budget_left, first_chars, gap_claimable, schedule_change_of,
    ReclaimPolicy, ScheduleChange, SUSPENDED_UNTIL_UNIX_SECS, has_alias, kept_chars, merged_aliases,
    MAX_PROFILE_ALIASES,
    MAX_PROFILE_NAME_CHARS, MAX_PROFILE_SOURCE_EVENTS,
};
use crate::policy_store_rules::{policy_kind_code, policy_kind_of_code};
use crate::store_codes::{
    actor_kind_code, actor_kind_of_code, conversation_kind_of_code, fact_status_of_code,
    message_role_code, message_role_of_code, message_source_of_code, mutation_status_code,
    mutation_status_of_code, thread_status_code, thread_status_of_code, trust_level_code,
    trust_level_of_code,
};
use crate::agenda::{
    expected_version_of, item_reads_row, lemma_colon_index_at, result_ref_of, second_field,
    update_applies, updated_row_ok, created_row_ok, AgendaItem, AgendaItemStatus, AgendaMutation,
    AgendaRow,
};
use crate::memory::MemoryDeleteInput;
use crate::memory_store_rules::{
    delete_step_of, same_fact_content, MemoryDeleteContextRow, MemoryDeleteStep, MemoryDeletionRow,
};
use crate::memory::MemoryFact;
use crate::text::trimmed;
use crate::text_order::{
    lemma_ascending_unique, lemma_text_lt_asymmetric, lemma_text_lt_irreflexive,
    lemma_text_lt_total, lemma_text_lt_transitive, same_elements, sorted_distinct,
    strictly_ascending, text_lt,
};

verus! {

// ---------------------------------------------------------------------------
// Memory candidates.

/// A candidate that passes validation against its batch can be approved:
/// the confirmed fact built from it passes every rule of a memory fact.
pub proof fn law_valid_candidate_is_approvable(
    candidate: MemoryCandidate,
    batch: MemoryCandidateBatch,
)
    requires
        candidate_ok(candidate, batch),
    ensures
        approval_ok(candidate),
{
    let ids = crate::memory_candidate::candidate_source_ids(candidate.sources@);
    assert(payload_ok(candidate.payload, candidate.account, ids));
    match candidate.payload {
        MemoryPayload::Commitment(c) => {
            let p = approved_payload(candidate.payload);
            assert(p matches MemoryPayload::Commitment(x) && x.status == CommitmentStatus::Pending
                && x.completion_source_event_id is None);
        },
        _ => {},
    }
}

/// Inserting a text into an ascending list at its place.
spec fn insert_ascending(r: Seq<Seq<char>>, x: Seq<char>) -> Seq<Seq<char>>
    decreases r.len(),
{
    if r.len() == 0 {
        seq![x]
    } else if r[0] == x {
        r
    } else if text_lt(x, r[0]) {
        seq![x] + r
    } else {
        seq![r[0]] + insert_ascending(r.drop_first(), x)
    }
}

proof fn lemma_insert_ascending(r: Seq<Seq<char>>, x: Seq<char>)
    requires
        strictly_ascending(r),
    ensures
        strictly_ascending(insert_ascending(r, x)),
        forall|y: Seq<char>| #[trigger] insert_ascending(r, x).contains(y) <==> (r.contains(y) || y == x),
    decreases r.len(),
{
    let s = insert_ascending(r, x);
    if r.len() == 0 {
        assert(s =~= seq![x]);
        assert forall|y: Seq<char>| s.contains(y) <==> (r.contains(y) || y == x) by {
            if s.contains(y) {
                assert(s[0] == y);
            }
            if y == x {
                assert(s[0] == y);
            }
        }
    } else if r[0] == x {
        assert forall|y: Seq<char>| s.contains(y) <==> (r.contains(y) || y == x) by {
            if y == x {
                assert(r[0] == y);
            }
        }
    } else if text_lt(x, r[0]) {
        assert forall|i: int, j: int| 0 <= i < j < s.len() implies text_lt(#[trigger] s[i], #[trigger] s[j]) by {
            if i == 0 {
                if j > 1 {
                    lemma_text_lt_transitive(x, r[0], r[j - 1]);
                }
            } else {
                assert(s[i] == r[i - 1] && s[j] == r[j - 1]);
            }
        }
        assert forall|y: Seq<char>| s.contains(y) <==> (r.contains(y) || y == x) by {
            if s.contains(y) {
                let k = choose|k: int| 0 <= k < s.len() && s[k] == y;
                if k > 0 {
                    assert(r[k - 1] == y);
                }
            }
            if r.contains(y) {
                let k = choose|k: int| 0 <= k < r.len() && r[k] == y;
                assert(s[k + 1] == y);
            }
            if y == x {
                assert(s[0] == y);
            }
        }
    } else {
        let r1 = r.drop_first();
        assert forall|i: int, j: int| 0 <= i < j < r1.len() implies text_lt(#[trigger] r1[i], #[trigger] r1[j]) by {
            assert(r1[i] == r[i + 1] && r1[j] == r[j + 1]);
        }
        lemma_insert_ascending(r1, x);
        let t = insert_ascending(r1, x);
        lemma_text_lt_total(x, r[0]);
        assert(text_lt(r[0], x));
        assert(s == seq![r[0]] + t);
        assert forall|k: int| 0 <= k < t.len() implies text_lt(r[0], #[trigger] t[k]) by {
            assert(t.contains(t[k]));
            if t[k] != x {
                assert(r1.contains(t[k]));
                let m = choose|m: int| 0 <= m < r1.len() && r1[m] == t[k];
                assert(r[m + 1] == t[k]);
            }
        }
        assert forall|i: int, j: int| 0 <= i < j < s.len() implies text_lt(#[trigger] s[i], #[trigger] s[j]) by {
            if i == 0 {
                assert(s[j] == t[j - 1]);
            } else {
                assert(s[i] == t[i - 1] && s[j] == t[j - 1]);
            }
        }
        assert forall|y: Seq<char>| s.contains(y) <==> (r.contains(y) || y == x) by {
            if s.contains(y) {
                let k = choose|k: int| 0 <= k < s.len() && s[k] == y;
                if k > 0 {
                    assert(t[k - 1] == y);
                    assert(t.contains(y));
                    if y != x {
                        assert(r1.contains(y));
                        let m = choose|m: int| 0 <= m < r1.len() && r1[m] == y;
                        assert(r[m + 1] == y);
                    }
                } else {
                    assert(r[0] == y);
                }
            }
            if r.contains(y) {
                let k = choose|k: int| 0 <= k < r.len() && r[k] == y;
                if k == 0 {
                    assert(s[0] == y);
                } else {
                    assert(r1[k - 1] == y);
                    assert(r1.contains(y));
                    assert(t.contains(y));
                    let m = choose|m: int| 0 <= m < t.len() && t[m] == y;
                    assert(s[m + 1] == y);
                }
            }
            if y == x {
                assert(t.contains(y));
                let m = choose|m: int| 0 <= m < t.len() && t[m] == y;
                assert(s[m + 1] == y);
            }
        }
    }
}

/// Every list of texts has an ascending list of its distinct texts.
proof fn lemma_sorted_distinct_exists(ids: Seq<Seq<char>>)
    ensures
        strictly_ascending(sorted_distinct(ids)),
        same_elements(sorted_distinct(ids), ids),
    decreases ids.len(),
{
    if ids.len() == 0 {
        let r = Seq::<Seq<char>>::empty();
        assert(strictly_ascending(r));
        assert(same_elements(r, ids));
    } else {
        let init = ids.drop_last();
        lemma_sorted_distinct_exists(init);
        let r0 = sorted_distinct(init);
        lemma_insert_ascending(r0, ids.last());
        let r = insert_ascending(r0, ids.last());
        assert forall|y: Seq<char>| r.contains(y) <==> ids.contains(y) by {
            if ids.contains(y) {
                let k = choose|k: int| 0 <= k < ids.len() && ids[k] == y;
                if k < ids.len() - 1 {
                    assert(init[k] == y);
                    assert(init.contains(y));
                }
            }
            if init.contains(y) {
                let k = choose|k: int| 0 <= k < init.len() && init[k] == y;
                assert(ids[k] == y);
            }
            if y == ids.last() {
                assert(ids[ids.len() - 1] == y);
            }
        }
        assert(strictly_ascending(r) && same_elements(r, ids));
    }
}

/// The fingerprint does not depend on the order of the sources nor on
/// repeated sources: sources that cite the same set of events give the same
/// fingerprint.
pub proof fn law_fingerprint_ignores_source_order(
    account: SourceAccountRef,
    payload: MemoryPayload,
    subject_key: Seq<char>,
    sources_a: Seq<MemoryCandidateSource>,
    sources_b: Seq<MemoryCandidateSource>,
    extractor_version: Seq<char>,
)
    requires
        same_elements(source_id_texts(sources_a), source_id_texts(sources_b)),
    ensures
        fingerprint_of(account, payload, subject_key, sources_a, extractor_version) == fingerprint_of(
            account,
            payload,
            subject_key,
            sources_b,
            extractor_version,
        ),
{
    let a = source_id_texts(sources_a);
    let b = source_id_texts(sources_b);
    lemma_sorted_distinct_exists(a);
    lemma_sorted_distinct_exists(b);
    lemma_ascending_unique(sorted_distinct(a), sorted_distinct(b));
}

/// The fingerprint does not depend on white space around the subject key:
/// subjects that trim to the same text give the same fingerprint.
pub proof fn law_fingerprint_ignores_subject_padding(
    account: SourceAccountRef,
    payload: MemoryPayload,
    subject_a: Seq<char>,
    subject_b: Seq<char>,
    sources: Seq<MemoryCandidateSource>,
    extractor_version: Seq<char>,
)
    requires
        trimmed(subject_a) == trimmed(subject_b),
    ensures
        fingerprint_of(account, payload, subject_a, sources, extractor_version) == fingerprint_of(
            account,
            payload,
            subject_b,
            sources,
            extractor_version,
        ),
{
}

// ---------------------------------------------------------------------------
// Notification evaluation.

/// A candidate that is no longer current is expired, whatever the rules.
pub proof fn law_stale_candidate_expires(input: EvaluationInput)
    requires
        !input.candidate_is_current,
    ensures
        evaluation_plan(input) == plan_of(
            NotificationOutcome::CandidateExpired,
            DecisionReason::CandidateExpired,
        ),
{
}

/// A fully silent conversation suppresses a current candidate unless both
/// the matching rule and the conversation grant a bypass.
pub proof fn law_fully_silent_needs_two_grants(input: EvaluationInput)
    requires
        input.candidate_is_current,
        input.conversation_rule matches Some(c) && c.mode == ConversationMode::FullySilent,
        !(input.matching_rule matches Some(r) && r.bypass_quiet && input.conversation_rule.unwrap().allow_bypass),
    ensures
        evaluation_plan(input) == plan_of(
            NotificationOutcome::Suppress,
            DecisionReason::ConversationFullySilent,
        ),
{
}

/// During an active quiet period a current, not silenced candidate is
/// suppressed unless the deciding rule and the quiet-hours rule both grant
/// a bypass.
pub proof fn law_quiet_hours_need_two_grants(input: EvaluationInput)
    requires
        input.candidate_is_current,
        !silenced_by_conversation(input),
        input.quiet_hours matches Some(q) && quiet_hours_outcome(q, input.now_unix_secs) == Ok::<
            bool,
            QuietHoursFault,
        >(true),
        !quiet_hours_bypassed(input),
    ensures
        evaluation_plan(input) == plan_of(NotificationOutcome::Suppress, DecisionReason::QuietHours),
{
}

/// A malformed quiet-hours rule fails the evaluation for good and is never
/// reported as an ambiguous schedule time.
pub proof fn law_malformed_quiet_hours_fail_terminally(input: EvaluationInput)
    requires
        input.candidate_is_current,
        !silenced_by_conversation(input),
        input.quiet_hours matches Some(q) && quiet_hours_outcome(q, input.now_unix_secs) == Err::<
            bool,
            QuietHoursFault,
        >(QuietHoursFault::Invalid),
    ensures
        evaluation_plan(input) == plan_of(
            NotificationOutcome::EvaluationFailedTerminal,
            DecisionReason::InvalidQuietHours,
        ),
        evaluation_plan(input).outcome != NotificationOutcome::ScheduleTimeAmbiguous,
{
}

/// Outside quiet periods and silence, the first present rule decides, in the
/// order matching conversation rule, contact, category, account default;
/// with no rule the candidate is reminded.
pub proof fn law_rule_precedence(input: EvaluationInput)
    requires
        input.candidate_is_current,
        !silenced_by_conversation(input),
        input.quiet_hours is None,
    ensures
        evaluation_plan(input) == rule_plan(selected_rule(input), input.now_unix_secs),
        input.matching_rule matches Some(r) ==> evaluation_plan(input) == rule_decision(
            r.outcome,
            DecisionReason::ConversationPolicy,
            input.now_unix_secs,
        ),
        (input.matching_rule is None && input.contact_rule is Some) ==> evaluation_plan(input)
            == rule_decision(
            input.contact_rule.unwrap().outcome,
            DecisionReason::ContactPolicy,
            input.now_unix_secs,
        ),
        (input.matching_rule is None && input.contact_rule is None && input.category_rule is Some)
            ==> evaluation_plan(input) == rule_decision(
            input.category_rule.unwrap().outcome,
            DecisionReason::CategoryPolicy,
            input.now_unix_secs,
        ),
        (input.matching_rule is None && input.contact_rule is None && input.category_rule is None
            && input.account_default_rule is None) ==> evaluation_plan(input) == plan_of(
            NotificationOutcome::Remind,
            DecisionReason::AccountDefaultPolicy,
        ),
{
}

/// The evaluator fixes a delay's next evaluation time from its own clock:
/// every delay carries a time, later than the clock unless the clock is at
/// its last second, and no other decision carries one.
pub proof fn law_only_delays_carry_next_time(input: EvaluationInput)
    ensures
        evaluation_plan(input).outcome == NotificationOutcome::Delay
            <==> evaluation_plan(input).next_allowed_at_unix_secs is Some,
        evaluation_plan(input).next_allowed_at_unix_secs matches Some(t) ==> {
            &&& t == delayed_until(input.now_unix_secs)
            &&& input.now_unix_secs < i64::MAX ==> t > input.now_unix_secs
        },
{
}

/// Every decision the evaluator makes at a clock from the epoch on can be
/// committed: a delay's next evaluation time is positive, so the commit
/// step never has to supply one.
pub proof fn law_evaluator_decisions_complete(input: EvaluationInput)
    requires
        input.now_unix_secs >= 0,
    ensures
        completion_permitted(evaluation_plan(input)),
{
}

/// A quiet-hours rule that passed the schedule check at a time does not
/// make an evaluation at that same time report an ambiguous schedule.
pub proof fn law_checked_quiet_hours_not_ambiguous_now(rule: QuietHoursRule, now_unix_secs: i64)
    requires
        schedule_check(rule, now_unix_secs) is Ok,
    ensures
        quiet_hours_outcome(rule, now_unix_secs) != Err::<bool, QuietHoursFault>(
            QuietHoursFault::Ambiguous,
        ),
{
    let zone = rule.timezone_name@;
    let bounds = boundaries_of(rule).unwrap();
    let range = effective_range_of(rule).unwrap();
    let (first, time) = local_clock(zone, now_unix_secs).unwrap();
    assert(first_failing_day(zone, first, bounds, range, 0) >= 400);
    assert(schedule_day_ok(zone, first, bounds, range, 0));
}

// ---------------------------------------------------------------------------
// Stored codes.

/// Reading back the stored name of a memory fact status gives the status.
pub proof fn law_fact_status_round_trip(status: MemoryFactStatus)
    ensures
        fact_status_of_code(status.name()) == Some(status),
{
    reveal_strlit("proposed");
    reveal_strlit("confirmed");
    reveal_strlit("superseded");
    reveal_strlit("expired");
    reveal_strlit("deleted");
    assert("proposed"@.len() != "confirmed"@.len());
    assert("proposed"@.len() != "superseded"@.len());
    assert("proposed"@.len() != "expired"@.len());
    assert("proposed"@.len() != "deleted"@.len());
    assert("confirmed"@.len() != "superseded"@.len());
    assert("confirmed"@.len() != "expired"@.len());
    assert("confirmed"@.len() != "deleted"@.len());
    assert("superseded"@.len() != "expired"@.len());
    assert("superseded"@.len() != "deleted"@.len());
    assert("expired"@[0] != "deleted"@[0]);
}

/// Reading back the stored code of a trust level gives the level.
pub proof fn law_trust_level_round_trip(level: ContentTrustLevel)
    ensures
        trust_level_of_code(trust_level_code(level)) == Some(level),
{
    reveal_strlit("normal");
    reveal_strlit("local_only");
    reveal_strlit("envelope_only");
    reveal_strlit("never_long_term");
    assert("normal"@.len() != "local_only"@.len());
    assert("normal"@.len() != "envelope_only"@.len());
    assert("normal"@.len() != "never_long_term"@.len());
    assert("local_only"@.len() != "envelope_only"@.len());
    assert("local_only"@.len() != "never_long_term"@.len());
    assert("envelope_only"@.len() != "never_long_term"@.len());
}

/// Reading back the stored name of a message source gives the source.
pub proof fn law_message_source_round_trip(source: MessageSource)
    ensures
        message_source_of_code(source.name()) == Some(source),
{
    reveal_strlit("napcat");
    reveal_strlit("qq_open_platform");
    assert("napcat"@.len() != "qq_open_platform"@.len());
}

/// Reading back the stored name of a conversation kind gives the kind.
pub proof fn law_conversation_kind_round_trip(kind: ConversationKind)
    ensures
        conversation_kind_of_code(kind.name()) == Some(kind),
{
    reveal_strlit("private");
    reveal_strlit("group");
    reveal_strlit("owner_control");
    assert("private"@.len() != "group"@.len());
    assert("private"@.len() != "owner_control"@.len());
    assert("group"@.len() != "owner_control"@.len());
}

/// Reading back the stored code of an actor kind gives the kind.
pub proof fn law_actor_kind_round_trip(kind: VerifiedActorKind)
    ensures
        actor_kind_of_code(actor_kind_code(kind)) == Some(kind),
{
    reveal_strlit("owner");
    reveal_strlit("official_bot");
    reveal_strlit("external");
    assert("owner"@.len() != "official_bot"@.len());
    assert("owner"@.len() != "external"@.len());
    assert("official_bot"@.len() != "external"@.len());
}

/// Reading back the stored code of a message role gives the role.
pub proof fn law_message_role_round_trip(role: MessageRole)
    ensures
        message_role_of_code(message_role_code(role)) == Some(role),
{
    reveal_strlit("owner_command");
    reveal_strlit("owner_observation");
    reveal_strlit("external_observation");
    reveal_strlit("assistant_output");
    assert("owner_command"@.len() != "owner_observation"@.len());
    assert("owner_command"@.len() != "external_observation"@.len());
    assert("owner_command"@.len() != "assistant_output"@.len());
    assert("owner_observation"@.len() != "external_observation"@.len());
    assert("owner_observation"@.len() != "assistant_output"@.len());
    assert("external_observation"@.len() != "assistant_output"@.len());
}

/// Reading back the stored code of a thread status gives the status.
pub proof fn law_thread_status_round_trip(status: ThreadStatus)
    ensures
        thread_status_of_code(thread_status_code(status)) == Some(status),
{
    reveal_strlit("open");
    reveal_strlit("waiting");
    reveal_strlit("resolved");
    reveal_strlit("closed");
    reveal_strlit("reopened");
    assert("open"@.len() != "waiting"@.len());
    assert("open"@.len() != "resolved"@.len());
    assert("open"@.len() != "closed"@.len());
    assert("open"@.len() != "reopened"@.len());
    assert("waiting"@.len() != "resolved"@.len());
    assert("waiting"@.len() != "closed"@.len());
    assert("waiting"@.len() != "reopened"@.len());
    assert("resolved"@.len() != "closed"@.len());
    assert("resolved"@[2] != "reopened"@[2]);
    assert("closed"@.len() != "reopened"@.len());
}

/// Reading back the stored code of a thread mutation status gives it.
pub proof fn law_mutation_status_round_trip(status: ThreadMutationProposalStatus)
    ensures
        mutation_status_of_code(mutation_status_code(status)) == Some(status),
{
    reveal_strlit("awaiting_approval");
    reveal_strlit("approved");
    reveal_strlit("rejected");
    reveal_strlit("applying");
    reveal_strlit("applied");
    reveal_strlit("failed");
    reveal_strlit("unknown_commit");
    assert("awaiting_approval"@.len() != "approved"@.len());
    assert("awaiting_approval"@.len() != "rejected"@.len());
    assert("awaiting_approval"@.len() != "applying"@.len());
    assert("awaiting_approval"@.len() != "applied"@.len());
    assert("awaiting_approval"@.len() != "failed"@.len());
    assert("awaiting_approval"@.len() != "unknown_commit"@.len());
    assert("approved"@[0] != "rejected"@[0]);
    assert("approved"@[3] != "applying"@[3]);
    assert("approved"@.len() != "applied"@.len());
    assert("approved"@.len() != "failed"@.len());
    assert("approved"@.len() != "unknown_commit"@.len());
    assert("rejected"@[0] != "applying"@[0]);
    assert("rejected"@.len() != "applied"@.len());
    assert("rejected"@.len() != "failed"@.len());
    assert("rejected"@.len() != "unknown_commit"@.len());
    assert("applying"@.len() != "applied"@.len());
    assert("applying"@.len() != "failed"@.len());
    assert("applying"@.len() != "unknown_commit"@.len());
    assert("applied"@.len() != "failed"@.len());
    assert("applied"@.len() != "unknown_commit"@.len());
    assert("failed"@.len() != "unknown_commit"@.len());
}

/// Reading back the stored name of a policy kind gives the kind.
pub proof fn law_policy_kind_round_trip(kind: NotificationPolicyKind)
    ensures
        policy_kind_of_code(policy_kind_code(kind)) == Some(kind),
{
    reveal_strlit("account_default");
    reveal_strlit("conversation");
    reveal_strlit("contact");
    reveal_strlit("category");
    reveal_strlit("quiet_hours");
    reveal_strlit("similar_notification");
    reveal_strlit("automatic_reply_denied");
    assert("account_default"@.len() != "conversation"@.len());
    assert("account_default"@.len() != "contact"@.len());
    assert("account_default"@.len() != "category"@.len());
    assert("account_default"@.len() != "quiet_hours"@.len());
    assert("account_default"@.len() != "similar_notification"@.len());
    assert("account_default"@.len() != "automatic_reply_denied"@.len());
    assert("conversation"@.len() != "contact"@.len());
    assert("conversation"@.len() != "category"@.len());
    assert("conversation"@.len() != "quiet_hours"@.len());
    assert("conversation"@.len() != "similar_notification"@.len());
    assert("conversation"@.len() != "automatic_reply_denied"@.len());
    assert("contact"@.len() != "category"@.len());
    assert("contact"@.len() != "quiet_hours"@.len());
    assert("contact"@.len() != "similar_notification"@.len());
    assert("contact"@.len() != "automatic_reply_denied"@.len());
    assert("category"@.len() != "quiet_hours"@.len());
    assert("category"@.len() != "similar_notification"@.len());
    assert("category"@.len() != "automatic_reply_denied"@.len());
    assert("quiet_hours"@.len() != "similar_notification"@.len());
    assert("quiet_hours"@.len() != "automatic_reply_denied"@.len());
    assert("similar_notification"@.len() != "automatic_reply_denied"@.len());
}

// ---------------------------------------------------------------------------
// Memory store.

/// An owner's deletion command applied again, once its deletion is
/// recorded, is a replay that changes nothing, whatever the fact's status
/// has become.
pub proof fn law_repeated_deletion_is_replay(
    context: MemoryDeleteContextRow,
    recorded: MemoryDeletionRow,
    input: MemoryDeleteInput,
)
    requires
        context.message_role@ == "owner_command"@,
        recorded.command_source_event_id@ == input.command_source_event_id@,
        recorded.reason@ == input.reason@,
    ensures
        delete_step_of(context, Some(recorded), input) == Some(MemoryDeleteStep::Replay),
{
}

/// Appending a fact whose identifier is stored with the very same content
/// is a replay: every fact has the same content as itself.
pub proof fn law_reappended_fact_is_replay(fact: MemoryFact)
    ensures
        same_fact_content(fact, fact),
{
}

// ---------------------------------------------------------------------------
// Agenda.

/// The receipt reference of an applied agenda mutation names its item: the
/// identifier read back from it is the item's, for identifiers without a
/// colon (generated identifiers have none).
pub proof fn law_result_ref_names_item(item: AgendaItem)
    requires
        forall|j: int| 0 <= j < item.item_id@.len() ==> item.item_id@[j] != ':',
    ensures
        second_field(result_ref_of(item)) == Some(item.item_id@),
{
    reveal_strlit("agenda:");
    reveal_strlit(":v");
    let id = item.item_id@;
    let n: int = id.len() as int;
    let s = result_ref_of(item);
    let head = "agenda:"@ + id;
    let tail = s.skip(head.len() as int);
    assert(s =~= head + tail);
    assert(tail[0] == ':');
    assert(s[6] == ':');
    assert forall|j: int| 0 <= j < 6 implies s[j] != ':' by {
        assert(s[j] == "agenda:"@[j]);
    }
    lemma_colon_index_at(s, 0, 6);
    assert(s[7 + n] == ':');
    assert forall|j: int| 7 <= j < 7 + n implies s[j] != ':' by {
        assert(s[j] == id[j - 7]);
    }
    lemma_colon_index_at(s, 7, 7 + n);
    assert(s.subrange(7, 7 + n) =~= id);
}

/// An applied agenda update reads back one version after the one the
/// command saw, in the status the mutation names: scheduled at the new time
/// after a reschedule or snooze, completed or cancelled otherwise, with its
/// time kept.
pub proof fn law_agenda_update_advances_one_version(
    mutation: AgendaMutation,
    current: AgendaRow,
    stored: AgendaRow,
    item: AgendaItem,
    account: SourceAccountRef,
    command: Seq<char>,
    db_now_unix_secs: i64,
)
    requires
        update_applies(mutation, Some(current)),
        updated_row_ok(stored, current, mutation, command, db_now_unix_secs),
        item_reads_row(item, stored, account),
    ensures
        expected_version_of(mutation) == Some(current.version),
        item.version == current.version + 1,
        mutation matches AgendaMutation::Reschedule { scheduled_at_unix_secs, .. } ==> item.status
            == AgendaItemStatus::Scheduled && item.scheduled_at_unix_secs == Some(
            scheduled_at_unix_secs,
        ),
        mutation matches AgendaMutation::Snooze { scheduled_at_unix_secs, .. } ==> item.status
            == AgendaItemStatus::Scheduled && item.scheduled_at_unix_secs == Some(
            scheduled_at_unix_secs,
        ),
        mutation is Complete ==> item.status == AgendaItemStatus::Completed
            && item.scheduled_at_unix_secs == current.scheduled_at_unix_secs,
        mutation is Cancel ==> item.status == AgendaItemStatus::Cancelled
            && item.scheduled_at_unix_secs == current.scheduled_at_unix_secs,
        mutation matches AgendaMutation::Reschedule { timezone, .. } ==> item.timezone@ == timezone@,
        mutation matches AgendaMutation::Snooze { timezone, .. } ==> item.timezone@ == timezone@,
        (mutation is Complete || mutation is Cancel) ==> item.timezone@ == current.timezone_name@,
        item.title@ == current.title@,
        item.item_id@ == current.item_id@,
        item.current_version_command@ == command,
        item.created_by_command@ == current.created_command_event_id@,
{
    reveal_strlit("scheduled");
    reveal_strlit("completed");
    reveal_strlit("cancelled");
    assert("completed"@ != "scheduled"@) by {
        assert("completed"@[0] != "scheduled"@[0]);
    }
    assert("cancelled"@ != "scheduled"@) by {
        assert("cancelled"@[1] != "scheduled"@[1]);
    }
    assert("cancelled"@ != "completed"@) by {
        assert("cancelled"@[1] != "completed"@[1]);
    }
}

/// A profile keeps at most ten source events, none twice, and always the
/// event just observed, which comes last when it is new.
pub proof fn law_profile_sources_stay_bounded(ids: Seq<Seq<char>>, id: Seq<char>)
    requires
        ids.len() <= MAX_PROFILE_SOURCE_EVENTS,
        ids.no_duplicates(),
    ensures
        appended_sources(ids, id).len() <= MAX_PROFILE_SOURCE_EVENTS,
        appended_sources(ids, id).no_duplicates(),
        appended_sources(ids, id).contains(id),
        !ids.contains(id) ==> appended_sources(ids, id).last() == id,
{
    let r = appended_sources(ids, id);
    if ids.contains(id) {
    } else {
        let base = if ids.len() >= MAX_PROFILE_SOURCE_EVENTS {
            ids.subrange(1, ids.len() as int)
        } else {
            ids
        };
        assert(r == base.push(id));
        assert(r[r.len() - 1] == id);
        assert forall|i: int, j: int| 0 <= i < j < r.len() implies r[i] != r[j] by {
            if j == r.len() - 1 {
                if ids.len() >= MAX_PROFILE_SOURCE_EVENTS {
                    assert(r[i] == ids[i + 1]);
                } else {
                    assert(r[i] == ids[i]);
                }
            } else if ids.len() >= MAX_PROFILE_SOURCE_EVENTS {
                assert(r[i] == ids[i + 1] && r[j] == ids[j + 1]);
            } else {
                assert(r[i] == ids[i] && r[j] == ids[j]);
            }
        }
    }
}

/// A profile keeps at most ten aliases, each at most 200 characters long
/// and none twice, when an earlier display name (itself at most 200
/// characters, as every stored display name is) joins them.
pub proof fn law_profile_aliases_stay_bounded(
    aliases: Seq<(Seq<char>, Seq<char>)>,
    old_name: Seq<char>,
    source: Seq<char>,
)
    requires
        aliases.len() <= MAX_PROFILE_ALIASES,
        forall|k: int| 0 <= k < aliases.len() ==> (#[trigger] aliases[k]).0.len() <= MAX_PROFILE_NAME_CHARS,
        forall|i: int, j: int| 0 <= i < j < aliases.len() ==> (#[trigger] aliases[i]).0 != (#[trigger] aliases[j]).0,
        old_name.len() <= MAX_PROFILE_NAME_CHARS,
    ensures
        ({
            let m = merged_aliases(aliases, old_name, source);
            &&& m.len() <= MAX_PROFILE_ALIASES
            &&& forall|k: int| 0 <= k < m.len() ==> (#[trigger] m[k]).0.len() <= MAX_PROFILE_NAME_CHARS
            &&& forall|i: int, j: int| 0 <= i < j < m.len() ==> (#[trigger] m[i]).0 != (#[trigger] m[j]).0
        }),
{
    let m = merged_aliases(aliases, old_name, source);
    let grown = if old_name.len() > 0 && !has_alias(aliases, old_name) {
        aliases.push((first_chars(old_name, MAX_PROFILE_NAME_CHARS as int), source))
    } else {
        aliases
    };
    assert(first_chars(old_name, MAX_PROFILE_NAME_CHARS as int) == old_name);
    assert forall|i: int, j: int| 0 <= i < j < grown.len() implies (#[trigger] grown[i]).0 != (#[trigger] grown[j]).0 by {
        if j == aliases.len() {
            if grown[i].0 == grown[j].0 {
                assert(aliases[i].0 == old_name);
                assert(has_alias(aliases, old_name));
            }
        } else {
            assert(grown[i] == aliases[i] && grown[j] == aliases[j]);
        }
    }
    assert forall|k: int| 0 <= k < grown.len() implies (#[trigger] grown[k]).0.len() <= MAX_PROFILE_NAME_CHARS by {
        if k < aliases.len() {
            assert(grown[k] == aliases[k]);
        }
    }
    if grown.len() > MAX_PROFILE_ALIASES {
        assert(m == grown.take(MAX_PROFILE_ALIASES as int));
        assert forall|i: int, j: int| 0 <= i < j < m.len() implies (#[trigger] m[i]).0 != (#[trigger] m[j]).0 by {
            assert(m[i] == grown[i] && m[j] == grown[j]);
        }
        assert forall|k: int| 0 <= k < m.len() implies (#[trigger] m[k]).0.len() <= MAX_PROFILE_NAME_CHARS by {
            assert(m[k] == grown[k]);
        }
    } else {
        assert(m == grown);
    }
}

/// The texts a semantic batch keeps never hold more characters than its
/// budget: what they keep and what is left add up to the budget.
pub proof fn law_semantic_budget_never_exceeded(texts: Seq<Seq<char>>, max_total_chars: u32, i: int)
    requires
        0 <= i,
    ensures
        kept_chars(texts, max_total_chars as int, i) + budget_left(texts, max_total_chars as int, i)
            == max_total_chars,
        0 <= budget_left(texts, max_total_chars as int, i),
        kept_chars(texts, max_total_chars as int, i) <= max_total_chars,
    decreases i,
{
    if i > 0 {
        law_semantic_budget_never_exceeded(texts, max_total_chars, i - 1);
    }
}

/// A gap whose run was suspended is not claimed again by any automatic
/// claim before the year 10000; one that backs off becomes claimable exactly
/// when its backoff has passed (while uncertain, with its outage over).
pub proof fn law_reclaim_schedule_governs_claims(
    policy: ReclaimPolicy,
    finalized_at_unix_secs: i64,
    claim_at_unix_secs: i64,
    gap_status: Seq<char>,
    gap_ended: bool,
)
    requires
        backoff_fits(policy, finalized_at_unix_secs),
    ensures
        policy is Suspended && claim_at_unix_secs < SUSPENDED_UNTIL_UNIX_SECS ==> (schedule_change_of(
            policy,
            finalized_at_unix_secs,
        ) matches ScheduleChange::EligibleAt(t) && !gap_claimable(
            gap_status,
            gap_ended,
            Some(t),
            claim_at_unix_secs,
        )),
        policy matches ReclaimPolicy::Backoff(secs) ==> (schedule_change_of(
            policy,
            finalized_at_unix_secs,
        ) matches ScheduleChange::EligibleAt(t) && (gap_claimable(
            gap_status,
            gap_ended,
            Some(t),
            claim_at_unix_secs,
        ) <==> (gap_status == "uncertain"@ && gap_ended && claim_at_unix_secs
            >= finalized_at_unix_secs + secs))),
{
}

// ---------------------------------------------------------------------------
// What the main operations do, stated on their inputs.

/// Outside a fully silent conversation and without quiet hours, a current
/// candidate with no conversation, contact or category rule but an account
/// default rule gets that rule's outcome, for the account default reason;
/// a delay carries the time one delay period after the clock, and any other
/// outcome no time.
pub proof fn law_account_default_decides(input: EvaluationInput)
    requires
        input.candidate_is_current,
        !(input.conversation_rule matches Some(c) && c.mode == ConversationMode::FullySilent),
        input.quiet_hours is None,
        input.matching_rule is None,
        input.contact_rule is None,
        input.category_rule is None,
        input.account_default_rule is Some,
    ensures
        evaluation_plan(input).outcome == input.account_default_rule.unwrap().outcome,
        evaluation_plan(input).reason == DecisionReason::AccountDefaultPolicy,
        evaluation_plan(input).next_allowed_at_unix_secs == if input.account_default_rule.unwrap().outcome
            == NotificationOutcome::Delay {
            Some(delayed_until(input.now_unix_secs))
        } else {
            None::<i64>
        },
{
}

/// Outside a fully silent conversation and without quiet hours, a current
/// candidate's decision is the outcome of the first rule present among the
/// matching conversation rule, the contact rule, the category rule and the
/// account default rule, for that rule's reason, and a reminder for the
/// account default reason when none is; only a delay carries a time.
pub proof fn law_first_present_rule_gives_the_outcome(input: EvaluationInput)
    requires
        input.candidate_is_current,
        !(input.conversation_rule matches Some(c) && c.mode == ConversationMode::FullySilent),
        input.quiet_hours is None,
    ensures
        evaluation_plan(input).reason == if input.matching_rule is Some {
            DecisionReason::ConversationPolicy
        } else if input.contact_rule is Some {
            DecisionReason::ContactPolicy
        } else if input.category_rule is Some {
            DecisionReason::CategoryPolicy
        } else {
            DecisionReason::AccountDefaultPolicy
        },
        (evaluation_plan(input).next_allowed_at_unix_secs is Some) == (evaluation_plan(input).outcome
            == NotificationOutcome::Delay),
        evaluation_plan(input).outcome == if input.matching_rule is Some {
            input.matching_rule.unwrap().outcome
        } else if input.contact_rule is Some {
            input.contact_rule.unwrap().outcome
        } else if input.category_rule is Some {
            input.category_rule.unwrap().outcome
        } else if input.account_default_rule is Some {
            input.account_default_rule.unwrap().outcome
        } else {
            NotificationOutcome::Remind
        },
{
}

proof fn lemma_first_failing_day_reaches(
    zone: Seq<char>,
    first: LocalDate,
    bounds: (LocalTime, LocalTime),
    range: (Option<LocalDate>, Option<LocalDate>),
    j: int,
    k: int,
)
    requires
        0 <= j <= k < QUIET_HOURS_CHECK_DAYS,
        !schedule_day_ok(zone, first, bounds, range, k),
    ensures
        j <= first_failing_day(zone, first, bounds, range, j) <= k,
        !schedule_day_ok(zone, first, bounds, range, first_failing_day(zone, first, bounds, range, j)),
    decreases k - j,
{
    if schedule_day_ok(zone, first, bounds, range, j) {
        lemma_first_failing_day_reaches(zone, first, bounds, range, j + 1, k);
    }
}

/// A quiet-hours rule is refused when, on any of the 400 local dates from
/// the current one on, the rule is in effect and one of its boundaries does
/// not exist exactly once; when every date up to that one exists, the
/// refusal is an ambiguous schedule time.
pub proof fn law_quiet_hours_check_covers_every_day(rule: QuietHoursRule, now_unix_secs: i64, k: int)
    requires
        zone_known(rule.timezone_name@),
        boundaries_of(rule) is Some,
        effective_range_of(rule) is Some,
        utc_representable(now_unix_secs),
        local_clock(rule.timezone_name@, now_unix_secs) is Some,
        0 <= k < QUIET_HOURS_CHECK_DAYS,
        checked_day(local_clock(rule.timezone_name@, now_unix_secs).unwrap().0, k) matches Some(d)
            && in_effect(effective_range_of(rule).unwrap(), d) && !(single_local(
            rule.timezone_name@,
            d,
            boundaries_of(rule).unwrap().0,
        ) && single_local(rule.timezone_name@, d, boundaries_of(rule).unwrap().1)),
    ensures
        schedule_check(rule, now_unix_secs) is Err,
        (forall|j: int|
            0 <= j <= k ==> (#[trigger] checked_day(
                local_clock(rule.timezone_name@, now_unix_secs).unwrap().0,
                j,
            )) is Some) ==> schedule_check(rule, now_unix_secs) == Err::<(), QuietHoursFault>(
            QuietHoursFault::Ambiguous,
        ),
{
    let zone = rule.timezone_name@;
    let first = local_clock(zone, now_unix_secs).unwrap().0;
    let bounds = boundaries_of(rule).unwrap();
    let range = effective_range_of(rule).unwrap();
    assert(!schedule_day_ok(zone, first, bounds, range, k));
    lemma_first_failing_day_reaches(zone, first, bounds, range, 0, k);
    let f = first_failing_day(zone, first, bounds, range, 0);
    assert(f < 400);
    if forall|j: int| 0 <= j <= k ==> (#[trigger] checked_day(first, j)) is Some {
        assert(checked_day(first, f) is Some);
    }
}

proof fn lemma_no_failing_day(
    zone: Seq<char>,
    first: LocalDate,
    bounds: (LocalTime, LocalTime),
    range: (Option<LocalDate>, Option<LocalDate>),
    j: int,
)
    requires
        0 <= j <= QUIET_HOURS_CHECK_DAYS,
        forall|k: int| j <= k < QUIET_HOURS_CHECK_DAYS ==> #[trigger] schedule_day_ok(zone, first, bounds, range, k),
    ensures
        first_failing_day(zone, first, bounds, range, j) >= QUIET_HOURS_CHECK_DAYS,
    decreases QUIET_HOURS_CHECK_DAYS - j,
{
    if j < QUIET_HOURS_CHECK_DAYS {
        assert(schedule_day_ok(zone, first, bounds, range, j));
        lemma_no_failing_day(zone, first, bounds, range, j + 1);
    }
}

/// A well-formed quiet-hours rule is accepted when each of the 400 local
/// dates from the current one on exists and, where the rule is in effect,
/// has both boundaries exactly once.
pub proof fn law_quiet_hours_check_accepts_sound_rules(rule: QuietHoursRule, now_unix_secs: i64)
    requires
        zone_known(rule.timezone_name@),
        boundaries_of(rule) is Some,
        effective_range_of(rule) is Some,
        utc_representable(now_unix_secs),
        local_clock(rule.timezone_name@, now_unix_secs) is Some,
        forall|k: int|
            0 <= k < QUIET_HOURS_CHECK_DAYS ==> ((#[trigger] checked_day(
                local_clock(rule.timezone_name@, now_unix_secs).unwrap().0,
                k,
            )) matches Some(d) && (in_effect(effective_range_of(rule).unwrap(), d) ==> single_local(
                rule.timezone_name@,
                d,
                boundaries_of(rule).unwrap().0,
            ) && single_local(rule.timezone_name@, d, boundaries_of(rule).unwrap().1))),
    ensures
        schedule_check(rule, now_unix_secs) is Ok,
{
    let zone = rule.timezone_name@;
    let first = local_clock(zone, now_unix_secs).unwrap().0;
    let bounds = boundaries_of(rule).unwrap();
    let range = effective_range_of(rule).unwrap();
    assert forall|k: int| 0 <= k < QUIET_HOURS_CHECK_DAYS implies #[trigger] schedule_day_ok(
        zone,
        first,
        bounds,
        range,
        k,
    ) by {
        assert(checked_day(first, k) is Some);
    }
    lemma_no_failing_day(zone, first, bounds, range, 0);
}

/// A commitment that names a completion event not among the fact's source
/// events is refused, as is a fulfilled one that names none.
pub proof fn law_completion_evidence_must_be_cited(
    payload: MemoryPayload,
    account: SourceAccountRef,
    ids: Seq<SourceEventId>,
)
    requires
        payload matches MemoryPayload::Commitment(c) && ((c.completion_source_event_id matches Some(
            e,
        ) && forall|i: int| 0 <= i < ids.len() ==> (#[trigger] ids[i])@ != e@) || (c.status
            == CommitmentStatus::Fulfilled && c.completion_source_event_id is None)),
    ensures
        !payload_ok(payload, account, ids),
{
}

/// An accepted payload cites between one and a hundred source events, none
/// twice, and its people are actors of the fact's account.
pub proof fn law_accepted_payload_is_well_sourced(
    payload: MemoryPayload,
    account: SourceAccountRef,
    ids: Seq<SourceEventId>,
)
    requires
        payload_ok(payload, account, ids),
    ensures
        1 <= ids.len() <= 100,
        forall|i: int, j: int| 0 <= i < j < ids.len() ==> (#[trigger] ids[i])@ != (#[trigger] ids[j])@,
        payload matches MemoryPayload::Person(p) ==> p.person.account == account || (
        p.person.account.channel == account.channel && p.person.account.account_id@
            == account.account_id@),
        payload matches MemoryPayload::Commitment(c) ==> (c.completion_source_event_id matches Some(e)
            ==> exists|i: int| 0 <= i < ids.len() && (#[trigger] ids[i])@ == e@),
{
}

/// A fact whose commitment names a completion event not among its source
/// events fails validation.
pub proof fn law_fact_without_cited_completion_is_invalid(fact: MemoryFact)
    requires
        fact.payload matches MemoryPayload::Commitment(c) && c.completion_source_event_id matches Some(
            e,
        ) && forall|i: int|
            0 <= i < fact.source_event_ids@.len() ==> (#[trigger] fact.source_event_ids@[i])@ != e@,
    ensures
        !fact_ok(fact),
{
}

/// An item created under a new idempotency key reads back scheduled at
/// version 1, at the time, in the zone, with the kind and title that the
/// creation carries, under the identifier drawn for it and with the command
/// as both its creator and its current version's author.
pub proof fn law_created_item_is_what_was_asked(
    mutation: AgendaMutation,
    stored: AgendaRow,
    item: AgendaItem,
    account: SourceAccountRef,
    item_id: Seq<char>,
    command: Seq<char>,
    db_now_unix_secs: i64,
)
    requires
        created_row_ok(stored, item_id, mutation, command, db_now_unix_secs),
        item_reads_row(item, stored, account),
    ensures
        mutation matches AgendaMutation::Create { kind, title, scheduled_at_unix_secs, timezone } && {
            &&& item.scheduled_at_unix_secs == Some(scheduled_at_unix_secs)
            &&& item.timezone@ == timezone@
            &&& item.title@ == title@
            &&& item.kind == kind
            &&& item.status == AgendaItemStatus::Scheduled
            &&& item.version == 1
            &&& item.item_id@ == item_id
            &&& item.created_by_command@ == command
            &&& item.current_version_command@ == command
        },
{
    reveal_strlit("scheduled");
    reveal_strlit("schedule");
    reveal_strlit("task");
    reveal_strlit("reminder");
    assert("task"@ != "schedule"@) by {
        assert("task"@.len() != "schedule"@.len());
    }
    assert("reminder"@ != "schedule"@) by {
        assert("reminder"@[0] != "schedule"@[0]);
    }
    assert("reminder"@ != "task"@) by {
        assert("reminder"@.len() != "task"@.len());
    }
}

/// Every owner command that carries an outcome writes a rule with that
/// outcome, that bypass and that match key; quiet hours and automatic-reply
/// denials write a suppressing rule that grants no bypass.
pub proof fn law_policy_write_keeps_the_commanded_outcome(action: PolicyWriteAction)
    ensures
        action matches PolicyWriteAction::SetAccountDefaultNotificationMode {
            match_key,
            outcome,
            bypass_quiet,
            ..
        } ==> write_rule(action).outcome == outcome && write_rule(action).bypass_quiet == bypass_quiet
            && write_rule(action).match_key == match_key,
        action matches PolicyWriteAction::SetConversationNotificationMode {
            match_key,
            outcome,
            bypass_quiet,
            ..
        } ==> write_rule(action).outcome == outcome && write_rule(action).bypass_quiet == bypass_quiet
            && write_rule(action).match_key == match_key,
        action matches PolicyWriteAction::SetImportantContact { match_key, outcome, bypass_quiet, .. }
            ==> write_rule(action).outcome == outcome && write_rule(action).bypass_quiet
            == bypass_quiet && write_rule(action).match_key == match_key,
        action matches PolicyWriteAction::SetNotificationCategoryImportance {
            match_key,
            outcome,
            bypass_quiet,
            ..
        } ==> write_rule(action).outcome == outcome && write_rule(action).bypass_quiet == bypass_quiet
            && write_rule(action).match_key == match_key,
        action matches PolicyWriteAction::CreateSimilarNotificationRule {
            match_key,
            outcome,
            bypass_quiet,
            ..
        } ==> write_rule(action).outcome == outcome && write_rule(action).bypass_quiet == bypass_quiet
            && write_rule(action).match_key == match_key,
        action matches PolicyWriteAction::SetQuietHours { match_key, .. } ==> write_rule(action).outcome
            == NotificationOutcome::Suppress && !write_rule(action).bypass_quiet && write_rule(
            action,
        ).match_key == match_key,
        action matches PolicyWriteAction::SetAutomaticReplyDeniedForContact { match_key, .. }
            ==> write_rule(action).outcome == NotificationOutcome::Suppress && !write_rule(
            action,
        ).bypass_quiet && write_rule(action).match_key == match_key,
{
}

/// Each owner command writes into the family kind it names.
pub proof fn law_policy_write_targets_its_family_kind(action: PolicyWriteAction)
    ensures
        action is SetAccountDefaultNotificationMode ==> write_kind(action)
            == NotificationPolicyKind::AccountDefault,
        action is SetConversationNotificationMode ==> write_kind(action)
            == NotificationPolicyKind::Conversation,
        action is SetQuietHours ==> write_kind(action) == NotificationPolicyKind::QuietHours,
        action is SetImportantContact ==> write_kind(action) == NotificationPolicyKind::Contact,
        action is SetNotificationCategoryImportance ==> write_kind(action)
            == NotificationPolicyKind::Category,
        action is CreateSimilarNotificationRule ==> write_kind(action)
            == NotificationPolicyKind::SimilarNotification,
        action is SetAutomaticReplyDeniedForContact ==> write_kind(action)
            == NotificationPolicyKind::AutomaticReplyDenied,
{
}

} // verus!
