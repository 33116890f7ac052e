//! Rules of the notification policy store that do not touch the database:
//! stored names, policy scopes, write-request bounds and which policy kind
//! a decision is attributed to.
use vstd::prelude::*;

use crate::identity::{str_equals, ConversationRef, SourceAccountRef};
use crate::json_text::{push_text, string_from_chars};
use crate::notification_policy::{
    NotificationPolicyFamily, PolicyFamilyId, PolicyRevisionId, policy_id_ok,
    DecisionReason, MatchField, NotificationCategory, NotificationMatchKeyV1,
    NotificationOutcome, NotificationPolicyError, NotificationPolicyKind, NotificationPolicyRule,
    RevisionKind, MAX_CANONICAL_SCOPE_KEY_BYTES, MAX_NOTIFICATION_AUDIT_SUMMARY_BYTES,
};
use crate::text::{is_blank, text_is_blank, utf8_len, utf8_len_within};

verus! {

/// Error of the policy store's own rules.
#[derive(Debug, Clone, Copy, PartialEq, Eq, Structural)]
pub enum PolicyStoreError {
    Conflict,
    Database,
}

/// A domain error met inside the store is reported as a conflict.
pub fn policy_error(error: NotificationPolicyError) -> (r: PolicyStoreError)
    ensures
        r == PolicyStoreError::Conflict,
{
    PolicyStoreError::Conflict
}

pub open spec fn category_code(category: NotificationCategory) -> Seq<char> {
    match category {
        NotificationCategory::Agenda => "agenda"@,
        NotificationCategory::FollowUp => "follow_up"@,
    }
}

pub fn notification_category_name(category: NotificationCategory) -> (r: &'static str)
    ensures
        r@ == category_code(category),
{
    match category {
        NotificationCategory::Agenda => "agenda",
        NotificationCategory::FollowUp => "follow_up",
    }
}

pub open spec fn policy_kind_code(kind: NotificationPolicyKind) -> Seq<char> {
    match kind {
        NotificationPolicyKind::AccountDefault => "account_default"@,
        NotificationPolicyKind::Conversation => "conversation"@,
        NotificationPolicyKind::Contact => "contact"@,
        NotificationPolicyKind::Category => "category"@,
        NotificationPolicyKind::QuietHours => "quiet_hours"@,
        NotificationPolicyKind::SimilarNotification => "similar_notification"@,
        NotificationPolicyKind::AutomaticReplyDenied => "automatic_reply_denied"@,
    }
}

pub fn policy_kind_name(kind: NotificationPolicyKind) -> (r: &'static str)
    ensures
        r@ == policy_kind_code(kind),
{
    match kind {
        NotificationPolicyKind::AccountDefault => "account_default",
        NotificationPolicyKind::Conversation => "conversation",
        NotificationPolicyKind::Contact => "contact",
        NotificationPolicyKind::Category => "category",
        NotificationPolicyKind::QuietHours => "quiet_hours",
        NotificationPolicyKind::SimilarNotification => "similar_notification",
        NotificationPolicyKind::AutomaticReplyDenied => "automatic_reply_denied",
    }
}

pub open spec fn policy_kind_of_code(code: Seq<char>) -> Option<NotificationPolicyKind> {
    if code == "account_default"@ {
        Some(NotificationPolicyKind::AccountDefault)
    } else if code == "conversation"@ {
        Some(NotificationPolicyKind::Conversation)
    } else if code == "contact"@ {
        Some(NotificationPolicyKind::Contact)
    } else if code == "category"@ {
        Some(NotificationPolicyKind::Category)
    } else if code == "quiet_hours"@ {
        Some(NotificationPolicyKind::QuietHours)
    } else if code == "similar_notification"@ {
        Some(NotificationPolicyKind::SimilarNotification)
    } else if code == "automatic_reply_denied"@ {
        Some(NotificationPolicyKind::AutomaticReplyDenied)
    } else {
        None
    }
}

/// Reads a stored policy kind.
pub fn parse_policy_kind(value: &str) -> (r: Result<NotificationPolicyKind, PolicyStoreError>)
    ensures
        r is Ok <==> policy_kind_of_code(value@) is Some,
        r matches Ok(k) ==> policy_kind_of_code(value@) == Some(k),
        r matches Err(e) ==> e == PolicyStoreError::Database,
{
    if str_equals(value, "account_default") {
        Ok(NotificationPolicyKind::AccountDefault)
    } else if str_equals(value, "conversation") {
        Ok(NotificationPolicyKind::Conversation)
    } else if str_equals(value, "contact") {
        Ok(NotificationPolicyKind::Contact)
    } else if str_equals(value, "category") {
        Ok(NotificationPolicyKind::Category)
    } else if str_equals(value, "quiet_hours") {
        Ok(NotificationPolicyKind::QuietHours)
    } else if str_equals(value, "similar_notification") {
        Ok(NotificationPolicyKind::SimilarNotification)
    } else if str_equals(value, "automatic_reply_denied") {
        Ok(NotificationPolicyKind::AutomaticReplyDenied)
    } else {
        Err(PolicyStoreError::Database)
    }
}

pub open spec fn revision_kind_code(kind: RevisionKind) -> Seq<char> {
    match kind {
        RevisionKind::Rule => "rule"@,
        RevisionKind::Tombstone => "tombstone"@,
    }
}

pub fn revision_kind_name(kind: RevisionKind) -> (r: &'static str)
    ensures
        r@ == revision_kind_code(kind),
{
    match kind {
        RevisionKind::Rule => "rule",
        RevisionKind::Tombstone => "tombstone",
    }
}

pub open spec fn outcome_code(outcome: NotificationOutcome) -> Seq<char> {
    match outcome {
        NotificationOutcome::Remind => "remind"@,
        NotificationOutcome::Delay => "delay"@,
        NotificationOutcome::Suppress => "suppress"@,
        NotificationOutcome::CandidateExpired => "candidate_expired"@,
        NotificationOutcome::EvaluationFailedTerminal => "evaluation_failed_terminal"@,
        NotificationOutcome::DeliveryWindowExpired => "delivery_window_expired"@,
        NotificationOutcome::ScheduleTimeAmbiguous => "schedule_time_ambiguous"@,
    }
}

pub fn outcome_name(outcome: NotificationOutcome) -> (r: &'static str)
    ensures
        r@ == outcome_code(outcome),
{
    match outcome {
        NotificationOutcome::Remind => "remind",
        NotificationOutcome::Delay => "delay",
        NotificationOutcome::Suppress => "suppress",
        NotificationOutcome::CandidateExpired => "candidate_expired",
        NotificationOutcome::EvaluationFailedTerminal => "evaluation_failed_terminal",
        NotificationOutcome::DeliveryWindowExpired => "delivery_window_expired",
        NotificationOutcome::ScheduleTimeAmbiguous => "schedule_time_ambiguous",
    }
}

pub open spec fn decision_reason_code(reason: DecisionReason) -> Seq<char> {
    match reason {
        DecisionReason::CandidateExpired => "candidate_expired"@,
        DecisionReason::ConversationFullySilent => "conversation_fully_silent"@,
        DecisionReason::ConversationPolicy => "conversation_policy"@,
        DecisionReason::ContactPolicy => "contact_policy"@,
        DecisionReason::CategoryPolicy => "category_policy"@,
        DecisionReason::AccountDefaultPolicy => "account_default_policy"@,
        DecisionReason::QuietHours => "quiet_hours"@,
        DecisionReason::ScheduleTimeAmbiguous => "schedule_time_ambiguous"@,
        DecisionReason::InvalidQuietHours => "invalid_quiet_hours"@,
    }
}

pub fn decision_reason_name(reason: DecisionReason) -> (r: &'static str)
    ensures
        r@ == decision_reason_code(reason),
{
    match reason {
        DecisionReason::CandidateExpired => "candidate_expired",
        DecisionReason::ConversationFullySilent => "conversation_fully_silent",
        DecisionReason::ConversationPolicy => "conversation_policy",
        DecisionReason::ContactPolicy => "contact_policy",
        DecisionReason::CategoryPolicy => "category_policy",
        DecisionReason::AccountDefaultPolicy => "account_default_policy",
        DecisionReason::QuietHours => "quiet_hours",
        DecisionReason::ScheduleTimeAmbiguous => "schedule_time_ambiguous",
        DecisionReason::InvalidQuietHours => "invalid_quiet_hours",
    }
}

/// The stored candidate status after a decision: expired and failed
/// decisions share one status each.
pub open spec fn candidate_status_code(outcome: NotificationOutcome) -> Seq<char> {
    match outcome {
        NotificationOutcome::Remind => "reminded"@,
        NotificationOutcome::Delay => "delayed"@,
        NotificationOutcome::Suppress => "suppressed"@,
        NotificationOutcome::CandidateExpired | NotificationOutcome::DeliveryWindowExpired => "expired"@,
        NotificationOutcome::EvaluationFailedTerminal
        | NotificationOutcome::ScheduleTimeAmbiguous => "failed_terminal"@,
    }
}

pub fn candidate_status_name(outcome: NotificationOutcome) -> (r: &'static str)
    ensures
        r@ == candidate_status_code(outcome),
{
    match outcome {
        NotificationOutcome::Remind => "reminded",
        NotificationOutcome::Delay => "delayed",
        NotificationOutcome::Suppress => "suppressed",
        NotificationOutcome::CandidateExpired | NotificationOutcome::DeliveryWindowExpired => "expired",
        NotificationOutcome::EvaluationFailedTerminal
        | NotificationOutcome::ScheduleTimeAmbiguous => "failed_terminal",
    }
}

/// The policy kind whose revision a decision is attributed to; none for
/// decisions that no stored revision made.
pub open spec fn winning_kind(reason: DecisionReason) -> Option<NotificationPolicyKind> {
    match reason {
        DecisionReason::ConversationPolicy => Some(NotificationPolicyKind::Conversation),
        DecisionReason::ContactPolicy => Some(NotificationPolicyKind::Contact),
        DecisionReason::CategoryPolicy => Some(NotificationPolicyKind::Category),
        DecisionReason::AccountDefaultPolicy => Some(NotificationPolicyKind::AccountDefault),
        _ => None,
    }
}

pub fn winning_policy_kind(reason: DecisionReason) -> (r: Option<NotificationPolicyKind>)
    ensures
        r == winning_kind(reason),
{
    match reason {
        DecisionReason::ConversationPolicy => Some(NotificationPolicyKind::Conversation),
        DecisionReason::ContactPolicy => Some(NotificationPolicyKind::Contact),
        DecisionReason::CategoryPolicy => Some(NotificationPolicyKind::Category),
        DecisionReason::AccountDefaultPolicy => Some(NotificationPolicyKind::AccountDefault),
        DecisionReason::ConversationFullySilent
        | DecisionReason::QuietHours
        | DecisionReason::CandidateExpired
        | DecisionReason::ScheduleTimeAmbiguous
        | DecisionReason::InvalidQuietHours => None,
    }
}

/// A write request's scope key and audit summary are not blank and within
/// their byte limits.
pub open spec fn write_request_ok(canonical_scope_key: Seq<char>, audit_summary: Seq<char>) -> bool {
    &&& !is_blank(canonical_scope_key)
    &&& utf8_len(canonical_scope_key) <= MAX_CANONICAL_SCOPE_KEY_BYTES
    &&& !is_blank(audit_summary)
    &&& utf8_len(audit_summary) <= MAX_NOTIFICATION_AUDIT_SUMMARY_BYTES
}

pub fn validate_write_request(canonical_scope_key: &str, audit_summary: &str) -> (r: Result<
    (),
    PolicyStoreError,
>)
    ensures
        r is Ok <==> write_request_ok(canonical_scope_key@, audit_summary@),
        r matches Err(e) ==> e == PolicyStoreError::Conflict,
{
    if text_is_blank(canonical_scope_key) || !utf8_len_within(
        canonical_scope_key,
        MAX_CANONICAL_SCOPE_KEY_BYTES,
    ) || text_is_blank(audit_summary) || !utf8_len_within(
        audit_summary,
        MAX_NOTIFICATION_AUDIT_SUMMARY_BYTES,
    ) {
        return Err(PolicyStoreError::Conflict);
    }
    Ok(())
}

/// The scope key of the automatic-reply denial for a contact.
pub fn automatic_reply_scope_key(actor_id: &str) -> (r: String)
    ensures
        r@ == "contact:"@ + actor_id@,
{
    let mut out: Vec<char> = Vec::new();
    push_text(&mut out, "contact:");
    push_text(&mut out, actor_id);
    string_from_chars(&out)
}

/// The scope that a feedback match key promotes to: exactly one of
/// conversation, contact and category known and the others absent, or all
/// three absent for the account default.
pub open spec fn feedback_scope(key: NotificationMatchKeyV1) -> Option<(Seq<char>, NotificationPolicyKind)> {
    match (key.conversation, key.actor_id, key.category) {
        (MatchField::Known(c), MatchField::Absent, MatchField::Absent) => Some(
            (
                "conversation:"@ + c.kind.name() + ":"@ + c.id@,
                NotificationPolicyKind::Conversation,
            ),
        ),
        (MatchField::Absent, MatchField::Known(a), MatchField::Absent) => Some(
            ("contact:"@ + a@, NotificationPolicyKind::Contact),
        ),
        (MatchField::Absent, MatchField::Absent, MatchField::Known(k)) => Some(
            ("category:"@ + category_code(k), NotificationPolicyKind::Category),
        ),
        (MatchField::Absent, MatchField::Absent, MatchField::Absent) => Some(
            ("account:default"@, NotificationPolicyKind::AccountDefault),
        ),
        _ => None,
    }
}

pub fn feedback_policy_scope(match_key: &NotificationMatchKeyV1) -> (r: Result<
    (String, NotificationPolicyKind),
    PolicyStoreError,
>)
    ensures
        r is Ok <==> feedback_scope(*match_key) is Some,
        r matches Ok((s, k)) ==> feedback_scope(*match_key) == Some((s@, k)),
        r matches Err(e) ==> e == PolicyStoreError::Conflict,
{
    match (&match_key.conversation, &match_key.actor_id, &match_key.category) {
        (MatchField::Known(conversation), MatchField::Absent, MatchField::Absent) => {
            let mut out: Vec<char> = Vec::new();
            push_text(&mut out, "conversation:");
            push_text(&mut out, conversation.kind.as_str());
            push_text(&mut out, ":");
            push_text(&mut out, conversation.id.as_str());
            Ok((string_from_chars(&out), NotificationPolicyKind::Conversation))
        },
        (MatchField::Absent, MatchField::Known(actor_id), MatchField::Absent) => {
            Ok((automatic_reply_scope_key(actor_id.as_str()), NotificationPolicyKind::Contact))
        },
        (MatchField::Absent, MatchField::Absent, MatchField::Known(category)) => {
            let mut out: Vec<char> = Vec::new();
            push_text(&mut out, "category:");
            push_text(&mut out, notification_category_name(*category));
            Ok((string_from_chars(&out), NotificationPolicyKind::Category))
        },
        (MatchField::Absent, MatchField::Absent, MatchField::Absent) => {
            Ok(("account:default".to_owned(), NotificationPolicyKind::AccountDefault))
        },
        _ => Err(PolicyStoreError::Conflict),
    }
}

fn clone_match_field_conversation(field: &MatchField<ConversationRef>) -> (r: MatchField<ConversationRef>)
    ensures
        r == *field,
{
    match field {
        MatchField::Known(c) => MatchField::Known(c.clone()),
        MatchField::Absent => MatchField::Absent,
        MatchField::Unknown => MatchField::Unknown,
    }
}

fn clone_match_field_text(field: &MatchField<String>) -> (r: MatchField<String>)
    ensures
        r == *field,
{
    match field {
        MatchField::Known(s) => MatchField::Known(s.clone()),
        MatchField::Absent => MatchField::Absent,
        MatchField::Unknown => MatchField::Unknown,
    }
}

fn clone_match_field_copy<T: Copy>(field: &MatchField<T>) -> (r: MatchField<T>)
    ensures
        r == *field,
{
    match field {
        MatchField::Known(v) => MatchField::Known(*v),
        MatchField::Absent => MatchField::Absent,
        MatchField::Unknown => MatchField::Unknown,
    }
}

/// A copy of a match key.
pub fn clone_match_key(key: &NotificationMatchKeyV1) -> (r: NotificationMatchKeyV1)
    ensures
        r == *key,
{
    NotificationMatchKeyV1 {
        account: key.account.clone(),
        conversation: clone_match_field_conversation(&key.conversation),
        actor_id: clone_match_field_text(&key.actor_id),
        category: clone_match_field_copy(&key.category),
        mentioned_owner: clone_match_field_copy(&key.mentioned_owner),
        structured_importance: clone_match_field_copy(&key.structured_importance),
        event_kind: clone_match_field_copy(&key.event_kind),
    }
}

/// A rule with no conversation or quiet-hours part.
pub fn basic_policy_rule(
    match_key: &NotificationMatchKeyV1,
    outcome: NotificationOutcome,
    bypass_quiet: bool,
) -> (r: NotificationPolicyRule)
    ensures
        r == (NotificationPolicyRule {
            match_key: *match_key,
            outcome,
            bypass_quiet,
            conversation: None,
            quiet_hours: None,
        }),
{
    NotificationPolicyRule {
        match_key: clone_match_key(match_key),
        outcome,
        bypass_quiet,
        conversation: None,
        quiet_hours: None,
    }
}

/// A stored policy family row.
#[derive(Debug, PartialEq, Eq)]
pub struct FamilyRow {
    pub policy_family_id: String,
    pub canonical_scope_key: String,
    pub policy_kind: String,
    pub current_revision_id: Option<String>,
    pub generation: u64,
}

/// Rebuilds a policy family from its stored row: the identifiers must be
/// valid, the kind known, and a current revision present.
pub fn to_domain_family(row: FamilyRow, account: SourceAccountRef) -> (r: Result<
    NotificationPolicyFamily,
    PolicyStoreError,
>)
    ensures
        r is Ok <==> {
            &&& policy_id_ok(row.policy_family_id@)
            &&& policy_kind_of_code(row.policy_kind@) is Some
            &&& row.current_revision_id matches Some(id) && policy_id_ok(id@)
        },
        r matches Ok(f) ==> {
            &&& f.policy_family_id@ == row.policy_family_id@
            &&& f.account == account
            &&& f.canonical_scope_key == row.canonical_scope_key
            &&& Some(f.policy_kind) == policy_kind_of_code(row.policy_kind@)
            &&& row.current_revision_id matches Some(id) && f.current_revision_id@ == id@
            &&& f.generation == row.generation
        },
        r matches Err(e) ==> (e == PolicyStoreError::Conflict || e == PolicyStoreError::Database)
            && (e == PolicyStoreError::Database <==> (policy_id_ok(row.policy_family_id@)
            && policy_kind_of_code(row.policy_kind@) is None)),
{
    let policy_family_id = match PolicyFamilyId::new(row.policy_family_id.as_str()) {
        Ok(id) => id,
        Err(error) => {
            return Err(policy_error(error));
        },
    };
    let policy_kind = parse_policy_kind(row.policy_kind.as_str())?;
    let current = match &row.current_revision_id {
        Some(id) => id,
        None => {
            return Err(PolicyStoreError::Conflict);
        },
    };
    let current_revision_id = match PolicyRevisionId::new(current.as_str()) {
        Ok(id) => id,
        Err(error) => {
            return Err(policy_error(error));
        },
    };
    Ok(
        NotificationPolicyFamily {
            policy_family_id,
            account,
            canonical_scope_key: row.canonical_scope_key,
            policy_kind,
            current_revision_id,
            generation: row.generation,
        },
    )
}

} // verus!
