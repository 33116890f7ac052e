//! The decisions of the policy store's write and commit transactions: which
//! family and rule an owner command writes, the receipt of a written family,
//! when an evaluation snapshot has gone stale, and how a committed decision
//! completes its request and candidate.
use vstd::prelude::*;

use crate::identity::{same_account, SourceAccountRef};
use crate::json_text::{decimal, json_str, push_decimal, push_json_str, push_text, string_from_chars};
use crate::notification_policy::{
    match_key_fully_known, ConversationMode, ConversationNotificationRule, EvaluationPlan,
    NotificationCandidateRef, NotificationMatchKeyV1, NotificationOutcome, NotificationPolicyKind,
    NotificationPolicyRule, PolicyFamilyId, PolicyRevisionId, QuietHoursRule,
    MAX_CANONICAL_SCOPE_KEY_BYTES,
};
use crate::policy_store_rules::{
    candidate_status_code, candidate_status_name, decision_reason_code, decision_reason_name,
    outcome_code, outcome_name, policy_kind_code, policy_kind_name,
    policy_kind_of_code, to_domain_family, FamilyRow, PolicyStoreError,
};
use crate::identity::str_equals;
use crate::text::{is_blank, text_is_blank, utf8_len, utf8_len_within};
use crate::notification_policy::policy_id_ok;

verus! {

// ---------------------------------------------------------------------------
// Owner commands that write a policy.

/// An owner command that writes a rule revision into a policy family.
pub enum PolicyWriteAction {
    SetAccountDefaultNotificationMode {
        canonical_scope_key: String,
        match_key: NotificationMatchKeyV1,
        outcome: NotificationOutcome,
        bypass_quiet: bool,
    },
    SetConversationNotificationMode {
        canonical_scope_key: String,
        match_key: NotificationMatchKeyV1,
        outcome: NotificationOutcome,
        bypass_quiet: bool,
        fully_silent: bool,
        allow_bypass: bool,
    },
    SetQuietHours {
        canonical_scope_key: String,
        match_key: NotificationMatchKeyV1,
        quiet_hours: QuietHoursRule,
    },
    SetImportantContact {
        canonical_scope_key: String,
        match_key: NotificationMatchKeyV1,
        outcome: NotificationOutcome,
        bypass_quiet: bool,
    },
    SetNotificationCategoryImportance {
        canonical_scope_key: String,
        match_key: NotificationMatchKeyV1,
        outcome: NotificationOutcome,
        bypass_quiet: bool,
    },
    CreateSimilarNotificationRule {
        canonical_scope_key: String,
        match_key: NotificationMatchKeyV1,
        outcome: NotificationOutcome,
        bypass_quiet: bool,
    },
    SetAutomaticReplyDeniedForContact {
        canonical_scope_key: String,
        match_key: NotificationMatchKeyV1,
    },
}

/// What a policy write stores: the family's scope and kind, the rule of the
/// new revision and the audit summary of the change.
pub struct PolicyWrite {
    pub canonical_scope_key: String,
    pub policy_kind: NotificationPolicyKind,
    pub rule: NotificationPolicyRule,
    pub audit_summary: String,
}

/// A rule without conversation or quiet-hours part.
pub open spec fn plain_rule(
    match_key: NotificationMatchKeyV1,
    outcome: NotificationOutcome,
    bypass_quiet: bool,
) -> NotificationPolicyRule {
    NotificationPolicyRule { match_key, outcome, bypass_quiet, conversation: None, quiet_hours: None }
}

pub open spec fn write_scope(action: PolicyWriteAction) -> Seq<char> {
    match action {
        PolicyWriteAction::SetAccountDefaultNotificationMode { canonical_scope_key, .. } => canonical_scope_key@,
        PolicyWriteAction::SetConversationNotificationMode { canonical_scope_key, .. } => canonical_scope_key@,
        PolicyWriteAction::SetQuietHours { canonical_scope_key, .. } => canonical_scope_key@,
        PolicyWriteAction::SetImportantContact { canonical_scope_key, .. } => canonical_scope_key@,
        PolicyWriteAction::SetNotificationCategoryImportance { canonical_scope_key, .. } => canonical_scope_key@,
        PolicyWriteAction::CreateSimilarNotificationRule { canonical_scope_key, .. } => canonical_scope_key@,
        PolicyWriteAction::SetAutomaticReplyDeniedForContact { canonical_scope_key, .. } => canonical_scope_key@,
    }
}

pub open spec fn write_kind(action: PolicyWriteAction) -> NotificationPolicyKind {
    match action {
        PolicyWriteAction::SetAccountDefaultNotificationMode { .. } => NotificationPolicyKind::AccountDefault,
        PolicyWriteAction::SetConversationNotificationMode { .. } => NotificationPolicyKind::Conversation,
        PolicyWriteAction::SetQuietHours { .. } => NotificationPolicyKind::QuietHours,
        PolicyWriteAction::SetImportantContact { .. } => NotificationPolicyKind::Contact,
        PolicyWriteAction::SetNotificationCategoryImportance { .. } => NotificationPolicyKind::Category,
        PolicyWriteAction::CreateSimilarNotificationRule { .. } => NotificationPolicyKind::SimilarNotification,
        PolicyWriteAction::SetAutomaticReplyDeniedForContact { .. } => NotificationPolicyKind::AutomaticReplyDenied,
    }
}

/// The rule that the command writes. Quiet hours and automatic-reply
/// denials suppress and grant no bypass; a conversation mode carries the
/// conversation part.
pub open spec fn write_rule(action: PolicyWriteAction) -> NotificationPolicyRule {
    match action {
        PolicyWriteAction::SetAccountDefaultNotificationMode { match_key, outcome, bypass_quiet, .. } =>
            plain_rule(match_key, outcome, bypass_quiet),
        PolicyWriteAction::SetConversationNotificationMode {
            match_key,
            outcome,
            bypass_quiet,
            fully_silent,
            allow_bypass,
            ..
        } => NotificationPolicyRule {
            match_key,
            outcome,
            bypass_quiet,
            conversation: Some(
                ConversationNotificationRule {
                    mode: if fully_silent {
                        ConversationMode::FullySilent
                    } else {
                        ConversationMode::Normal
                    },
                    allow_bypass,
                },
            ),
            quiet_hours: None,
        },
        PolicyWriteAction::SetQuietHours { match_key, quiet_hours, .. } => NotificationPolicyRule {
            match_key,
            outcome: NotificationOutcome::Suppress,
            bypass_quiet: false,
            conversation: None,
            quiet_hours: Some(quiet_hours),
        },
        PolicyWriteAction::SetImportantContact { match_key, outcome, bypass_quiet, .. } =>
            plain_rule(match_key, outcome, bypass_quiet),
        PolicyWriteAction::SetNotificationCategoryImportance { match_key, outcome, bypass_quiet, .. } =>
            plain_rule(match_key, outcome, bypass_quiet),
        PolicyWriteAction::CreateSimilarNotificationRule { match_key, outcome, bypass_quiet, .. } =>
            plain_rule(match_key, outcome, bypass_quiet),
        PolicyWriteAction::SetAutomaticReplyDeniedForContact { match_key, .. } =>
            plain_rule(match_key, NotificationOutcome::Suppress, false),
    }
}

pub open spec fn write_audit(action: PolicyWriteAction) -> Seq<char> {
    match action {
        PolicyWriteAction::SetAccountDefaultNotificationMode { .. } =>
            "owner set account default notification mode"@,
        PolicyWriteAction::SetConversationNotificationMode { .. } =>
            "owner set conversation notification mode"@,
        PolicyWriteAction::SetQuietHours { .. } => "owner set notification quiet hours"@,
        PolicyWriteAction::SetImportantContact { .. } => "owner set important notification contact"@,
        PolicyWriteAction::SetNotificationCategoryImportance { .. } =>
            "owner set notification category importance"@,
        PolicyWriteAction::CreateSimilarNotificationRule { .. } =>
            "owner created similar notification rule"@,
        PolicyWriteAction::SetAutomaticReplyDeniedForContact { .. } =>
            "owner denied automatic reply for contact"@,
    }
}

/// A write is permitted when the rule's match metadata is fully known and
/// the scope key is not blank and fits its byte limit.
pub open spec fn write_permitted(action: PolicyWriteAction) -> bool {
    &&& match_key_fully_known(write_rule(action).match_key)
    &&& !is_blank(write_scope(action))
    &&& utf8_len(write_scope(action)) <= MAX_CANONICAL_SCOPE_KEY_BYTES
}

/// Turns an owner's policy command into the family scope, kind, rule and
/// audit summary to be written; refused as a conflict when the rule's match
/// metadata is not fully known or the scope key is blank or too long.
pub fn prepare_policy_write(action: PolicyWriteAction) -> (r: Result<PolicyWrite, PolicyStoreError>)
    ensures
        r is Ok <==> write_permitted(action),
        r matches Ok(w) ==> {
            &&& w.canonical_scope_key@ == write_scope(action)
            &&& w.policy_kind == write_kind(action)
            &&& w.rule == write_rule(action)
            &&& w.audit_summary@ == write_audit(action)
        },
        r matches Err(e) ==> e == PolicyStoreError::Conflict,
{
    let (scope, kind, rule, audit) = match action {
        PolicyWriteAction::SetAccountDefaultNotificationMode {
            canonical_scope_key,
            match_key,
            outcome,
            bypass_quiet,
        } => (
            canonical_scope_key,
            NotificationPolicyKind::AccountDefault,
            NotificationPolicyRule { match_key, outcome, bypass_quiet, conversation: None, quiet_hours: None },
            "owner set account default notification mode",
        ),
        PolicyWriteAction::SetConversationNotificationMode {
            canonical_scope_key,
            match_key,
            outcome,
            bypass_quiet,
            fully_silent,
            allow_bypass,
        } => {
            let mode = if fully_silent {
                ConversationMode::FullySilent
            } else {
                ConversationMode::Normal
            };
            (
                canonical_scope_key,
                NotificationPolicyKind::Conversation,
                NotificationPolicyRule {
                    match_key,
                    outcome,
                    bypass_quiet,
                    conversation: Some(ConversationNotificationRule { mode, allow_bypass }),
                    quiet_hours: None,
                },
                "owner set conversation notification mode",
            )
        },
        PolicyWriteAction::SetQuietHours { canonical_scope_key, match_key, quiet_hours } => (
            canonical_scope_key,
            NotificationPolicyKind::QuietHours,
            NotificationPolicyRule {
                match_key,
                outcome: NotificationOutcome::Suppress,
                bypass_quiet: false,
                conversation: None,
                quiet_hours: Some(quiet_hours),
            },
            "owner set notification quiet hours",
        ),
        PolicyWriteAction::SetImportantContact { canonical_scope_key, match_key, outcome, bypass_quiet } => (
            canonical_scope_key,
            NotificationPolicyKind::Contact,
            NotificationPolicyRule { match_key, outcome, bypass_quiet, conversation: None, quiet_hours: None },
            "owner set important notification contact",
        ),
        PolicyWriteAction::SetNotificationCategoryImportance {
            canonical_scope_key,
            match_key,
            outcome,
            bypass_quiet,
        } => (
            canonical_scope_key,
            NotificationPolicyKind::Category,
            NotificationPolicyRule { match_key, outcome, bypass_quiet, conversation: None, quiet_hours: None },
            "owner set notification category importance",
        ),
        PolicyWriteAction::CreateSimilarNotificationRule {
            canonical_scope_key,
            match_key,
            outcome,
            bypass_quiet,
        } => (
            canonical_scope_key,
            NotificationPolicyKind::SimilarNotification,
            NotificationPolicyRule { match_key, outcome, bypass_quiet, conversation: None, quiet_hours: None },
            "owner created similar notification rule",
        ),
        PolicyWriteAction::SetAutomaticReplyDeniedForContact { canonical_scope_key, match_key } => (
            canonical_scope_key,
            NotificationPolicyKind::AutomaticReplyDenied,
            NotificationPolicyRule {
                match_key,
                outcome: NotificationOutcome::Suppress,
                bypass_quiet: false,
                conversation: None,
                quiet_hours: None,
            },
            "owner denied automatic reply for contact",
        ),
    };
    assert(scope@ == write_scope(action));
    assert(rule == write_rule(action));
    assert(audit@ == write_audit(action));
    if rule.match_key.eligibility_for_long_term_rule().is_err() {
        return Err(PolicyStoreError::Conflict);
    }
    if text_is_blank(scope.as_str()) || !utf8_len_within(scope.as_str(), MAX_CANONICAL_SCOPE_KEY_BYTES) {
        return Err(PolicyStoreError::Conflict);
    }
    Ok(PolicyWrite { canonical_scope_key: scope, policy_kind: kind, rule, audit_summary: audit.to_owned() })
}

/// Notification feedback must concern the commanding account, both through
/// its candidate and its match key; feedback promoted to a rule needs fully
/// known match metadata.
pub open spec fn feedback_permitted(
    request_account: SourceAccountRef,
    candidate: NotificationCandidateRef,
    match_key: NotificationMatchKeyV1,
    promote_to_rule: bool,
) -> bool {
    &&& same_account(candidate.account, request_account)
    &&& same_account(match_key.account, request_account)
    &&& (promote_to_rule ==> match_key_fully_known(match_key))
}

pub fn check_feedback_request(
    request_account: &SourceAccountRef,
    candidate: &NotificationCandidateRef,
    match_key: &NotificationMatchKeyV1,
    promote_to_rule: bool,
) -> (r: Result<(), PolicyStoreError>)
    ensures
        r is Ok <==> feedback_permitted(*request_account, *candidate, *match_key, promote_to_rule),
        r matches Err(e) ==> e == PolicyStoreError::Conflict,
{
    if !candidate.account.same_as(request_account) || !match_key.account.same_as(request_account) {
        return Err(PolicyStoreError::Conflict);
    }
    if promote_to_rule && match_key.eligibility_for_long_term_rule().is_err() {
        return Err(PolicyStoreError::Conflict);
    }
    Ok(())
}

// ---------------------------------------------------------------------------
// Receipt of a written family.

/// The receipt of a policy family: a JSON object with its keys in byte
/// order, as `serde_json` writes an object value.
pub open spec fn family_receipt_json(
    scope: Seq<char>,
    family_id: Seq<char>,
    revision_id: Seq<char>,
    priority: Seq<char>,
    generation: nat,
    status: Seq<char>,
    typed_reason: Seq<char>,
) -> Seq<char> {
    "{\"audit_reference\":"@ + json_str("generation:"@ + decimal(generation))
        + ",\"decision_id\":null,\"policy_family_id\":"@ + json_str(family_id)
        + ",\"policy_revision_id\":"@ + json_str(revision_id) + ",\"priority\":"@ + json_str(priority)
        + ",\"scope\":"@ + json_str(scope) + ",\"status\":"@ + json_str(status)
        + ",\"typed_reason\":"@ + json_str(typed_reason) + "}"@
}

/// A stored kind code names the kind it reads back as.
proof fn lemma_policy_kind_code_of(code: Seq<char>)
    requires
        policy_kind_of_code(code) is Some,
    ensures
        policy_kind_code(policy_kind_of_code(code)->0) == code,
{
}

/// The receipt of a family row after a write: the row is read back as a
/// family (see `to_domain_family`) and described by its scope, identifiers,
/// kind and generation.
pub fn policy_family_result_ref(
    family: FamilyRow,
    account: SourceAccountRef,
    status: &str,
    typed_reason: &str,
) -> (r: Result<String, PolicyStoreError>)
    ensures
        r is Ok <==> {
            &&& policy_id_ok(family.policy_family_id@)
            &&& policy_kind_of_code(family.policy_kind@) is Some
            &&& family.current_revision_id matches Some(id) && policy_id_ok(id@)
        },
        r matches Ok(s) ==> s@ == family_receipt_json(
            family.canonical_scope_key@,
            family.policy_family_id@,
            family.current_revision_id->0@,
            family.policy_kind@,
            family.generation as nat,
            status@,
            typed_reason@,
        ),
        r matches Err(e) ==> (e == PolicyStoreError::Conflict || e == PolicyStoreError::Database)
            && (e == PolicyStoreError::Database <==> (policy_id_ok(family.policy_family_id@)
            && policy_kind_of_code(family.policy_kind@) is None)),
{
    let ghost row_kind = family.policy_kind@;
    let f = to_domain_family(family, account)?;
    proof {
        lemma_policy_kind_code_of(row_kind);
    }
    let mut reference: Vec<char> = Vec::new();
    push_text(&mut reference, "generation:");
    push_decimal(&mut reference, f.generation);
    let reference = string_from_chars(&reference);
    let mut out: Vec<char> = Vec::new();
    push_text(&mut out, "{\"audit_reference\":");
    push_json_str(&mut out, reference.as_str());
    push_text(&mut out, ",\"decision_id\":null,\"policy_family_id\":");
    push_json_str(&mut out, f.policy_family_id.as_str());
    push_text(&mut out, ",\"policy_revision_id\":");
    push_json_str(&mut out, f.current_revision_id.as_str());
    push_text(&mut out, ",\"priority\":");
    push_json_str(&mut out, policy_kind_name(f.policy_kind));
    push_text(&mut out, ",\"scope\":");
    push_json_str(&mut out, f.canonical_scope_key.as_str());
    push_text(&mut out, ",\"status\":");
    push_json_str(&mut out, status);
    push_text(&mut out, ",\"typed_reason\":");
    push_json_str(&mut out, typed_reason);
    push_text(&mut out, "}");
    assert(out@ =~= family_receipt_json(
        f.canonical_scope_key@,
        f.policy_family_id@,
        f.current_revision_id@,
        policy_kind_code(f.policy_kind),
        f.generation as nat,
        status@,
        typed_reason@,
    ));
    Ok(string_from_chars(&out))
}

// ---------------------------------------------------------------------------
// Committing an evaluation.

/// The evaluation request and candidate as locked when a decision is
/// committed.
pub struct EvaluationRequestCommitRow {
    pub evaluation_request_id: String,
    pub notification_candidate_id: String,
    pub account_id: u64,
    pub source_kind: String,
    pub source_id: String,
    pub source_version: u64,
    pub candidate_status: String,
    pub policy_epoch: u64,
    pub previous_decision_id: Option<String>,
}

/// The snapshot that the decision was made on no longer describes the locked
/// request: another source, version or policy epoch, a candidate that is no
/// longer pending or delayed, or an owner binding of another account.
pub open spec fn snapshot_stale(
    row: EvaluationRequestCommitRow,
    candidate: NotificationCandidateRef,
    account_policy_epoch: u64,
    managed_account: SourceAccountRef,
) -> bool {
    ||| row.source_kind@ != candidate.source_kind@
    ||| row.source_id@ != candidate.source_id@
    ||| row.source_version != candidate.source_version
    ||| row.policy_epoch != account_policy_epoch
    ||| !(row.candidate_status@ == "pending"@ || row.candidate_status@ == "delayed"@)
    ||| !same_account(managed_account, candidate.account)
}

pub fn evaluation_snapshot_stale(
    row: &EvaluationRequestCommitRow,
    candidate: &NotificationCandidateRef,
    account_policy_epoch: u64,
    managed_account: &SourceAccountRef,
) -> (r: bool)
    ensures
        r == snapshot_stale(*row, *candidate, account_policy_epoch, *managed_account),
{
    !str_equals(row.source_kind.as_str(), candidate.source_kind.as_str())
        || !str_equals(row.source_id.as_str(), candidate.source_id.as_str())
        || row.source_version != candidate.source_version
        || row.policy_epoch != account_policy_epoch
        || !(str_equals(row.candidate_status.as_str(), "pending") || str_equals(
        row.candidate_status.as_str(),
        "delayed",
    )) || !managed_account.same_as(&candidate.account)
}

/// The locked head of a policy family.
pub struct PolicyHeadFenceRow {
    pub current_revision_id: String,
    pub generation: u64,
}

/// The family still has the generation and current revision that the
/// snapshot saw.
pub fn family_head_unchanged(
    head: &Option<PolicyHeadFenceRow>,
    generation: u64,
    current_revision_id: &PolicyRevisionId,
) -> (r: bool)
    ensures
        r == (head matches Some(row) && row.generation == generation && row.current_revision_id@
            == current_revision_id@),
{
    match head {
        Some(row) => row.generation == generation && str_equals(
            row.current_revision_id.as_str(),
            current_revision_id.as_str(),
        ),
        None => false,
    }
}

/// How a committed decision leaves its evaluation request and candidate.
#[derive(Debug, Clone, Copy, PartialEq, Eq)]
pub struct DecisionCompletion {
    pub request_status: &'static str,
    pub candidate_status: &'static str,
    /// Only for a delay: when the candidate is evaluated again.
    pub next_allowed_at_unix_secs: Option<i64>,
}

/// A reminder completes the request, a delay returns it to pending with a
/// positive next evaluation time, and every other outcome ends it.
pub open spec fn completion_request_status(outcome: NotificationOutcome) -> Seq<char> {
    match outcome {
        NotificationOutcome::Remind => "completed"@,
        NotificationOutcome::Delay => "pending"@,
        _ => "terminal"@,
    }
}

/// A delay needs a positive next evaluation time.
pub open spec fn completion_permitted(plan: EvaluationPlan) -> bool {
    plan.outcome == NotificationOutcome::Delay ==> (plan.next_allowed_at_unix_secs matches Some(t)
        && t > 0)
}

pub fn decision_completion(plan: EvaluationPlan) -> (r: Result<DecisionCompletion, PolicyStoreError>)
    ensures
        r is Ok <==> completion_permitted(plan),
        r matches Ok(c) ==> {
            &&& c.request_status@ == completion_request_status(plan.outcome)
            &&& c.candidate_status@ == candidate_status_code(plan.outcome)
            &&& c.next_allowed_at_unix_secs == if plan.outcome == NotificationOutcome::Delay {
                plan.next_allowed_at_unix_secs
            } else {
                None
            }
        },
        r matches Err(e) ==> e == PolicyStoreError::Conflict,
{
    match plan.outcome {
        NotificationOutcome::Remind => Ok(
            DecisionCompletion {
                request_status: "completed",
                candidate_status: candidate_status_name(plan.outcome),
                next_allowed_at_unix_secs: None,
            },
        ),
        NotificationOutcome::Delay => match plan.next_allowed_at_unix_secs {
            Some(t) => if t > 0 {
                Ok(
                    DecisionCompletion {
                        request_status: "pending",
                        candidate_status: candidate_status_name(plan.outcome),
                        next_allowed_at_unix_secs: Some(t),
                    },
                )
            } else {
                Err(PolicyStoreError::Conflict)
            },
            None => Err(PolicyStoreError::Conflict),
        },
        _ => Ok(
            DecisionCompletion {
                request_status: "terminal",
                candidate_status: candidate_status_name(plan.outcome),
                next_allowed_at_unix_secs: None,
            },
        ),
    }
}

/// A policy family's head as the evaluation snapshot saw it.
#[derive(Debug)]
pub struct FamilyGenerationSnapshot {
    pub policy_family_id: PolicyFamilyId,
    pub current_revision_id: PolicyRevisionId,
    pub generation: u64,
}

/// Every family head, locked in the snapshot's order, still has the
/// generation and current revision that the snapshot saw.
pub open spec fn heads_unchanged(
    families: Seq<FamilyGenerationSnapshot>,
    heads: Seq<Option<PolicyHeadFenceRow>>,
) -> bool {
    &&& heads.len() == families.len()
    &&& forall|i: int|
        0 <= i < heads.len() ==> (#[trigger] heads[i] matches Some(row) && row.generation
            == families[i].generation && row.current_revision_id@
            == families[i].current_revision_id@)
}

/// The completion a committed decision gives its request and candidate.
pub open spec fn completion_of(c: DecisionCompletion, plan: EvaluationPlan) -> bool {
    &&& c.request_status@ == completion_request_status(plan.outcome)
    &&& c.candidate_status@ == candidate_status_code(plan.outcome)
    &&& c.next_allowed_at_unix_secs == if plan.outcome == NotificationOutcome::Delay {
        plan.next_allowed_at_unix_secs
    } else {
        None
    }
}

/// What committing an evaluation does.
#[derive(Debug)]
pub enum EvaluationCommitStep {
    /// The request is no longer claimed under this lease: nothing is written.
    LeaseLost,
    /// The snapshot no longer holds: the request goes back to pending with
    /// its lease cleared, and no decision is written.
    SnapshotStale,
    /// The decision is written with these codes, and the request and
    /// candidate are completed as given.
    Decide {
        outcome_code: &'static str,
        reason_code: &'static str,
        completion: DecisionCompletion,
    },
}

/// The snapshot a decision was made on still holds for the locked request:
/// it is not stale, the source is still current, the owner binding still
/// names a command account, and no policy family head has moved.
pub open spec fn snapshot_holds(
    row: EvaluationRequestCommitRow,
    candidate: NotificationCandidateRef,
    account_policy_epoch: u64,
    managed_account: SourceAccountRef,
    source_is_current: bool,
    command_account_id: Option<u64>,
    families: Seq<FamilyGenerationSnapshot>,
    heads: Seq<Option<PolicyHeadFenceRow>>,
) -> bool {
    &&& !snapshot_stale(row, candidate, account_policy_epoch, managed_account)
    &&& source_is_current
    &&& command_account_id is Some
    &&& heads_unchanged(families, heads)
}

fn all_heads_unchanged(
    families: &Vec<FamilyGenerationSnapshot>,
    heads: &Vec<Option<PolicyHeadFenceRow>>,
) -> (r: bool)
    ensures
        r == heads_unchanged(families@, heads@),
{
    if heads.len() != families.len() {
        return false;
    }
    let mut i: usize = 0;
    while i < heads.len()
        invariant
            i <= heads@.len(),
            heads@.len() == families@.len(),
            forall|k: int|
                0 <= k < i ==> (#[trigger] heads@[k] matches Some(row) && row.generation
                    == families@[k].generation && row.current_revision_id@
                    == families@[k].current_revision_id@),
        decreases heads@.len() - i,
    {
        let family = &families[i];
        if !family_head_unchanged(&heads[i], family.generation, &family.current_revision_id) {
            return false;
        }
        i = i + 1;
    }
    true
}

/// The decision step of committing an evaluation, on the request locked
/// under the claim's lease (`None` when the lease is lost), the snapshot the
/// plan was made on, whether its source is still current, the command
/// account of the locked owner binding, and the family heads locked in the
/// snapshot's order. A lost lease writes nothing; a snapshot that no longer
/// holds is requeued without a decision; otherwise the plan is committed,
/// and a delay without a positive next evaluation time is a conflict.
pub fn evaluation_commit_step(
    request: &Option<EvaluationRequestCommitRow>,
    candidate: &NotificationCandidateRef,
    account_policy_epoch: u64,
    managed_account: &SourceAccountRef,
    source_is_current: bool,
    command_account_id: Option<u64>,
    families: &Vec<FamilyGenerationSnapshot>,
    heads: &Vec<Option<PolicyHeadFenceRow>>,
    plan: EvaluationPlan,
) -> (r: Result<EvaluationCommitStep, PolicyStoreError>)
    ensures
        request is None ==> r matches Ok(EvaluationCommitStep::LeaseLost),
        request matches Some(row) ==> {
            let holds = snapshot_holds(
                *row,
                *candidate,
                account_policy_epoch,
                *managed_account,
                source_is_current,
                command_account_id,
                families@,
                heads@,
            );
            &&& (!holds ==> (r matches Ok(EvaluationCommitStep::SnapshotStale)))
            &&& (holds ==> (r is Ok <==> completion_permitted(plan)))
            &&& (holds ==> (r matches Ok(step) ==> (step matches EvaluationCommitStep::Decide {
                outcome_code: o,
                reason_code: c,
                completion,
            } && o@ == outcome_code(plan.outcome) && c@ == decision_reason_code(plan.reason)
                && completion_of(completion, plan))))
            &&& (r matches Err(e) ==> e == PolicyStoreError::Conflict)
        },
{
    let row = match request {
        Some(row) => row,
        None => {
            return Ok(EvaluationCommitStep::LeaseLost);
        },
    };
    if evaluation_snapshot_stale(row, candidate, account_policy_epoch, managed_account)
        || !source_is_current {
        return Ok(EvaluationCommitStep::SnapshotStale);
    }
    if command_account_id.is_none() {
        return Ok(EvaluationCommitStep::SnapshotStale);
    }
    if !all_heads_unchanged(families, heads) {
        return Ok(EvaluationCommitStep::SnapshotStale);
    }
    match decision_completion(plan) {
        Ok(completion) => Ok(
            EvaluationCommitStep::Decide {
                outcome_code: outcome_name(plan.outcome),
                reason_code: decision_reason_name(plan.reason),
                completion,
            },
        ),
        Err(e) => Err(e),
    }
}

/// The payload of an owner reminder put in the outbox: a JSON object with
/// its keys in byte order.
pub open spec fn reminder_payload_of(
    candidate_id: Seq<char>,
    source_version: u64,
    owner_actor_id: Seq<char>,
) -> Seq<char> {
    "{\"candidate_id\":"@ + json_str(candidate_id) + ",\"owner_actor_id\":"@ + json_str(owner_actor_id)
        + ",\"source_version\":"@ + decimal(source_version as nat) + "}"@
}

pub fn reminder_payload_json(candidate_id: &str, source_version: u64, owner_actor_id: &str) -> (r:
    String)
    ensures
        r@ == reminder_payload_of(candidate_id@, source_version, owner_actor_id@),
{
    let mut out: Vec<char> = Vec::new();
    push_text(&mut out, "{\"candidate_id\":");
    push_json_str(&mut out, candidate_id);
    push_text(&mut out, ",\"owner_actor_id\":");
    push_json_str(&mut out, owner_actor_id);
    push_text(&mut out, ",\"source_version\":");
    push_decimal(&mut out, source_version);
    push_text(&mut out, "}");
    assert(out@ =~= reminder_payload_of(candidate_id@, source_version, owner_actor_id@));
    string_from_chars(&out)
}

} // verus!
