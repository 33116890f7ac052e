//! What the policy store tells the owner about stored policies and past
//! decisions, read from their rows, and the lease of a claimed evaluation.
use vstd::prelude::*;

use crate::json_text::{decimal, push_decimal, push_text, string_from_chars};
use crate::notification_policy::{
    policy_id_ok, NotificationDecisionId, PolicyFamilyId, PolicyRevisionId,
};
use crate::policy_store_rules::{
    parse_policy_kind, policy_kind_code, policy_kind_name, policy_kind_of_code, PolicyStoreError,
};
use crate::text::{is_blank, text_is_blank};

verus! {

/// A stored policy or decision as the owner is told about it.
#[derive(Debug, PartialEq, Eq)]
pub struct NotificationPolicyResponseArtifact {
    pub scope: String,
    pub policy_family_id: Option<PolicyFamilyId>,
    pub policy_revision_id: Option<PolicyRevisionId>,
    pub decision_id: Option<NotificationDecisionId>,
    pub status: String,
    pub priority: String,
    pub typed_reason: String,
    pub audit_reference: String,
}

fn generation_text(generation: u64) -> (r: String)
    ensures
        r@ == "generation:"@ + decimal(generation as nat),
{
    let mut out: Vec<char> = Vec::new();
    push_text(&mut out, "generation:");
    push_decimal(&mut out, generation);
    string_from_chars(&out)
}

/// The head of a policy family with the kind of its current revision.
pub struct PolicyArtifactRow {
    pub canonical_scope_key: String,
    pub policy_family_id: String,
    pub current_revision_id: String,
    pub generation: u64,
    pub policy_kind: String,
    pub revision_kind: String,
}

/// A family head is told as its scope, identifiers, revision kind, policy
/// kind and generation. An unknown kind is a database fault; a malformed
/// identifier a conflict.
pub fn policy_family_artifact(row: PolicyArtifactRow) -> (r: Result<
    NotificationPolicyResponseArtifact,
    PolicyStoreError,
>)
    ensures
        r is Ok <==> {
            &&& policy_kind_of_code(row.policy_kind@) is Some
            &&& policy_id_ok(row.policy_family_id@)
            &&& policy_id_ok(row.current_revision_id@)
        },
        r matches Ok(a) ==> {
            &&& a.scope == row.canonical_scope_key
            &&& a.policy_family_id matches Some(id) && id@ == row.policy_family_id@
            &&& a.policy_revision_id matches Some(id) && id@ == row.current_revision_id@
            &&& a.decision_id is None
            &&& a.status == row.revision_kind
            &&& a.priority@ == row.policy_kind@
            &&& a.typed_reason@ == "generation:"@ + decimal(row.generation as nat)
            &&& a.audit_reference@ == "policy_family_head"@
        },
        r matches Err(e) ==> (e == PolicyStoreError::Database <==> policy_kind_of_code(
            row.policy_kind@,
        ) is None) && (e == PolicyStoreError::Database || e == PolicyStoreError::Conflict),
{
    let kind = parse_policy_kind(row.policy_kind.as_str())?;
    let priority = policy_kind_name(kind).to_owned();
    proof {
        assert(policy_kind_code(kind) == row.policy_kind@);
    }
    let policy_family_id = match PolicyFamilyId::new(row.policy_family_id.as_str()) {
        Ok(id) => id,
        Err(_) => {
            return Err(PolicyStoreError::Conflict);
        },
    };
    let policy_revision_id = match PolicyRevisionId::new(row.current_revision_id.as_str()) {
        Ok(id) => id,
        Err(_) => {
            return Err(PolicyStoreError::Conflict);
        },
    };
    Ok(
        NotificationPolicyResponseArtifact {
            scope: row.canonical_scope_key,
            policy_family_id: Some(policy_family_id),
            policy_revision_id: Some(policy_revision_id),
            decision_id: None,
            status: row.revision_kind,
            priority,
            typed_reason: generation_text(row.generation),
            audit_reference: "policy_family_head".to_owned(),
        },
    )
}

/// A past decision with the revision it was attributed to, if any.
pub struct DecisionArtifactRow {
    pub notification_decision_id: String,
    pub policy_family_id: Option<String>,
    pub policy_revision_id: Option<String>,
    pub outcome: String,
    pub reason_code: String,
    pub audit_reference: String,
}

/// An optional stored identifier is absent or well formed.
pub open spec fn optional_id_ok(value: Option<String>) -> bool {
    value matches Some(id) ==> policy_id_ok(id@)
}

/// A decision is told as its outcome and reason, with the family and
/// revision it was attributed to; a malformed identifier is a conflict.
pub fn decision_artifact(row: DecisionArtifactRow) -> (r: Result<
    NotificationPolicyResponseArtifact,
    PolicyStoreError,
>)
    ensures
        r is Ok <==> {
            &&& optional_id_ok(row.policy_family_id)
            &&& optional_id_ok(row.policy_revision_id)
            &&& policy_id_ok(row.notification_decision_id@)
        },
        r matches Ok(a) ==> {
            &&& a.scope@ == "notification_decision"@
            &&& a.policy_family_id is Some <==> row.policy_family_id is Some
            &&& (a.policy_family_id matches Some(id) ==> id@ == row.policy_family_id->0@)
            &&& a.policy_revision_id is Some <==> row.policy_revision_id is Some
            &&& (a.policy_revision_id matches Some(id) ==> id@ == row.policy_revision_id->0@)
            &&& a.decision_id matches Some(id) && id@ == row.notification_decision_id@
            &&& a.status == row.outcome
            &&& a.priority@ == "decision"@
            &&& a.typed_reason == row.reason_code
            &&& a.audit_reference == row.audit_reference
        },
        r matches Err(e) ==> e == PolicyStoreError::Conflict,
{
    let policy_family_id = match &row.policy_family_id {
        Some(text) => match PolicyFamilyId::new(text.as_str()) {
            Ok(id) => Some(id),
            Err(_) => {
                return Err(PolicyStoreError::Conflict);
            },
        },
        None => None,
    };
    let policy_revision_id = match &row.policy_revision_id {
        Some(text) => match PolicyRevisionId::new(text.as_str()) {
            Ok(id) => Some(id),
            Err(_) => {
                return Err(PolicyStoreError::Conflict);
            },
        },
        None => None,
    };
    let decision_id = match NotificationDecisionId::new(row.notification_decision_id.as_str()) {
        Ok(id) => id,
        Err(_) => {
            return Err(PolicyStoreError::Conflict);
        },
    };
    Ok(
        NotificationPolicyResponseArtifact {
            scope: "notification_decision".to_owned(),
            policy_family_id,
            policy_revision_id,
            decision_id: Some(decision_id),
            status: row.outcome,
            priority: "decision".to_owned(),
            typed_reason: row.reason_code,
            audit_reference: row.audit_reference,
        },
    )
}

/// When the lease of a claimed evaluation expires: the worker must be named
/// and the lease last at least a second, and both the lease and the expiry
/// must fit a signed 64-bit count of seconds.
pub open spec fn lease_expiry(worker_id: Seq<char>, now_unix_secs: i64, lease_secs: u64) -> Option<i64> {
    if is_blank(worker_id) || lease_secs == 0 || lease_secs > i64::MAX || now_unix_secs + lease_secs
        > i64::MAX {
        None
    } else {
        Some((now_unix_secs + lease_secs) as i64)
    }
}

pub fn claim_lease_expiry(worker_id: &str, now_unix_secs: i64, lease_secs: u64) -> (r: Result<
    i64,
    PolicyStoreError,
>)
    ensures
        r is Ok <==> lease_expiry(worker_id@, now_unix_secs, lease_secs) is Some,
        r matches Ok(t) ==> lease_expiry(worker_id@, now_unix_secs, lease_secs) == Some(t),
        r matches Err(e) ==> e == PolicyStoreError::Conflict,
{
    if text_is_blank(worker_id) || lease_secs == 0 {
        return Err(PolicyStoreError::Conflict);
    }
    if lease_secs > i64::MAX as u64 {
        return Err(PolicyStoreError::Conflict);
    }
    let lease = lease_secs as i64;
    match now_unix_secs.checked_add(lease) {
        Some(t) => Ok(t),
        None => Err(PolicyStoreError::Conflict),
    }
}

} // verus!
