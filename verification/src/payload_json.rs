//! JSON text of memory payloads, in the two shapes that `serde_json` gives
//! them: fields in declaration order (`to_string`), or keys in byte order
//! (a `serde_json::Value` map, as used inside a fingerprint).
use vstd::prelude::*;

use crate::identity::{SourceAccountRef, SourceEventId, ThreadActorRef, ThreadDecisionId};
use crate::json_text::{
    json_array, json_int, json_str, json_strs, push_json_int, push_json_str,
    push_json_str_array, push_text,
};
use crate::memory::{CommitmentMemory, CommitmentStatus, MemoryPayload, PersonMemory, ProjectMemory};

verus! {

pub open spec fn commitment_status_name(status: CommitmentStatus) -> Seq<char> {
    match status {
        CommitmentStatus::Proposed => "proposed"@,
        CommitmentStatus::Pending => "pending"@,
        CommitmentStatus::Fulfilled => "fulfilled"@,
        CommitmentStatus::Cancelled => "cancelled"@,
    }
}

pub open spec fn account_json(a: SourceAccountRef, sorted: bool) -> Seq<char> {
    if sorted {
        "{\"account_id\":"@ + json_str(a.account_id@) + ",\"channel\":"@ + json_str(a.channel.name())
            + "}"@
    } else {
        "{\"channel\":"@ + json_str(a.channel.name()) + ",\"account_id\":"@ + json_str(a.account_id@)
            + "}"@
    }
}

pub open spec fn actor_json(a: ThreadActorRef, sorted: bool) -> Seq<char> {
    "{\"account\":"@ + account_json(a.account, sorted) + ",\"actor_id\":"@ + json_str(a.actor_id@)
        + "}"@
}

pub open spec fn optional_text_json(value: Option<String>) -> Seq<char> {
    match value {
        Some(s) => json_str(s@),
        None => "null"@,
    }
}

pub open spec fn text_list_json(values: Seq<String>) -> Seq<char> {
    json_array(json_strs(values.map_values(|v: String| v@)))
}

pub open spec fn decision_list_json(values: Seq<ThreadDecisionId>) -> Seq<char> {
    json_array(json_strs(values.map_values(|v: ThreadDecisionId| v@)))
}

pub open spec fn person_json(p: PersonMemory, sorted: bool) -> Seq<char> {
    if sorted {
        "{\"communication_preferences\":"@ + text_list_json(p.communication_preferences@)
            + ",\"person\":"@ + actor_json(p.person, true) + ",\"relationship\":"@
            + optional_text_json(p.relationship) + ",\"responsibilities\":"@ + text_list_json(
            p.responsibilities@,
        ) + "}"@
    } else {
        "{\"person\":"@ + actor_json(p.person, false) + ",\"relationship\":"@ + optional_text_json(
            p.relationship,
        ) + ",\"responsibilities\":"@ + text_list_json(p.responsibilities@)
            + ",\"communication_preferences\":"@ + text_list_json(p.communication_preferences@)
            + "}"@
    }
}

pub open spec fn project_json(p: ProjectMemory, sorted: bool) -> Seq<char> {
    if sorted {
        "{\"artifact_refs\":"@ + text_list_json(p.artifact_refs@) + ",\"blockers\":"@
            + text_list_json(p.blockers@) + ",\"decision_ids\":"@ + decision_list_json(
            p.decision_ids@,
        ) + ",\"goal\":"@ + json_str(p.goal@) + ",\"member_actor_ids\":"@ + text_list_json(
            p.member_actor_ids@,
        ) + ",\"progress\":"@ + optional_text_json(p.progress) + ",\"project_key\":"@ + json_str(
            p.project_key@,
        ) + ",\"risks\":"@ + text_list_json(p.risks@) + "}"@
    } else {
        "{\"project_key\":"@ + json_str(p.project_key@) + ",\"goal\":"@ + json_str(p.goal@)
            + ",\"member_actor_ids\":"@ + text_list_json(p.member_actor_ids@) + ",\"progress\":"@
            + optional_text_json(p.progress) + ",\"decision_ids\":"@ + decision_list_json(
            p.decision_ids@,
        ) + ",\"risks\":"@ + text_list_json(p.risks@) + ",\"blockers\":"@ + text_list_json(
            p.blockers@,
        ) + ",\"artifact_refs\":"@ + text_list_json(p.artifact_refs@) + "}"@
    }
}

pub open spec fn optional_int_json(value: Option<i64>) -> Seq<char> {
    match value {
        Some(n) => json_int(n as int),
        None => "null"@,
    }
}

pub open spec fn optional_event_json(value: Option<SourceEventId>) -> Seq<char> {
    match value {
        Some(id) => json_str(id@),
        None => "null"@,
    }
}

pub open spec fn commitment_json(c: CommitmentMemory, sorted: bool) -> Seq<char> {
    if sorted {
        "{\"action\":"@ + json_str(c.action@) + ",\"beneficiary\":"@ + actor_json(c.beneficiary, true)
            + ",\"completion_source_event_id\":"@ + optional_event_json(c.completion_source_event_id)
            + ",\"due_at_unix_secs\":"@ + optional_int_json(c.due_at_unix_secs) + ",\"promisor\":"@
            + actor_json(c.promisor, true) + ",\"status\":"@ + json_str(
            commitment_status_name(c.status),
        ) + "}"@
    } else {
        "{\"promisor\":"@ + actor_json(c.promisor, false) + ",\"beneficiary\":"@ + actor_json(
            c.beneficiary,
            false,
        ) + ",\"action\":"@ + json_str(c.action@) + ",\"due_at_unix_secs\":"@ + optional_int_json(
            c.due_at_unix_secs,
        ) + ",\"status\":"@ + json_str(commitment_status_name(c.status))
            + ",\"completion_source_event_id\":"@ + optional_event_json(c.completion_source_event_id)
            + "}"@
    }
}

pub open spec fn payload_data_json(p: MemoryPayload, sorted: bool) -> Seq<char> {
    match p {
        MemoryPayload::Person(x) => person_json(x, sorted),
        MemoryPayload::Project(x) => project_json(x, sorted),
        MemoryPayload::Commitment(x) => commitment_json(x, sorted),
    }
}

/// JSON of a payload: adjacently tagged by `kind` with content under `data`.
pub open spec fn payload_json(p: MemoryPayload, sorted: bool) -> Seq<char> {
    if sorted {
        "{\"data\":"@ + payload_data_json(p, true) + ",\"kind\":"@ + json_str(p.kind_name()) + "}"@
    } else {
        "{\"kind\":"@ + json_str(p.kind_name()) + ",\"data\":"@ + payload_data_json(p, false) + "}"@
    }
}

// ---------------------------------------------------------------------------

fn push_account(out: &mut Vec<char>, a: &SourceAccountRef, sorted: bool)
    ensures
        final(out)@ == old(out)@ + account_json(*a, sorted),
{
    let ghost start = out@;
    if sorted {
        push_text(out, "{\"account_id\":");
        push_json_str(out, a.account_id.as_str());
        push_text(out, ",\"channel\":");
        push_json_str(out, a.channel.as_str());
        push_text(out, "}");
    } else {
        push_text(out, "{\"channel\":");
        push_json_str(out, a.channel.as_str());
        push_text(out, ",\"account_id\":");
        push_json_str(out, a.account_id.as_str());
        push_text(out, "}");
    }
    assert(out@ =~= start + account_json(*a, sorted));
}

fn push_actor(out: &mut Vec<char>, a: &ThreadActorRef, sorted: bool)
    ensures
        final(out)@ == old(out)@ + actor_json(*a, sorted),
{
    let ghost start = out@;
    push_text(out, "{\"account\":");
    push_account(out, &a.account, sorted);
    push_text(out, ",\"actor_id\":");
    push_json_str(out, a.actor_id.as_str());
    push_text(out, "}");
    assert(out@ =~= start + actor_json(*a, sorted));
}

fn push_optional_text(out: &mut Vec<char>, value: &Option<String>)
    ensures
        final(out)@ == old(out)@ + optional_text_json(*value),
{
    match value {
        Some(s) => push_json_str(out, s.as_str()),
        None => push_text(out, "null"),
    }
}

fn push_decisions(out: &mut Vec<char>, values: &Vec<ThreadDecisionId>)
    ensures
        final(out)@ == old(out)@ + decision_list_json(values@),
{
    let mut texts: Vec<String> = Vec::new();
    let mut i: usize = 0;
    while i < values.len()
        invariant
            i <= values@.len(),
            texts@.len() == i,
            forall|j: int| 0 <= j < i ==> (#[trigger] texts@[j])@ == values@[j]@,
        decreases values@.len() - i,
    {
        texts.push(values[i].as_str().to_owned());
        i = i + 1;
    }
    assert(texts@.map_values(|v: String| v@) =~= values@.map_values(|v: ThreadDecisionId| v@));
    push_json_str_array(out, &texts);
}

#[verifier::rlimit(60)]
fn push_person_sorted(out: &mut Vec<char>, p: &PersonMemory)
    ensures
        final(out)@ == old(out)@ + person_json(*p, true),
{
    let ghost start = out@;
        push_text(out, "{\"communication_preferences\":");
        push_json_str_array(out, &p.communication_preferences);
        push_text(out, ",\"person\":");
        push_actor(out, &p.person, true);
        push_text(out, ",\"relationship\":");
        push_optional_text(out, &p.relationship);
        push_text(out, ",\"responsibilities\":");
        push_json_str_array(out, &p.responsibilities);
        push_text(out, "}");
    assert(out@ =~= start + person_json(*p, true));
}

#[verifier::rlimit(60)]
fn push_person_fields(out: &mut Vec<char>, p: &PersonMemory)
    ensures
        final(out)@ == old(out)@ + person_json(*p, false),
{
    let ghost start = out@;
        push_text(out, "{\"person\":");
        push_actor(out, &p.person, false);
        push_text(out, ",\"relationship\":");
        push_optional_text(out, &p.relationship);
        push_text(out, ",\"responsibilities\":");
        push_json_str_array(out, &p.responsibilities);
        push_text(out, ",\"communication_preferences\":");
        push_json_str_array(out, &p.communication_preferences);
        push_text(out, "}");
    assert(out@ =~= start + person_json(*p, false));
}

fn push_person(out: &mut Vec<char>, p: &PersonMemory, sorted: bool)
    ensures
        final(out)@ == old(out)@ + person_json(*p, sorted),
{
    if sorted {
        push_person_sorted(out, p);
    } else {
        push_person_fields(out, p);
    }
}

#[verifier::rlimit(60)]
fn push_project_sorted(out: &mut Vec<char>, p: &ProjectMemory)
    ensures
        final(out)@ == old(out)@ + project_json(*p, true),
{
    let ghost start = out@;
        push_text(out, "{\"artifact_refs\":");
        push_json_str_array(out, &p.artifact_refs);
        push_text(out, ",\"blockers\":");
        push_json_str_array(out, &p.blockers);
        push_text(out, ",\"decision_ids\":");
        push_decisions(out, &p.decision_ids);
        push_text(out, ",\"goal\":");
        push_json_str(out, p.goal.as_str());
        push_text(out, ",\"member_actor_ids\":");
        push_json_str_array(out, &p.member_actor_ids);
        push_text(out, ",\"progress\":");
        push_optional_text(out, &p.progress);
        push_text(out, ",\"project_key\":");
        push_json_str(out, p.project_key.as_str());
        push_text(out, ",\"risks\":");
        push_json_str_array(out, &p.risks);
        push_text(out, "}");
    assert(out@ =~= start + project_json(*p, true));
}

#[verifier::rlimit(60)]
fn push_project_fields(out: &mut Vec<char>, p: &ProjectMemory)
    ensures
        final(out)@ == old(out)@ + project_json(*p, false),
{
    let ghost start = out@;
        push_text(out, "{\"project_key\":");
        push_json_str(out, p.project_key.as_str());
        push_text(out, ",\"goal\":");
        push_json_str(out, p.goal.as_str());
        push_text(out, ",\"member_actor_ids\":");
        push_json_str_array(out, &p.member_actor_ids);
        push_text(out, ",\"progress\":");
        push_optional_text(out, &p.progress);
        push_text(out, ",\"decision_ids\":");
        push_decisions(out, &p.decision_ids);
        push_text(out, ",\"risks\":");
        push_json_str_array(out, &p.risks);
        push_text(out, ",\"blockers\":");
        push_json_str_array(out, &p.blockers);
        push_text(out, ",\"artifact_refs\":");
        push_json_str_array(out, &p.artifact_refs);
        push_text(out, "}");
    assert(out@ =~= start + project_json(*p, false));
}

fn push_project(out: &mut Vec<char>, p: &ProjectMemory, sorted: bool)
    ensures
        final(out)@ == old(out)@ + project_json(*p, sorted),
{
    if sorted {
        push_project_sorted(out, p);
    } else {
        push_project_fields(out, p);
    }
}

fn push_commitment_status(out: &mut Vec<char>, status: CommitmentStatus)
    ensures
        final(out)@ == old(out)@ + json_str(commitment_status_name(status)),
{
    match status {
        CommitmentStatus::Proposed => push_json_str(out, "proposed"),
        CommitmentStatus::Pending => push_json_str(out, "pending"),
        CommitmentStatus::Fulfilled => push_json_str(out, "fulfilled"),
        CommitmentStatus::Cancelled => push_json_str(out, "cancelled"),
    }
}

fn push_optional_int(out: &mut Vec<char>, value: Option<i64>)
    ensures
        final(out)@ == old(out)@ + optional_int_json(value),
{
    match value {
        Some(n) => push_json_int(out, n),
        None => push_text(out, "null"),
    }
}

fn push_optional_event(out: &mut Vec<char>, value: &Option<SourceEventId>)
    ensures
        final(out)@ == old(out)@ + optional_event_json(*value),
{
    match value {
        Some(id) => push_json_str(out, id.as_str()),
        None => push_text(out, "null"),
    }
}

#[verifier::rlimit(60)]
fn push_commitment_sorted(out: &mut Vec<char>, p: &CommitmentMemory)
    ensures
        final(out)@ == old(out)@ + commitment_json(*p, true),
{
    let ghost start = out@;
        push_text(out, "{\"action\":");
        push_json_str(out, p.action.as_str());
        push_text(out, ",\"beneficiary\":");
        push_actor(out, &p.beneficiary, true);
        push_text(out, ",\"completion_source_event_id\":");
        push_optional_event(out, &p.completion_source_event_id);
        push_text(out, ",\"due_at_unix_secs\":");
        push_optional_int(out, p.due_at_unix_secs);
        push_text(out, ",\"promisor\":");
        push_actor(out, &p.promisor, true);
        push_text(out, ",\"status\":");
        push_commitment_status(out, p.status);
        push_text(out, "}");
    assert(out@ =~= start + commitment_json(*p, true));
}

#[verifier::rlimit(60)]
fn push_commitment_fields(out: &mut Vec<char>, p: &CommitmentMemory)
    ensures
        final(out)@ == old(out)@ + commitment_json(*p, false),
{
    let ghost start = out@;
        push_text(out, "{\"promisor\":");
        push_actor(out, &p.promisor, false);
        push_text(out, ",\"beneficiary\":");
        push_actor(out, &p.beneficiary, false);
        push_text(out, ",\"action\":");
        push_json_str(out, p.action.as_str());
        push_text(out, ",\"due_at_unix_secs\":");
        push_optional_int(out, p.due_at_unix_secs);
        push_text(out, ",\"status\":");
        push_commitment_status(out, p.status);
        push_text(out, ",\"completion_source_event_id\":");
        push_optional_event(out, &p.completion_source_event_id);
        push_text(out, "}");
    assert(out@ =~= start + commitment_json(*p, false));
}

fn push_commitment(out: &mut Vec<char>, p: &CommitmentMemory, sorted: bool)
    ensures
        final(out)@ == old(out)@ + commitment_json(*p, sorted),
{
    if sorted {
        push_commitment_sorted(out, p);
    } else {
        push_commitment_fields(out, p);
    }
}

fn push_payload_data(out: &mut Vec<char>, p: &MemoryPayload, sorted: bool)
    ensures
        final(out)@ == old(out)@ + payload_data_json(*p, sorted),
{
    match p {
        MemoryPayload::Person(x) => push_person(out, x, sorted),
        MemoryPayload::Project(x) => push_project(out, x, sorted),
        MemoryPayload::Commitment(x) => push_commitment(out, x, sorted),
    }
}

/// Appends the JSON of a payload.
pub fn push_payload(out: &mut Vec<char>, p: &MemoryPayload, sorted: bool)
    ensures
        final(out)@ == old(out)@ + payload_json(*p, sorted),
{
    let ghost start = out@;
    if sorted {
        push_text(out, "{\"data\":");
        push_payload_data(out, p, true);
        push_text(out, ",\"kind\":");
        push_json_str(out, p.kind());
        push_text(out, "}");
    } else {
        push_text(out, "{\"kind\":");
        push_json_str(out, p.kind());
        push_text(out, ",\"data\":");
        push_payload_data(out, p, false);
        push_text(out, "}");
    }
    assert(out@ =~= start + payload_json(*p, sorted));
}

} // verus!
