//! Structured long-term memory facts about people, projects and commitments,
//! and the checks that every written fact passes.
use vstd::prelude::*;

use crate::generated_id::{lemma_uuid_text_shape, random_uuid_text};
use crate::identity::{
    same_account, ContentTrustLevel, ConversationRef, SourceAccountRef, SourceEventId,
    ThreadActorRef, ThreadDecisionId,
};
use crate::json_text::{decimal, push_decimal, push_text, string_from_chars};
use crate::text::{is_blank, text_fits, text_is_blank, text_ok};

verus! {

/// Error of a memory fact that breaks a rule.
#[derive(Debug, PartialEq, Eq)]
pub enum MemoryFactError {
    Invalid(String),
}

/// Message naming the field and its character bound.
fn text_bounds_message(field: &str, max: usize) -> (r: String)
    ensures
        r@ == field@ + " must contain 1..="@ + decimal(max as nat) + " characters"@,
{
    let mut out: Vec<char> = Vec::new();
    push_text(&mut out, field);
    push_text(&mut out, " must contain 1..=");
    push_decimal(&mut out, max as u64);
    push_text(&mut out, " characters");
    string_from_chars(&out)
}

/// Message naming the list field and its item bound.
fn list_bounds_message(field: &str, max_items: usize) -> (r: String)
    ensures
        r@ == field@ + " must not exceed "@ + decimal(max_items as nat) + " items"@,
{
    let mut out: Vec<char> = Vec::new();
    push_text(&mut out, field);
    push_text(&mut out, " must not exceed ");
    push_decimal(&mut out, max_items as u64);
    push_text(&mut out, " items");
    string_from_chars(&out)
}

fn invalid(message: &str) -> (r: MemoryFactError)
    ensures
        r matches MemoryFactError::Invalid(m) && m@ == message@,
{
    MemoryFactError::Invalid(message.to_owned())
}

/// Identifier of a memory fact; never blank.
#[derive(Debug, PartialEq, Eq, Hash)]
pub struct MemoryFactId(String);

impl View for MemoryFactId {
    type V = Seq<char>;

    closed spec fn view(&self) -> Seq<char> {
        self.0@
    }
}

impl MemoryFactId {
    #[verifier::type_invariant]
    closed spec fn non_blank(self) -> bool {
        !is_blank(self.0@)
    }

    pub fn new(value: &str) -> (r: Result<Self, MemoryFactError>)
        ensures
            is_blank(value@) <==> r is Err,
            r matches Ok(id) ==> id@ == value@,
    {
        if text_is_blank(value) {
            return Err(invalid("memory_fact_id must not be empty"));
        }
        Ok(MemoryFactId(value.to_owned()))
    }

    /// A fresh random identifier.
    pub fn generate() -> (r: Self)
        ensures
            !is_blank(r@),
    {
        let text = random_uuid_text();
        proof {
            lemma_uuid_text_shape(text@);
        }
        MemoryFactId(text)
    }

    pub fn as_str(&self) -> (r: &str)
        ensures
            r@ == self@,
            !is_blank(r@),
    {
        proof {
            use_type_invariant(self);
        }
        self.0.as_str()
    }
}

impl Clone for MemoryFactId {
    fn clone(&self) -> (r: Self)
        ensures
            r == *self,
    {
        proof {
            use_type_invariant(self);
        }
        MemoryFactId(self.0.clone())
    }
}

/// Lifecycle status of a memory fact.
#[derive(Debug, Clone, Copy, PartialEq, Eq, Structural)]
pub enum MemoryFactStatus {
    Proposed,
    Confirmed,
    Superseded,
    Expired,
    Deleted,
}

impl MemoryFactStatus {
    pub open spec fn name(self) -> Seq<char> {
        match self {
            MemoryFactStatus::Proposed => "proposed"@,
            MemoryFactStatus::Confirmed => "confirmed"@,
            MemoryFactStatus::Superseded => "superseded"@,
            MemoryFactStatus::Expired => "expired"@,
            MemoryFactStatus::Deleted => "deleted"@,
        }
    }

    pub fn as_str(self) -> (r: &'static str)
        ensures
            r@ == self.name(),
    {
        match self {
            MemoryFactStatus::Proposed => "proposed",
            MemoryFactStatus::Confirmed => "confirmed",
            MemoryFactStatus::Superseded => "superseded",
            MemoryFactStatus::Expired => "expired",
            MemoryFactStatus::Deleted => "deleted",
        }
    }
}

/// Status of a remembered commitment.
#[derive(Debug, Clone, Copy, PartialEq, Eq, Structural)]
pub enum CommitmentStatus {
    Proposed,
    Pending,
    Fulfilled,
    Cancelled,
}

/// What is remembered about a person.
#[derive(Debug, PartialEq, Eq)]
pub struct PersonMemory {
    pub person: ThreadActorRef,
    pub relationship: Option<String>,
    pub responsibilities: Vec<String>,
    pub communication_preferences: Vec<String>,
}

/// What is remembered about a project.
#[derive(Debug, PartialEq, Eq)]
pub struct ProjectMemory {
    pub project_key: String,
    pub goal: String,
    pub member_actor_ids: Vec<String>,
    pub progress: Option<String>,
    pub decision_ids: Vec<ThreadDecisionId>,
    pub risks: Vec<String>,
    pub blockers: Vec<String>,
    pub artifact_refs: Vec<String>,
}

/// A promise that one actor made to another.
#[derive(Debug, PartialEq, Eq)]
pub struct CommitmentMemory {
    pub promisor: ThreadActorRef,
    pub beneficiary: ThreadActorRef,
    pub action: String,
    pub due_at_unix_secs: Option<i64>,
    pub status: CommitmentStatus,
    pub completion_source_event_id: Option<SourceEventId>,
}

/// The content of a memory fact.
#[derive(Debug, PartialEq, Eq)]
pub enum MemoryPayload {
    Person(PersonMemory),
    Project(ProjectMemory),
    Commitment(CommitmentMemory),
}

impl MemoryPayload {
    pub open spec fn kind_name(self) -> Seq<char> {
        match self {
            MemoryPayload::Person(_) => "person"@,
            MemoryPayload::Project(_) => "project"@,
            MemoryPayload::Commitment(_) => "commitment"@,
        }
    }

    pub fn kind(&self) -> (r: &'static str)
        ensures
            r@ == self.kind_name(),
    {
        match self {
            MemoryPayload::Person(_) => "person",
            MemoryPayload::Project(_) => "project",
            MemoryPayload::Commitment(_) => "commitment",
        }
    }
}

/// A long-term memory fact of a managed account.
#[derive(Debug, PartialEq, Eq)]
pub struct MemoryFact {
    pub fact_id: MemoryFactId,
    pub account: SourceAccountRef,
    pub subject_key: String,
    pub payload: MemoryPayload,
    pub status: MemoryFactStatus,
    pub confidence_bps: u16,
    pub source_event_ids: Vec<SourceEventId>,
    pub valid_until_unix_secs: Option<i64>,
    pub supersedes_fact_id: Option<MemoryFactId>,
}

/// Receipt of a fact write.
#[derive(Debug, PartialEq, Eq)]
pub struct MemoryWriteReceipt {
    pub fact_id: MemoryFactId,
    pub changed: bool,
}

/// A bounded excerpt of a fact's source event.
#[derive(Debug, PartialEq, Eq)]
pub struct MemorySourceExcerpt {
    pub source_event_id: SourceEventId,
    pub conversation_kind: String,
    pub conversation_id: String,
    pub actor_id: String,
    pub occurred_at_unix_secs: i64,
    pub excerpt: String,
}

/// A fact together with excerpts of its sources.
#[derive(Debug, PartialEq, Eq)]
pub struct MemoryFactView {
    pub fact: MemoryFact,
    pub sources: Vec<MemorySourceExcerpt>,
}

/// An owner command that deletes a fact.
#[derive(Debug, PartialEq, Eq)]
pub struct MemoryDeleteInput {
    pub fact_id: MemoryFactId,
    pub command_source_event_id: SourceEventId,
    pub reason: String,
}

/// Receipt of a fact deletion.
#[derive(Debug, PartialEq, Eq)]
pub struct MemoryDeleteReceipt {
    pub fact_id: MemoryFactId,
    pub changed: bool,
}

/// An owner command that sets a conversation's memory mode.
#[derive(Debug, PartialEq, Eq)]
pub struct ConversationMemoryModeInput {
    pub account: SourceAccountRef,
    pub conversation: ConversationRef,
    pub command_source_event_id: SourceEventId,
    pub mode: ContentTrustLevel,
}

/// Receipt of a memory mode change.
#[derive(Debug, Clone, Copy, PartialEq, Eq, Structural)]
pub struct ConversationMemoryModeReceipt {
    pub changed: bool,
    pub previous_mode: ContentTrustLevel,
    pub current_mode: ContentTrustLevel,
}

// ---------------------------------------------------------------------------
// Rules of a valid fact, stated over the model.

/// An optional text is absent or holds 1..=max characters and is not blank.
pub open spec fn optional_text_ok(value: Option<String>, max: int) -> bool {
    match value {
        Some(text) => text_ok(text@, max),
        None => true,
    }
}

/// A list holds at most `max_items` texts, each of 1..=max_chars characters
/// and not blank.
pub open spec fn text_list_ok(values: Seq<String>, max_items: int, max_chars: int) -> bool {
    &&& values.len() <= max_items
    &&& forall|i: int| 0 <= i < values.len() ==> text_ok(#[trigger] values[i]@, max_chars)
}

/// The actor belongs to the managed account and has a valid identifier.
pub open spec fn actor_in_account(account: SourceAccountRef, actor: ThreadActorRef) -> bool {
    same_account(actor.account, account) && text_ok(actor.actor_id@, 191)
}

/// No source event identifier occurs twice.
pub open spec fn distinct_source_ids(ids: Seq<SourceEventId>) -> bool {
    forall|i: int, j: int| 0 <= i < ids.len() && 0 <= j < ids.len() && i != j ==> ids[i]@ != ids[j]@
}

/// The source event identifier occurs in the list.
pub open spec fn cites_source(ids: Seq<SourceEventId>, id: SourceEventId) -> bool {
    exists|i: int| 0 <= i < ids.len() && ids[i]@ == id@
}

pub open spec fn person_ok(account: SourceAccountRef, person: PersonMemory) -> bool {
    &&& actor_in_account(account, person.person)
    &&& optional_text_ok(person.relationship, 1000)
    &&& text_list_ok(person.responsibilities@, 50, 1000)
    &&& text_list_ok(person.communication_preferences@, 50, 1000)
}

pub open spec fn project_ok(project: ProjectMemory) -> bool {
    &&& text_ok(project.project_key@, 191)
    &&& text_ok(project.goal@, 4000)
    &&& optional_text_ok(project.progress, 4000)
    &&& text_list_ok(project.member_actor_ids@, 100, 191)
    &&& text_list_ok(project.risks@, 100, 1000)
    &&& text_list_ok(project.blockers@, 100, 1000)
    &&& text_list_ok(project.artifact_refs@, 100, 1000)
}

pub open spec fn commitment_ok(
    account: SourceAccountRef,
    commitment: CommitmentMemory,
    ids: Seq<SourceEventId>,
) -> bool {
    &&& actor_in_account(account, commitment.promisor)
    &&& actor_in_account(account, commitment.beneficiary)
    &&& text_ok(commitment.action@, 4000)
    // A fulfilled commitment names the event that completed it ...
    &&& !(commitment.status == CommitmentStatus::Fulfilled
        && commitment.completion_source_event_id is None)
    // ... and that event is among the fact's sources.
    &&& (commitment.completion_source_event_id matches Some(c) ==> cites_source(ids, c))
}

/// A payload with its sources passes every rule of a memory fact's content.
pub open spec fn payload_ok(
    payload: MemoryPayload,
    account: SourceAccountRef,
    ids: Seq<SourceEventId>,
) -> bool {
    &&& 1 <= ids.len() <= 100
    &&& distinct_source_ids(ids)
    &&& match payload {
        MemoryPayload::Person(person) => person_ok(account, person),
        MemoryPayload::Project(project) => project_ok(project),
        MemoryPayload::Commitment(commitment) => commitment_ok(account, commitment, ids),
    }
}

/// A new fact passes every rule.
pub open spec fn fact_ok(fact: MemoryFact) -> bool {
    &&& text_ok(fact.subject_key@, 191)
    &&& (fact.status == MemoryFactStatus::Proposed || fact.status == MemoryFactStatus::Confirmed)
    &&& fact.confidence_bps <= 10_000
    &&& !(fact.supersedes_fact_id matches Some(s) && s@ == fact.fact_id@)
    &&& payload_ok(fact.payload, fact.account, fact.source_event_ids@)
}

// ---------------------------------------------------------------------------
// Checks.

/// Checks the reason of a delete command.
pub fn validate_memory_delete(input: &MemoryDeleteInput) -> (r: Result<(), MemoryFactError>)
    ensures
        r is Ok <==> text_ok(input.reason@, 1000),
{
    validate_text("memory delete reason", input.reason.as_str(), 1000)
}

/// Checks a new memory fact.
pub fn validate_memory_fact(fact: &MemoryFact) -> (r: Result<(), MemoryFactError>)
    ensures
        r is Ok <==> fact_ok(*fact),
{
    if !text_fits(fact.subject_key.as_str(), 191) {
        return Err(invalid("subject_key must contain 1..=191 characters"));
    }
    match fact.status {
        MemoryFactStatus::Proposed | MemoryFactStatus::Confirmed => {},
        _ => {
            return Err(invalid("new memory fact status must be proposed or confirmed"));
        },
    }
    if fact.confidence_bps > 10_000 {
        return Err(invalid("memory confidence_bps must not exceed 10000"));
    }
    if let Some(supersedes) = &fact.supersedes_fact_id {
        if supersedes.0 == fact.fact_id.0 {
            return Err(invalid("memory fact cannot supersede itself"));
        }
    }
    validate_memory_payload(&fact.payload, &fact.account, fact.source_event_ids.as_slice())
}

/// Whether the list cites the identifier.
fn contains_source_id(ids: &[SourceEventId], id: &SourceEventId) -> (r: bool)
    ensures
        r == cites_source(ids@, *id),
{
    let mut i: usize = 0;
    while i < ids.len()
        invariant
            i <= ids@.len(),
            forall|k: int| 0 <= k < i ==> ids@[k]@ != id@,
        decreases ids@.len() - i,
    {
        if str_eq_ids(&ids[i], id) {
            return true;
        }
        i = i + 1;
    }
    false
}

fn str_eq_ids(a: &SourceEventId, b: &SourceEventId) -> (r: bool)
    ensures
        r == (a@ == b@),
{
    crate::identity::str_equals(a.as_str(), b.as_str())
}

/// Whether no identifier occurs twice.
fn source_ids_distinct(ids: &[SourceEventId]) -> (r: bool)
    ensures
        r == distinct_source_ids(ids@),
{
    let mut i: usize = 0;
    while i < ids.len()
        invariant
            i <= ids@.len(),
            forall|a: int, b: int|
                0 <= a < i && 0 <= b < ids@.len() && a != b ==> ids@[a]@ != ids@[b]@,
        decreases ids@.len() - i,
    {
        let mut j: usize = i + 1;
        while j < ids.len()
            invariant
                i < ids@.len(),
                i + 1 <= j <= ids@.len(),
                forall|a: int, b: int|
                    0 <= a < i && 0 <= b < ids@.len() && a != b ==> ids@[a]@ != ids@[b]@,
                forall|b: int| i < b < j ==> ids@[i as int]@ != ids@[b]@,
            decreases ids@.len() - j,
        {
            if str_eq_ids(&ids[i], &ids[j]) {
                return false;
            }
            j = j + 1;
        }
        i = i + 1;
    }
    true
}

/// Checks a payload and the events it cites; shared by facts and candidates.
pub fn validate_memory_payload(
    payload: &MemoryPayload,
    account: &SourceAccountRef,
    source_event_ids: &[SourceEventId],
) -> (r: Result<(), MemoryFactError>)
    ensures
        r is Ok <==> payload_ok(*payload, *account, source_event_ids@),
{
    if source_event_ids.len() == 0 || source_event_ids.len() > 100 {
        return Err(invalid("memory fact must reference 1..=100 source events"));
    }
    if !source_ids_distinct(source_event_ids) {
        return Err(invalid("memory fact contains duplicate source events"));
    }
    match payload {
        MemoryPayload::Person(person) => {
            ensure_actor_account(account, &person.person)?;
            validate_optional_text("relationship", &person.relationship, 1000)?;
            validate_text_list("responsibilities", &person.responsibilities, 50, 1000)?;
            validate_text_list(
                "communication_preferences",
                &person.communication_preferences,
                50,
                1000,
            )?;
        },
        MemoryPayload::Project(project) => {
            validate_text("project_key", project.project_key.as_str(), 191)?;
            validate_text("goal", project.goal.as_str(), 4000)?;
            validate_optional_text("progress", &project.progress, 4000)?;
            validate_text_list("member_actor_ids", &project.member_actor_ids, 100, 191)?;
            validate_text_list("risks", &project.risks, 100, 1000)?;
            validate_text_list("blockers", &project.blockers, 100, 1000)?;
            validate_text_list("artifact_refs", &project.artifact_refs, 100, 1000)?;
        },
        MemoryPayload::Commitment(commitment) => {
            ensure_actor_account(account, &commitment.promisor)?;
            ensure_actor_account(account, &commitment.beneficiary)?;
            validate_text("commitment.action", commitment.action.as_str(), 4000)?;
            if commitment.status == CommitmentStatus::Fulfilled
                && commitment.completion_source_event_id.is_none() {
                return Err(invalid("fulfilled commitment requires completion evidence"));
            }
            if let Some(completion) = &commitment.completion_source_event_id {
                if !contains_source_id(source_event_ids, completion) {
                    return Err(invalid("completion evidence must be included in source_event_ids"));
                }
            }
        },
    }
    Ok(())
}

fn ensure_actor_account(account: &SourceAccountRef, actor: &ThreadActorRef) -> (r: Result<
    (),
    MemoryFactError,
>)
    ensures
        r is Ok <==> actor_in_account(*account, *actor),
{
    if !actor.account.same_as(account) {
        return Err(invalid("memory actor must belong to the managed account scope"));
    }
    validate_text("actor_id", actor.actor_id.as_str(), 191)
}

fn validate_optional_text(field: &str, value: &Option<String>, max: usize) -> (r: Result<
    (),
    MemoryFactError,
>)
    requires
        max < usize::MAX,
    ensures
        r is Ok <==> optional_text_ok(*value, max as int),
{
    if let Some(value) = value {
        validate_text(field, value.as_str(), max)?;
    }
    Ok(())
}

fn validate_text(field: &str, value: &str, max: usize) -> (r: Result<(), MemoryFactError>)
    requires
        max < usize::MAX,
    ensures
        r is Ok <==> text_ok(value@, max as int),
{
    if !text_fits(value, max) {
        return Err(MemoryFactError::Invalid(text_bounds_message(field, max)));
    }
    Ok(())
}

fn validate_text_list(field: &str, values: &Vec<String>, max_items: usize, max_chars: usize) -> (r:
    Result<(), MemoryFactError>)
    requires
        max_chars < usize::MAX,
    ensures
        r is Ok <==> text_list_ok(values@, max_items as int, max_chars as int),
{
    if values.len() > max_items {
        return Err(MemoryFactError::Invalid(list_bounds_message(field, max_items)));
    }
    let mut i: usize = 0;
    while i < values.len()
        invariant
            i <= values@.len(),
            max_chars < usize::MAX,
            forall|k: int| 0 <= k < i ==> text_ok(#[trigger] values@[k]@, max_chars as int),
        decreases values@.len() - i,
    {
        validate_text(field, values[i].as_str(), max_chars)?;
        i = i + 1;
    }
    Ok(())
}

} // verus!
