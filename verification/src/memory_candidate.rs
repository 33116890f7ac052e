//! Memory candidates: drafts of memory facts that an extractor proposes from
//! a bounded batch of source events, and that become confirmed facts only
//! when the owner approves them.
use vstd::prelude::*;

use crate::generated_id::{
    lemma_uuid_text_shape, random_uuid_text, uuid_v5_oid, uuid_v5_oid_text,
};
use crate::identity::{
    same_account, ContentTrustLevel, ConversationRef, MessageRole, SourceAccountRef,
    SourceEventId, ThreadActorRef,
};
use crate::memory::{
    payload_ok, text_list_ok, validate_memory_fact, CommitmentMemory, CommitmentStatus,
    MemoryFact, MemoryFactError, MemoryFactId, MemoryFactStatus, MemoryPayload, PersonMemory,
    ProjectMemory,
};
use crate::generated_id::is_hyphenated_uuid;
use crate::json_text::{json_array, json_str, json_strs, push_json_str, push_json_str_array, push_text, string_from_chars};
use crate::memory::{distinct_source_ids, validate_memory_payload};
use crate::payload_json::{payload_json, push_payload};
use crate::text::{is_blank, text_fits, text_is_blank, text_ok, trim_text, trimmed, utf8_len, utf8_len_within};
use crate::text_order::{sorted_distinct, sorted_distinct_texts};
use vstd::utf8::encode_utf8;

verus! {

/// Most source events that one candidate may cite.
pub const MAX_CANDIDATE_SOURCES: usize = 20;

/// Most bytes of a candidate's serialized payload (16 KiB).
pub const MAX_CANDIDATE_PAYLOAD_BYTES: usize = 16384;

/// Version of a freshly proposed candidate.
pub const INITIAL_CANDIDATE_VERSION: u64 = 1;

/// Confidence written to the fact that an approved candidate becomes.
pub const APPROVED_CANDIDATE_CONFIDENCE_BPS: u16 = 10000;

/// Error of a candidate that breaks a rule or cannot be serialized.
#[derive(Debug, PartialEq, Eq)]
pub enum MemoryCandidateError {
    InvalidData(String),
    Serialize(String),
}

fn invalid(message: &str) -> (r: MemoryCandidateError)
    ensures
        r matches MemoryCandidateError::InvalidData(m) && m@ == message@,
{
    MemoryCandidateError::InvalidData(message.to_owned())
}

/// The text of a fact error, as its `Display` writes it.
pub open spec fn fact_error_display(error: MemoryFactError) -> Seq<char> {
    match error {
        MemoryFactError::Invalid(message) => "invalid memory fact: "@ + message@,
    }
}

/// Text of a fact error, as its `Display` writes it.
fn fact_error_text(error: &MemoryFactError) -> (r: String)
    ensures
        r@ == fact_error_display(*error),
{
    let mut out: Vec<char> = Vec::new();
    match error {
        MemoryFactError::Invalid(message) => {
            push_text(&mut out, "invalid memory fact: ");
            push_text(&mut out, message.as_str());
        },
    }
    string_from_chars(&out)
}

/// The candidate error that a fact error becomes: invalid data carrying the
/// fact error's text.
pub fn candidate_error_from_fact(error: MemoryFactError) -> (r: MemoryCandidateError)
    ensures
        r matches MemoryCandidateError::InvalidData(text) && text@ == fact_error_display(error),
{
    MemoryCandidateError::InvalidData(fact_error_text(&error))
}

/// Identifier of a persisted candidate: not blank, at most 36 bytes.
#[derive(Debug, PartialEq, Eq, Hash)]
pub struct MemoryCandidateId(String);

impl View for MemoryCandidateId {
    type V = Seq<char>;

    closed spec fn view(&self) -> Seq<char> {
        self.0@
    }
}

impl MemoryCandidateId {
    #[verifier::type_invariant]
    closed spec fn bounded(self) -> bool {
        !is_blank(self.0@) && utf8_len(self.0@) <= 36
    }

    pub fn new(value: &str) -> (r: Result<Self, MemoryCandidateError>)
        ensures
            r is Ok <==> !is_blank(value@) && utf8_len(value@) <= 36,
            r matches Ok(id) ==> id@ == value@,
            r matches Err(e) ==> e is InvalidData,
    {
        if text_is_blank(value) || !utf8_len_within(value, 36) {
            return Err(invalid("candidate_id must contain 1..=36 bytes"));
        }
        Ok(MemoryCandidateId(value.to_owned()))
    }

    /// A fresh random identifier.
    pub fn generate() -> (r: Self)
        ensures
            !is_blank(r@),
            utf8_len(r@) <= 36,
    {
        let text = random_uuid_text();
        proof {
            lemma_uuid_text_shape(text@);
        }
        MemoryCandidateId(text)
    }

    pub fn as_str(&self) -> (r: &str)
        ensures
            r@ == self@,
            !is_blank(r@),
            utf8_len(r@) <= 36,
    {
        proof {
            use_type_invariant(self);
        }
        self.0.as_str()
    }
}

impl Clone for MemoryCandidateId {
    fn clone(&self) -> (r: Self)
        ensures
            r == *self,
    {
        proof {
            use_type_invariant(self);
        }
        MemoryCandidateId(self.0.clone())
    }
}

/// Kind of a candidate; the same names as the payload kinds.
#[derive(Debug, Clone, Copy, PartialEq, Eq, Hash, Structural)]
pub enum MemoryCandidateKind {
    Person,
    Project,
    Commitment,
}

impl MemoryCandidateKind {
    pub open spec fn name(self) -> Seq<char> {
        match self {
            MemoryCandidateKind::Person => "person"@,
            MemoryCandidateKind::Project => "project"@,
            MemoryCandidateKind::Commitment => "commitment"@,
        }
    }

    pub fn as_str(self) -> (r: &'static str)
        ensures
            r@ == self.name(),
    {
        match self {
            MemoryCandidateKind::Person => "person",
            MemoryCandidateKind::Project => "project",
            MemoryCandidateKind::Commitment => "commitment",
        }
    }

    pub open spec fn of_payload(payload: MemoryPayload) -> MemoryCandidateKind {
        match payload {
            MemoryPayload::Person(_) => MemoryCandidateKind::Person,
            MemoryPayload::Project(_) => MemoryCandidateKind::Project,
            MemoryPayload::Commitment(_) => MemoryCandidateKind::Commitment,
        }
    }

    pub fn from_payload(payload: &MemoryPayload) -> (r: Self)
        ensures
            r == Self::of_payload(*payload),
            r.name() == payload.kind_name(),
    {
        match payload {
            MemoryPayload::Person(_) => MemoryCandidateKind::Person,
            MemoryPayload::Project(_) => MemoryCandidateKind::Project,
            MemoryPayload::Commitment(_) => MemoryCandidateKind::Commitment,
        }
    }
}

/// Review status: proposed, then approved, rejected or invalidated.
#[derive(Debug, Clone, Copy, PartialEq, Eq, Hash, Structural)]
pub enum MemoryCandidateStatus {
    Proposed,
    Approved,
    Rejected,
    Invalidated,
}

impl MemoryCandidateStatus {
    pub open spec fn name(self) -> Seq<char> {
        match self {
            MemoryCandidateStatus::Proposed => "proposed"@,
            MemoryCandidateStatus::Approved => "approved"@,
            MemoryCandidateStatus::Rejected => "rejected"@,
            MemoryCandidateStatus::Invalidated => "invalidated"@,
        }
    }

    pub fn as_str(self) -> (r: &'static str)
        ensures
            r@ == self.name(),
    {
        match self {
            MemoryCandidateStatus::Proposed => "proposed",
            MemoryCandidateStatus::Approved => "approved",
            MemoryCandidateStatus::Rejected => "rejected",
            MemoryCandidateStatus::Invalidated => "invalidated",
        }
    }
}

/// Version of a candidate: at least 1, one more on each status change.
#[derive(Debug, Clone, Copy, PartialEq, Eq, Hash)]
pub struct MemoryCandidateVersion(u64);

impl View for MemoryCandidateVersion {
    type V = u64;

    closed spec fn view(&self) -> u64 {
        self.0
    }
}

impl MemoryCandidateVersion {
    #[verifier::type_invariant]
    closed spec fn positive(self) -> bool {
        self.0 >= 1
    }

    pub fn new(value: u64) -> (r: Result<Self, MemoryCandidateError>)
        ensures
            r is Ok <==> value >= 1,
            r matches Ok(v) ==> v@ == value,
            r matches Err(e) ==> e is InvalidData,
    {
        if value == 0 {
            return Err(invalid("candidate version must be >= 1"));
        }
        Ok(MemoryCandidateVersion(value))
    }

    pub fn as_u64(self) -> (r: u64)
        ensures
            r == self@,
            r >= 1,
    {
        proof {
            use_type_invariant(self);
        }
        self.0
    }
}

/// A source event that a candidate cites, with its sender and trust level.
#[derive(Debug, PartialEq, Eq)]
pub struct MemoryCandidateSource {
    pub source_event_id: SourceEventId,
    pub actor: ThreadActorRef,
    pub occurred_at_unix_secs: i64,
    pub content_trust_level: ContentTrustLevel,
}

impl Clone for MemoryCandidateSource {
    fn clone(&self) -> (r: Self)
        ensures
            r == *self,
    {
        MemoryCandidateSource {
            source_event_id: self.source_event_id.clone(),
            actor: self.actor.clone(),
            occurred_at_unix_secs: self.occurred_at_unix_secs,
            content_trust_level: self.content_trust_level,
        }
    }
}

/// A memory draft awaiting the owner's decision.
#[derive(Debug, PartialEq, Eq)]
pub struct MemoryCandidate {
    pub candidate_id: MemoryCandidateId,
    pub account: SourceAccountRef,
    pub subject_key: String,
    pub payload: MemoryPayload,
    pub status: MemoryCandidateStatus,
    pub version: MemoryCandidateVersion,
    pub extractor_version: String,
    /// Stable derivation from account, kind, trimmed subject, payload, the
    /// sorted distinct source identifiers and the extractor version.
    pub deterministic_fingerprint: String,
    pub sources: Vec<MemoryCandidateSource>,
}

/// One event of an extraction batch.
#[derive(Debug, PartialEq, Eq)]
pub struct MemoryCandidateEvent {
    pub source_event_id: SourceEventId,
    pub actor: ThreadActorRef,
    pub role: MessageRole,
    pub occurred_at_unix_secs: i64,
    pub content_trust_level: ContentTrustLevel,
    pub normalized_text: String,
    pub content_omitted: bool,
}

/// A bounded batch of events of one conversation, claimed under a lease.
#[derive(Debug, PartialEq, Eq)]
pub struct MemoryCandidateBatch {
    pub account: SourceAccountRef,
    pub conversation: ConversationRef,
    pub lease_token: MemoryCandidateLeaseToken,
    pub events: Vec<MemoryCandidateEvent>,
    pub next_cursor: MemoryCandidateCursor,
}

/// Persistent extraction cursor.
#[derive(Debug, PartialEq, Eq)]
pub struct MemoryCandidateCursor {
    pub received_at_unix_micros: i64,
    pub source_event_id: SourceEventId,
}

/// Token of an extraction lease.
#[derive(Debug, PartialEq, Eq)]
pub struct MemoryCandidateLeaseToken(String);

impl View for MemoryCandidateLeaseToken {
    type V = Seq<char>;

    closed spec fn view(&self) -> Seq<char> {
        self.0@
    }
}

impl MemoryCandidateLeaseToken {
    /// A fresh random token.
    pub fn generate() -> (r: Self)
        ensures
            !is_blank(r@),
    {
        let text = random_uuid_text();
        proof {
            lemma_uuid_text_shape(text@);
        }
        MemoryCandidateLeaseToken(text)
    }

    pub fn as_str(&self) -> (r: &str)
        ensures
            r@ == self@,
    {
        self.0.as_str()
    }
}

/// Bounded excerpt of a candidate's source for listing.
#[derive(Debug, PartialEq, Eq)]
pub struct MemoryCandidateSourceExcerpt {
    pub source_event_id: SourceEventId,
    pub actor_id: String,
    pub occurred_at_unix_secs: i64,
    pub content_trust_level: ContentTrustLevel,
}

/// A candidate as the owner sees it before deciding.
#[derive(Debug, PartialEq, Eq)]
pub struct MemoryCandidateView {
    pub candidate_id: MemoryCandidateId,
    pub kind: MemoryCandidateKind,
    pub subject_key: String,
    pub status: MemoryCandidateStatus,
    pub version: MemoryCandidateVersion,
    pub payload: MemoryPayload,
    pub source_excerpts: Vec<MemoryCandidateSourceExcerpt>,
    pub conflicts_with_active_fact: bool,
}

// ---------------------------------------------------------------------------
// Trust gate.

/// Content of this trust level may reach the extraction model: normal always,
/// local-only only for a verified local endpoint, never the other two.
pub open spec fn eligible_for_extraction(trust: ContentTrustLevel, allow_local_only: bool) -> bool {
    match trust {
        ContentTrustLevel::Normal => true,
        ContentTrustLevel::LocalOnly => allow_local_only,
        ContentTrustLevel::EnvelopeOnly | ContentTrustLevel::NeverLongTerm => false,
    }
}

pub fn is_eligible_for_candidate_extraction(trust: ContentTrustLevel, allow_local_only: bool) -> (r:
    bool)
    ensures
        r == eligible_for_extraction(trust, allow_local_only),
{
    match trust {
        ContentTrustLevel::Normal => true,
        ContentTrustLevel::LocalOnly => allow_local_only,
        ContentTrustLevel::EnvelopeOnly | ContentTrustLevel::NeverLongTerm => false,
    }
}

// ---------------------------------------------------------------------------
// Actors that a payload names.

/// The actor identifiers that a payload refers to.
pub open spec fn payload_actor_ids(payload: MemoryPayload) -> Seq<Seq<char>> {
    match payload {
        MemoryPayload::Person(person) => seq![person.person.actor_id@],
        MemoryPayload::Project(project) => project.member_actor_ids@.map_values(
            |s: String| s@,
        ),
        MemoryPayload::Commitment(commitment) => seq![
            commitment.promisor.actor_id@,
            commitment.beneficiary.actor_id@,
        ],
    }
}

/// Some event of the batch was sent by this actor.
pub open spec fn observed_in_batch(events: Seq<MemoryCandidateEvent>, actor_id: Seq<char>) -> bool {
    exists|k: int| 0 <= k < events.len() && events[k].actor.actor_id@ == actor_id
}

/// Every actor that the payload names sent some event of the batch.
pub open spec fn payload_actors_observed(
    payload: MemoryPayload,
    events: Seq<MemoryCandidateEvent>,
) -> bool {
    forall|i: int|
        0 <= i < payload_actor_ids(payload).len() ==> observed_in_batch(
            events,
            #[trigger] payload_actor_ids(payload)[i],
        )
}

fn actor_observed(events: &Vec<MemoryCandidateEvent>, actor_id: &str) -> (r: bool)
    ensures
        r == observed_in_batch(events@, actor_id@),
{
    let mut k: usize = 0;
    while k < events.len()
        invariant
            k <= events@.len(),
            forall|j: int| 0 <= j < k ==> events@[j].actor.actor_id@ != actor_id@,
        decreases events@.len() - k,
    {
        if crate::identity::str_equals(events[k].actor.actor_id.as_str(), actor_id) {
            return true;
        }
        k = k + 1;
    }
    false
}

/// Whether every actor that the payload names is observed in the batch.
fn payload_actors_observed_in_batch(
    payload: &MemoryPayload,
    batch: &MemoryCandidateBatch,
) -> (r: Result<bool, MemoryCandidateError>)
    ensures
        r matches Ok(b) && b == payload_actors_observed(*payload, batch.events@),
{
    match payload {
        MemoryPayload::Person(person) => {
            let found = actor_observed(&batch.events, person.person.actor_id.as_str());
            assert(payload_actor_ids(*payload)[0] == person.person.actor_id@);
            Ok(found)
        },
        MemoryPayload::Project(project) => {
            let ghost ids = payload_actor_ids(*payload);
            assert(ids == project.member_actor_ids@.map_values(|s: String| s@));
            let mut i: usize = 0;
            while i < project.member_actor_ids.len()
                invariant
                    i <= project.member_actor_ids@.len(),
                    ids == project.member_actor_ids@.map_values(|s: String| s@),
                    ids == payload_actor_ids(*payload),
                    forall|j: int| 0 <= j < i ==> observed_in_batch(batch.events@, #[trigger] ids[j]),
                decreases project.member_actor_ids@.len() - i,
            {
                if !actor_observed(&batch.events, project.member_actor_ids[i].as_str()) {
                    assert(ids[i as int] == project.member_actor_ids@[i as int]@);
                    assert(!observed_in_batch(batch.events@, payload_actor_ids(*payload)[i as int]));
                    return Ok(false);
                }
                i = i + 1;
            }
            Ok(true)
        },
        MemoryPayload::Commitment(commitment) => {
            let a = actor_observed(&batch.events, commitment.promisor.actor_id.as_str());
            let b = actor_observed(&batch.events, commitment.beneficiary.actor_id.as_str());
            assert(payload_actor_ids(*payload)[0] == commitment.promisor.actor_id@);
            assert(payload_actor_ids(*payload)[1] == commitment.beneficiary.actor_id@);
            Ok(a && b)
        },
    }
}

// ---------------------------------------------------------------------------
// Approval.

/// Two payloads carry the same content.
pub open spec fn same_payload(a: MemoryPayload, b: MemoryPayload) -> bool {
    match (a, b) {
        (MemoryPayload::Person(x), MemoryPayload::Person(y)) => {
            &&& x.person == y.person
            &&& x.relationship == y.relationship
            &&& x.responsibilities@ == y.responsibilities@
            &&& x.communication_preferences@ == y.communication_preferences@
        },
        (MemoryPayload::Project(x), MemoryPayload::Project(y)) => {
            &&& x.project_key == y.project_key
            &&& x.goal == y.goal
            &&& x.member_actor_ids@ == y.member_actor_ids@
            &&& x.progress == y.progress
            &&& x.decision_ids@ == y.decision_ids@
            &&& x.risks@ == y.risks@
            &&& x.blockers@ == y.blockers@
            &&& x.artifact_refs@ == y.artifact_refs@
        },
        (MemoryPayload::Commitment(x), MemoryPayload::Commitment(y)) => x == y,
        _ => false,
    }
}

/// The payload of the fact that an approved candidate becomes: a commitment
/// turns pending with no completion evidence; other payloads stay as they are.
pub open spec fn approved_payload(payload: MemoryPayload) -> MemoryPayload {
    match payload {
        MemoryPayload::Commitment(c) => MemoryPayload::Commitment(
            CommitmentMemory {
                status: CommitmentStatus::Pending,
                completion_source_event_id: None,
                ..c
            },
        ),
        other => other,
    }
}

/// The source event identifiers of a candidate, in order.
pub open spec fn candidate_source_ids(sources: Seq<MemoryCandidateSource>) -> Seq<SourceEventId> {
    sources.map_values(|s: MemoryCandidateSource| s.source_event_id)
}

/// The confirmed fact built from an approved candidate passes every fact rule.
pub open spec fn approval_ok(candidate: MemoryCandidate) -> bool {
    &&& candidate.status == MemoryCandidateStatus::Proposed
    &&& text_ok(candidate.subject_key@, 191)
    &&& payload_ok(
        approved_payload(candidate.payload),
        candidate.account,
        candidate_source_ids(candidate.sources@),
    )
}

fn clone_text_list(values: &Vec<String>) -> (r: Vec<String>)
    ensures
        r@ == values@,
{
    let r = values.clone();
    assert(r@ =~= values@);
    r
}

fn clone_optional_text(value: &Option<String>) -> (r: Option<String>)
    ensures
        r == *value,
{
    match value {
        Some(text) => Some(text.clone()),
        None => None,
    }
}

/// A copy of the payload with the same content.
pub fn clone_payload(payload: &MemoryPayload) -> (r: MemoryPayload)
    ensures
        same_payload(r, *payload),
{
    match payload {
        MemoryPayload::Person(p) => MemoryPayload::Person(
            PersonMemory {
                person: p.person.clone(),
                relationship: clone_optional_text(&p.relationship),
                responsibilities: clone_text_list(&p.responsibilities),
                communication_preferences: clone_text_list(&p.communication_preferences),
            },
        ),
        MemoryPayload::Project(p) => {
            let decision_ids = p.decision_ids.clone();
            assert(decision_ids@ =~= p.decision_ids@);
            MemoryPayload::Project(
                ProjectMemory {
                    project_key: p.project_key.clone(),
                    goal: p.goal.clone(),
                    member_actor_ids: clone_text_list(&p.member_actor_ids),
                    progress: clone_optional_text(&p.progress),
                    decision_ids,
                    risks: clone_text_list(&p.risks),
                    blockers: clone_text_list(&p.blockers),
                    artifact_refs: clone_text_list(&p.artifact_refs),
                },
            )
        },
        MemoryPayload::Commitment(c) => MemoryPayload::Commitment(
            CommitmentMemory {
                promisor: c.promisor.clone(),
                beneficiary: c.beneficiary.clone(),
                action: c.action.clone(),
                due_at_unix_secs: c.due_at_unix_secs,
                status: c.status,
                completion_source_event_id: match &c.completion_source_event_id {
                    Some(id) => Some(id.clone()),
                    None => None,
                },
            },
        ),
    }
}

impl Clone for MemoryPayload {
    fn clone(&self) -> (r: Self)
        ensures
            same_payload(r, *self),
    {
        clone_payload(self)
    }
}

impl Clone for MemoryCandidate {
    fn clone(&self) -> (r: Self)
        ensures
            r.candidate_id == self.candidate_id,
            r.account == self.account,
            r.subject_key == self.subject_key,
            same_payload(r.payload, self.payload),
            r.status == self.status,
            r.version == self.version,
            r.extractor_version == self.extractor_version,
            r.deterministic_fingerprint == self.deterministic_fingerprint,
            r.sources@ == self.sources@,
    {
        let sources = self.sources.clone();
        assert(sources@ =~= self.sources@);
        MemoryCandidate {
            candidate_id: self.candidate_id.clone(),
            account: self.account.clone(),
            subject_key: self.subject_key.clone(),
            payload: clone_payload(&self.payload),
            status: self.status,
            version: self.version,
            extractor_version: self.extractor_version.clone(),
            deterministic_fingerprint: self.deterministic_fingerprint.clone(),
            sources,
        }
    }
}

/// The source event identifiers of the candidate's sources, in order.
fn source_ids_of(sources: &Vec<MemoryCandidateSource>) -> (r: Vec<SourceEventId>)
    ensures
        r@ == candidate_source_ids(sources@),
{
    let mut ids: Vec<SourceEventId> = Vec::new();
    let mut i: usize = 0;
    while i < sources.len()
        invariant
            i <= sources@.len(),
            ids@ == candidate_source_ids(sources@).take(i as int),
        decreases sources@.len() - i,
    {
        ids.push(sources[i].source_event_id.clone());
        i = i + 1;
        assert(ids@ =~= candidate_source_ids(sources@).take(i as int));
    }
    assert(candidate_source_ids(sources@).take(i as int) =~= candidate_source_ids(sources@));
    ids
}

/// Turns a proposed candidate into a confirmed fact with full confidence; a
/// commitment becomes pending and loses any completion evidence.
pub fn candidate_to_confirmed_fact(candidate: &MemoryCandidate, fact_id: MemoryFactId) -> (r: Result<
    MemoryFact,
    MemoryCandidateError,
>)
    ensures
        r is Ok <==> approval_ok(*candidate),
        r matches Err(e) ==> e is InvalidData,
        r matches Ok(fact) ==> {
            &&& fact.fact_id == fact_id
            &&& fact.account == candidate.account
            &&& fact.subject_key == candidate.subject_key
            &&& same_payload(fact.payload, approved_payload(candidate.payload))
            &&& fact.status == MemoryFactStatus::Confirmed
            &&& fact.confidence_bps == APPROVED_CANDIDATE_CONFIDENCE_BPS
            &&& fact.source_event_ids@ == candidate_source_ids(candidate.sources@)
            &&& fact.valid_until_unix_secs is None
            &&& fact.supersedes_fact_id is None
        },
{
    if candidate.status != MemoryCandidateStatus::Proposed {
        return Err(invalid("only a proposed candidate can be approved"));
    }
    let payload = match &candidate.payload {
        MemoryPayload::Commitment(commitment) => MemoryPayload::Commitment(
            CommitmentMemory {
                promisor: commitment.promisor.clone(),
                beneficiary: commitment.beneficiary.clone(),
                action: commitment.action.clone(),
                due_at_unix_secs: commitment.due_at_unix_secs,
                status: CommitmentStatus::Pending,
                completion_source_event_id: None,
            },
        ),
        other => clone_payload(other),
    };
    let fact = MemoryFact {
        fact_id,
        account: candidate.account.clone(),
        subject_key: candidate.subject_key.clone(),
        payload,
        status: MemoryFactStatus::Confirmed,
        confidence_bps: APPROVED_CANDIDATE_CONFIDENCE_BPS,
        source_event_ids: source_ids_of(&candidate.sources),
        valid_until_unix_secs: None,
        supersedes_fact_id: None,
    };
    match validate_memory_fact(&fact) {
        Ok(()) => Ok(fact),
        Err(error) => Err(candidate_error_from_fact(error)),
    }
}

// ---------------------------------------------------------------------------
// Fingerprint.

/// The source event identifiers that the sources cite, as texts.
pub open spec fn source_id_texts(sources: Seq<MemoryCandidateSource>) -> Seq<Seq<char>> {
    sources.map_values(|s: MemoryCandidateSource| s.source_event_id@)
}

/// The canonical JSON from which a fingerprint derives: an object with keys
/// in byte order holding the account as `[channel, id]`, the extractor
/// version, the payload kind, the payload (keys in byte order), the distinct
/// source identifiers in ascending order, and the trimmed subject.
pub open spec fn fingerprint_canonical(
    account: SourceAccountRef,
    payload: MemoryPayload,
    subject_key: Seq<char>,
    sources: Seq<MemoryCandidateSource>,
    extractor_version: Seq<char>,
) -> Seq<char> {
    "{\"account\":["@ + json_str(account.channel.name()) + ","@ + json_str(account.account_id@)
        + "],\"extractor_version\":"@ + json_str(extractor_version) + ",\"kind\":"@ + json_str(
        payload.kind_name(),
    ) + ",\"payload\":"@ + payload_json(payload, true) + ",\"sources\":"@ + json_array(
        json_strs(sorted_distinct(source_id_texts(sources))),
    ) + ",\"subject\":"@ + json_str(trimmed(subject_key)) + "}"@
}

/// The fingerprint: the version 5 UUID of the canonical JSON's UTF-8 bytes.
pub open spec fn fingerprint_of(
    account: SourceAccountRef,
    payload: MemoryPayload,
    subject_key: Seq<char>,
    sources: Seq<MemoryCandidateSource>,
    extractor_version: Seq<char>,
) -> Seq<char> {
    uuid_v5_oid(
        encode_utf8(fingerprint_canonical(account, payload, subject_key, sources, extractor_version)),
    )
}

fn source_id_strings(sources: &[MemoryCandidateSource]) -> (r: Vec<String>)
    ensures
        r@.map_values(|s: String| s@) == source_id_texts(sources@),
{
    let mut out: Vec<String> = Vec::new();
    let mut i: usize = 0;
    while i < sources.len()
        invariant
            i <= sources@.len(),
            out@.len() == i,
            forall|j: int| 0 <= j < i ==> (#[trigger] out@[j])@ == sources@[j].source_event_id@,
        decreases sources@.len() - i,
    {
        out.push(sources[i].source_event_id.as_str().to_owned());
        i = i + 1;
    }
    assert(out@.map_values(|s: String| s@) =~= source_id_texts(sources@));
    out
}

/// Derives the deterministic fingerprint of a candidate's content. The order
/// and repetition of the sources do not matter.
#[verifier::rlimit(40)]
pub fn candidate_fingerprint(
    account: &SourceAccountRef,
    payload: &MemoryPayload,
    subject_key: &str,
    sources: &[MemoryCandidateSource],
    extractor_version: &str,
) -> (r: String)
    ensures
        r@ == fingerprint_of(*account, *payload, subject_key@, sources@, extractor_version@),
        is_hyphenated_uuid(r@),
{
    let ids = sorted_distinct_texts(&source_id_strings(sources));
    let subject = trim_text(subject_key);
    let mut out: Vec<char> = Vec::new();
    push_text(&mut out, "{\"account\":[");
    push_json_str(&mut out, account.channel.as_str());
    push_text(&mut out, ",");
    push_json_str(&mut out, account.account_id.as_str());
    push_text(&mut out, "],\"extractor_version\":");
    push_json_str(&mut out, extractor_version);
    push_text(&mut out, ",\"kind\":");
    push_json_str(&mut out, payload.kind());
    push_text(&mut out, ",\"payload\":");
    push_payload(&mut out, payload, true);
    push_text(&mut out, ",\"sources\":");
    push_json_str_array(&mut out, &ids);
    push_text(&mut out, ",\"subject\":");
    push_json_str(&mut out, subject.as_str());
    push_text(&mut out, "}");
    assert(out@ =~= fingerprint_canonical(
        *account,
        *payload,
        subject_key@,
        sources@,
        extractor_version@,
    ));
    let canonical = string_from_chars(&out);
    uuid_v5_oid_text(canonical.as_str().as_bytes())
}

// ---------------------------------------------------------------------------
// Checks on extractor output.

/// Index of the first event, from position `k` on, with this source event
/// identifier; the number of events when there is none.
pub open spec fn first_event_from(events: Seq<MemoryCandidateEvent>, id: Seq<char>, k: int) -> int
    decreases events.len() - k,
{
    if k < 0 || k >= events.len() {
        events.len() as int
    } else if events[k].source_event_id@ == id {
        k
    } else {
        first_event_from(events, id, k + 1)
    }
}

/// Index of the first event of the batch with this source event identifier.
pub open spec fn first_event_index(events: Seq<MemoryCandidateEvent>, id: Seq<char>) -> int {
    first_event_from(events, id, 0)
}

/// Some event of the batch has this source event identifier.
pub open spec fn event_in_batch(events: Seq<MemoryCandidateEvent>, id: Seq<char>) -> bool {
    first_event_index(events, id) < events.len()
}

/// A cited source lies in the batch: same account, a batch event with its
/// identifier, sent by the same actor, with the same eligible trust level.
pub open spec fn source_in_batch(source: MemoryCandidateSource, batch: MemoryCandidateBatch) -> bool {
    &&& same_account(source.actor.account, batch.account)
    &&& event_in_batch(batch.events@, source.source_event_id@)
    &&& {
        let event = batch.events@[first_event_index(batch.events@, source.source_event_id@)];
        &&& event.actor.actor_id@ == source.actor.actor_id@
        &&& source.content_trust_level == event.content_trust_level
        &&& eligible_for_extraction(event.content_trust_level, true)
    }
}

/// No two sources cite the same event.
pub open spec fn sources_distinct(sources: Seq<MemoryCandidateSource>) -> bool {
    forall|i: int, j: int|
        0 <= i < sources.len() && 0 <= j < sources.len() && i != j
            ==> sources[i].source_event_id@ != sources[j].source_event_id@
}

/// Some source was sent by this actor.
pub open spec fn cited_by(sources: Seq<MemoryCandidateSource>, actor_id: Seq<char>) -> bool {
    exists|k: int| 0 <= k < sources.len() && sources[k].actor.actor_id@ == actor_id
}

/// Every actor that the payload names is the actor of some cited source.
pub open spec fn payload_actors_cited(payload: MemoryPayload, sources: Seq<MemoryCandidateSource>) -> bool {
    forall|i: int|
        0 <= i < payload_actor_ids(payload).len() ==> cited_by(
            sources,
            #[trigger] payload_actor_ids(payload)[i],
        )
}

/// The candidate is a valid proposal drawn from the batch.
pub open spec fn candidate_ok(candidate: MemoryCandidate, batch: MemoryCandidateBatch) -> bool {
    &&& candidate.status == MemoryCandidateStatus::Proposed
    &&& candidate.version@ == INITIAL_CANDIDATE_VERSION
    &&& same_account(candidate.account, batch.account)
    &&& text_ok(candidate.subject_key@, 191)
    &&& !is_blank(candidate.extractor_version@)
    &&& utf8_len(candidate.extractor_version@) <= 32
    &&& 1 <= candidate.sources@.len() <= MAX_CANDIDATE_SOURCES
    &&& forall|i: int|
        0 <= i < candidate.sources@.len() ==> source_in_batch(#[trigger] candidate.sources@[i], batch)
    &&& sources_distinct(candidate.sources@)
    &&& payload_actors_cited(candidate.payload, candidate.sources@)
    &&& payload_ok(candidate.payload, candidate.account, candidate_source_ids(candidate.sources@))
    &&& payload_actors_observed(candidate.payload, batch.events@)
    &&& utf8_len(payload_json(candidate.payload, false)) <= MAX_CANDIDATE_PAYLOAD_BYTES
    &&& candidate.deterministic_fingerprint@ == fingerprint_of(
        candidate.account,
        candidate.payload,
        candidate.subject_key@,
        candidate.sources@,
        candidate.extractor_version@,
    )
}

/// Index of the first batch event with the identifier, if any.
fn find_event(events: &Vec<MemoryCandidateEvent>, id: &SourceEventId) -> (r: Option<usize>)
    ensures
        r is Some <==> event_in_batch(events@, id@),
        r matches Some(k) ==> k == first_event_index(events@, id@) && k < events@.len(),
{
    let mut k: usize = 0;
    while k < events.len()
        invariant
            k <= events@.len(),
            first_event_index(events@, id@) == first_event_from(events@, id@, k as int),
        decreases events@.len() - k,
    {
        if crate::identity::str_equals(events[k].source_event_id.as_str(), id.as_str()) {
            return Some(k);
        }
        k = k + 1;
    }
    None
}

/// Whether some source has this actor.
fn cited_actor(sources: &Vec<MemoryCandidateSource>, actor_id: &str) -> (r: bool)
    ensures
        r == cited_by(sources@, actor_id@),
{
    let mut k: usize = 0;
    while k < sources.len()
        invariant
            k <= sources@.len(),
            forall|j: int| 0 <= j < k ==> sources@[j].actor.actor_id@ != actor_id@,
        decreases sources@.len() - k,
    {
        if crate::identity::str_equals(sources[k].actor.actor_id.as_str(), actor_id) {
            return true;
        }
        k = k + 1;
    }
    false
}

fn payload_actors_cited_check(payload: &MemoryPayload, sources: &Vec<MemoryCandidateSource>) -> (r:
    bool)
    ensures
        r == payload_actors_cited(*payload, sources@),
{
    match payload {
        MemoryPayload::Person(person) => {
            let found = cited_actor(sources, person.person.actor_id.as_str());
            assert(payload_actor_ids(*payload)[0] == person.person.actor_id@);
            assert(found == cited_by(sources@, payload_actor_ids(*payload)[0]));
            found
        },
        MemoryPayload::Project(project) => {
            let ghost ids = payload_actor_ids(*payload);
            assert(ids == project.member_actor_ids@.map_values(|s: String| s@));
            let mut i: usize = 0;
            while i < project.member_actor_ids.len()
                invariant
                    i <= project.member_actor_ids@.len(),
                    ids == project.member_actor_ids@.map_values(|s: String| s@),
                    ids == payload_actor_ids(*payload),
                    forall|j: int| 0 <= j < i ==> cited_by(sources@, #[trigger] ids[j]),
                decreases project.member_actor_ids@.len() - i,
            {
                if !cited_actor(sources, project.member_actor_ids[i].as_str()) {
                    assert(ids[i as int] == project.member_actor_ids@[i as int]@);
                    assert(!cited_by(sources@, payload_actor_ids(*payload)[i as int]));
                    return false;
                }
                assert(ids[i as int] == project.member_actor_ids@[i as int]@);
                i = i + 1;
            }
            true
        },
        MemoryPayload::Commitment(commitment) => {
            let a = cited_actor(sources, commitment.promisor.actor_id.as_str());
            let b = cited_actor(sources, commitment.beneficiary.actor_id.as_str());
            assert(payload_actor_ids(*payload)[0] == commitment.promisor.actor_id@);
            assert(payload_actor_ids(*payload)[1] == commitment.beneficiary.actor_id@);
            assert(a == cited_by(sources@, payload_actor_ids(*payload)[0]));
            assert(b == cited_by(sources@, payload_actor_ids(*payload)[1]));
            a && b
        },
    }
}

/// Checks every source of the candidate against the batch, and that no event
/// is cited twice.
fn check_sources(candidate: &MemoryCandidate, batch: &MemoryCandidateBatch) -> (r: Result<
    (),
    MemoryCandidateError,
>)
    ensures
        r is Ok <==> (forall|i: int|
            0 <= i < candidate.sources@.len() ==> source_in_batch(
                #[trigger] candidate.sources@[i],
                *batch,
            )) && sources_distinct(candidate.sources@),
        r matches Err(e) ==> e is InvalidData,
{
    let sources = &candidate.sources;
    let mut i: usize = 0;
    while i < sources.len()
        invariant
            i <= sources@.len(),
            sources == &candidate.sources,
            forall|a: int| 0 <= a < i ==> source_in_batch(#[trigger] sources@[a], *batch),
            forall|a: int, b: int|
                0 <= a < i && 0 <= b < i && a != b ==> sources@[a].source_event_id@
                    != sources@[b].source_event_id@,
        decreases sources@.len() - i,
    {
        if !sources[i].actor.account.same_as(&batch.account) {
            return Err(invalid("candidate source actor must belong to the managed account"));
        }
        let found = find_event(&batch.events, &sources[i].source_event_id);
        if found.is_none() {
            return Err(invalid("candidate cites an event outside the claimed batch"));
        }
        let mut j: usize = 0;
        while j < i
            invariant
                j <= i < sources@.len(),
                sources == &candidate.sources,
                forall|b: int| 0 <= b < j ==> sources@[b].source_event_id@
                    != sources@[i as int].source_event_id@,
            decreases i - j,
        {
            if crate::identity::str_equals(
                sources[j].source_event_id.as_str(),
                sources[i].source_event_id.as_str(),
            ) {
                assert(sources@[j as int].source_event_id@ == sources@[i as int].source_event_id@);
                assert(!sources_distinct(sources@));
                return Err(invalid("candidate contains duplicate source events"));
            }
            j = j + 1;
        }
        let k = found.unwrap();
        if !crate::identity::str_equals(
            batch.events[k].actor.actor_id.as_str(),
            sources[i].actor.actor_id.as_str(),
        ) {
            return Err(
                invalid("candidate source actor does not match the authoritative source event actor"),
            );
        }
        if sources[i].content_trust_level != batch.events[k].content_trust_level
            || !is_eligible_for_candidate_extraction(batch.events[k].content_trust_level, true) {
            return Err(invalid("candidate source trust level does not match the batch event"));
        }
        i = i + 1;
    }
    Ok(())
}

/// Payload JSON (fields in declaration order) fits the size limit.
fn payload_within_limit(payload: &MemoryPayload) -> (r: bool)
    ensures
        r == (utf8_len(payload_json(*payload, false)) <= MAX_CANDIDATE_PAYLOAD_BYTES),
{
    let mut out: Vec<char> = Vec::new();
    push_payload(&mut out, payload, false);
    assert(out@ =~= payload_json(*payload, false));
    let text = string_from_chars(&out);
    utf8_len_within(text.as_str(), MAX_CANDIDATE_PAYLOAD_BYTES)
}

/// The first checks: status, version, account, subject, extractor version and
/// number of sources.
fn check_candidate_header(candidate: &MemoryCandidate, batch: &MemoryCandidateBatch) -> (r: Result<
    (),
    MemoryCandidateError,
>)
    ensures
        r is Ok <==> {
            &&& candidate.status == MemoryCandidateStatus::Proposed
            &&& candidate.version@ == INITIAL_CANDIDATE_VERSION
            &&& same_account(candidate.account, batch.account)
            &&& text_ok(candidate.subject_key@, 191)
            &&& !is_blank(candidate.extractor_version@)
            &&& utf8_len(candidate.extractor_version@) <= 32
            &&& 1 <= candidate.sources@.len() <= MAX_CANDIDATE_SOURCES
        },
        r matches Err(e) ==> e is InvalidData,
{
    if candidate.status != MemoryCandidateStatus::Proposed || candidate.version.as_u64()
        != INITIAL_CANDIDATE_VERSION {
        return Err(invalid("candidate must start as proposed with version 1"));
    }
    if !candidate.account.same_as(&batch.account) {
        return Err(invalid("candidate account must match the claimed batch account"));
    }
    if !text_fits(candidate.subject_key.as_str(), 191) {
        return Err(invalid("subject_key must contain 1..=191 characters"));
    }
    if text_is_blank(candidate.extractor_version.as_str()) || !utf8_len_within(
        candidate.extractor_version.as_str(),
        32,
    ) {
        return Err(invalid("extractor_version must contain 1..=32 bytes"));
    }
    if candidate.sources.len() == 0 || candidate.sources.len() > MAX_CANDIDATE_SOURCES {
        return Err(invalid("candidate must cite 1..=20 source events"));
    }
    Ok(())
}

/// The check that every extractor output must pass: a proposed first version
/// of the batch's account, citing 1..=20 distinct events of the batch with
/// their authoritative actors and eligible trust levels, naming only actors
/// that its sources cite and the batch observed, with a valid payload of at
/// most 16 KiB of JSON and the fingerprint of its content.
#[verifier::rlimit(60)]
pub fn validate_memory_candidate(
    candidate: &MemoryCandidate,
    batch: &MemoryCandidateBatch,
) -> (r: Result<(), MemoryCandidateError>)
    ensures
        r is Ok <==> candidate_ok(*candidate, *batch),
        r matches Err(e) ==> e is InvalidData,
{
    check_candidate_header(candidate, batch)?;
    check_sources(candidate, batch)?;
    if !payload_actors_cited_check(&candidate.payload, &candidate.sources) {
        return Err(invalid("candidate payload actor has no source evidence"));
    }
    let source_ids = source_ids_of(&candidate.sources);
    if let Err(error) = validate_memory_payload(
        &candidate.payload,
        &candidate.account,
        source_ids.as_slice(),
    ) {
        return Err(candidate_error_from_fact(error));
    }
    let observed = payload_actors_observed_in_batch(&candidate.payload, batch)?;
    if !observed {
        return Err(invalid("candidate payload references an actor outside the claimed batch"));
    }
    if !payload_within_limit(&candidate.payload) {
        return Err(invalid("candidate payload exceeds the 16 KiB size limit"));
    }
    let expected = candidate_fingerprint(
        &candidate.account,
        &candidate.payload,
        candidate.subject_key.as_str(),
        candidate.sources.as_slice(),
        candidate.extractor_version.as_str(),
    );
    if candidate.deterministic_fingerprint != expected {
        return Err(invalid("candidate fingerprint does not match its content"));
    }
    Ok(())
}

} // verus!
