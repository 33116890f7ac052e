//! The decisions of the memory store's transactions, on the rows they lock:
//! which source events may back a long-term fact, which fact a new one may
//! supersede, when a deletion or a memory-mode change is a replay, and how a
//! source excerpt is cut.
use vstd::prelude::*;

use crate::identity::{
    same_account, str_equals, ContentTrustLevel, SourceEventId, ThreadActorRef, ThreadDecisionId,
};
use crate::json_text::string_from_chars;
use crate::memory::{
    ConversationMemoryModeReceipt, MemoryDeleteInput, MemoryFact, MemoryFactId, MemoryPayload,
    MemorySourceExcerpt, MemoryWriteReceipt,
};
use crate::store_codes::{parse_content_trust_level, trust_level_of_code, StoredValueError};
use crate::text::is_blank;
use crate::text_order::chars_of;

verus! {

/// Most facts that one query lists.
pub const MAX_ACTIVE_FACTS_LIMIT: u32 = 200;

/// Most facts that one expiry pass marks expired.
pub const MAX_EXPIRY_BATCH: u32 = 1000;

/// Most characters of a source excerpt.
pub const MAX_SOURCE_EXCERPT_CHARS: u32 = 2000;

fn invalid_data(message: &str) -> (r: StoredValueError)
    ensures
        r matches StoredValueError::InvalidData(m) && m@ == message@,
{
    StoredValueError::InvalidData(message.to_owned())
}

/// A requested count must lie in `1..=max`.
pub fn check_limit(value: u32, max: u32, message: &str) -> (r: Result<(), StoredValueError>)
    ensures
        r is Ok <==> 1 <= value <= max,
        r matches Err(e) ==> e is InvalidData,
{
    if value < 1 || value > max {
        return Err(invalid_data(message));
    }
    Ok(())
}

/// The stored mode lets content reach long-term memory.
pub open spec fn memory_mode_allows(code: Seq<char>) -> bool {
    code == "normal"@ || code == "local_only"@
}

fn mode_allows(code: &str) -> (r: bool)
    ensures
        r == memory_mode_allows(code@),
{
    str_equals(code, "normal") || str_equals(code, "local_only")
}

/// A source event of a fact, as locked while the fact is appended.
pub struct MemorySourceRow {
    pub account_id: u64,
    pub memory_mode: String,
    pub content_mode: String,
}

/// A source event may back a fact of the account only when it belongs to
/// the account and neither its conversation nor its content forbids
/// long-term memory.
pub open spec fn memory_source_ok(row: MemorySourceRow, account_id: u64) -> bool {
    &&& row.account_id == account_id
    &&& memory_mode_allows(row.memory_mode@)
    &&& memory_mode_allows(row.content_mode@)
}

pub fn check_memory_source(row: &MemorySourceRow, account_id: u64) -> (r: Result<(), StoredValueError>)
    ensures
        r is Ok <==> memory_source_ok(*row, account_id),
        r matches Err(e) ==> e is InvalidData,
{
    if row.account_id != account_id {
        return Err(invalid_data("memory source event cannot cross managed accounts"));
    }
    if !mode_allows(row.memory_mode.as_str()) || !mode_allows(row.content_mode.as_str()) {
        return Err(invalid_data("conversation or content policy forbids long-term memory derivation"));
    }
    Ok(())
}

/// The fact that a new fact names as superseded, as locked.
pub struct PreviousFactRow {
    pub account_id: u64,
    pub fact_kind: String,
    pub subject_key: String,
    pub fact_status: String,
}

/// A fact may supersede only an active fact of the same account, kind and
/// subject.
pub open spec fn supersedable(row: PreviousFactRow, account_id: u64, fact: MemoryFact) -> bool {
    &&& row.account_id == account_id
    &&& row.fact_kind@ == fact.payload.kind_name()
    &&& row.subject_key@ == fact.subject_key@
    &&& (row.fact_status@ == "proposed"@ || row.fact_status@ == "confirmed"@)
}

pub fn check_superseded_fact(row: &PreviousFactRow, account_id: u64, fact: &MemoryFact) -> (r: Result<
    (),
    StoredValueError,
>)
    ensures
        r is Ok <==> supersedable(*row, account_id, *fact),
        r matches Err(e) ==> e is InvalidData,
{
    if row.account_id != account_id || !str_equals(row.fact_kind.as_str(), fact.payload.kind())
        || !str_equals(row.subject_key.as_str(), fact.subject_key.as_str()) || !(str_equals(
        row.fact_status.as_str(),
        "proposed",
    ) || str_equals(row.fact_status.as_str(), "confirmed")) {
        return Err(invalid_data("superseded memory fact is outside the account or no longer active"));
    }
    Ok(())
}

// ---------------------------------------------------------------------------
// Deleting a fact.

/// The fact and the owner command of a deletion, as locked.
pub struct MemoryDeleteContextRow {
    pub fact_status: String,
    pub message_role: String,
    pub actor_platform_id: String,
}

/// A deletion already recorded for the fact.
pub struct MemoryDeletionRow {
    pub command_source_event_id: String,
    pub reason: String,
}

/// What a deletion command does.
#[derive(Debug, Clone, Copy, PartialEq, Eq, Structural)]
pub enum MemoryDeleteStep {
    /// The same command was already applied: nothing changes.
    Replay,
    /// Record the deletion and mark the fact deleted.
    Delete,
}

/// The step of a deletion: only an owner command may delete; a recorded
/// deletion is replayed when it came from the same command with the same
/// reason and refused otherwise; a fact that is no longer active cannot be
/// deleted.
pub open spec fn delete_step_of(
    context: MemoryDeleteContextRow,
    existing: Option<MemoryDeletionRow>,
    input: MemoryDeleteInput,
) -> Option<MemoryDeleteStep> {
    if context.message_role@ != "owner_command"@ {
        None
    } else {
        match existing {
            Some(d) => if d.command_source_event_id@ == input.command_source_event_id@ && d.reason@
                == input.reason@ {
                Some(MemoryDeleteStep::Replay)
            } else {
                None
            },
            None => if context.fact_status@ == "deleted"@ || context.fact_status@ == "expired"@
                || context.fact_status@ == "superseded"@ {
                None
            } else {
                Some(MemoryDeleteStep::Delete)
            },
        }
    }
}

pub fn memory_delete_step(
    context: &MemoryDeleteContextRow,
    existing: &Option<MemoryDeletionRow>,
    input: &MemoryDeleteInput,
) -> (r: Result<MemoryDeleteStep, StoredValueError>)
    ensures
        r is Ok <==> delete_step_of(*context, *existing, *input) is Some,
        r matches Ok(step) ==> delete_step_of(*context, *existing, *input) == Some(step),
        r matches Err(e) ==> e is InvalidData,
{
    if !str_equals(context.message_role.as_str(), "owner_command") {
        return Err(invalid_data("derived memory deletion requires an OwnerCommand event"));
    }
    match existing {
        Some(d) => {
            if str_equals(d.command_source_event_id.as_str(), input.command_source_event_id.as_str())
                && str_equals(d.reason.as_str(), input.reason.as_str()) {
                Ok(MemoryDeleteStep::Replay)
            } else {
                Err(invalid_data("memory fact already has a different immutable deletion record"))
            }
        },
        None => {
            let status = context.fact_status.as_str();
            if str_equals(status, "deleted") || str_equals(status, "expired") || str_equals(
                status,
                "superseded",
            ) {
                Err(invalid_data("memory fact is no longer active and cannot be deleted"))
            } else {
                Ok(MemoryDeleteStep::Delete)
            }
        },
    }
}

// ---------------------------------------------------------------------------
// Setting a conversation's memory mode.

/// The receipt of a memory-mode command: only an owner command may set the
/// mode, and the stored mode must be a known code; the mode changes when it
/// differs from the stored one.
pub fn conversation_mode_change(
    message_role: &str,
    stored_mode: &str,
    requested: ContentTrustLevel,
) -> (r: Result<ConversationMemoryModeReceipt, StoredValueError>)
    ensures
        r is Ok <==> message_role@ == "owner_command"@ && trust_level_of_code(stored_mode@) is Some,
        r matches Ok(receipt) ==> {
            &&& Some(receipt.previous_mode) == trust_level_of_code(stored_mode@)
            &&& receipt.current_mode == requested
            &&& receipt.changed == (receipt.previous_mode != requested)
        },
        r matches Err(e) ==> e is InvalidData,
{
    if !str_equals(message_role, "owner_command") {
        return Err(invalid_data("conversation memory mode requires an OwnerCommand event"));
    }
    let previous_mode = parse_content_trust_level(stored_mode)?;
    Ok(
        ConversationMemoryModeReceipt {
            changed: previous_mode != requested,
            previous_mode,
            current_mode: requested,
        },
    )
}

// ---------------------------------------------------------------------------
// Source excerpts.

/// A source event of a fact with its conversation and text.
pub struct MemoryExcerptRow {
    pub source_event_id: String,
    pub conversation_kind: String,
    pub platform_conversation_id: String,
    pub actor_platform_id: String,
    pub occurred_at_unix_secs: i64,
    pub normalized_text: String,
}

/// The first `n` characters of a text, or all of it when it is shorter.
pub open spec fn first_chars(s: Seq<char>, n: nat) -> Seq<char> {
    if n < s.len() {
        s.take(n as int)
    } else {
        s
    }
}

fn take_chars(s: &str, n: u32) -> (r: String)
    ensures
        r@ == first_chars(s@, n as nat),
{
    let chars = chars_of(s);
    let mut out: Vec<char> = Vec::new();
    let mut i: usize = 0;
    while i < chars.len() && (i as u64) < (n as u64)
        invariant
            chars@ == s@,
            i <= chars@.len(),
            i <= n,
            out@ == s@.take(i as int),
        decreases chars@.len() - i,
    {
        out.push(chars[i]);
        i = i + 1;
        assert(out@ =~= s@.take(i as int));
    }
    assert(first_chars(s@, n as nat) =~= s@.take(i as int));
    string_from_chars(&out)
}

/// A fact's source excerpt: the row's fields, its text cut to at most
/// `max_excerpt_chars` characters; the stored event identifier must not be
/// blank.
pub fn memory_source_excerpt(row: MemoryExcerptRow, max_excerpt_chars: u32) -> (r: Result<
    MemorySourceExcerpt,
    StoredValueError,
>)
    ensures
        r is Ok <==> !is_blank(row.source_event_id@),
        r matches Ok(e) ==> {
            &&& e.source_event_id@ == row.source_event_id@
            &&& e.conversation_kind == row.conversation_kind
            &&& e.conversation_id == row.platform_conversation_id
            &&& e.actor_id == row.actor_platform_id
            &&& e.occurred_at_unix_secs == row.occurred_at_unix_secs
            &&& e.excerpt@ == first_chars(row.normalized_text@, max_excerpt_chars as nat)
        },
        r matches Err(e) ==> e is InvalidData,
{
    let source_event_id = match SourceEventId::new(row.source_event_id.as_str()) {
        Ok(id) => id,
        Err(_) => {
            return Err(invalid_data("stored source event id is blank"));
        },
    };
    let excerpt = take_chars(row.normalized_text.as_str(), max_excerpt_chars);
    Ok(
        MemorySourceExcerpt {
            source_event_id,
            conversation_kind: row.conversation_kind,
            conversation_id: row.platform_conversation_id,
            actor_id: row.actor_platform_id,
            occurred_at_unix_secs: row.occurred_at_unix_secs,
            excerpt,
        },
    )
}

// ---------------------------------------------------------------------------
// Appending a fact whose identifier is already stored.

pub open spec fn same_actor(a: ThreadActorRef, b: ThreadActorRef) -> bool {
    same_account(a.account, b.account) && a.actor_id@ == b.actor_id@
}

pub open spec fn same_texts(a: Seq<String>, b: Seq<String>) -> bool {
    a.len() == b.len() && forall|i: int| 0 <= i < a.len() ==> (#[trigger] a[i])@ == b[i]@
}

pub open spec fn same_optional_text(a: Option<String>, b: Option<String>) -> bool {
    match (a, b) {
        (Some(x), Some(y)) => x@ == y@,
        (None, None) => true,
        _ => false,
    }
}

pub open spec fn same_event_ids(a: Seq<SourceEventId>, b: Seq<SourceEventId>) -> bool {
    a.len() == b.len() && forall|i: int| 0 <= i < a.len() ==> (#[trigger] a[i])@ == b[i]@
}

pub open spec fn same_decision_ids(a: Seq<ThreadDecisionId>, b: Seq<ThreadDecisionId>) -> bool {
    a.len() == b.len() && forall|i: int| 0 <= i < a.len() ==> (#[trigger] a[i])@ == b[i]@
}

pub open spec fn same_optional_event(a: Option<SourceEventId>, b: Option<SourceEventId>) -> bool {
    match (a, b) {
        (Some(x), Some(y)) => x@ == y@,
        (None, None) => true,
        _ => false,
    }
}

pub open spec fn same_optional_fact_id(a: Option<MemoryFactId>, b: Option<MemoryFactId>) -> bool {
    match (a, b) {
        (Some(x), Some(y)) => x@ == y@,
        (None, None) => true,
        _ => false,
    }
}

/// Two payloads hold the same content, text by text.
pub open spec fn same_payload_content(a: MemoryPayload, b: MemoryPayload) -> bool {
    match (a, b) {
        (MemoryPayload::Person(x), MemoryPayload::Person(y)) => {
            &&& same_actor(x.person, y.person)
            &&& same_optional_text(x.relationship, y.relationship)
            &&& same_texts(x.responsibilities@, y.responsibilities@)
            &&& same_texts(x.communication_preferences@, y.communication_preferences@)
        },
        (MemoryPayload::Project(x), MemoryPayload::Project(y)) => {
            &&& x.project_key@ == y.project_key@
            &&& x.goal@ == y.goal@
            &&& same_texts(x.member_actor_ids@, y.member_actor_ids@)
            &&& same_optional_text(x.progress, y.progress)
            &&& same_decision_ids(x.decision_ids@, y.decision_ids@)
            &&& same_texts(x.risks@, y.risks@)
            &&& same_texts(x.blockers@, y.blockers@)
            &&& same_texts(x.artifact_refs@, y.artifact_refs@)
        },
        (MemoryPayload::Commitment(x), MemoryPayload::Commitment(y)) => {
            &&& same_actor(x.promisor, y.promisor)
            &&& same_actor(x.beneficiary, y.beneficiary)
            &&& x.action@ == y.action@
            &&& x.due_at_unix_secs == y.due_at_unix_secs
            &&& x.status == y.status
            &&& same_optional_event(x.completion_source_event_id, y.completion_source_event_id)
        },
        _ => false,
    }
}

/// Two facts hold the same content, field by field.
pub open spec fn same_fact_content(a: MemoryFact, b: MemoryFact) -> bool {
    &&& a.fact_id@ == b.fact_id@
    &&& same_account(a.account, b.account)
    &&& a.subject_key@ == b.subject_key@
    &&& same_payload_content(a.payload, b.payload)
    &&& a.status == b.status
    &&& a.confidence_bps == b.confidence_bps
    &&& same_event_ids(a.source_event_ids@, b.source_event_ids@)
    &&& a.valid_until_unix_secs == b.valid_until_unix_secs
    &&& same_optional_fact_id(a.supersedes_fact_id, b.supersedes_fact_id)
}

fn texts_equal(a: &Vec<String>, b: &Vec<String>) -> (r: bool)
    ensures
        r == same_texts(a@, b@),
{
    if a.len() != b.len() {
        return false;
    }
    let mut i: usize = 0;
    while i < a.len()
        invariant
            a@.len() == b@.len(),
            i <= a@.len(),
            forall|k: int| 0 <= k < i ==> (#[trigger] a@[k])@ == b@[k]@,
        decreases a@.len() - i,
    {
        if !str_equals(a[i].as_str(), b[i].as_str()) {
            return false;
        }
        i = i + 1;
    }
    true
}

fn event_ids_equal(a: &Vec<SourceEventId>, b: &Vec<SourceEventId>) -> (r: bool)
    ensures
        r == same_event_ids(a@, b@),
{
    if a.len() != b.len() {
        return false;
    }
    let mut i: usize = 0;
    while i < a.len()
        invariant
            a@.len() == b@.len(),
            i <= a@.len(),
            forall|k: int| 0 <= k < i ==> (#[trigger] a@[k])@ == b@[k]@,
        decreases a@.len() - i,
    {
        if !str_equals(a[i].as_str(), b[i].as_str()) {
            return false;
        }
        i = i + 1;
    }
    true
}

fn decision_ids_equal(a: &Vec<ThreadDecisionId>, b: &Vec<ThreadDecisionId>) -> (r: bool)
    ensures
        r == same_decision_ids(a@, b@),
{
    if a.len() != b.len() {
        return false;
    }
    let mut i: usize = 0;
    while i < a.len()
        invariant
            a@.len() == b@.len(),
            i <= a@.len(),
            forall|k: int| 0 <= k < i ==> (#[trigger] a@[k])@ == b@[k]@,
        decreases a@.len() - i,
    {
        if !str_equals(a[i].as_str(), b[i].as_str()) {
            return false;
        }
        i = i + 1;
    }
    true
}

fn optional_texts_equal(a: &Option<String>, b: &Option<String>) -> (r: bool)
    ensures
        r == same_optional_text(*a, *b),
{
    match (a, b) {
        (Some(x), Some(y)) => str_equals(x.as_str(), y.as_str()),
        (None, None) => true,
        _ => false,
    }
}

fn actors_equal(a: &ThreadActorRef, b: &ThreadActorRef) -> (r: bool)
    ensures
        r == same_actor(*a, *b),
{
    a.account.same_as(&b.account) && str_equals(a.actor_id.as_str(), b.actor_id.as_str())
}

fn payloads_equal(a: &MemoryPayload, b: &MemoryPayload) -> (r: bool)
    ensures
        r == same_payload_content(*a, *b),
{
    match (a, b) {
        (MemoryPayload::Person(x), MemoryPayload::Person(y)) => actors_equal(&x.person, &y.person)
            && optional_texts_equal(&x.relationship, &y.relationship) && texts_equal(
            &x.responsibilities,
            &y.responsibilities,
        ) && texts_equal(&x.communication_preferences, &y.communication_preferences),
        (MemoryPayload::Project(x), MemoryPayload::Project(y)) => str_equals(
            x.project_key.as_str(),
            y.project_key.as_str(),
        ) && str_equals(x.goal.as_str(), y.goal.as_str()) && texts_equal(
            &x.member_actor_ids,
            &y.member_actor_ids,
        ) && optional_texts_equal(&x.progress, &y.progress) && decision_ids_equal(
            &x.decision_ids,
            &y.decision_ids,
        ) && texts_equal(&x.risks, &y.risks) && texts_equal(&x.blockers, &y.blockers)
            && texts_equal(&x.artifact_refs, &y.artifact_refs),
        (MemoryPayload::Commitment(x), MemoryPayload::Commitment(y)) => actors_equal(
            &x.promisor,
            &y.promisor,
        ) && actors_equal(&x.beneficiary, &y.beneficiary) && str_equals(
            x.action.as_str(),
            y.action.as_str(),
        ) && x.due_at_unix_secs == y.due_at_unix_secs && x.status == y.status && match (
            &x.completion_source_event_id,
            &y.completion_source_event_id,
        ) {
            (Some(p), Some(q)) => str_equals(p.as_str(), q.as_str()),
            (None, None) => true,
            _ => false,
        },
        _ => false,
    }
}

/// Whether two facts hold the same content.
pub fn facts_equal(a: &MemoryFact, b: &MemoryFact) -> (r: bool)
    ensures
        r == same_fact_content(*a, *b),
{
    str_equals(a.fact_id.as_str(), b.fact_id.as_str()) && a.account.same_as(&b.account)
        && str_equals(a.subject_key.as_str(), b.subject_key.as_str()) && payloads_equal(
        &a.payload,
        &b.payload,
    ) && a.status == b.status && a.confidence_bps == b.confidence_bps && event_ids_equal(
        &a.source_event_ids,
        &b.source_event_ids,
    ) && a.valid_until_unix_secs == b.valid_until_unix_secs && match (
        &a.supersedes_fact_id,
        &b.supersedes_fact_id,
    ) {
        (Some(p), Some(q)) => str_equals(p.as_str(), q.as_str()),
        (None, None) => true,
        _ => false,
    }
}

/// A fact whose identifier is already stored: writing the same content again
/// is a replay that changes nothing; other content under that identifier is
/// refused, since stored facts are immutable.
pub fn append_fact_replay(stored: &MemoryFact, fact: &MemoryFact) -> (r: Result<
    MemoryWriteReceipt,
    StoredValueError,
>)
    ensures
        r is Ok <==> same_fact_content(*stored, *fact),
        r matches Ok(receipt) ==> receipt.fact_id == fact.fact_id && !receipt.changed,
        r matches Err(e) ==> e is InvalidData,
{
    if facts_equal(stored, fact) {
        Ok(MemoryWriteReceipt { fact_id: fact.fact_id.clone(), changed: false })
    } else {
        Err(invalid_data("memory fact id already exists with different immutable content"))
    }
}

} // verus!
