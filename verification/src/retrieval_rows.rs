//! Rows that retrieval queries return, and the summaries read from them:
//! threads, their claims, decisions and questions, and upcoming items.
use vstd::prelude::*;

use crate::identity::{SourceEventId, ThreadStatus};
use crate::store_codes::{
    nonempty_pieces, parse_source_event_id_list, parse_thread_status, stored_list_text,
    thread_status_of_code, StoredValueError,
};
use crate::text::{is_blank, text_is_blank};

verus! {

/// Identifier of an event thread; never blank.
#[derive(Debug, PartialEq, Eq, Hash)]
pub struct EventThreadId(String);

impl View for EventThreadId {
    type V = Seq<char>;

    closed spec fn view(&self) -> Seq<char> {
        self.0@
    }
}

impl EventThreadId {
    #[verifier::type_invariant]
    closed spec fn non_blank(self) -> bool {
        !is_blank(self.0@)
    }

    pub fn new(value: &str) -> (r: Option<Self>)
        ensures
            r is Some <==> !is_blank(value@),
            r matches Some(id) ==> id@ == value@,
    {
        if text_is_blank(value) {
            return None;
        }
        Some(EventThreadId(value.to_owned()))
    }

    pub fn as_str(&self) -> (r: &str)
        ensures
            r@ == self@,
            !is_blank(r@),
    {
        proof {
            use_type_invariant(self);
        }
        self.0.as_str()
    }
}

/// A stored list of source events can be read: none of its non-empty
/// pieces is blank.
pub open spec fn source_list_ok(value: Option<String>) -> bool {
    let pieces = nonempty_pieces(stored_list_text(value));
    forall|i: int| 0 <= i < pieces.len() ==> !is_blank(#[trigger] pieces[i])
}

/// The identifiers read from a stored list of source events.
pub open spec fn source_list_matches(ids: Seq<SourceEventId>, value: Option<String>) -> bool {
    let pieces = nonempty_pieces(stored_list_text(value));
    &&& ids.len() == pieces.len()
    &&& forall|i: int| 0 <= i < pieces.len() ==> (#[trigger] ids[i])@ == pieces[i]
}

// ---------------------------------------------------------------------------
// Thread summaries.

pub struct ThreadClaimRow {
    pub claim_id: String,
    pub claim_kind: String,
    pub claimant_actor_id: String,
    pub status: String,
    pub statement: String,
    pub source_event_ids: Option<String>,
}

/// A claim made in a thread, with the events that back it.
#[derive(Debug, PartialEq, Eq)]
pub struct ThreadClaimSummary {
    pub claim_id: String,
    pub claim_kind: String,
    pub claimant_actor_id: String,
    pub status: String,
    pub statement: String,
    pub source_event_ids: Vec<SourceEventId>,
}

pub fn map_thread_claim_row(row: ThreadClaimRow) -> (r: Result<ThreadClaimSummary, StoredValueError>)
    ensures
        r is Ok <==> source_list_ok(row.source_event_ids),
        r matches Ok(s) ==> {
            &&& s.claim_id == row.claim_id
            &&& s.claim_kind == row.claim_kind
            &&& s.claimant_actor_id == row.claimant_actor_id
            &&& s.status == row.status
            &&& s.statement == row.statement
            &&& source_list_matches(s.source_event_ids@, row.source_event_ids)
        },
{
    let source_event_ids = parse_source_event_id_list(row.source_event_ids)?;
    Ok(
        ThreadClaimSummary {
            claim_id: row.claim_id,
            claim_kind: row.claim_kind,
            claimant_actor_id: row.claimant_actor_id,
            status: row.status,
            statement: row.statement,
            source_event_ids,
        },
    )
}

pub struct ThreadDecisionRow {
    pub decision_id: String,
    pub status: String,
    pub statement: String,
    pub source_event_ids: Option<String>,
}

/// A decision taken in a thread, with the events that back it.
#[derive(Debug, PartialEq, Eq)]
pub struct ThreadDecisionSummary {
    pub decision_id: String,
    pub status: String,
    pub statement: String,
    pub source_event_ids: Vec<SourceEventId>,
}

pub fn map_thread_decision_row(row: ThreadDecisionRow) -> (r: Result<
    ThreadDecisionSummary,
    StoredValueError,
>)
    ensures
        r is Ok <==> source_list_ok(row.source_event_ids),
        r matches Ok(s) ==> {
            &&& s.decision_id == row.decision_id
            &&& s.status == row.status
            &&& s.statement == row.statement
            &&& source_list_matches(s.source_event_ids@, row.source_event_ids)
        },
{
    let source_event_ids = parse_source_event_id_list(row.source_event_ids)?;
    Ok(
        ThreadDecisionSummary {
            decision_id: row.decision_id,
            status: row.status,
            statement: row.statement,
            source_event_ids,
        },
    )
}

pub struct ThreadQuestionRow {
    pub question_id: String,
    pub raised_by_actor_id: String,
    pub status: String,
    pub question: String,
    pub source_event_ids: Option<String>,
}

/// A question raised in a thread, with the events that back it.
#[derive(Debug, PartialEq, Eq)]
pub struct ThreadQuestionSummary {
    pub question_id: String,
    pub raised_by_actor_id: String,
    pub status: String,
    pub question: String,
    pub source_event_ids: Vec<SourceEventId>,
}

pub fn map_thread_question_row(row: ThreadQuestionRow) -> (r: Result<
    ThreadQuestionSummary,
    StoredValueError,
>)
    ensures
        r is Ok <==> source_list_ok(row.source_event_ids),
        r matches Ok(s) ==> {
            &&& s.question_id == row.question_id
            &&& s.raised_by_actor_id == row.raised_by_actor_id
            &&& s.status == row.status
            &&& s.question == row.question
            &&& source_list_matches(s.source_event_ids@, row.source_event_ids)
        },
{
    let source_event_ids = parse_source_event_id_list(row.source_event_ids)?;
    Ok(
        ThreadQuestionSummary {
            question_id: row.question_id,
            raised_by_actor_id: row.raised_by_actor_id,
            status: row.status,
            question: row.question,
            source_event_ids,
        },
    )
}

// ---------------------------------------------------------------------------
// Thread search and upcoming items.

pub struct ThreadSearchRow {
    pub thread_id: String,
    pub status: String,
    pub event_count: i64,
    pub latest_at: Option<i64>,
    pub latest_excerpt: Option<String>,
}

/// A thread found by a search.
#[derive(Debug, PartialEq, Eq)]
pub struct ThreadSearchResult {
    pub thread_id: EventThreadId,
    pub status: ThreadStatus,
    pub event_count: u64,
    pub latest_event_at_unix_secs: i64,
    pub latest_excerpt: String,
}

/// The text, or the empty text when there is none.
pub open spec fn text_or_empty(value: Option<String>) -> Seq<char> {
    match value {
        Some(s) => s@,
        None => Seq::empty(),
    }
}

/// Reads a found thread: its identifier must not be blank and its status a
/// known code; the count is taken as stored, a missing latest time reads as
/// zero and a missing excerpt as empty.
pub fn map_thread_row(row: ThreadSearchRow) -> (r: Result<ThreadSearchResult, StoredValueError>)
    ensures
        r is Ok <==> !is_blank(row.thread_id@) && thread_status_of_code(row.status@) is Some,
        r matches Ok(t) ==> {
            &&& t.thread_id@ == row.thread_id@
            &&& Some(t.status) == thread_status_of_code(row.status@)
            &&& t.event_count == row.event_count as u64
            &&& t.latest_event_at_unix_secs == match row.latest_at {
                Some(at) => at,
                None => 0,
            }
            &&& t.latest_excerpt@ == text_or_empty(row.latest_excerpt)
        },
        r matches Err(e) ==> e is InvalidData,
{
    let thread_id = match EventThreadId::new(row.thread_id.as_str()) {
        Some(id) => id,
        None => {
            return Err(StoredValueError::InvalidData("stored thread id is blank".to_owned()));
        },
    };
    let status = parse_thread_status(row.status.as_str())?;
    Ok(
        ThreadSearchResult {
            thread_id,
            status,
            event_count: row.event_count as u64,
            latest_event_at_unix_secs: match row.latest_at {
                Some(at) => at,
                None => 0,
            },
            latest_excerpt: match row.latest_excerpt {
                Some(text) => text,
                None => String::new(),
            },
        },
    )
}

pub struct UpcomingItemRow {
    pub item_id: String,
    pub kind: String,
    pub due_at_unix_secs: i64,
    pub excerpt: Option<String>,
    pub source_event_id: String,
}

/// An item that falls due soon.
#[derive(Debug, PartialEq, Eq)]
pub struct UpcomingItem {
    pub item_id: String,
    pub kind: String,
    pub due_at_unix_secs: i64,
    pub excerpt: String,
    pub source_event_id: SourceEventId,
}

pub fn map_upcoming_row(row: UpcomingItemRow) -> (r: Result<UpcomingItem, StoredValueError>)
    ensures
        r is Ok <==> !is_blank(row.source_event_id@),
        r matches Ok(item) ==> {
            &&& item.item_id == row.item_id
            &&& item.kind == row.kind
            &&& item.due_at_unix_secs == row.due_at_unix_secs
            &&& item.excerpt@ == text_or_empty(row.excerpt)
            &&& item.source_event_id@ == row.source_event_id@
        },
        r matches Err(e) ==> e is InvalidData,
{
    let source_event_id = match SourceEventId::new(row.source_event_id.as_str()) {
        Ok(id) => id,
        Err(_) => {
            return Err(StoredValueError::InvalidData("stored source event id is blank".to_owned()));
        },
    };
    Ok(
        UpcomingItem {
            item_id: row.item_id,
            kind: row.kind,
            due_at_unix_secs: row.due_at_unix_secs,
            excerpt: match row.excerpt {
                Some(text) => text,
                None => String::new(),
            },
            source_event_id,
        },
    )
}

} // verus!
