//! Agenda items as the agenda store reads them back, and the receipt
//! reference of an applied agenda mutation.
use vstd::prelude::*;

use crate::identity::{str_equals, SourceAccountRef, SourceEventId};
use crate::json_text::{
    decimal, json_int, json_str, push_decimal, push_json_int, push_json_str, push_text,
    string_from_chars,
};
use crate::store_codes::StoredValueError;
use crate::text::{is_blank, text_is_blank};
use crate::text_order::chars_of;

verus! {

/// Identifier of an agenda item; never blank.
#[derive(Debug, PartialEq, Eq, Hash)]
pub struct AgendaItemId(String);

impl View for AgendaItemId {
    type V = Seq<char>;

    closed spec fn view(&self) -> Seq<char> {
        self.0@
    }
}

impl AgendaItemId {
    #[verifier::type_invariant]
    closed spec fn non_blank(self) -> bool {
        !is_blank(self.0@)
    }

    pub fn new(value: &str) -> (r: Option<Self>)
        ensures
            r is Some <==> !is_blank(value@),
            r matches Some(id) ==> id@ == value@,
    {
        if text_is_blank(value) {
            return None;
        }
        Some(AgendaItemId(value.to_owned()))
    }

    pub fn as_str(&self) -> (r: &str)
        ensures
            r@ == self@,
            !is_blank(r@),
    {
        proof {
            use_type_invariant(self);
        }
        self.0.as_str()
    }
}

#[derive(Debug, Clone, Copy, PartialEq, Eq, Structural)]
pub enum AgendaItemKind {
    Schedule,
    Task,
    Reminder,
}

#[derive(Debug, Clone, Copy, PartialEq, Eq, Structural)]
pub enum AgendaItemStatus {
    Scheduled,
    Completed,
    Cancelled,
}

impl AgendaItemKind {
    pub open spec fn name(self) -> Seq<char> {
        match self {
            AgendaItemKind::Schedule => "schedule"@,
            AgendaItemKind::Task => "task"@,
            AgendaItemKind::Reminder => "reminder"@,
        }
    }

    pub fn as_str(self) -> (r: &'static str)
        ensures
            r@ == self.name(),
    {
        match self {
            AgendaItemKind::Schedule => "schedule",
            AgendaItemKind::Task => "task",
            AgendaItemKind::Reminder => "reminder",
        }
    }
}

impl AgendaItemStatus {
    pub open spec fn name(self) -> Seq<char> {
        match self {
            AgendaItemStatus::Scheduled => "scheduled"@,
            AgendaItemStatus::Completed => "completed"@,
            AgendaItemStatus::Cancelled => "cancelled"@,
        }
    }

    pub fn as_str(self) -> (r: &'static str)
        ensures
            r@ == self.name(),
    {
        match self {
            AgendaItemStatus::Scheduled => "scheduled",
            AgendaItemStatus::Completed => "completed",
            AgendaItemStatus::Cancelled => "cancelled",
        }
    }
}

/// An item of the owner's agenda.
#[derive(Debug, PartialEq, Eq)]
pub struct AgendaItem {
    pub item_id: AgendaItemId,
    pub account: SourceAccountRef,
    pub kind: AgendaItemKind,
    pub title: String,
    pub scheduled_at_unix_secs: Option<i64>,
    pub timezone: String,
    pub status: AgendaItemStatus,
    pub version: u64,
    pub created_by_command: SourceEventId,
    pub current_version_command: SourceEventId,
    pub created_at_unix_secs: i64,
    pub updated_at_unix_secs: i64,
}

/// A stored agenda item.
pub struct AgendaRow {
    pub item_id: String,
    pub item_kind: String,
    pub title: String,
    pub scheduled_at_unix_secs: Option<i64>,
    pub timezone_name: String,
    pub item_status: String,
    pub version: u64,
    pub created_command_event_id: String,
    pub current_command_event_id: String,
    pub created_at_unix_secs: i64,
    pub updated_at_unix_secs: i64,
}

pub open spec fn agenda_kind_of_code(code: Seq<char>) -> Option<AgendaItemKind> {
    if code == "schedule"@ {
        Some(AgendaItemKind::Schedule)
    } else if code == "task"@ {
        Some(AgendaItemKind::Task)
    } else if code == "reminder"@ {
        Some(AgendaItemKind::Reminder)
    } else {
        None
    }
}

pub open spec fn agenda_status_of_code(code: Seq<char>) -> Option<AgendaItemStatus> {
    if code == "scheduled"@ {
        Some(AgendaItemStatus::Scheduled)
    } else if code == "completed"@ {
        Some(AgendaItemStatus::Completed)
    } else if code == "cancelled"@ {
        Some(AgendaItemStatus::Cancelled)
    } else {
        None
    }
}

/// A stored agenda item can be read: its identifiers are not blank and its
/// kind and status are known codes.
pub open spec fn agenda_row_ok(row: AgendaRow) -> bool {
    &&& !is_blank(row.item_id@)
    &&& agenda_kind_of_code(row.item_kind@) is Some
    &&& agenda_status_of_code(row.item_status@) is Some
    &&& !is_blank(row.created_command_event_id@)
    &&& !is_blank(row.current_command_event_id@)
}

fn invalid(message: &str) -> (r: StoredValueError)
    ensures
        r matches StoredValueError::InvalidData(m) && m@ == message@,
{
    StoredValueError::InvalidData(message.to_owned())
}

/// The item reads the stored row of the account field by field.
pub open spec fn item_reads_row(item: AgendaItem, row: AgendaRow, account: SourceAccountRef) -> bool {
    &&& item.item_id@ == row.item_id@
    &&& item.account == account
    &&& Some(item.kind) == agenda_kind_of_code(row.item_kind@)
    &&& item.title == row.title
    &&& item.scheduled_at_unix_secs == row.scheduled_at_unix_secs
    &&& item.timezone == row.timezone_name
    &&& Some(item.status) == agenda_status_of_code(row.item_status@)
    &&& item.version == row.version
    &&& item.created_by_command@ == row.created_command_event_id@
    &&& item.current_version_command@ == row.current_command_event_id@
    &&& item.created_at_unix_secs == row.created_at_unix_secs
    &&& item.updated_at_unix_secs == row.updated_at_unix_secs
}

/// Reads a stored agenda item of the account.
pub fn map_row(row: AgendaRow, account: SourceAccountRef) -> (r: Result<AgendaItem, StoredValueError>)
    ensures
        r is Ok <==> agenda_row_ok(row),
        r matches Ok(item) ==> item_reads_row(item, row, account),
        r matches Err(e) ==> e is InvalidData,
{
    let item_id = match AgendaItemId::new(row.item_id.as_str()) {
        Some(id) => id,
        None => {
            return Err(invalid("stored agenda item id is blank"));
        },
    };
    let kind_code = row.item_kind.as_str();
    let kind = if str_equals(kind_code, "schedule") {
        AgendaItemKind::Schedule
    } else if str_equals(kind_code, "task") {
        AgendaItemKind::Task
    } else if str_equals(kind_code, "reminder") {
        AgendaItemKind::Reminder
    } else {
        return Err(invalid("invalid agenda kind"));
    };
    let status_code = row.item_status.as_str();
    let status = if str_equals(status_code, "scheduled") {
        AgendaItemStatus::Scheduled
    } else if str_equals(status_code, "completed") {
        AgendaItemStatus::Completed
    } else if str_equals(status_code, "cancelled") {
        AgendaItemStatus::Cancelled
    } else {
        return Err(invalid("invalid agenda status"));
    };
    let created_by_command = match SourceEventId::new(row.created_command_event_id.as_str()) {
        Ok(id) => id,
        Err(_) => {
            return Err(invalid("stored command event id is blank"));
        },
    };
    let current_version_command = match SourceEventId::new(row.current_command_event_id.as_str()) {
        Ok(id) => id,
        Err(_) => {
            return Err(invalid("stored command event id is blank"));
        },
    };
    Ok(
        AgendaItem {
            item_id,
            account,
            kind,
            title: row.title,
            scheduled_at_unix_secs: row.scheduled_at_unix_secs,
            timezone: row.timezone_name,
            status,
            version: row.version,
            created_by_command,
            current_version_command,
            created_at_unix_secs: row.created_at_unix_secs,
            updated_at_unix_secs: row.updated_at_unix_secs,
        },
    )
}

// ---------------------------------------------------------------------------
// Receipts of applied mutations.

/// The scheduled time as a receipt writes it: its decimal value, or `none`.
pub open spec fn scheduled_text(value: Option<i64>) -> Seq<char> {
    match value {
        Some(t) => json_int(t as int),
        None => "none"@,
    }
}

/// The receipt reference of an item after a mutation:
/// `agenda:<item id>:v<version>:<status>:<scheduled time>`.
pub open spec fn result_ref_of(item: AgendaItem) -> Seq<char> {
    "agenda:"@ + item.item_id@ + ":v"@ + decimal(item.version as nat) + ":"@ + item.status.name()
        + ":"@ + scheduled_text(item.scheduled_at_unix_secs)
}

pub fn agenda_result_ref(item: &AgendaItem) -> (r: String)
    ensures
        r@ == result_ref_of(*item),
{
    let mut out: Vec<char> = Vec::new();
    push_text(&mut out, "agenda:");
    push_text(&mut out, item.item_id.as_str());
    push_text(&mut out, ":v");
    push_decimal(&mut out, item.version);
    push_text(&mut out, ":");
    push_text(&mut out, item.status.as_str());
    push_text(&mut out, ":");
    match item.scheduled_at_unix_secs {
        Some(t) => push_json_int(&mut out, t),
        None => push_text(&mut out, "none"),
    }
    assert(out@ =~= result_ref_of(*item));
    string_from_chars(&out)
}

/// The audit detail of a mutation: a JSON object with its keys in byte
/// order.
pub open spec fn detail_json_of(item: AgendaItem) -> Seq<char> {
    "{\"item_id\":"@ + json_str(item.item_id@) + ",\"scheduled_at_unix_secs\":"@ + match item.scheduled_at_unix_secs {
        Some(t) => json_int(t as int),
        None => "null"@,
    } + ",\"status\":"@ + json_str(item.status.name()) + ",\"version\":"@ + decimal(item.version as nat)
        + "}"@
}

pub fn agenda_detail_json(item: &AgendaItem) -> (r: String)
    ensures
        r@ == detail_json_of(*item),
{
    let mut out: Vec<char> = Vec::new();
    push_text(&mut out, "{\"item_id\":");
    push_json_str(&mut out, item.item_id.as_str());
    push_text(&mut out, ",\"scheduled_at_unix_secs\":");
    match item.scheduled_at_unix_secs {
        Some(t) => push_json_int(&mut out, t),
        None => push_text(&mut out, "null"),
    }
    push_text(&mut out, ",\"status\":");
    push_json_str(&mut out, item.status.as_str());
    push_text(&mut out, ",\"version\":");
    push_decimal(&mut out, item.version);
    push_text(&mut out, "}");
    assert(out@ =~= detail_json_of(*item));
    string_from_chars(&out)
}

/// Index of the first colon at or after `k`; the length when there is none.
pub open spec fn colon_index(s: Seq<char>, k: int) -> int
    decreases s.len() - k,
{
    if k < 0 || k >= s.len() {
        s.len() as int
    } else if s[k] == ':' {
        k
    } else {
        colon_index(s, k + 1)
    }
}

pub proof fn lemma_colon_index_bounds(s: Seq<char>, k: int)
    requires
        0 <= k <= s.len(),
    ensures
        k <= colon_index(s, k) <= s.len(),
        colon_index(s, k) < s.len() ==> s[colon_index(s, k)] == ':',
        forall|j: int| k <= j < colon_index(s, k) ==> s[j] != ':',
    decreases s.len() - k,
{
    if k < s.len() && s[k] != ':' {
        lemma_colon_index_bounds(s, k + 1);
    }
}

/// The first colon from `k` on is at `m` when none lies in between.
pub proof fn lemma_colon_index_at(s: Seq<char>, k: int, m: int)
    requires
        0 <= k <= m < s.len(),
        s[m] == ':',
        forall|j: int| k <= j < m ==> s[j] != ':',
    ensures
        colon_index(s, k) == m,
    decreases m - k,
{
    if k < m {
        lemma_colon_index_at(s, k + 1, m);
    }
}

/// The second colon-separated field of a text, when it has a colon.
pub open spec fn second_field(s: Seq<char>) -> Option<Seq<char>> {
    let i = colon_index(s, 0);
    if i >= s.len() {
        None
    } else {
        Some(s.subrange(i + 1, colon_index(s, i + 1)))
    }
}

fn find_colon(chars: &Vec<char>, from: usize) -> (r: usize)
    requires
        from <= chars@.len(),
    ensures
        r == colon_index(chars@, from as int),
{
    let mut k: usize = from;
    while k < chars.len() && chars[k] != ':'
        invariant
            from <= k <= chars@.len(),
            colon_index(chars@, from as int) == colon_index(chars@, k as int),
        decreases chars@.len() - k,
    {
        k = k + 1;
    }
    k
}

/// Reads the item identifier back from a receipt reference: its second
/// colon-separated field, which must not be blank.
pub fn agenda_item_id_of_result_ref(result_ref: &str) -> (r: Result<AgendaItemId, StoredValueError>)
    ensures
        r is Ok <==> (second_field(result_ref@) matches Some(f) && !is_blank(f)),
        r matches Ok(id) ==> second_field(result_ref@) == Some(id@),
        r matches Err(e) ==> e is InvalidData,
{
    let chars = chars_of(result_ref);
    let first = find_colon(&chars, 0);
    if first >= chars.len() {
        return Err(invalid("invalid agenda result_ref"));
    }
    let second = find_colon(&chars, first + 1);
    proof {
        lemma_colon_index_bounds(chars@, first + 1);
    }
    let mut field: Vec<char> = Vec::new();
    let mut k: usize = first + 1;
    while k < second
        invariant
            first + 1 <= k <= second <= chars@.len(),
            field@ == chars@.subrange(first + 1, k as int),
        decreases second - k,
    {
        field.push(chars[k]);
        k = k + 1;
        assert(field@ =~= chars@.subrange(first + 1, k as int));
    }
    let text = string_from_chars(&field);
    match AgendaItemId::new(text.as_str()) {
        Some(id) => Ok(id),
        None => Err(invalid("invalid agenda result_ref")),
    }
}


// ---------------------------------------------------------------------------
// Applying a mutation.

/// A change to the owner's agenda.
#[derive(Debug)]
pub enum AgendaMutation {
    Create { kind: AgendaItemKind, title: String, scheduled_at_unix_secs: i64, timezone: String },
    Reschedule {
        item_id: AgendaItemId,
        expected_version: u64,
        scheduled_at_unix_secs: i64,
        timezone: String,
    },
    Snooze {
        item_id: AgendaItemId,
        expected_version: u64,
        scheduled_at_unix_secs: i64,
        timezone: String,
    },
    Complete { item_id: AgendaItemId, expected_version: u64 },
    Cancel { item_id: AgendaItemId, expected_version: u64 },
}

impl AgendaMutation {
    pub open spec fn kind_code(self) -> Seq<char> {
        match self {
            AgendaMutation::Create { .. } => "create"@,
            AgendaMutation::Reschedule { .. } => "reschedule"@,
            AgendaMutation::Snooze { .. } => "snooze"@,
            AgendaMutation::Complete { .. } => "complete"@,
            AgendaMutation::Cancel { .. } => "cancel"@,
        }
    }

    /// The mutation kind that the audit records.
    pub fn kind(&self) -> (r: &'static str)
        ensures
            r@ == self.kind_code(),
    {
        match self {
            AgendaMutation::Create { .. } => "create",
            AgendaMutation::Reschedule { .. } => "reschedule",
            AgendaMutation::Snooze { .. } => "snooze",
            AgendaMutation::Complete { .. } => "complete",
            AgendaMutation::Cancel { .. } => "cancel",
        }
    }
}

/// Why a mutation cannot be applied to the stored item.
#[derive(Debug, Clone, PartialEq, Eq)]
pub enum AgendaStoreError {
    /// The item is missing from the account, no longer scheduled, or at
    /// another version than the command saw.
    VersionConflict,
    /// The stored version cannot be raised any further.
    Store(String),
}

/// The stored item after a mutation, and the version it was changed from
/// (none for a creation).
pub struct AgendaTransition {
    pub row: AgendaRow,
    pub from_version: Option<u64>,
}

/// The status, scheduled time and time zone that an update writes; `None`
/// for a creation.
pub open spec fn update_target(
    mutation: AgendaMutation,
    current: AgendaRow,
) -> Option<(Seq<char>, Option<i64>, Seq<char>)> {
    match mutation {
        AgendaMutation::Create { .. } => None,
        AgendaMutation::Reschedule { scheduled_at_unix_secs, timezone, .. } => Some(
            ("scheduled"@, Some(scheduled_at_unix_secs), timezone@),
        ),
        AgendaMutation::Snooze { scheduled_at_unix_secs, timezone, .. } => Some(
            ("scheduled"@, Some(scheduled_at_unix_secs), timezone@),
        ),
        AgendaMutation::Complete { .. } => Some(
            ("completed"@, current.scheduled_at_unix_secs, current.timezone_name@),
        ),
        AgendaMutation::Cancel { .. } => Some(
            ("cancelled"@, current.scheduled_at_unix_secs, current.timezone_name@),
        ),
    }
}

/// The version an update expects the item at; `None` for a creation.
pub open spec fn expected_version_of(mutation: AgendaMutation) -> Option<u64> {
    match mutation {
        AgendaMutation::Create { .. } => None,
        AgendaMutation::Reschedule { expected_version, .. } => Some(expected_version),
        AgendaMutation::Snooze { expected_version, .. } => Some(expected_version),
        AgendaMutation::Complete { expected_version, .. } => Some(expected_version),
        AgendaMutation::Cancel { expected_version, .. } => Some(expected_version),
    }
}

/// Two stored rows agree field by field.
pub open spec fn same_row(a: AgendaRow, b: AgendaRow) -> bool {
    &&& a.item_id@ == b.item_id@
    &&& a.item_kind@ == b.item_kind@
    &&& a.title@ == b.title@
    &&& a.scheduled_at_unix_secs == b.scheduled_at_unix_secs
    &&& a.timezone_name@ == b.timezone_name@
    &&& a.item_status@ == b.item_status@
    &&& a.version == b.version
    &&& a.created_command_event_id@ == b.created_command_event_id@
    &&& a.current_command_event_id@ == b.current_command_event_id@
    &&& a.created_at_unix_secs == b.created_at_unix_secs
    &&& a.updated_at_unix_secs == b.updated_at_unix_secs
}

/// The row a creation stores when its idempotency key is new.
pub open spec fn created_row_ok(
    r: AgendaRow,
    item_id: Seq<char>,
    mutation: AgendaMutation,
    command: Seq<char>,
    db_now_unix_secs: i64,
) -> bool {
    &&& mutation matches AgendaMutation::Create { kind, title, scheduled_at_unix_secs, timezone }
    &&& r.item_id@ == item_id
    &&& r.item_kind@ == kind.name()
    &&& r.title@ == title@
    &&& r.scheduled_at_unix_secs == Some(scheduled_at_unix_secs)
    &&& r.timezone_name@ == timezone@
    &&& r.item_status@ == "scheduled"@
    &&& r.version == 1
    &&& r.created_command_event_id@ == command
    &&& r.current_command_event_id@ == command
    &&& r.created_at_unix_secs == db_now_unix_secs
    &&& r.updated_at_unix_secs == db_now_unix_secs
}

/// The row an update leaves: the new status, time and zone, the version
/// raised by one and the command recorded; everything else kept.
pub open spec fn updated_row_ok(
    r: AgendaRow,
    current: AgendaRow,
    mutation: AgendaMutation,
    command: Seq<char>,
    db_now_unix_secs: i64,
) -> bool {
    &&& update_target(mutation, current) matches Some((status, at, zone))
    &&& r.item_id@ == current.item_id@
    &&& r.item_kind@ == current.item_kind@
    &&& r.title@ == current.title@
    &&& r.scheduled_at_unix_secs == at
    &&& r.timezone_name@ == zone
    &&& r.item_status@ == status
    &&& r.version == current.version + 1
    &&& r.created_command_event_id@ == current.created_command_event_id@
    &&& r.current_command_event_id@ == command
    &&& r.created_at_unix_secs == current.created_at_unix_secs
    &&& r.updated_at_unix_secs == db_now_unix_secs
}

/// An update applies only to a stored item that is still scheduled at the
/// version the command saw.
pub open spec fn update_applies(mutation: AgendaMutation, stored: Option<AgendaRow>) -> bool {
    stored matches Some(row) && row.item_status@ == "scheduled"@ && expected_version_of(mutation)
        == Some(row.version)
}

fn copy_row(row: &AgendaRow) -> (r: AgendaRow)
    ensures
        same_row(r, *row),
{
    AgendaRow {
        item_id: row.item_id.clone(),
        item_kind: row.item_kind.clone(),
        title: row.title.clone(),
        scheduled_at_unix_secs: row.scheduled_at_unix_secs,
        timezone_name: row.timezone_name.clone(),
        item_status: row.item_status.clone(),
        version: row.version,
        created_command_event_id: row.created_command_event_id.clone(),
        current_command_event_id: row.current_command_event_id.clone(),
        created_at_unix_secs: row.created_at_unix_secs,
        updated_at_unix_secs: row.updated_at_unix_secs,
    }
}

/// What applying a mutation does to the stored item. For a creation,
/// `stored` is the account's item with the request's idempotency key, if
/// any, and `fresh_item_id` the identifier drawn for a new one: a known key
/// gives the stored item back unchanged, a new one stores a scheduled item
/// at version 1. For an update, `stored` is the account's item with the
/// mutation's identifier: rescheduling and snoozing set the new time and
/// zone and keep it scheduled, completing and cancelling change only the
/// status; each raises the version by one and records the command, and
/// applies only to an item still scheduled at the version the command saw.
pub fn agenda_mutation_step(
    mutation: &AgendaMutation,
    stored: &Option<AgendaRow>,
    fresh_item_id: &AgendaItemId,
    command_source_event_id: &SourceEventId,
    db_now_unix_secs: i64,
) -> (r: Result<AgendaTransition, AgendaStoreError>)
    ensures
        mutation is Create ==> {
            &&& r is Ok
            &&& r matches Ok(t) ==> t.from_version is None && match *stored {
                Some(row) => same_row(t.row, row),
                None => created_row_ok(
                    t.row,
                    fresh_item_id@,
                    *mutation,
                    command_source_event_id@,
                    db_now_unix_secs,
                ),
            }
        },
        !(mutation is Create) ==> {
            &&& r is Ok <==> update_applies(*mutation, *stored) && stored.unwrap().version
                < u64::MAX
            &&& r matches Ok(t) ==> t.from_version == expected_version_of(*mutation)
                && updated_row_ok(
                t.row,
                stored.unwrap(),
                *mutation,
                command_source_event_id@,
                db_now_unix_secs,
            )
            &&& r matches Err(e) ==> (e is VersionConflict <==> !update_applies(*mutation, *stored))
        },
{
    let command = command_source_event_id.as_str();
    match mutation {
        AgendaMutation::Create { kind, title, scheduled_at_unix_secs, timezone } => {
            let row = match stored {
                Some(existing) => copy_row(existing),
                None => AgendaRow {
                    item_id: fresh_item_id.as_str().to_owned(),
                    item_kind: kind.as_str().to_owned(),
                    title: title.clone(),
                    scheduled_at_unix_secs: Some(*scheduled_at_unix_secs),
                    timezone_name: timezone.clone(),
                    item_status: "scheduled".to_owned(),
                    version: 1,
                    created_command_event_id: command.to_owned(),
                    current_command_event_id: command.to_owned(),
                    created_at_unix_secs: db_now_unix_secs,
                    updated_at_unix_secs: db_now_unix_secs,
                },
            };
            Ok(AgendaTransition { row, from_version: None })
        },
        _ => {
            let current = match stored {
                Some(row) => row,
                None => {
                    return Err(AgendaStoreError::VersionConflict);
                },
            };
            let expected = match mutation {
                AgendaMutation::Reschedule { expected_version, .. } => *expected_version,
                AgendaMutation::Snooze { expected_version, .. } => *expected_version,
                AgendaMutation::Complete { expected_version, .. } => *expected_version,
                AgendaMutation::Cancel { expected_version, .. } => *expected_version,
                AgendaMutation::Create { .. } => 0,
            };
            if !str_equals(current.item_status.as_str(), "scheduled") || current.version
                != expected {
                return Err(AgendaStoreError::VersionConflict);
            }
            if current.version == u64::MAX {
                return Err(AgendaStoreError::Store("agenda version cannot be raised".to_owned()));
            }
            let (status, at, zone): (&str, Option<i64>, String) = match mutation {
                AgendaMutation::Reschedule { scheduled_at_unix_secs, timezone, .. } => (
                    "scheduled",
                    Some(*scheduled_at_unix_secs),
                    timezone.clone(),
                ),
                AgendaMutation::Snooze { scheduled_at_unix_secs, timezone, .. } => (
                    "scheduled",
                    Some(*scheduled_at_unix_secs),
                    timezone.clone(),
                ),
                AgendaMutation::Complete { .. } => (
                    "completed",
                    current.scheduled_at_unix_secs,
                    current.timezone_name.clone(),
                ),
                _ => ("cancelled", current.scheduled_at_unix_secs, current.timezone_name.clone()),
            };
            let row = AgendaRow {
                item_id: current.item_id.clone(),
                item_kind: current.item_kind.clone(),
                title: current.title.clone(),
                scheduled_at_unix_secs: at,
                timezone_name: zone,
                item_status: status.to_owned(),
                version: current.version + 1,
                created_command_event_id: current.created_command_event_id.clone(),
                current_command_event_id: command.to_owned(),
                created_at_unix_secs: current.created_at_unix_secs,
                updated_at_unix_secs: db_now_unix_secs,
            };
            Ok(AgendaTransition { row, from_version: Some(expected) })
        },
    }
}

/// The receipt of an applied agenda mutation: the item as stored, and its
/// receipt reference.
#[derive(Debug)]
pub struct AgendaMutationReceipt {
    pub item: AgendaItem,
    pub result_ref: String,
}

/// The receipt of a freshly applied mutation, read from the stored row.
pub fn agenda_receipt(row: AgendaRow, account: SourceAccountRef) -> (r: Result<
    AgendaMutationReceipt,
    StoredValueError,
>)
    ensures
        r is Ok <==> agenda_row_ok(row),
        r matches Ok(receipt) ==> item_reads_row(receipt.item, row, account)
            && receipt.result_ref@ == result_ref_of(receipt.item),
        r matches Err(e) ==> e is InvalidData,
{
    let item = match map_row(row, account) {
        Ok(item) => item,
        Err(e) => {
            return Err(e);
        },
    };
    let result_ref = agenda_result_ref(&item);
    Ok(AgendaMutationReceipt { item, result_ref })
}

/// The receipt of a mutation replayed under a receipt already written: the
/// stored reference as it stands, with the item read back from its row.
pub fn agenda_replayed_receipt(
    result_ref: &str,
    row: AgendaRow,
    account: SourceAccountRef,
) -> (r: Result<AgendaMutationReceipt, StoredValueError>)
    ensures
        r is Ok <==> agenda_row_ok(row),
        r matches Ok(receipt) ==> item_reads_row(receipt.item, row, account)
            && receipt.result_ref@ == result_ref@,
        r matches Err(e) ==> e is InvalidData,
{
    let item = match map_row(row, account) {
        Ok(item) => item,
        Err(e) => {
            return Err(e);
        },
    };
    Ok(AgendaMutationReceipt { item, result_ref: result_ref.to_owned() })
}

} // verus!
