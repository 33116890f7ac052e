//! The decisions of the inbound store's transactions on the rows they lock:
//! finalising a backfill run, inserting a message at most once, committing a
//! semantic patch under its lease, persisting a thread-mutation proposal, and
//! recording a recall.
use vstd::prelude::*;

use crate::identity::{str_equals, SourceEventId};
use crate::json_text::string_from_chars;
use crate::text_order::chars_of;
use crate::text::{is_blank, text_is_blank};

verus! {

/// Error of an inbound store decision.
#[derive(Debug, PartialEq, Eq)]
pub enum InboundStoreError {
    InvalidData(String),
    /// The lease under which the work was claimed is no longer held.
    LeaseLost,
    /// A row that the transaction wrote cannot be read back.
    Unavailable,
}

fn invalid(message: &str) -> (r: InboundStoreError)
    ensures
        r matches InboundStoreError::InvalidData(m) && m@ == message@,
{
    InboundStoreError::InvalidData(message.to_owned())
}

// ---------------------------------------------------------------------------
// Finalising a backfill run.

/// How complete the history of a gap was shown to be.
#[derive(Debug, Clone, Copy, PartialEq, Eq, Structural)]
pub enum HistoryCompleteness {
    ProvenComplete,
    KnownScopesComplete,
    Unprovable,
    Unrecoverable,
}

impl HistoryCompleteness {
    pub open spec fn name(self) -> Seq<char> {
        match self {
            HistoryCompleteness::ProvenComplete => "proven_complete"@,
            HistoryCompleteness::KnownScopesComplete => "known_scopes_complete"@,
            HistoryCompleteness::Unprovable => "unprovable"@,
            HistoryCompleteness::Unrecoverable => "unrecoverable"@,
        }
    }

    pub fn as_str(self) -> (r: &'static str)
        ensures
            r@ == self.name(),
    {
        match self {
            HistoryCompleteness::ProvenComplete => "proven_complete",
            HistoryCompleteness::KnownScopesComplete => "known_scopes_complete",
            HistoryCompleteness::Unprovable => "unprovable",
            HistoryCompleteness::Unrecoverable => "unrecoverable",
        }
    }
}

/// When a gap may be claimed again after its run.
#[derive(Debug, Clone, Copy, PartialEq, Eq, Structural)]
pub enum ReclaimPolicy {
    /// The gap is final: its reclaim schedule is removed.
    Terminal,
    /// The gap may be retried after this many seconds.
    Backoff(u64),
    /// The gap's bounds are frozen (for instance at the configured earliest
    /// date): it is not claimed again automatically.
    Suspended,
}

/// What a run read and wrote in one of its scopes.
#[derive(Debug, Clone, Copy, PartialEq, Eq, Structural)]
pub struct ScopeEvidence {
    pub pages_read: u32,
    pub events_read: u32,
    pub accepted: u32,
    pub duplicates: u32,
    /// The number of anomalies the scope reported.
    pub anomaly_count: u32,
}

/// One of the counters a run records.
#[derive(Debug, Clone, Copy, PartialEq, Eq, Structural)]
pub enum RunCounter {
    PagesRead,
    EventsRead,
    Accepted,
    Duplicates,
    Anomalies,
}

pub open spec fn counter_of(scope: ScopeEvidence, counter: RunCounter) -> int {
    match counter {
        RunCounter::PagesRead => scope.pages_read as int,
        RunCounter::EventsRead => scope.events_read as int,
        RunCounter::Accepted => scope.accepted as int,
        RunCounter::Duplicates => scope.duplicates as int,
        RunCounter::Anomalies => scope.anomaly_count as int,
    }
}

/// A counter summed over the scopes.
pub open spec fn scope_total(scopes: Seq<ScopeEvidence>, counter: RunCounter) -> int
    decreases scopes.len(),
{
    if scopes.len() == 0 {
        0
    } else {
        scope_total(scopes.drop_last(), counter) + counter_of(scopes.last(), counter)
    }
}

/// Every counter's total fits the stored 32-bit column.
pub open spec fn totals_fit(scopes: Seq<ScopeEvidence>) -> bool {
    forall|c: RunCounter| #[trigger] scope_total(scopes, c) <= u32::MAX
}

/// The outcome a worker reports for its run, with the evidence of its
/// scopes.
#[derive(Debug, PartialEq, Eq)]
pub struct BackfillOutcome {
    pub gap_id: String,
    pub completeness: HistoryCompleteness,
    pub gap_target_status: String,
    pub gap_reason: Option<String>,
    pub reclaim_policy: ReclaimPolicy,
    pub scopes: Vec<ScopeEvidence>,
    pub budget_exhausted: bool,
}

/// The counters a finalised run records: each summed over the scopes.
#[derive(Debug, Clone, Copy, PartialEq, Eq)]
pub struct RunCounters {
    pub pages_read: u32,
    pub events_read: u32,
    pub accepted: u32,
    pub duplicates: u32,
    pub anomaly_count: u32,
    pub budget_exhausted: bool,
}

pub open spec fn counters_of(c: RunCounters, outcome: BackfillOutcome) -> bool {
    &&& c.pages_read == scope_total(outcome.scopes@, RunCounter::PagesRead)
    &&& c.events_read == scope_total(outcome.scopes@, RunCounter::EventsRead)
    &&& c.accepted == scope_total(outcome.scopes@, RunCounter::Accepted)
    &&& c.duplicates == scope_total(outcome.scopes@, RunCounter::Duplicates)
    &&& c.anomaly_count == scope_total(outcome.scopes@, RunCounter::Anomalies)
    &&& c.budget_exhausted == outcome.budget_exhausted
}

proof fn lemma_scope_total_prefix(scopes: Seq<ScopeEvidence>, counter: RunCounter, i: int)
    requires
        0 <= i <= scopes.len(),
    ensures
        0 <= scope_total(scopes.take(i), counter) <= scope_total(scopes, counter),
    decreases scopes.len(),
{
    if scopes.len() > 0 {
        if i == scopes.len() {
            assert(scopes.take(i) =~= scopes);
            lemma_scope_total_prefix(scopes.drop_last(), counter, i - 1);
            assert(scopes.drop_last().take(i - 1) =~= scopes.drop_last());
        } else {
            lemma_scope_total_prefix(scopes.drop_last(), counter, i);
            assert(scopes.drop_last().take(i) =~= scopes.take(i));
        }
    }
}

fn counter_value(scope: &ScopeEvidence, counter: RunCounter) -> (r: u32)
    ensures
        r == counter_of(*scope, counter),
{
    match counter {
        RunCounter::PagesRead => scope.pages_read,
        RunCounter::EventsRead => scope.events_read,
        RunCounter::Accepted => scope.accepted,
        RunCounter::Duplicates => scope.duplicates,
        RunCounter::Anomalies => scope.anomaly_count,
    }
}

/// A counter summed over the scopes.
pub fn total_of(scopes: &Vec<ScopeEvidence>, counter: RunCounter) -> (r: u32)
    requires
        scope_total(scopes@, counter) <= u32::MAX,
    ensures
        r == scope_total(scopes@, counter),
{
    let mut total: u32 = 0;
    let mut i: usize = 0;
    while i < scopes.len()
        invariant
            i <= scopes@.len(),
            scope_total(scopes@, counter) <= u32::MAX,
            total == scope_total(scopes@.take(i as int), counter),
        decreases scopes@.len() - i,
    {
        proof {
            lemma_scope_total_prefix(scopes@, counter, i + 1);
            assert(scopes@.take(i + 1).drop_last() =~= scopes@.take(i as int));
        }
        total = total + counter_value(&scopes[i], counter);
        i = i + 1;
    }
    proof {
        assert(scopes@.take(i as int) =~= scopes@);
    }
    total
}

/// The run as locked together with the lease of the reporting token.
#[derive(Debug, PartialEq, Eq)]
pub struct OwnedRunRow {
    pub gap_id: String,
    pub status: String,
    pub completeness: String,
}

/// What finalising a run does.
#[derive(Debug, PartialEq, Eq)]
pub enum FinalizeStep {
    /// The same outcome was already committed: nothing changes.
    AlreadyFinalized,
    /// Move the gap to its target status when it is still being backfilled,
    /// record the run's status, completeness and failure class, and apply
    /// the reclaim policy to the gap's schedule.
    Finalize {
        update_gap: bool,
        run_status: &'static str,
        completeness: &'static str,
        failure_class: Option<String>,
        reclaim_policy: ReclaimPolicy,
        counters: RunCounters,
    },
}

/// The run status that a completeness gives.
pub open spec fn run_status_of(c: HistoryCompleteness) -> Seq<char> {
    match c {
        HistoryCompleteness::ProvenComplete => "verified_complete"@,
        HistoryCompleteness::KnownScopesComplete | HistoryCompleteness::Unprovable => "unprovable"@,
        HistoryCompleteness::Unrecoverable => "unrecoverable"@,
    }
}

/// The failure class of an unprovable run: the gap's reason, else the
/// completeness itself; none otherwise.
pub open spec fn failure_class_of(c: HistoryCompleteness, reason: Option<String>) -> Option<Seq<char>> {
    match c {
        HistoryCompleteness::KnownScopesComplete | HistoryCompleteness::Unprovable => match reason {
            Some(r) => Some(r@),
            None => Some(c.name()),
        },
        _ => None,
    }
}

/// The recorded failure class is the one the completeness and reason give.
pub open spec fn failure_class_matches(
    recorded: Option<String>,
    c: HistoryCompleteness,
    reason: Option<String>,
) -> bool {
    match recorded {
        Some(f) => failure_class_of(c, reason) == Some(f@),
        None => failure_class_of(c, reason) is None,
    }
}

/// The run is finished with this very outcome already.
pub open spec fn finalize_is_retry(run: OwnedRunRow, gap_status: Option<String>, outcome: BackfillOutcome) -> bool {
    &&& gap_status matches Some(g) && g@ == outcome.gap_target_status@
    &&& run.completeness@ == outcome.completeness.name()
}

/// The run is still being backfilled for this gap, and the gap is either
/// still backfilling or already at the target status: the run is finalised.
pub open spec fn finalize_proceeds(
    run: Option<OwnedRunRow>,
    gap_status: Option<String>,
    outcome: BackfillOutcome,
) -> bool {
    &&& run matches Some(row) && row.gap_id@ == outcome.gap_id@ && row.status@ == "backfilling"@
    &&& gap_status matches Some(g) && (g@ == "backfilling"@ || g@ == outcome.gap_target_status@)
}

pub fn finalize_run_step(
    run: &Option<OwnedRunRow>,
    gap_status: &Option<String>,
    outcome: &BackfillOutcome,
) -> (r: Result<FinalizeStep, InboundStoreError>)
    requires
        finalize_proceeds(*run, *gap_status, *outcome) ==> totals_fit(outcome.scopes@),
    ensures
        run is None ==> r == Err::<FinalizeStep, InboundStoreError>(InboundStoreError::LeaseLost),
        run matches Some(row) && row.gap_id@ != outcome.gap_id@ ==> (r matches Err(
            InboundStoreError::InvalidData(_),
        )),
        run matches Some(row) && row.gap_id@ == outcome.gap_id@ && row.status@ != "backfilling"@
            ==> if finalize_is_retry(run->0, *gap_status, *outcome) {
            r == Ok::<FinalizeStep, InboundStoreError>(FinalizeStep::AlreadyFinalized)
        } else {
            r matches Err(InboundStoreError::InvalidData(_))
        },
        run matches Some(row) && row.gap_id@ == outcome.gap_id@ && row.status@ == "backfilling"@
            ==> (r is Ok <==> (gap_status matches Some(g) && (g@ == "backfilling"@ || g@
            == outcome.gap_target_status@))),
        run matches Some(row) && row.gap_id@ == outcome.gap_id@ && row.status@ == "backfilling"@
            && r is Err ==> (r matches Err(InboundStoreError::InvalidData(_))),
        run matches Some(row) && row.gap_id@ == outcome.gap_id@ && row.status@ == "backfilling"@
            && r is Ok ==> (r matches Ok(
            FinalizeStep::Finalize { update_gap, run_status, completeness, failure_class, reclaim_policy, .. },
        ) && update_gap == (gap_status->0@ == "backfilling"@) && run_status@ == run_status_of(
            outcome.completeness,
        ) && completeness@ == outcome.completeness.name() && failure_class_matches(
            failure_class,
            outcome.completeness,
            outcome.gap_reason,
        ) && reclaim_policy == outcome.reclaim_policy),
        r matches Ok(FinalizeStep::Finalize { counters, .. }) ==> counters_of(counters, *outcome),
{
    let row = match run {
        Some(row) => row,
        None => {
            return Err(InboundStoreError::LeaseLost);
        },
    };
    if !str_equals(row.gap_id.as_str(), outcome.gap_id.as_str()) {
        return Err(invalid("backfill run belongs to another gap"));
    }
    if !str_equals(row.status.as_str(), "backfilling") {
        return match gap_status {
            Some(g) => if str_equals(g.as_str(), outcome.gap_target_status.as_str()) && str_equals(
                row.completeness.as_str(),
                outcome.completeness.as_str(),
            ) {
                Ok(FinalizeStep::AlreadyFinalized)
            } else {
                Err(invalid("backfill run is already finalised with another outcome"))
            },
            None => Err(invalid("gap not found on finalize retry")),
        };
    }
    let update_gap = match gap_status {
        Some(g) => if str_equals(g.as_str(), "backfilling") {
            true
        } else if str_equals(g.as_str(), outcome.gap_target_status.as_str()) {
            false
        } else {
            return Err(invalid("gap is in another terminal state"));
        },
        None => {
            return Err(invalid("gap not found on finalize"));
        },
    };
    proof {
        assert(finalize_proceeds(*run, *gap_status, *outcome));
        assert(scope_total(outcome.scopes@, RunCounter::PagesRead) <= u32::MAX);
        assert(scope_total(outcome.scopes@, RunCounter::EventsRead) <= u32::MAX);
        assert(scope_total(outcome.scopes@, RunCounter::Accepted) <= u32::MAX);
        assert(scope_total(outcome.scopes@, RunCounter::Duplicates) <= u32::MAX);
        assert(scope_total(outcome.scopes@, RunCounter::Anomalies) <= u32::MAX);
    }
    let counters = RunCounters {
        pages_read: total_of(&outcome.scopes, RunCounter::PagesRead),
        events_read: total_of(&outcome.scopes, RunCounter::EventsRead),
        accepted: total_of(&outcome.scopes, RunCounter::Accepted),
        duplicates: total_of(&outcome.scopes, RunCounter::Duplicates),
        anomaly_count: total_of(&outcome.scopes, RunCounter::Anomalies),
        budget_exhausted: outcome.budget_exhausted,
    };
    let run_status = match outcome.completeness {
        HistoryCompleteness::ProvenComplete => "verified_complete",
        HistoryCompleteness::KnownScopesComplete | HistoryCompleteness::Unprovable => "unprovable",
        HistoryCompleteness::Unrecoverable => "unrecoverable",
    };
    let failure_class = match outcome.completeness {
        HistoryCompleteness::KnownScopesComplete | HistoryCompleteness::Unprovable => match &outcome.gap_reason {
            Some(reason) => Some(reason.clone()),
            None => Some(outcome.completeness.as_str().to_owned()),
        },
        _ => None,
    };
    Ok(
        FinalizeStep::Finalize {
            update_gap,
            run_status,
            completeness: outcome.completeness.as_str(),
            failure_class,
            reclaim_policy: outcome.reclaim_policy,
            counters,
        },
    )
}

/// The moment a suspended gap becomes eligible again: the last second of
/// the year 9999, which no automatic claim reaches.
pub const SUSPENDED_UNTIL_UNIX_SECS: i64 = 253402300799;

/// What finalising a run does to the gap's reclaim schedule.
#[derive(Debug, Clone, Copy, PartialEq, Eq, Structural)]
pub enum ScheduleChange {
    /// The schedule row is removed.
    Remove,
    /// The schedule row is set to make the gap eligible at this time.
    EligibleAt(i64),
}

/// The schedule change a reclaim policy makes at `now_unix_secs`.
pub open spec fn schedule_change_of(policy: ReclaimPolicy, now_unix_secs: i64) -> ScheduleChange {
    match policy {
        ReclaimPolicy::Terminal => ScheduleChange::Remove,
        ReclaimPolicy::Backoff(secs) => ScheduleChange::EligibleAt((now_unix_secs + secs) as i64),
        ReclaimPolicy::Suspended => ScheduleChange::EligibleAt(SUSPENDED_UNTIL_UNIX_SECS),
    }
}

/// The backoff, if any, is a duration in seconds that the clock can hold
/// in milliseconds, and the time it gives can be represented.
pub open spec fn backoff_fits(policy: ReclaimPolicy, now_unix_secs: i64) -> bool {
    policy matches ReclaimPolicy::Backoff(secs) ==> secs * 1000 <= i64::MAX && now_unix_secs
        + secs <= i64::MAX
}

/// The change a run's reclaim policy makes to its gap's schedule.
pub fn reclaim_schedule_change(policy: ReclaimPolicy, now_unix_secs: i64) -> (r: ScheduleChange)
    requires
        backoff_fits(policy, now_unix_secs),
    ensures
        r == schedule_change_of(policy, now_unix_secs),
{
    match policy {
        ReclaimPolicy::Terminal => ScheduleChange::Remove,
        ReclaimPolicy::Backoff(secs) => {
            let delay: i64 = secs as i64;
            ScheduleChange::EligibleAt(now_unix_secs + delay)
        },
        ReclaimPolicy::Suspended => ScheduleChange::EligibleAt(SUSPENDED_UNTIL_UNIX_SECS),
    }
}

/// A gap can be claimed for backfilling: it is uncertain, its outage has
/// ended, and its schedule, if any, has come due.
pub open spec fn gap_claimable(
    gap_status: Seq<char>,
    gap_ended: bool,
    next_eligible_at_unix_secs: Option<i64>,
    now_unix_secs: i64,
) -> bool {
    &&& gap_status == "uncertain"@
    &&& gap_ended
    &&& next_eligible_at_unix_secs matches Some(t) ==> t <= now_unix_secs
}

/// Whether a gap can be claimed for backfilling now.
pub fn gap_is_claimable(
    gap_status: &str,
    gap_ended: bool,
    next_eligible_at_unix_secs: Option<i64>,
    now_unix_secs: i64,
) -> (r: bool)
    ensures
        r == gap_claimable(gap_status@, gap_ended, next_eligible_at_unix_secs, now_unix_secs),
{
    str_equals(gap_status, "uncertain") && gap_ended && match next_eligible_at_unix_secs {
        Some(t) => t <= now_unix_secs,
        None => true,
    }
}

// ---------------------------------------------------------------------------
// Inserting a message at most once.

/// The source event stored for a platform message after the idempotent
/// insert.
#[derive(Debug, PartialEq, Eq)]
pub struct StoredEventRow {
    pub source_event_id: String,
}

/// What the insert of a message amounts to.
#[derive(Debug, PartialEq, Eq)]
pub enum IngestStep {
    /// The message was stored before under this identifier: its content and
    /// projections are not written again.
    Duplicate { source_event_id: SourceEventId },
    /// The message is new: its content and projections are written.
    Accepted { source_event_id: SourceEventId },
}

/// The step of a message insert: the row read back after inserting under
/// `proposed_event_id` decides whether the message was already stored.
pub fn message_insert_step(stored: &Option<StoredEventRow>, proposed_event_id: &str) -> (r: Result<
    IngestStep,
    InboundStoreError,
>)
    ensures
        stored is None ==> r == Err::<IngestStep, InboundStoreError>(InboundStoreError::Unavailable),
        stored matches Some(row) && is_blank(row.source_event_id@) ==> (r matches Err(
            InboundStoreError::InvalidData(_),
        )),
        stored matches Some(row) && !is_blank(row.source_event_id@) && row.source_event_id@
            != proposed_event_id@ ==> (r matches Ok(IngestStep::Duplicate { source_event_id })
            && source_event_id@ == (stored->0).source_event_id@),
        stored matches Some(row) && !is_blank(row.source_event_id@) && row.source_event_id@
            == proposed_event_id@ ==> (r matches Ok(IngestStep::Accepted { source_event_id })
            && source_event_id@ == (stored->0).source_event_id@),
{
    let row = match stored {
        Some(row) => row,
        None => {
            return Err(InboundStoreError::Unavailable);
        },
    };
    let source_event_id = match SourceEventId::new(row.source_event_id.as_str()) {
        Ok(id) => id,
        Err(_) => {
            return Err(invalid("stored source event id is blank"));
        },
    };
    if str_equals(row.source_event_id.as_str(), proposed_event_id) {
        Ok(IngestStep::Accepted { source_event_id })
    } else {
        Ok(IngestStep::Duplicate { source_event_id })
    }
}

/// The privacy of a stored message: its content mode and an applied recall.
#[derive(Debug, PartialEq, Eq)]
pub struct EventPrivacyRow {
    pub content_mode: Option<String>,
    pub tombstone_status: Option<String>,
}

/// The message's own privacy lets its sender's profile be observed: its
/// content is stored, not recalled and not marked never-long-term.
pub open spec fn event_allows_observation(privacy: Option<EventPrivacyRow>) -> bool {
    privacy matches Some(p) && p.tombstone_status is None && !(p.content_mode matches Some(m)
        && m@ == "never_long_term"@)
}

/// Whether an accepted message may update its sender's observed profile:
/// the message allows it and its conversation's memory mode (read only
/// then, and required to exist) is not never-long-term.
pub fn participant_observation_step(
    privacy: &Option<EventPrivacyRow>,
    conversation_memory_mode: &Option<String>,
) -> (r: Result<bool, InboundStoreError>)
    ensures
        !event_allows_observation(*privacy) ==> r == Ok::<bool, InboundStoreError>(false),
        event_allows_observation(*privacy) ==> match *conversation_memory_mode {
            Some(m) => r == Ok::<bool, InboundStoreError>(m@ != "never_long_term"@),
            None => r matches Err(InboundStoreError::InvalidData(_)),
        },
{
    let allowed = match privacy {
        Some(p) => p.tombstone_status.is_none() && match &p.content_mode {
            Some(m) => !str_equals(m.as_str(), "never_long_term"),
            None => true,
        },
        None => false,
    };
    if !allowed {
        return Ok(false);
    }
    match conversation_memory_mode {
        Some(m) => Ok(!str_equals(m.as_str(), "never_long_term")),
        None => Err(invalid("conversation vanished during profile upsert")),
    }
}

// ---------------------------------------------------------------------------
// A sender's observed profile.

/// At most this many source events are kept for a profile; the oldest
/// leaves first.
pub const MAX_PROFILE_SOURCE_EVENTS: usize = 10;

/// At most this many earlier display names are kept as aliases.
pub const MAX_PROFILE_ALIASES: usize = 10;

/// Display names and aliases keep at most this many characters.
pub const MAX_PROFILE_NAME_CHARS: usize = 200;

/// The views of a list of texts.
pub open spec fn texts_of(v: Seq<String>) -> Seq<Seq<char>> {
    v.map_values(|s: String| s@)
}

/// The first `n` characters of a text.
pub open spec fn first_chars(s: Seq<char>, n: int) -> Seq<char> {
    if s.len() <= n {
        s
    } else {
        s.take(n)
    }
}

/// The profile's source events after the event is recorded: unchanged when
/// it is already there; otherwise appended, the oldest dropped first when
/// the list is full.
pub open spec fn appended_sources(ids: Seq<Seq<char>>, id: Seq<char>) -> Seq<Seq<char>> {
    if ids.contains(id) {
        ids
    } else if ids.len() >= MAX_PROFILE_SOURCE_EVENTS {
        ids.subrange(1, ids.len() as int).push(id)
    } else {
        ids.push(id)
    }
}

/// An earlier display name of a profile, with the event that established
/// it.
#[derive(Debug, Clone, PartialEq, Eq)]
pub struct ProfileAlias {
    pub alias: String,
    pub source_event_id: String,
}

pub open spec fn alias_view(a: ProfileAlias) -> (Seq<char>, Seq<char>) {
    (a.alias@, a.source_event_id@)
}

pub open spec fn aliases_of(v: Seq<ProfileAlias>) -> Seq<(Seq<char>, Seq<char>)> {
    v.map_values(|a: ProfileAlias| alias_view(a))
}

/// Some alias is exactly this name.
pub open spec fn has_alias(aliases: Seq<(Seq<char>, Seq<char>)>, name: Seq<char>) -> bool {
    exists|k: int| 0 <= k < aliases.len() && (#[trigger] aliases[k]).0 == name
}

/// The aliases after the display name changes away from `old_name`: a
/// non-empty name that no alias already is joins them (cut to its first 200
/// characters, with the event that established it), and only the first ten
/// are kept.
pub open spec fn merged_aliases(
    aliases: Seq<(Seq<char>, Seq<char>)>,
    old_name: Seq<char>,
    source: Seq<char>,
) -> Seq<(Seq<char>, Seq<char>)> {
    let grown = if old_name.len() > 0 && !has_alias(aliases, old_name) {
        aliases.push((first_chars(old_name, MAX_PROFILE_NAME_CHARS as int), source))
    } else {
        aliases
    };
    if grown.len() > MAX_PROFILE_ALIASES {
        grown.take(MAX_PROFILE_ALIASES as int)
    } else {
        grown
    }
}

/// The first `n` characters of a text.
pub fn first_chars_of(s: &str, n: usize) -> (r: String)
    ensures
        r@ == first_chars(s@, n as int),
{
    let chars = chars_of(s);
    if chars.len() <= n {
        return string_from_chars(&chars);
    }
    let mut out: Vec<char> = Vec::new();
    let mut i: usize = 0;
    while i < n
        invariant
            i <= n < chars@.len(),
            chars@ == s@,
            out@ == chars@.take(i as int),
        decreases n - i,
    {
        out.push(chars[i]);
        proof {
            assert(chars@.take(i + 1) =~= chars@.take(i as int).push(chars@[i as int]));
        }
        i = i + 1;
    }
    string_from_chars(&out)
}

fn contains_text(ids: &Vec<String>, id: &str) -> (r: bool)
    ensures
        r == texts_of(ids@).contains(id@),
{
    let mut i: usize = 0;
    while i < ids.len()
        invariant
            i <= ids@.len(),
            forall|k: int| 0 <= k < i ==> ids@[k]@ != id@,
        decreases ids@.len() - i,
    {
        if str_equals(ids[i].as_str(), id) {
            proof {
                assert(texts_of(ids@)[i as int] == id@);
            }
            return true;
        }
        i = i + 1;
    }
    proof {
        if texts_of(ids@).contains(id@) {
            let k = choose|k: int| 0 <= k < texts_of(ids@).len() && texts_of(ids@)[k] == id@;
            assert(ids@[k]@ == id@);
        }
    }
    false
}

fn copy_texts_from(ids: &Vec<String>, start: usize) -> (r: Vec<String>)
    requires
        start <= ids@.len(),
    ensures
        texts_of(r@) == texts_of(ids@).subrange(start as int, ids@.len() as int),
{
    let mut out: Vec<String> = Vec::new();
    let mut i: usize = start;
    while i < ids.len()
        invariant
            start <= i <= ids@.len(),
            out@.len() == i - start,
            texts_of(out@) == texts_of(ids@).subrange(start as int, i as int),
        decreases ids@.len() - i,
    {
        let ghost prev = out@;
        out.push(ids[i].clone());
        proof {
            assert forall|j: int| 0 <= j < out@.len() implies #[trigger] texts_of(out@)[j]
                == texts_of(ids@).subrange(start as int, i + 1)[j] by {
                if j < prev.len() {
                    assert(texts_of(prev)[j] == texts_of(ids@).subrange(start as int, i as int)[j]);
                }
            }
            assert(texts_of(out@) =~= texts_of(ids@).subrange(start as int, i + 1));
        }
        i = i + 1;
    }
    out
}

/// Records a source event in a profile's bounded list of source events.
pub fn append_profile_source(ids: &Vec<String>, source_event_id: &str) -> (r: Vec<String>)
    ensures
        texts_of(r@) == appended_sources(texts_of(ids@), source_event_id@),
{
    if contains_text(ids, source_event_id) {
        let r = copy_texts_from(ids, 0);
        assert(texts_of(ids@).subrange(0, ids@.len() as int) =~= texts_of(ids@));
        return r;
    }
    let start: usize = if ids.len() >= MAX_PROFILE_SOURCE_EVENTS {
        1
    } else {
        0
    };
    let mut out = copy_texts_from(ids, start);
    out.push(source_event_id.to_owned());
    proof {
        assert(texts_of(out@) =~= texts_of(ids@).subrange(start as int, ids@.len() as int).push(
            source_event_id@,
        ));
        if start == 0 {
            assert(texts_of(ids@).subrange(0, ids@.len() as int) =~= texts_of(ids@));
        }
    }
    out
}

/// Keeps an earlier display name among a profile's bounded aliases.
pub fn merge_profile_alias(
    aliases: &Vec<ProfileAlias>,
    old_display_name: &str,
    alias_source_event_id: &str,
) -> (r: Vec<ProfileAlias>)
    ensures
        aliases_of(r@) == merged_aliases(
            aliases_of(aliases@),
            old_display_name@,
            alias_source_event_id@,
        ),
{
    let mut out: Vec<ProfileAlias> = Vec::new();
    let mut known = false;
    let mut i: usize = 0;
    while i < aliases.len()
        invariant
            i <= aliases@.len(),
            out@.len() == i,
            aliases_of(out@) == aliases_of(aliases@).take(i as int),
            known <==> exists|k: int| 0 <= k < i && (#[trigger] aliases@[k]).alias@
                == old_display_name@,
        decreases aliases@.len() - i,
    {
        let a = &aliases[i];
        if str_equals(a.alias.as_str(), old_display_name) {
            known = true;
        }
        let ghost prev = out@;
        out.push(
            ProfileAlias { alias: a.alias.clone(), source_event_id: a.source_event_id.clone() },
        );
        proof {
            assert forall|j: int| 0 <= j < out@.len() implies #[trigger] aliases_of(out@)[j]
                == aliases_of(aliases@).take(i + 1)[j] by {
                if j < prev.len() {
                    assert(aliases_of(prev)[j] == aliases_of(aliases@).take(i as int)[j]);
                    assert(out@[j] == prev[j]);
                } else {
                    assert(out@[j].alias@ == aliases@[i as int].alias@);
                    assert(out@[j].source_event_id@ == aliases@[i as int].source_event_id@);
                    assert(aliases_of(out@)[j] == alias_view(out@[j]));
                    assert(aliases_of(aliases@).take(i + 1)[j] == alias_view(aliases@[i as int]));
                }
            }
            assert(aliases_of(out@) =~= aliases_of(aliases@).take(i + 1));
        }
        i = i + 1;
    }
    proof {
        assert(aliases_of(aliases@).take(i as int) =~= aliases_of(aliases@));
        let v = aliases_of(aliases@);
        if has_alias(v, old_display_name@) {
            let k = choose|k: int| 0 <= k < v.len() && (#[trigger] v[k]).0 == old_display_name@;
            assert(aliases@[k].alias@ == old_display_name@);
        }
        if known {
            let k = choose|k: int| 0 <= k < i && (#[trigger] aliases@[k]).alias@
                == old_display_name@;
            assert(v[k].0 == old_display_name@);
        }
    }
    if !old_display_name.is_empty() && !known {
        let alias = first_chars_of(old_display_name, MAX_PROFILE_NAME_CHARS);
        out.push(ProfileAlias { alias, source_event_id: alias_source_event_id.to_owned() });
        proof {
            assert(aliases_of(out@) =~= aliases_of(aliases@).push(
                (first_chars(old_display_name@, MAX_PROFILE_NAME_CHARS as int), alias_source_event_id@),
            ));
        }
    }
    let ghost grown = aliases_of(out@);
    let ghost before = out@;
    out.truncate(MAX_PROFILE_ALIASES);
    proof {
        if before.len() > MAX_PROFILE_ALIASES {
            assert forall|j: int| 0 <= j < out@.len() implies #[trigger] aliases_of(out@)[j]
                == grown.take(MAX_PROFILE_ALIASES as int)[j] by {
                assert(out@[j] == before[j]);
            }
            assert(aliases_of(out@) =~= grown.take(MAX_PROFILE_ALIASES as int));
        } else {
            assert(out@ == before);
        }
    }
    out
}

/// The current observed profile of a sender, as stored.
#[derive(Debug, PartialEq, Eq)]
pub struct CurrentProfileRow {
    pub profile_id: u64,
    pub display_name: String,
    pub aliases: Vec<ProfileAlias>,
    pub source_event_ids: Vec<String>,
    pub established_by_event_id: Option<String>,
}

/// What observing a sender does to their profile.
#[derive(Debug, PartialEq, Eq)]
pub enum ProfileUpsert {
    /// The first observation: a current profile with no aliases, established
    /// by this event.
    Insert { display_name: String, source_event_ids: Vec<String> },
    /// The same display name: only the event is recorded.
    AppendSource { profile_id: u64, source_event_ids: Vec<String> },
    /// A new display name: the old profile is kept as history and a new
    /// current one, established by this event, takes the old name among its
    /// aliases.
    Supersede {
        retired_profile_id: u64,
        display_name: String,
        aliases: Vec<ProfileAlias>,
        source_event_ids: Vec<String>,
    },
}

/// The change an observation makes to the sender's current profile, from
/// the observed nickname (cut to its first 200 characters).
pub fn participant_profile_step(
    current: &Option<CurrentProfileRow>,
    nickname: &str,
    source_event_id: &str,
) -> (r: ProfileUpsert)
    ensures
        ({
            let name = first_chars(nickname@, MAX_PROFILE_NAME_CHARS as int);
            match *current {
                None => r matches ProfileUpsert::Insert { display_name, source_event_ids }
                    && display_name@ == name && texts_of(source_event_ids@) == seq![
                    source_event_id@,
                ],
                Some(row) => if row.display_name@ == name {
                    r matches ProfileUpsert::AppendSource { profile_id, source_event_ids }
                        && profile_id == row.profile_id && texts_of(source_event_ids@)
                        == appended_sources(texts_of(row.source_event_ids@), source_event_id@)
                } else {
                    r matches ProfileUpsert::Supersede {
                        retired_profile_id,
                        display_name,
                        aliases,
                        source_event_ids,
                    } && retired_profile_id == row.profile_id && display_name@ == name
                        && texts_of(source_event_ids@) == appended_sources(
                        texts_of(row.source_event_ids@),
                        source_event_id@,
                    ) && aliases_of(aliases@) == merged_aliases(
                        aliases_of(row.aliases@),
                        row.display_name@,
                        match row.established_by_event_id {
                            Some(e) => e@,
                            None => source_event_id@,
                        },
                    )
                },
            }
        }),
{
    let display_name = first_chars_of(nickname, MAX_PROFILE_NAME_CHARS);
    match current {
        None => {
            let empty: Vec<String> = Vec::new();
            let source_event_ids = append_profile_source(&empty, source_event_id);
            proof {
                assert(texts_of(empty@) =~= Seq::<Seq<char>>::empty());
                assert(appended_sources(Seq::<Seq<char>>::empty(), source_event_id@) =~= seq![
                    source_event_id@,
                ]);
            }
            ProfileUpsert::Insert { display_name, source_event_ids }
        },
        Some(row) => {
            let source_event_ids = append_profile_source(&row.source_event_ids, source_event_id);
            if str_equals(row.display_name.as_str(), display_name.as_str()) {
                ProfileUpsert::AppendSource { profile_id: row.profile_id, source_event_ids }
            } else {
                let alias_source: &str = match &row.established_by_event_id {
                    Some(e) => e.as_str(),
                    None => source_event_id,
                };
                let aliases = merge_profile_alias(
                    &row.aliases,
                    row.display_name.as_str(),
                    alias_source,
                );
                ProfileUpsert::Supersede {
                    retired_profile_id: row.profile_id,
                    display_name,
                    aliases,
                    source_event_ids,
                }
            }
        },
    }
}

// ---------------------------------------------------------------------------
// The character budget of a semantic batch.

/// The budget left after the first `i` texts of a batch: a text that fits
/// the budget left takes its characters from it; one that does not leaves
/// it as it was.
pub open spec fn budget_left(texts: Seq<Seq<char>>, max_total_chars: int, i: int) -> int
    decreases i,
{
    if i <= 0 {
        max_total_chars
    } else {
        let before = budget_left(texts, max_total_chars, i - 1);
        if texts[i - 1].len() > before {
            before
        } else {
            before - texts[i - 1].len()
        }
    }
}

/// The `i`-th text keeps its content: it fits the budget its predecessors
/// left.
pub open spec fn text_kept(texts: Seq<Seq<char>>, max_total_chars: int, i: int) -> bool {
    texts[i].len() <= budget_left(texts, max_total_chars, i)
}

/// The characters that the first `i` texts keep.
pub open spec fn kept_chars(texts: Seq<Seq<char>>, max_total_chars: int, i: int) -> int
    decreases i,
{
    if i <= 0 {
        0
    } else {
        kept_chars(texts, max_total_chars, i - 1) + if text_kept(texts, max_total_chars, i - 1) {
            texts[i - 1].len() as int
        } else {
            0
        }
    }
}

/// A message text of a semantic batch: its content, or nothing when the
/// batch's character budget had no room for it.
#[derive(Debug, PartialEq, Eq)]
pub struct BudgetedText {
    pub normalized_text: String,
    pub content_omitted: bool,
}

/// Applies the batch's character budget to its texts in order: a text is
/// omitted exactly when it has more characters than the budget its
/// predecessors left.
pub fn budget_semantic_texts(texts: &Vec<String>, max_total_chars: u32) -> (r: Vec<BudgetedText>)
    ensures
        r@.len() == texts@.len(),
        forall|i: int|
            0 <= i < r@.len() ==> {
                let kept = text_kept(texts_of(texts@), max_total_chars as int, i);
                &&& (#[trigger] r@[i]).content_omitted == !kept
                &&& r@[i].normalized_text@ == if kept {
                    texts@[i]@
                } else {
                    Seq::<char>::empty()
                }
            },
{
    let ghost views = texts_of(texts@);
    let mut remaining: usize = max_total_chars as usize;
    let mut out: Vec<BudgetedText> = Vec::new();
    let mut i: usize = 0;
    while i < texts.len()
        invariant
            i <= texts@.len(),
            views == texts_of(texts@),
            out@.len() == i,
            remaining == budget_left(views, max_total_chars as int, i as int),
            forall|k: int|
                0 <= k < i ==> {
                    let kept = text_kept(views, max_total_chars as int, k);
                    &&& (#[trigger] out@[k]).content_omitted == !kept
                    &&& out@[k].normalized_text@ == if kept {
                        texts@[k]@
                    } else {
                        Seq::<char>::empty()
                    }
                },
        decreases texts@.len() - i,
    {
        let count = chars_of(texts[i].as_str()).len();
        proof {
            assert(views[i as int] == texts@[i as int]@);
        }
        if count > remaining {
            out.push(BudgetedText { normalized_text: String::new(), content_omitted: true });
        } else {
            remaining = remaining - count;
            out.push(BudgetedText { normalized_text: texts[i].clone(), content_omitted: false });
        }
        i = i + 1;
    }
    out
}

// ---------------------------------------------------------------------------
// Committing a semantic patch.

/// The semantic state of a thread as locked for a patch.
#[derive(Debug, PartialEq, Eq)]
pub struct SemanticLeaseRow {
    pub lease_token: Option<String>,
    pub lease_expires_at_unix_micros: i64,
}

/// A patch may be committed only while the worker's lease is held: the
/// thread's state carries the worker's token and it has not expired.
pub open spec fn semantic_lease_held(state: Option<SemanticLeaseRow>, lease_token: Seq<char>, now_unix_micros: i64) -> bool {
    state matches Some(s) && s.lease_token matches Some(t) && t@ == lease_token
        && s.lease_expires_at_unix_micros >= now_unix_micros
}

pub fn semantic_patch_step(
    state: &Option<SemanticLeaseRow>,
    lease_token: &str,
    now_unix_micros: i64,
) -> (r: Result<(), InboundStoreError>)
    ensures
        r is Ok <==> semantic_lease_held(*state, lease_token@, now_unix_micros),
        r is Err ==> r == Err::<(), InboundStoreError>(InboundStoreError::LeaseLost),
{
    match state {
        Some(s) => match &s.lease_token {
            Some(t) => if str_equals(t.as_str(), lease_token) && s.lease_expires_at_unix_micros
                >= now_unix_micros {
                Ok(())
            } else {
                Err(InboundStoreError::LeaseLost)
            },
            None => Err(InboundStoreError::LeaseLost),
        },
        None => Err(InboundStoreError::LeaseLost),
    }
}

// ---------------------------------------------------------------------------
// Persisting a thread-mutation proposal.

/// A proposal already stored under the same identifier.
#[derive(Debug, PartialEq, Eq)]
pub struct ProposalIdentityRow {
    pub account_id: u64,
    pub mutation_kind: String,
    pub impact_json: String,
}

/// A thread event that a proposal names, as locked.
#[derive(Debug, PartialEq, Eq)]
pub struct EventMembershipRow {
    pub account_id: u64,
    pub conversation_id: u64,
    pub thread_id: String,
}

/// A proposal stays within its account and threads: each named thread
/// exists in the account, and each affected event exists in the account and
/// belongs to one of the named threads.
pub open spec fn proposal_in_scope(
    account_id: u64,
    thread_accounts: Seq<Option<u64>>,
    events: Seq<Option<EventMembershipRow>>,
    thread_ids: Seq<String>,
) -> bool {
    &&& forall|i: int|
        0 <= i < thread_accounts.len() ==> (#[trigger] thread_accounts[i] matches Some(a) && a
            == account_id)
    &&& forall|i: int|
        0 <= i < events.len() ==> (#[trigger] events[i] matches Some(e) && e.account_id == account_id
            && names_text(thread_ids, e.thread_id@))
}

/// Some text of the list is `t`.
pub open spec fn names_text(ids: Seq<String>, t: Seq<char>) -> bool {
    exists|j: int| 0 <= j < ids.len() && (#[trigger] ids[j])@ == t
}

fn names_thread(thread_ids: &Vec<String>, thread_id: &str) -> (r: bool)
    ensures
        r == names_text(thread_ids@, thread_id@),
{
    let mut j: usize = 0;
    while j < thread_ids.len()
        invariant
            j <= thread_ids@.len(),
            forall|k: int| 0 <= k < j ==> (#[trigger] thread_ids@[k])@ != thread_id@,
        decreases thread_ids@.len() - j,
    {
        if str_equals(thread_ids[j].as_str(), thread_id) {
            return true;
        }
        j = j + 1;
    }
    false
}

pub fn proposal_scope_check(
    account_id: u64,
    thread_accounts: &Vec<Option<u64>>,
    events: &Vec<Option<EventMembershipRow>>,
    thread_ids: &Vec<String>,
) -> (r: Result<(), InboundStoreError>)
    ensures
        r is Ok <==> proposal_in_scope(account_id, thread_accounts@, events@, thread_ids@),
        r is Err ==> r matches Err(InboundStoreError::InvalidData(_)),
{
    let mut i: usize = 0;
    while i < thread_accounts.len()
        invariant
            i <= thread_accounts@.len(),
            forall|k: int|
                0 <= k < i ==> (#[trigger] thread_accounts@[k] matches Some(a) && a == account_id),
        decreases thread_accounts@.len() - i,
    {
        match thread_accounts[i] {
            Some(a) => {
                if a != account_id {
                    return Err(invalid("thread mutation cannot cross managed accounts"));
                }
            },
            None => {
                return Err(invalid("thread was not found"));
            },
        }
        i = i + 1;
    }
    let mut k: usize = 0;
    while k < events.len()
        invariant
            k <= events@.len(),
            forall|m: int|
                0 <= m < k ==> (#[trigger] events@[m] matches Some(e) && e.account_id == account_id
                    && names_text(thread_ids@, e.thread_id@)),
        decreases events@.len() - k,
    {
        match &events[k] {
            Some(e) => {
                if e.account_id != account_id || !names_thread(thread_ids, e.thread_id.as_str()) {
                    return Err(invalid("affected event is outside the proposal account or threads"));
                }
            },
            None => {
                return Err(invalid("affected event was not found in a thread"));
            },
        }
        k = k + 1;
    }
    Ok(())
}

/// Every identifier of one list occurs in the other.
pub open spec fn same_id_set(a: Seq<String>, b: Seq<String>) -> bool {
    &&& forall|i: int| 0 <= i < a.len() ==> names_text(b, (#[trigger] a[i])@)
    &&& forall|j: int| 0 <= j < b.len() ==> names_text(a, (#[trigger] b[j])@)
}

/// A proposal covers what it claims: the affected events span exactly the
/// stated number of conversations; a merge names every event of every merged
/// thread, and a split leaves at least one event in its source thread.
pub open spec fn proposal_covered(
    is_merge: bool,
    affected_ids: Seq<String>,
    thread_event_ids: Seq<String>,
    source_thread_event_count: i64,
    conversation_ids: Seq<u64>,
    affected_conversation_count: u32,
) -> bool {
    &&& conversation_ids.to_set().len() == affected_conversation_count
    &&& if is_merge {
        same_id_set(affected_ids, thread_event_ids)
    } else {
        source_thread_event_count > affected_ids.len()
    }
}

fn contains_u64(values: &Vec<u64>, v: u64) -> (r: bool)
    ensures
        r == values@.contains(v),
{
    let mut k: usize = 0;
    while k < values.len()
        invariant
            k <= values@.len(),
            forall|m: int| 0 <= m < k ==> values@[m] != v,
        decreases values@.len() - k,
    {
        if values[k] == v {
            return true;
        }
        k = k + 1;
    }
    false
}

/// The number of distinct values.
fn distinct_count(values: &Vec<u64>) -> (r: usize)
    ensures
        r == values@.to_set().len(),
{
    let mut seen: Vec<u64> = Vec::new();
    let mut i: usize = 0;
    proof {
        assert(seen@.to_set() =~= values@.take(0).to_set());
    }
    while i < values.len()
        invariant
            i <= values@.len(),
            seen@.len() <= i,
            seen@.no_duplicates(),
            seen@.to_set() == values@.take(i as int).to_set(),
        decreases values@.len() - i,
    {
        let v = values[i];
        let ghost before = seen@;
        proof {
            assert(values@.take(i + 1) =~= values@.take(i as int).push(v));
        }
        if !contains_u64(&seen, v) {
            seen.push(v);
            proof {
                assert forall|a: int, b: int|
                    0 <= a < seen@.len() && 0 <= b < seen@.len() && a != b implies seen@[a]
                    != seen@[b] by {
                    if a < before.len() && b < before.len() {
                        assert(before[a] != before[b]);
                    } else if a == before.len() {
                        assert(before.contains(before[b]));
                    } else {
                        assert(before.contains(before[a]));
                    }
                }
            }
        }
        proof {
            before.lemma_push_to_set_commute(v);
            values@.take(i as int).lemma_push_to_set_commute(v);
            if before.contains(v) {
                assert(before.to_set().contains(v));
                assert(before.to_set().insert(v) =~= before.to_set());
            }
        }
        assert(seen@.to_set() =~= values@.take(i + 1).to_set());
        i = i + 1;
    }
    proof {
        assert(values@.take(i as int) =~= values@);
        seen@.unique_seq_to_set();
    }
    seen.len()
}

fn names_all(haystack: &Vec<String>, needles: &Vec<String>) -> (r: bool)
    ensures
        r == forall|i: int| 0 <= i < needles@.len() ==> names_text(haystack@, (#[trigger] needles@[i])@),
{
    let mut i: usize = 0;
    while i < needles.len()
        invariant
            i <= needles@.len(),
            forall|k: int| 0 <= k < i ==> names_text(haystack@, (#[trigger] needles@[k])@),
        decreases needles@.len() - i,
    {
        if !names_thread(haystack, needles[i].as_str()) {
            return false;
        }
        i = i + 1;
    }
    true
}

pub fn proposal_coverage_check(
    is_merge: bool,
    affected_ids: &Vec<String>,
    thread_event_ids: &Vec<String>,
    source_thread_event_count: i64,
    conversation_ids: &Vec<u64>,
    affected_conversation_count: u32,
) -> (r: Result<(), InboundStoreError>)
    ensures
        r is Ok <==> proposal_covered(
            is_merge,
            affected_ids@,
            thread_event_ids@,
            source_thread_event_count,
            conversation_ids@,
            affected_conversation_count,
        ),
        r is Err ==> r matches Err(InboundStoreError::InvalidData(_)),
{
    if distinct_count(conversation_ids) as u64 != affected_conversation_count as u64 {
        return Err(invalid("affected_conversation_count does not match stored events"));
    }
    if is_merge {
        if !names_all(thread_event_ids, affected_ids) || !names_all(affected_ids, thread_event_ids) {
            return Err(invalid("merge proposal must enumerate every event in every affected thread"));
        }
    } else {
        if source_thread_event_count <= 0 || (source_thread_event_count as u64) <= (
        affected_ids.len() as u64) {
            return Err(invalid("split proposal must leave at least one event in the source thread"));
        }
    }
    Ok(())
}

/// The step of persisting a proposal after its idempotent insert: a new row
/// is written (`Ok(true)`); a proposal stored before under the same
/// identifier, for the same account and kind with the same serialized
/// impact, is a replay that writes nothing (`Ok(false)`); any other stored
/// proposal under that identifier is refused.
pub fn proposal_persist_step(
    inserted: bool,
    stored: &Option<ProposalIdentityRow>,
    account_id: u64,
    mutation_kind: &str,
    impact_json: &str,
) -> (r: Result<bool, InboundStoreError>)
    ensures
        inserted ==> r == Ok::<bool, InboundStoreError>(true),
        !inserted ==> (r == Ok::<bool, InboundStoreError>(false) <==> (stored matches Some(s)
            && s.account_id == account_id && s.mutation_kind@ == mutation_kind@ && s.impact_json@
            == impact_json@)),
        !inserted ==> (r is Err ==> r matches Err(InboundStoreError::InvalidData(_))),
        !inserted ==> r != Ok::<bool, InboundStoreError>(true),
{
    if inserted {
        return Ok(true);
    }
    match stored {
        Some(s) => if s.account_id == account_id && str_equals(s.mutation_kind.as_str(), mutation_kind)
            && str_equals(s.impact_json.as_str(), impact_json) {
            Ok(false)
        } else {
            Err(invalid("proposal_id already exists with different immutable impact"))
        },
        None => Err(invalid("proposal insert lost without an existing row")),
    }
}

// ---------------------------------------------------------------------------
// Recording a recall.

/// What a recall does to the recalled message.
#[derive(Debug, Clone, Copy, PartialEq, Eq, Structural)]
pub enum TombstoneStatus {
    /// The recalled message is stored: it is marked recalled now.
    Applied,
    /// The message has not arrived yet: the tombstone waits for it.
    Pending,
    /// The same recall was recorded before: nothing changes.
    IdempotentReapply,
}

/// The tombstone that a recall writes.
#[derive(Debug, PartialEq, Eq)]
pub struct RecallStep {
    pub status: TombstoneStatus,
    pub source_event_id: Option<String>,
    pub invalidation_reason: &'static str,
    pub invalidated_at_unix_secs: i64,
}

/// The step of a recall: a recall with a correlation key already recorded
/// is a replay; otherwise the tombstone is applied when the recalled
/// message is stored (`original`) and pending until it arrives.
pub fn recall_step(already_recorded: bool, original: &Option<String>, occurred_at_unix_secs: i64) -> (r:
    RecallStep)
    ensures
        already_recorded ==> r.status == TombstoneStatus::IdempotentReapply,
        !already_recorded ==> (r.status == TombstoneStatus::Applied <==> original is Some),
        !already_recorded ==> (r.status == TombstoneStatus::Pending <==> original is None),
        !already_recorded ==> r.invalidated_at_unix_secs == occurred_at_unix_secs,
        !already_recorded ==> (match *original {
            Some(id) => r.source_event_id matches Some(s) && s@ == id@ && r.invalidation_reason@
                == "message recalled"@,
            None => r.source_event_id is None && r.invalidation_reason@
                == "recall arrived before original message"@,
        }),
{
    if already_recorded {
        return RecallStep {
            status: TombstoneStatus::IdempotentReapply,
            source_event_id: None,
            invalidation_reason: "",
            invalidated_at_unix_secs: occurred_at_unix_secs,
        };
    }
    match original {
        Some(id) => RecallStep {
            status: TombstoneStatus::Applied,
            source_event_id: Some(id.clone()),
            invalidation_reason: "message recalled",
            invalidated_at_unix_secs: occurred_at_unix_secs,
        },
        None => RecallStep {
            status: TombstoneStatus::Pending,
            source_event_id: None,
            invalidation_reason: "recall arrived before original message",
            invalidated_at_unix_secs: occurred_at_unix_secs,
        },
    }
}

/// The actor recorded for a recall: the operator when it is named, else
/// `unknown-operator`.
pub fn recall_actor_platform_id(operator_platform_id: &Option<String>) -> (r: String)
    ensures
        r@ == match *operator_platform_id {
            Some(o) => if is_blank(o@) {
                "unknown-operator"@
            } else {
                o@
            },
            None => "unknown-operator"@,
        },
{
    match operator_platform_id {
        Some(o) => if text_is_blank(o.as_str()) {
            "unknown-operator".to_owned()
        } else {
            o.clone()
        },
        None => "unknown-operator".to_owned(),
    }
}

} // verus!
