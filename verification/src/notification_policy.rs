//! Owner notification policy: structured rules, candidates and the pure
//! evaluator that decides whether a due notification reminds, is
//! suppressed, or fails.
use vstd::prelude::*;

use crate::generated_id::{lemma_uuid_text_shape, random_uuid_text};
use crate::identity::{ConversationRef, SourceAccountRef};
use crate::local_time::{
    add_days, date_less, date_lt, date_ok, date_plus_days, hh_mm_parse, local_clock,
    local_reading, local_time_is_single, parse_hh_mm, parse_ymd, single_local, time_less,
    time_lt, unix_secs_representable, utc_representable, ymd_parse, zone_known,
    zone_name_known, LocalDate, LocalTime,
};
use crate::text::{is_blank, text_is_blank, utf8_len, utf8_len_within};
use vstd::std_specs::cmp::PartialEqSpec;

verus! {

pub const MAX_NOTIFICATION_POLICY_ID_BYTES: usize = 36;
pub const MAX_CANONICAL_SCOPE_KEY_BYTES: usize = 512;
pub const MAX_NOTIFICATION_REASON_BYTES: usize = 256;
pub const MAX_NOTIFICATION_AUDIT_SUMMARY_BYTES: usize = 1024;
pub const MAX_NOTIFICATION_JSON_BYTES: usize = 8192;

/// Error of a notification policy value.
#[derive(Debug, PartialEq, Eq)]
pub enum NotificationPolicyError {
    InvalidIdentity(String),
    InvalidMatchKey(String),
    UnknownMatchMetadata,
    InvalidCandidateRef,
    InvalidRevisionShape,
    InvalidQuietHours(String),
    AmbiguousScheduleTime,
    ScheduleTimeAmbiguous,
}

/// A policy identifier: not blank and at most 36 bytes.
pub open spec fn policy_id_ok(s: Seq<char>) -> bool {
    !is_blank(s) && utf8_len(s) <= MAX_NOTIFICATION_POLICY_ID_BYTES
}

fn policy_id_fits(value: &str) -> (r: bool)
    ensures
        r == policy_id_ok(value@),
{
    !text_is_blank(value) && utf8_len_within(value, MAX_NOTIFICATION_POLICY_ID_BYTES)
}

/// Identifier: not blank, at most 36 bytes.
#[derive(Debug, PartialEq, Eq, Hash)]
pub struct PolicyFamilyId(String);

impl View for PolicyFamilyId {
    type V = Seq<char>;

    closed spec fn view(&self) -> Seq<char> {
        self.0@
    }
}

impl PolicyFamilyId {
    #[verifier::type_invariant]
    closed spec fn bounded(self) -> bool {
        policy_id_ok(self.0@)
    }

    pub fn new(value: &str) -> (r: Result<Self, NotificationPolicyError>)
        ensures
            r is Ok <==> policy_id_ok(value@),
            r matches Ok(id) ==> id@ == value@,
            r matches Err(e) ==> e is InvalidIdentity,
    {
        if !policy_id_fits(value) {
            return Err(NotificationPolicyError::InvalidIdentity(
                "policy family id must contain 1..=36 bytes".to_owned(),
            ));
        }
        Ok(PolicyFamilyId(value.to_owned()))
    }

    /// A fresh random identifier.
    pub fn generate() -> (r: Self)
        ensures
            policy_id_ok(r@),
    {
        let text = random_uuid_text();
        proof {
            lemma_uuid_text_shape(text@);
        }
        PolicyFamilyId(text)
    }

    pub fn as_str(&self) -> (r: &str)
        ensures
            r@ == self@,
            policy_id_ok(r@),
    {
        proof {
            use_type_invariant(self);
        }
        self.0.as_str()
    }
}

impl Clone for PolicyFamilyId {
    fn clone(&self) -> (r: Self)
        ensures
            r == *self,
    {
        proof {
            use_type_invariant(self);
        }
        PolicyFamilyId(self.0.clone())
    }
}

/// Identifier: not blank, at most 36 bytes.
#[derive(Debug, PartialEq, Eq, Hash)]
pub struct PolicyRevisionId(String);

impl View for PolicyRevisionId {
    type V = Seq<char>;

    closed spec fn view(&self) -> Seq<char> {
        self.0@
    }
}

impl PolicyRevisionId {
    #[verifier::type_invariant]
    closed spec fn bounded(self) -> bool {
        policy_id_ok(self.0@)
    }

    pub fn new(value: &str) -> (r: Result<Self, NotificationPolicyError>)
        ensures
            r is Ok <==> policy_id_ok(value@),
            r matches Ok(id) ==> id@ == value@,
            r matches Err(e) ==> e is InvalidIdentity,
    {
        if !policy_id_fits(value) {
            return Err(NotificationPolicyError::InvalidIdentity(
                "policy revision id must contain 1..=36 bytes".to_owned(),
            ));
        }
        Ok(PolicyRevisionId(value.to_owned()))
    }

    /// A fresh random identifier.
    pub fn generate() -> (r: Self)
        ensures
            policy_id_ok(r@),
    {
        let text = random_uuid_text();
        proof {
            lemma_uuid_text_shape(text@);
        }
        PolicyRevisionId(text)
    }

    pub fn as_str(&self) -> (r: &str)
        ensures
            r@ == self@,
            policy_id_ok(r@),
    {
        proof {
            use_type_invariant(self);
        }
        self.0.as_str()
    }
}

impl Clone for PolicyRevisionId {
    fn clone(&self) -> (r: Self)
        ensures
            r == *self,
    {
        proof {
            use_type_invariant(self);
        }
        PolicyRevisionId(self.0.clone())
    }
}

/// Identifier: not blank, at most 36 bytes.
#[derive(Debug, PartialEq, Eq, Hash)]
pub struct NotificationCandidateId(String);

impl View for NotificationCandidateId {
    type V = Seq<char>;

    closed spec fn view(&self) -> Seq<char> {
        self.0@
    }
}

impl NotificationCandidateId {
    #[verifier::type_invariant]
    closed spec fn bounded(self) -> bool {
        policy_id_ok(self.0@)
    }

    pub fn new(value: &str) -> (r: Result<Self, NotificationPolicyError>)
        ensures
            r is Ok <==> policy_id_ok(value@),
            r matches Ok(id) ==> id@ == value@,
            r matches Err(e) ==> e is InvalidIdentity,
    {
        if !policy_id_fits(value) {
            return Err(NotificationPolicyError::InvalidIdentity(
                "notification candidate id must contain 1..=36 bytes".to_owned(),
            ));
        }
        Ok(NotificationCandidateId(value.to_owned()))
    }

    /// A fresh random identifier.
    pub fn generate() -> (r: Self)
        ensures
            policy_id_ok(r@),
    {
        let text = random_uuid_text();
        proof {
            lemma_uuid_text_shape(text@);
        }
        NotificationCandidateId(text)
    }

    pub fn as_str(&self) -> (r: &str)
        ensures
            r@ == self@,
            policy_id_ok(r@),
    {
        proof {
            use_type_invariant(self);
        }
        self.0.as_str()
    }
}

impl Clone for NotificationCandidateId {
    fn clone(&self) -> (r: Self)
        ensures
            r == *self,
    {
        proof {
            use_type_invariant(self);
        }
        NotificationCandidateId(self.0.clone())
    }
}

/// Identifier: not blank, at most 36 bytes.
#[derive(Debug, PartialEq, Eq, Hash)]
pub struct EvaluationRequestId(String);

impl View for EvaluationRequestId {
    type V = Seq<char>;

    closed spec fn view(&self) -> Seq<char> {
        self.0@
    }
}

impl EvaluationRequestId {
    #[verifier::type_invariant]
    closed spec fn bounded(self) -> bool {
        policy_id_ok(self.0@)
    }

    pub fn new(value: &str) -> (r: Result<Self, NotificationPolicyError>)
        ensures
            r is Ok <==> policy_id_ok(value@),
            r matches Ok(id) ==> id@ == value@,
            r matches Err(e) ==> e is InvalidIdentity,
    {
        if !policy_id_fits(value) {
            return Err(NotificationPolicyError::InvalidIdentity(
                "evaluation request id must contain 1..=36 bytes".to_owned(),
            ));
        }
        Ok(EvaluationRequestId(value.to_owned()))
    }

    /// A fresh random identifier.
    pub fn generate() -> (r: Self)
        ensures
            policy_id_ok(r@),
    {
        let text = random_uuid_text();
        proof {
            lemma_uuid_text_shape(text@);
        }
        EvaluationRequestId(text)
    }

    pub fn as_str(&self) -> (r: &str)
        ensures
            r@ == self@,
            policy_id_ok(r@),
    {
        proof {
            use_type_invariant(self);
        }
        self.0.as_str()
    }
}

impl Clone for EvaluationRequestId {
    fn clone(&self) -> (r: Self)
        ensures
            r == *self,
    {
        proof {
            use_type_invariant(self);
        }
        EvaluationRequestId(self.0.clone())
    }
}

/// Identifier: not blank, at most 36 bytes.
#[derive(Debug, PartialEq, Eq, Hash)]
pub struct NotificationDecisionId(String);

impl View for NotificationDecisionId {
    type V = Seq<char>;

    closed spec fn view(&self) -> Seq<char> {
        self.0@
    }
}

impl NotificationDecisionId {
    #[verifier::type_invariant]
    closed spec fn bounded(self) -> bool {
        policy_id_ok(self.0@)
    }

    pub fn new(value: &str) -> (r: Result<Self, NotificationPolicyError>)
        ensures
            r is Ok <==> policy_id_ok(value@),
            r matches Ok(id) ==> id@ == value@,
            r matches Err(e) ==> e is InvalidIdentity,
    {
        if !policy_id_fits(value) {
            return Err(NotificationPolicyError::InvalidIdentity(
                "notification decision id must contain 1..=36 bytes".to_owned(),
            ));
        }
        Ok(NotificationDecisionId(value.to_owned()))
    }

    /// A fresh random identifier.
    pub fn generate() -> (r: Self)
        ensures
            policy_id_ok(r@),
    {
        let text = random_uuid_text();
        proof {
            lemma_uuid_text_shape(text@);
        }
        NotificationDecisionId(text)
    }

    pub fn as_str(&self) -> (r: &str)
        ensures
            r@ == self@,
            policy_id_ok(r@),
    {
        proof {
            use_type_invariant(self);
        }
        self.0.as_str()
    }
}

impl Clone for NotificationDecisionId {
    fn clone(&self) -> (r: Self)
        ensures
            r == *self,
    {
        proof {
            use_type_invariant(self);
        }
        NotificationDecisionId(self.0.clone())
    }
}

/// Match data in three states; an unknown value never equals an absent one.
#[derive(Debug, PartialEq, Eq)]
pub enum MatchField<T> {
    Known(T),
    Absent,
    Unknown,
}

impl<T: PartialEq> MatchField<T> {
    /// Both known and equal, or both absent.
    pub open spec fn matches_spec(&self, actual: &Self) -> bool {
        match (self, actual) {
            (MatchField::Known(expected), MatchField::Known(value)) => expected.eq_spec(value),
            (MatchField::Absent, MatchField::Absent) => true,
            _ => false,
        }
    }

    pub fn matches(&self, actual: &Self) -> (r: bool)
        ensures
            T::obeys_eq_spec() ==> r == self.matches_spec(actual),
            r ==> (self is Known && actual is Known) || (self is Absent && actual is Absent),
            (self is Absent && actual is Absent) ==> r,
    {
        match (self, actual) {
            (MatchField::Known(expected), MatchField::Known(value)) => expected == value,
            (MatchField::Absent, MatchField::Absent) => true,
            _ => false,
        }
    }

    pub fn is_unknown(&self) -> (r: bool)
        ensures
            r == self is Unknown,
    {
        match self {
            MatchField::Unknown => true,
            _ => false,
        }
    }
}

#[derive(Debug, Clone, Copy, PartialEq, Eq, Structural)]
pub enum NotificationCategory {
    Agenda,
    FollowUp,
}

#[derive(Debug, Clone, Copy, PartialEq, Eq, Structural)]
pub enum StructuredImportance {
    Low,
    Normal,
    High,
}

#[derive(Debug, Clone, Copy, PartialEq, Eq, Structural)]
pub enum EventKind {
    AgendaDue,
    FollowUpDue,
    /// An expected response did not arrive in time.
    ResponseOverdue,
}

/// Structured metadata that a policy may match on; never message text.
#[derive(Debug, PartialEq, Eq)]
pub struct NotificationMatchKeyV1 {
    pub account: SourceAccountRef,
    pub conversation: MatchField<ConversationRef>,
    pub actor_id: MatchField<String>,
    pub category: MatchField<NotificationCategory>,
    pub mentioned_owner: MatchField<bool>,
    pub structured_importance: MatchField<StructuredImportance>,
    pub event_kind: MatchField<EventKind>,
}

/// A known actor identifier is not blank.
pub open spec fn match_key_ok(key: NotificationMatchKeyV1) -> bool {
    !(key.actor_id matches MatchField::Known(a) && is_blank(a@))
}

/// No match field is unknown.
pub open spec fn match_key_fully_known(key: NotificationMatchKeyV1) -> bool {
    &&& !(key.conversation is Unknown)
    &&& !(key.actor_id is Unknown)
    &&& !(key.category is Unknown)
    &&& !(key.mentioned_owner is Unknown)
    &&& !(key.structured_importance is Unknown)
    &&& !(key.event_kind is Unknown)
}

impl NotificationMatchKeyV1 {
    pub fn new(
        account: SourceAccountRef,
        conversation: MatchField<ConversationRef>,
        actor_id: MatchField<String>,
        category: MatchField<NotificationCategory>,
        mentioned_owner: MatchField<bool>,
        structured_importance: MatchField<StructuredImportance>,
        event_kind: MatchField<EventKind>,
    ) -> (r: Result<Self, NotificationPolicyError>)
        ensures
            r is Ok <==> !(actor_id matches MatchField::Known(a) && is_blank(a@)),
            r matches Err(e) ==> e is InvalidMatchKey,
            r matches Ok(key) ==> {
                &&& key.account == account
                &&& key.conversation == conversation
                &&& key.actor_id == actor_id
                &&& key.category == category
                &&& key.mentioned_owner == mentioned_owner
                &&& key.structured_importance == structured_importance
                &&& key.event_kind == event_kind
            },
    {
        let key = NotificationMatchKeyV1 {
            account,
            conversation,
            actor_id,
            category,
            mentioned_owner,
            structured_importance,
            event_kind,
        };
        match key.validate() {
            Ok(()) => Ok(key),
            Err(e) => Err(e),
        }
    }

    pub fn validate(&self) -> (r: Result<(), NotificationPolicyError>)
        ensures
            r is Ok <==> match_key_ok(*self),
            r matches Err(e) ==> e is InvalidMatchKey,
    {
        if let MatchField::Known(value) = &self.actor_id {
            if text_is_blank(value.as_str()) {
                return Err(
                    NotificationPolicyError::InvalidMatchKey(
                        "actor id must not be empty when known".to_owned(),
                    ),
                );
            }
        }
        Ok(())
    }

    /// A long-term rule may only be built from fully known metadata.
    pub fn eligibility_for_long_term_rule(&self) -> (r: Result<(), NotificationPolicyError>)
        ensures
            r is Ok <==> match_key_fully_known(*self),
            r matches Err(e) ==> e == NotificationPolicyError::UnknownMatchMetadata,
    {
        if self.conversation.is_unknown() || self.actor_id.is_unknown() || self.category.is_unknown()
            || self.mentioned_owner.is_unknown() || self.structured_importance.is_unknown()
            || self.event_kind.is_unknown() {
            return Err(NotificationPolicyError::UnknownMatchMetadata);
        }
        Ok(())
    }
}

/// The source of a notification candidate.
#[derive(Debug, PartialEq, Eq)]
pub struct NotificationCandidateRef {
    pub source_kind: String,
    pub source_id: String,
    pub source_version: u64,
    pub account: SourceAccountRef,
}

impl NotificationCandidateRef {
    pub fn new(source_kind: &str, source_id: &str, source_version: u64, account: SourceAccountRef) -> (r:
        Result<Self, NotificationPolicyError>)
        ensures
            r is Ok <==> !is_blank(source_kind@) && !is_blank(source_id@),
            r matches Err(e) ==> e == NotificationPolicyError::InvalidCandidateRef,
            r matches Ok(c) ==> c.source_kind@ == source_kind@ && c.source_id@ == source_id@
                && c.source_version == source_version && c.account == account,
    {
        if text_is_blank(source_kind) || text_is_blank(source_id) {
            return Err(NotificationPolicyError::InvalidCandidateRef);
        }
        Ok(
            NotificationCandidateRef {
                source_kind: source_kind.to_owned(),
                source_id: source_id.to_owned(),
                source_version,
                account,
            },
        )
    }
}

#[derive(Debug, Clone, Copy, PartialEq, Eq, Structural)]
pub enum NotificationPolicyKind {
    AccountDefault,
    Conversation,
    Contact,
    Category,
    QuietHours,
    SimilarNotification,
    AutomaticReplyDenied,
}

#[derive(Debug, Clone, Copy, PartialEq, Eq, Structural)]
pub enum RevisionKind {
    Rule,
    Tombstone,
}

#[derive(Debug, Clone, Copy, PartialEq, Eq, Structural)]
pub enum NotificationOutcome {
    Remind,
    Delay,
    Suppress,
    CandidateExpired,
    EvaluationFailedTerminal,
    DeliveryWindowExpired,
    ScheduleTimeAmbiguous,
}

/// A structured notification rule.
#[derive(Debug, PartialEq, Eq)]
pub struct NotificationPolicyRule {
    pub match_key: NotificationMatchKeyV1,
    pub outcome: NotificationOutcome,
    pub bypass_quiet: bool,
    pub conversation: Option<ConversationNotificationRule>,
    pub quiet_hours: Option<QuietHoursRule>,
}

/// A policy family and its current revision.
#[derive(Debug, PartialEq, Eq)]
pub struct NotificationPolicyFamily {
    pub policy_family_id: PolicyFamilyId,
    pub account: SourceAccountRef,
    pub canonical_scope_key: String,
    pub policy_kind: NotificationPolicyKind,
    pub current_revision_id: PolicyRevisionId,
    pub generation: u64,
}

/// A revision: a rule, or a tombstone that disables the family.
#[derive(Debug, PartialEq, Eq)]
pub struct NotificationPolicyRevision {
    pub policy_revision_id: PolicyRevisionId,
    pub policy_family_id: PolicyFamilyId,
    pub revision_number: u64,
    pub supersedes_revision_id: Option<PolicyRevisionId>,
    pub revision_kind: RevisionKind,
    pub rule: Option<NotificationPolicyRule>,
}

impl NotificationPolicyRevision {
    /// A rule revision carries a rule; a tombstone carries none.
    pub fn validate(&self) -> (r: Result<(), NotificationPolicyError>)
        ensures
            r is Ok <==> (self.revision_kind == RevisionKind::Rule) == (self.rule is Some),
            r matches Err(e) ==> e == NotificationPolicyError::InvalidRevisionShape,
    {
        match (self.revision_kind, &self.rule) {
            (RevisionKind::Rule, Some(_)) | (RevisionKind::Tombstone, None) => Ok(()),
            _ => Err(NotificationPolicyError::InvalidRevisionShape),
        }
    }
}

/// A fully silent conversation is only broken through when both the
/// conversation and the matching rule allow it.
#[derive(Debug, Clone, Copy, PartialEq, Eq, Structural)]
pub enum ConversationMode {
    Normal,
    FullySilent,
}

#[derive(Debug, Clone, Copy, PartialEq, Eq, Structural)]
pub struct ConversationNotificationRule {
    pub mode: ConversationMode,
    pub allow_bypass: bool,
}

#[derive(Debug, Clone, Copy, PartialEq, Eq, Structural)]
pub enum DecisionReason {
    CandidateExpired,
    ConversationFullySilent,
    ConversationPolicy,
    ContactPolicy,
    CategoryPolicy,
    AccountDefaultPolicy,
    QuietHours,
    ScheduleTimeAmbiguous,
    InvalidQuietHours,
}

/// The evaluator's decision.
#[derive(Debug, Clone, Copy, PartialEq, Eq, Structural)]
pub struct EvaluationPlan {
    pub outcome: NotificationOutcome,
    pub reason: DecisionReason,
    /// Only for a delay: when the candidate may be evaluated again.
    pub next_allowed_at_unix_secs: Option<i64>,
}

/// A decision with no next evaluation time.
pub open spec fn plan_of(outcome: NotificationOutcome, reason: DecisionReason) -> EvaluationPlan {
    EvaluationPlan { outcome, reason, next_allowed_at_unix_secs: None }
}

impl EvaluationPlan {
    fn new(outcome: NotificationOutcome, reason: DecisionReason) -> (r: Self)
        ensures
            r == plan_of(outcome, reason),
    {
        EvaluationPlan { outcome, reason, next_allowed_at_unix_secs: None }
    }

    pub fn with_next_allowed_at_unix_secs(self, value: i64) -> (r: Self)
        ensures
            r == (EvaluationPlan { next_allowed_at_unix_secs: Some(value), ..self }),
    {
        let mut plan = self;
        plan.next_allowed_at_unix_secs = Some(value);
        plan
    }
}

/// A daily quiet period in a zone's local time; the effective dates are
/// inclusive.
#[derive(Debug, PartialEq, Eq)]
pub struct QuietHoursRule {
    pub timezone_name: String,
    pub start_local_time: String,
    pub end_local_time: String,
    pub effective_from_local_date: Option<String>,
    pub effective_until_local_date: Option<String>,
    /// Lets the period be broken through only together with a rule that
    /// bypasses quiet hours.
    pub allow_bypass: bool,
}

/// Why a quiet period cannot be applied.
#[derive(Debug, Clone, Copy, PartialEq, Eq, Structural)]
pub enum QuietHoursFault {
    /// The rule does not parse, or the clock is out of range.
    Invalid,
    /// A boundary of the period does not exist once on the local date.
    Ambiguous,
}

/// An optional `YYYY-MM-DD` date: absent, parsed, or malformed.
pub open spec fn parsed_optional_date(text: Option<String>) -> Option<Option<LocalDate>> {
    match text {
        None => Some(None),
        Some(t) => match ymd_parse(t@) {
            Some(d) => Some(Some(d)),
            None => None,
        },
    }
}

/// The effective dates of the rule; `None` when one does not parse or the
/// start comes after the end.
pub open spec fn effective_range_of(rule: QuietHoursRule) -> Option<(Option<LocalDate>, Option<LocalDate>)> {
    match (
        parsed_optional_date(rule.effective_from_local_date),
        parsed_optional_date(rule.effective_until_local_date),
    ) {
        (Some(from), Some(until)) => if from matches Some(a) && until matches Some(b) && date_lt(
            b,
            a,
        ) {
            None
        } else {
            Some((from, until))
        },
        _ => None,
    }
}

/// The start and end times of the rule; `None` when one does not parse or
/// they are equal.
pub open spec fn boundaries_of(rule: QuietHoursRule) -> Option<(LocalTime, LocalTime)> {
    match (hh_mm_parse(rule.start_local_time@), hh_mm_parse(rule.end_local_time@)) {
        (Some(s), Some(e)) => if s == e {
            None
        } else {
            Some((s, e))
        },
        _ => None,
    }
}

/// The date lies within the effective dates.
pub open spec fn in_effect(range: (Option<LocalDate>, Option<LocalDate>), date: LocalDate) -> bool {
    &&& (range.0 matches Some(from) ==> !date_lt(date, from))
    &&& (range.1 matches Some(until) ==> !date_lt(until, date))
}

/// The time lies in the period from start (inclusive) to end (exclusive),
/// which wraps past midnight when the end is not after the start.
pub open spec fn within_period(bounds: (LocalTime, LocalTime), t: LocalTime) -> bool {
    if time_lt(bounds.0, bounds.1) {
        !time_lt(t, bounds.0) && time_lt(t, bounds.1)
    } else {
        !time_lt(t, bounds.0) || time_lt(t, bounds.1)
    }
}

/// Whether the quiet period holds at a Unix time: the local date and time in
/// the rule's zone fall in the effective dates and in the daily period, and
/// both boundaries exist once on that date.
pub open spec fn quiet_hours_outcome(rule: QuietHoursRule, now_unix_secs: i64) -> Result<
    bool,
    QuietHoursFault,
> {
    let zone = rule.timezone_name@;
    if !zone_known(zone) || !utc_representable(now_unix_secs) {
        Err(QuietHoursFault::Invalid)
    } else {
        match local_clock(zone, now_unix_secs) {
            None => Err(QuietHoursFault::Invalid),
            Some((date, time)) => match effective_range_of(rule) {
                None => Err(QuietHoursFault::Invalid),
                Some(range) => if !in_effect(range, date) {
                    Ok(false)
                } else {
                    match boundaries_of(rule) {
                        None => Err(QuietHoursFault::Invalid),
                        Some(bounds) => if !within_period(bounds, time) {
                            Ok(false)
                        } else if !single_local(zone, date, bounds.0) || !single_local(
                            zone,
                            date,
                            bounds.1,
                        ) {
                            Err(QuietHoursFault::Ambiguous)
                        } else {
                            Ok(true)
                        },
                    }
                },
            },
        }
    }
}

fn invalid_quiet_hours(message: &str) -> (r: NotificationPolicyError)
    ensures
        r is InvalidQuietHours,
{
    NotificationPolicyError::InvalidQuietHours(message.to_owned())
}

fn parse_optional_date(text: &Option<String>) -> (r: Result<Option<LocalDate>, NotificationPolicyError>)
    ensures
        r matches Ok(d) ==> parsed_optional_date(*text) == Some(d),
        r is Err <==> parsed_optional_date(*text) is None,
        r matches Err(e) ==> e is InvalidQuietHours,
        r matches Ok(Some(d)) ==> date_ok(d),
{
    match text {
        None => Ok(None),
        Some(t) => match parse_ymd(t.as_str()) {
            Some(d) => Ok(Some(d)),
            None => Err(invalid_quiet_hours("effective date must use YYYY-MM-DD")),
        },
    }
}

impl QuietHoursRule {
    fn effective_range(&self) -> (r: Result<(Option<LocalDate>, Option<LocalDate>), NotificationPolicyError>)
        ensures
            r matches Ok(x) ==> effective_range_of(*self) == Some(x),
            r is Err <==> effective_range_of(*self) is None,
            r matches Err(e) ==> e is InvalidQuietHours,
            r matches Ok((f, u)) ==> (f matches Some(d) ==> date_ok(d)) && (u matches Some(d) ==> date_ok(d)),
    {
        let from = parse_optional_date(&self.effective_from_local_date)?;
        let until = parse_optional_date(&self.effective_until_local_date)?;
        if let (Some(start), Some(end)) = (from, until) {
            if date_less(end, start) {
                return Err(invalid_quiet_hours("effective start date must not exceed end date"));
            }
        }
        Ok((from, until))
    }

    fn boundaries(&self) -> (r: Result<(LocalTime, LocalTime), NotificationPolicyError>)
        ensures
            r matches Ok(x) ==> boundaries_of(*self) == Some(x),
            r is Err <==> boundaries_of(*self) is None,
            r matches Err(e) ==> e is InvalidQuietHours,
            r matches Ok((s, e)) ==> crate::local_time::time_ok(s) && crate::local_time::time_ok(e),
    {
        let start = match parse_hh_mm(self.start_local_time.as_str()) {
            Some(t) => t,
            None => {
                return Err(invalid_quiet_hours("start time must use HH:MM"));
            },
        };
        let end = match parse_hh_mm(self.end_local_time.as_str()) {
            Some(t) => t,
            None => {
                return Err(invalid_quiet_hours("end time must use HH:MM"));
            },
        };
        if start == end {
            return Err(invalid_quiet_hours("start and end local times must differ"));
        }
        Ok((start, end))
    }

    fn applies_on(&self, date: LocalDate) -> (r: Result<bool, NotificationPolicyError>)
        ensures
            r matches Ok(b) ==> (effective_range_of(*self) matches Some(range) && b == in_effect(range, date)),
            r is Err <==> effective_range_of(*self) is None,
            r matches Err(e) ==> e is InvalidQuietHours,
    {
        let (from, until) = self.effective_range()?;
        let after_start = match from {
            Some(f) => !date_less(date, f),
            None => true,
        };
        let before_end = match until {
            Some(u) => !date_less(u, date),
            None => true,
        };
        Ok(after_start && before_end)
    }

    fn contains_local_time(&self, time: LocalTime) -> (r: Result<bool, NotificationPolicyError>)
        ensures
            r matches Ok(b) ==> (boundaries_of(*self) matches Some(bounds) && b == within_period(bounds, time)),
            r is Err <==> boundaries_of(*self) is None,
            r matches Err(e) ==> e is InvalidQuietHours,
    {
        let (start, end) = self.boundaries()?;
        Ok(
            if time_less(start, end) {
                !time_less(time, start) && time_less(time, end)
            } else {
                !time_less(time, start) || time_less(time, end)
            },
        )
    }
}

/// The error that a quiet-hours fault is reported as.
pub open spec fn fault_error_matches(fault: QuietHoursFault, e: NotificationPolicyError) -> bool {
    match fault {
        QuietHoursFault::Invalid => e is InvalidQuietHours,
        QuietHoursFault::Ambiguous => e == NotificationPolicyError::ScheduleTimeAmbiguous,
    }
}

fn quiet_hours_result(rule: &QuietHoursRule, now_unix_secs: i64) -> (r: Result<bool, NotificationPolicyError>)
    ensures
        r is Ok <==> quiet_hours_outcome(*rule, now_unix_secs) is Ok,
        r matches Ok(b) ==> quiet_hours_outcome(*rule, now_unix_secs) == Ok::<bool, QuietHoursFault>(b),
        r matches Err(e) ==> (quiet_hours_outcome(*rule, now_unix_secs) matches Err(f) && fault_error_matches(f, e)),
{
    let zone = rule.timezone_name.as_str();
    if !zone_name_known(zone) {
        return Err(invalid_quiet_hours("timezone must be a valid IANA name"));
    }
    if !unix_secs_representable(now_unix_secs) {
        return Err(invalid_quiet_hours("clock timestamp is invalid"));
    }
    let (date, time) = match local_reading(zone, now_unix_secs) {
        Some(reading) => reading,
        None => {
            return Err(invalid_quiet_hours("local time out of range"));
        },
    };
    if !rule.applies_on(date)? || !rule.contains_local_time(time)? {
        return Ok(false);
    }
    let (start, end) = rule.boundaries()?;
    if !local_time_is_single(zone, date, start) || !local_time_is_single(zone, date, end) {
        return Err(NotificationPolicyError::ScheduleTimeAmbiguous);
    }
    Ok(true)
}

/// What the evaluator reads of a due candidate.
#[derive(Debug)]
pub struct EvaluationInput {
    pub candidate_is_current: bool,
    pub matching_rule: Option<NotificationPolicyRule>,
    pub conversation_rule: Option<ConversationNotificationRule>,
    pub contact_rule: Option<NotificationPolicyRule>,
    pub category_rule: Option<NotificationPolicyRule>,
    pub account_default_rule: Option<NotificationPolicyRule>,
    pub quiet_hours: Option<QuietHoursRule>,
    pub now_unix_secs: i64,
}

/// The rule that decides, by precedence: the matching conversation rule,
/// then the contact, the category and the account default.
pub open spec fn selected_rule(input: EvaluationInput) -> Option<(NotificationPolicyRule, DecisionReason)> {
    match input.matching_rule {
        Some(r) => Some((r, DecisionReason::ConversationPolicy)),
        None => match input.contact_rule {
            Some(r) => Some((r, DecisionReason::ContactPolicy)),
            None => match input.category_rule {
                Some(r) => Some((r, DecisionReason::CategoryPolicy)),
                None => match input.account_default_rule {
                    Some(r) => Some((r, DecisionReason::AccountDefaultPolicy)),
                    None => None,
                },
            },
        },
    }
}

/// How long a candidate that a rule delays waits before it is evaluated
/// again, in seconds.
pub const DELAY_REEVALUATION_SECS: i64 = 3600;

/// When a candidate delayed at `now_unix_secs` may be evaluated again: one
/// delay period later, or the last representable second when that lies
/// beyond it.
pub open spec fn delayed_until(now_unix_secs: i64) -> i64 {
    if now_unix_secs <= i64::MAX - DELAY_REEVALUATION_SECS {
        (now_unix_secs + DELAY_REEVALUATION_SECS) as i64
    } else {
        i64::MAX
    }
}

/// The decision for an outcome that a rule gives at `now_unix_secs`: a
/// delay carries the time of the next evaluation, fixed from the clock.
pub open spec fn rule_decision(
    outcome: NotificationOutcome,
    reason: DecisionReason,
    now_unix_secs: i64,
) -> EvaluationPlan {
    if outcome == NotificationOutcome::Delay {
        EvaluationPlan { outcome, reason, next_allowed_at_unix_secs: Some(delayed_until(now_unix_secs)) }
    } else {
        plan_of(outcome, reason)
    }
}

/// The decision that the selected rule gives at `now_unix_secs`; remind when
/// there is none.
pub open spec fn rule_plan(
    selected: Option<(NotificationPolicyRule, DecisionReason)>,
    now_unix_secs: i64,
) -> EvaluationPlan {
    match selected {
        Some((rule, reason)) => rule_decision(rule.outcome, reason, now_unix_secs),
        None => plan_of(NotificationOutcome::Remind, DecisionReason::AccountDefaultPolicy),
    }
}

fn delayed_until_at(now_unix_secs: i64) -> (r: i64)
    ensures
        r == delayed_until(now_unix_secs),
{
    if now_unix_secs <= i64::MAX - DELAY_REEVALUATION_SECS {
        now_unix_secs + DELAY_REEVALUATION_SECS
    } else {
        i64::MAX
    }
}

/// A fully silent conversation that is not broken through: the matching
/// rule and the conversation must both allow a bypass.
pub open spec fn silenced_by_conversation(input: EvaluationInput) -> bool {
    input.conversation_rule matches Some(c) && c.mode == ConversationMode::FullySilent && !(
    input.matching_rule matches Some(r) && r.bypass_quiet && c.allow_bypass)
}

/// Quiet hours are bypassed only when the selected rule and the quiet-hours
/// rule both allow it.
pub open spec fn quiet_hours_bypassed(input: EvaluationInput) -> bool {
    &&& selected_rule(input) matches Some((rule, _))
    &&& rule.bypass_quiet
    &&& input.quiet_hours matches Some(q)
    &&& q.allow_bypass
}

/// The decision for a due candidate.
pub open spec fn evaluation_plan(input: EvaluationInput) -> EvaluationPlan {
    if !input.candidate_is_current {
        plan_of(NotificationOutcome::CandidateExpired, DecisionReason::CandidateExpired)
    } else if silenced_by_conversation(input) {
        plan_of(NotificationOutcome::Suppress, DecisionReason::ConversationFullySilent)
    } else {
        match input.quiet_hours {
            None => rule_plan(selected_rule(input), input.now_unix_secs),
            Some(q) => match quiet_hours_outcome(q, input.now_unix_secs) {
                Ok(true) => if quiet_hours_bypassed(input) {
                    rule_plan(selected_rule(input), input.now_unix_secs)
                } else {
                    plan_of(NotificationOutcome::Suppress, DecisionReason::QuietHours)
                },
                Ok(false) => rule_plan(selected_rule(input), input.now_unix_secs),
                Err(QuietHoursFault::Ambiguous) => plan_of(
                    NotificationOutcome::ScheduleTimeAmbiguous,
                    DecisionReason::ScheduleTimeAmbiguous,
                ),
                Err(QuietHoursFault::Invalid) => plan_of(
                    NotificationOutcome::EvaluationFailedTerminal,
                    DecisionReason::InvalidQuietHours,
                ),
            },
        }
    }
}

/// The pure notification evaluator.
#[derive(Debug, Default)]
pub struct NotificationPolicyEvaluator;

impl NotificationPolicyEvaluator {
    pub fn evaluate(&self, input: &EvaluationInput) -> (r: EvaluationPlan)
        ensures
            r == evaluation_plan(*input),
    {
        if !input.candidate_is_current {
            return EvaluationPlan::new(
                NotificationOutcome::CandidateExpired,
                DecisionReason::CandidateExpired,
            );
        }
        if let Some(conversation) = input.conversation_rule {
            let granted = match &input.matching_rule {
                Some(rule) => rule.bypass_quiet && conversation.allow_bypass,
                None => false,
            };
            if conversation.mode == ConversationMode::FullySilent && !granted {
                return EvaluationPlan::new(
                    NotificationOutcome::Suppress,
                    DecisionReason::ConversationFullySilent,
                );
            }
        }
        let selected: Option<(NotificationOutcome, bool, DecisionReason)> = match &input.matching_rule {
            Some(r) => Some((r.outcome, r.bypass_quiet, DecisionReason::ConversationPolicy)),
            None => match &input.contact_rule {
                Some(r) => Some((r.outcome, r.bypass_quiet, DecisionReason::ContactPolicy)),
                None => match &input.category_rule {
                    Some(r) => Some((r.outcome, r.bypass_quiet, DecisionReason::CategoryPolicy)),
                    None => match &input.account_default_rule {
                        Some(r) => Some(
                            (r.outcome, r.bypass_quiet, DecisionReason::AccountDefaultPolicy),
                        ),
                        None => None,
                    },
                },
            },
        };
        let by_rule = match selected {
            Some((outcome, _, reason)) => match outcome {
                NotificationOutcome::Delay => EvaluationPlan::new(
                    outcome,
                    reason,
                ).with_next_allowed_at_unix_secs(delayed_until_at(input.now_unix_secs)),
                _ => EvaluationPlan::new(outcome, reason),
            },
            None => EvaluationPlan::new(
                NotificationOutcome::Remind,
                DecisionReason::AccountDefaultPolicy,
            ),
        };
        match &input.quiet_hours {
            None => by_rule,
            Some(quiet) => match quiet_hours_result(quiet, input.now_unix_secs) {
                Ok(true) => {
                    let bypassed = match selected {
                        Some((_, bypass, _)) => bypass && quiet.allow_bypass,
                        None => false,
                    };
                    if bypassed {
                        by_rule
                    } else {
                        EvaluationPlan::new(NotificationOutcome::Suppress, DecisionReason::QuietHours)
                    }
                },
                Ok(false) => by_rule,
                Err(NotificationPolicyError::ScheduleTimeAmbiguous) => EvaluationPlan::new(
                    NotificationOutcome::ScheduleTimeAmbiguous,
                    DecisionReason::ScheduleTimeAmbiguous,
                ),
                Err(_) => EvaluationPlan::new(
                    NotificationOutcome::EvaluationFailedTerminal,
                    DecisionReason::InvalidQuietHours,
                ),
            },
        }
    }
}

// ---------------------------------------------------------------------------
// Checking a quiet-hours rule before it is written.

/// Number of local dates, from today on, whose boundaries are checked.
pub const QUIET_HOURS_CHECK_DAYS: u64 = 400;

/// The date `k` days after `first`, if it can be represented; `first` itself
/// for `k == 0`.
pub open spec fn checked_day(first: LocalDate, k: int) -> Option<LocalDate> {
    if k == 0 {
        Some(first)
    } else {
        date_plus_days(first, k as u64)
    }
}

/// The date `k` days after `first` exists, and if it is in effect both
/// boundaries exist once on it.
pub open spec fn schedule_day_ok(
    zone: Seq<char>,
    first: LocalDate,
    bounds: (LocalTime, LocalTime),
    range: (Option<LocalDate>, Option<LocalDate>),
    k: int,
) -> bool {
    match checked_day(first, k) {
        None => false,
        Some(d) => !in_effect(range, d) || (single_local(zone, d, bounds.0) && single_local(
            zone,
            d,
            bounds.1,
        )),
    }
}

/// The first checked day, from `k` on, that fails; 400 when none does.
pub open spec fn first_failing_day(
    zone: Seq<char>,
    first: LocalDate,
    bounds: (LocalTime, LocalTime),
    range: (Option<LocalDate>, Option<LocalDate>),
    k: int,
) -> int
    decreases 400 - k,
{
    if k < 0 || k >= 400 {
        400
    } else if !schedule_day_ok(zone, first, bounds, range, k) {
        k
    } else {
        first_failing_day(zone, first, bounds, range, k + 1)
    }
}

/// Whether the rule can be written at this time: it parses, and on each of
/// the next 400 local dates that are in effect both boundaries exist once.
pub open spec fn schedule_check(rule: QuietHoursRule, now_unix_secs: i64) -> Result<(), QuietHoursFault> {
    let zone = rule.timezone_name@;
    if !zone_known(zone) {
        Err(QuietHoursFault::Invalid)
    } else {
        match (boundaries_of(rule), effective_range_of(rule)) {
            (Some(bounds), Some(range)) => if !utc_representable(now_unix_secs) {
                Err(QuietHoursFault::Invalid)
            } else {
                match local_clock(zone, now_unix_secs) {
                    None => Err(QuietHoursFault::Invalid),
                    Some((first, _)) => {
                        let f = first_failing_day(zone, first, bounds, range, 0);
                        if f >= 400 {
                            Ok(())
                        } else if checked_day(first, f) is None {
                            Err(QuietHoursFault::Invalid)
                        } else {
                            Err(QuietHoursFault::Ambiguous)
                        }
                    },
                }
            },
            _ => Err(QuietHoursFault::Invalid),
        }
    }
}

/// Checks a quiet-hours rule before it is written: both boundaries must exist
/// exactly once on every in-effect local date of the next 400, counted from
/// the local date at `now_unix_secs`.
pub fn validate_quiet_hours(rule: &QuietHoursRule, now_unix_secs: i64) -> (r: Result<
    (),
    NotificationPolicyError,
>)
    ensures
        r is Ok <==> schedule_check(*rule, now_unix_secs) is Ok,
        r matches Err(e) ==> match schedule_check(*rule, now_unix_secs) {
            Err(QuietHoursFault::Invalid) => e is InvalidQuietHours,
            Err(QuietHoursFault::Ambiguous) => e == NotificationPolicyError::AmbiguousScheduleTime,
            Ok(()) => false,
        },
{
    let zone = rule.timezone_name.as_str();
    if !zone_name_known(zone) {
        return Err(invalid_quiet_hours("timezone must be a valid IANA name"));
    }
    let (start, end) = rule.boundaries()?;
    let (from, until) = rule.effective_range()?;
    if !unix_secs_representable(now_unix_secs) {
        return Err(invalid_quiet_hours("clock timestamp is invalid"));
    }
    let reading = local_reading(zone, now_unix_secs);
    let first_day = match reading {
        Some((date, _)) => date,
        None => {
            return Err(invalid_quiet_hours("local time out of range"));
        },
    };
    let ghost bounds = (start, end);
    let ghost range = (from, until);
    let mut offset: u64 = 0;
    while offset < QUIET_HOURS_CHECK_DAYS
        invariant
            offset <= 400,
            zone@ == rule.timezone_name@,
            zone_known(zone@),
            date_ok(first_day),
            crate::local_time::time_ok(start),
            crate::local_time::time_ok(end),
            bounds == (start, end),
            range == (from, until),
            boundaries_of(*rule) == Some(bounds),
            effective_range_of(*rule) == Some(range),
            utc_representable(now_unix_secs),
            local_clock(zone@, now_unix_secs) matches Some((d, _)) && d == first_day,
            first_failing_day(zone@, first_day, bounds, range, 0) == first_failing_day(
                zone@,
                first_day,
                bounds,
                range,
                offset as int,
            ),
        decreases 400 - offset,
    {
        let date = match add_days(first_day, offset) {
            Some(d) => d,
            None => {
                return Err(invalid_quiet_hours("date range overflow"));
            },
        };
        let before_start = match from {
            Some(f) => date_less(date, f),
            None => false,
        };
        let after_end = match until {
            Some(u) => date_less(u, date),
            None => false,
        };
        if !before_start && !after_end {
            if !local_time_is_single(zone, date, start) || !local_time_is_single(zone, date, end) {
                return Err(NotificationPolicyError::AmbiguousScheduleTime);
            }
        }
        offset = offset + 1;
    }
    Ok(())
}

} // verus!
