//! The text codes under which enumerations are stored, and the checks on
//! values read back from storage.
use vstd::prelude::*;

use crate::identity::{
    str_equals, ContentTrustLevel, ConversationKind, MessageRole, MessageSource, SourceAccountRef,
    SourceEventId, ThreadMutationProposalStatus, ThreadStatus, VerifiedActorKind,
};
use crate::json_text::push_text;
use crate::memory::MemoryFactStatus;
use crate::notification_policy::{
    DecisionReason, NotificationCategory, NotificationMatchKeyV1, NotificationOutcome,
    NotificationPolicyError, NotificationPolicyKind, NotificationPolicyRule, RevisionKind,
    MatchField,
};
use crate::text::is_blank;

verus! {

/// A stored value that no known code or constraint accepts.
#[derive(Debug, PartialEq, Eq)]
pub enum StoredValueError {
    InvalidData(String),
    Conflict,
}

fn invalid_data(message: &str) -> (r: StoredValueError)
    ensures
        r matches StoredValueError::InvalidData(m) && m@ == message@,
{
    StoredValueError::InvalidData(message.to_owned())
}

// ---------------------------------------------------------------------------
// Content trust level.

pub open spec fn trust_level_code(level: ContentTrustLevel) -> Seq<char> {
    match level {
        ContentTrustLevel::Normal => "normal"@,
        ContentTrustLevel::LocalOnly => "local_only"@,
        ContentTrustLevel::EnvelopeOnly => "envelope_only"@,
        ContentTrustLevel::NeverLongTerm => "never_long_term"@,
    }
}

/// The trust level stored under the code, if any.
pub open spec fn trust_level_of_code(code: Seq<char>) -> Option<ContentTrustLevel> {
    if code == "normal"@ {
        Some(ContentTrustLevel::Normal)
    } else if code == "local_only"@ {
        Some(ContentTrustLevel::LocalOnly)
    } else if code == "envelope_only"@ {
        Some(ContentTrustLevel::EnvelopeOnly)
    } else if code == "never_long_term"@ {
        Some(ContentTrustLevel::NeverLongTerm)
    } else {
        None
    }
}

/// Reads a stored memory mode (content trust level).
pub fn parse_content_trust_level(value: &str) -> (r: Result<ContentTrustLevel, StoredValueError>)
    ensures
        r is Ok <==> trust_level_of_code(value@) is Some,
        r matches Ok(level) ==> trust_level_of_code(value@) == Some(level),
        r matches Err(e) ==> e is InvalidData,
{
    if str_equals(value, "normal") {
        Ok(ContentTrustLevel::Normal)
    } else if str_equals(value, "local_only") {
        Ok(ContentTrustLevel::LocalOnly)
    } else if str_equals(value, "envelope_only") {
        Ok(ContentTrustLevel::EnvelopeOnly)
    } else if str_equals(value, "never_long_term") {
        Ok(ContentTrustLevel::NeverLongTerm)
    } else {
        Err(invalid_data("stored conversation memory mode is invalid"))
    }
}

// ---------------------------------------------------------------------------
// Memory fact status.

pub open spec fn fact_status_of_code(code: Seq<char>) -> Option<MemoryFactStatus> {
    if code == "proposed"@ {
        Some(MemoryFactStatus::Proposed)
    } else if code == "confirmed"@ {
        Some(MemoryFactStatus::Confirmed)
    } else if code == "superseded"@ {
        Some(MemoryFactStatus::Superseded)
    } else if code == "expired"@ {
        Some(MemoryFactStatus::Expired)
    } else if code == "deleted"@ {
        Some(MemoryFactStatus::Deleted)
    } else {
        None
    }
}

/// Reads a stored memory fact status.
pub fn parse_fact_status(value: &str) -> (r: Result<MemoryFactStatus, StoredValueError>)
    ensures
        r is Ok <==> fact_status_of_code(value@) is Some,
        r matches Ok(s) ==> fact_status_of_code(value@) == Some(s),
        r matches Err(e) ==> e is InvalidData,
{
    if str_equals(value, "proposed") {
        Ok(MemoryFactStatus::Proposed)
    } else if str_equals(value, "confirmed") {
        Ok(MemoryFactStatus::Confirmed)
    } else if str_equals(value, "superseded") {
        Ok(MemoryFactStatus::Superseded)
    } else if str_equals(value, "expired") {
        Ok(MemoryFactStatus::Expired)
    } else if str_equals(value, "deleted") {
        Ok(MemoryFactStatus::Deleted)
    } else {
        Err(invalid_data("stored memory status is invalid"))
    }
}

// ---------------------------------------------------------------------------
// Message source, conversation kind, actor kind, message role.

pub open spec fn message_source_of_code(code: Seq<char>) -> Option<MessageSource> {
    if code == "napcat"@ {
        Some(MessageSource::NapCat)
    } else if code == "qq_open_platform"@ {
        Some(MessageSource::QqOpenPlatform)
    } else {
        None
    }
}

/// Reads a stored source channel.
pub fn parse_message_source(value: &str) -> (r: Result<MessageSource, StoredValueError>)
    ensures
        r is Ok <==> message_source_of_code(value@) is Some,
        r matches Ok(s) ==> message_source_of_code(value@) == Some(s),
        r matches Err(e) ==> e is InvalidData,
{
    if str_equals(value, "napcat") {
        Ok(MessageSource::NapCat)
    } else if str_equals(value, "qq_open_platform") {
        Ok(MessageSource::QqOpenPlatform)
    } else {
        Err(invalid_data("unknown source channel"))
    }
}

/// Rebuilds an account from its stored channel and platform identifier.
pub fn source_account_from_db(source_channel: &str, platform_account_id: &str) -> (r: Result<
    SourceAccountRef,
    StoredValueError,
>)
    ensures
        r is Ok <==> message_source_of_code(source_channel@) is Some && !is_blank(
            platform_account_id@,
        ),
        r matches Ok(a) ==> Some(a.channel) == message_source_of_code(source_channel@)
            && a.account_id@ == platform_account_id@,
{
    let channel = parse_message_source(source_channel)?;
    match SourceAccountRef::new(channel, platform_account_id) {
        Ok(account) => Ok(account),
        Err(_) => Err(invalid_data("stored account id is blank")),
    }
}

pub open spec fn conversation_kind_of_code(code: Seq<char>) -> Option<ConversationKind> {
    if code == "private"@ {
        Some(ConversationKind::Private)
    } else if code == "group"@ {
        Some(ConversationKind::Group)
    } else if code == "owner_control"@ {
        Some(ConversationKind::OwnerControl)
    } else {
        None
    }
}

/// Reads a stored conversation kind.
pub fn parse_conversation_kind(value: &str) -> (r: Result<ConversationKind, StoredValueError>)
    ensures
        r is Ok <==> conversation_kind_of_code(value@) is Some,
        r matches Ok(k) ==> conversation_kind_of_code(value@) == Some(k),
        r matches Err(e) ==> e is InvalidData,
{
    if str_equals(value, "private") {
        Ok(ConversationKind::Private)
    } else if str_equals(value, "group") {
        Ok(ConversationKind::Group)
    } else if str_equals(value, "owner_control") {
        Ok(ConversationKind::OwnerControl)
    } else {
        Err(invalid_data("unknown conversation_kind"))
    }
}

pub open spec fn actor_kind_code(kind: VerifiedActorKind) -> Seq<char> {
    match kind {
        VerifiedActorKind::Owner => "owner"@,
        VerifiedActorKind::OfficialBot => "official_bot"@,
        VerifiedActorKind::External => "external"@,
    }
}

pub open spec fn actor_kind_of_code(code: Seq<char>) -> Option<VerifiedActorKind> {
    if code == "owner"@ {
        Some(VerifiedActorKind::Owner)
    } else if code == "official_bot"@ {
        Some(VerifiedActorKind::OfficialBot)
    } else if code == "external"@ {
        Some(VerifiedActorKind::External)
    } else {
        None
    }
}

/// Reads a stored actor kind.
pub fn parse_actor_kind(value: &str) -> (r: Result<VerifiedActorKind, StoredValueError>)
    ensures
        r is Ok <==> actor_kind_of_code(value@) is Some,
        r matches Ok(k) ==> actor_kind_of_code(value@) == Some(k),
        r matches Err(e) ==> e is InvalidData,
{
    if str_equals(value, "owner") {
        Ok(VerifiedActorKind::Owner)
    } else if str_equals(value, "official_bot") {
        Ok(VerifiedActorKind::OfficialBot)
    } else if str_equals(value, "external") {
        Ok(VerifiedActorKind::External)
    } else {
        Err(invalid_data("unknown actor_kind"))
    }
}

pub open spec fn message_role_code(role: MessageRole) -> Seq<char> {
    match role {
        MessageRole::OwnerCommand => "owner_command"@,
        MessageRole::OwnerObservation => "owner_observation"@,
        MessageRole::ExternalObservation => "external_observation"@,
        MessageRole::AssistantOutput => "assistant_output"@,
    }
}

pub open spec fn message_role_of_code(code: Seq<char>) -> Option<MessageRole> {
    if code == "owner_command"@ {
        Some(MessageRole::OwnerCommand)
    } else if code == "owner_observation"@ {
        Some(MessageRole::OwnerObservation)
    } else if code == "external_observation"@ {
        Some(MessageRole::ExternalObservation)
    } else if code == "assistant_output"@ {
        Some(MessageRole::AssistantOutput)
    } else {
        None
    }
}

/// Reads a stored message role.
pub fn parse_message_role(value: &str) -> (r: Result<MessageRole, StoredValueError>)
    ensures
        r is Ok <==> message_role_of_code(value@) is Some,
        r matches Ok(x) ==> message_role_of_code(value@) == Some(x),
        r matches Err(e) ==> e is InvalidData,
{
    if str_equals(value, "owner_command") {
        Ok(MessageRole::OwnerCommand)
    } else if str_equals(value, "owner_observation") {
        Ok(MessageRole::OwnerObservation)
    } else if str_equals(value, "external_observation") {
        Ok(MessageRole::ExternalObservation)
    } else if str_equals(value, "assistant_output") {
        Ok(MessageRole::AssistantOutput)
    } else {
        Err(invalid_data("unknown message_role"))
    }
}

// ---------------------------------------------------------------------------
// Thread status and thread mutation status.

pub open spec fn thread_status_code(status: ThreadStatus) -> Seq<char> {
    match status {
        ThreadStatus::Open => "open"@,
        ThreadStatus::Waiting => "waiting"@,
        ThreadStatus::Resolved => "resolved"@,
        ThreadStatus::Closed => "closed"@,
        ThreadStatus::Reopened => "reopened"@,
    }
}

pub open spec fn thread_status_of_code(code: Seq<char>) -> Option<ThreadStatus> {
    if code == "open"@ {
        Some(ThreadStatus::Open)
    } else if code == "waiting"@ {
        Some(ThreadStatus::Waiting)
    } else if code == "resolved"@ {
        Some(ThreadStatus::Resolved)
    } else if code == "closed"@ {
        Some(ThreadStatus::Closed)
    } else if code == "reopened"@ {
        Some(ThreadStatus::Reopened)
    } else {
        None
    }
}

/// Reads a stored thread status.
pub fn parse_thread_status(value: &str) -> (r: Result<ThreadStatus, StoredValueError>)
    ensures
        r is Ok <==> thread_status_of_code(value@) is Some,
        r matches Ok(x) ==> thread_status_of_code(value@) == Some(x),
        r matches Err(e) ==> e is InvalidData,
{
    if str_equals(value, "open") {
        Ok(ThreadStatus::Open)
    } else if str_equals(value, "waiting") {
        Ok(ThreadStatus::Waiting)
    } else if str_equals(value, "resolved") {
        Ok(ThreadStatus::Resolved)
    } else if str_equals(value, "closed") {
        Ok(ThreadStatus::Closed)
    } else if str_equals(value, "reopened") {
        Ok(ThreadStatus::Reopened)
    } else {
        Err(invalid_data("unknown thread_status"))
    }
}

pub open spec fn mutation_status_code(status: ThreadMutationProposalStatus) -> Seq<char> {
    match status {
        ThreadMutationProposalStatus::AwaitingApproval => "awaiting_approval"@,
        ThreadMutationProposalStatus::Approved => "approved"@,
        ThreadMutationProposalStatus::Rejected => "rejected"@,
        ThreadMutationProposalStatus::Applying => "applying"@,
        ThreadMutationProposalStatus::Applied => "applied"@,
        ThreadMutationProposalStatus::Failed => "failed"@,
        ThreadMutationProposalStatus::UnknownCommit => "unknown_commit"@,
    }
}

pub open spec fn mutation_status_of_code(code: Seq<char>) -> Option<ThreadMutationProposalStatus> {
    if code == "awaiting_approval"@ {
        Some(ThreadMutationProposalStatus::AwaitingApproval)
    } else if code == "approved"@ {
        Some(ThreadMutationProposalStatus::Approved)
    } else if code == "rejected"@ {
        Some(ThreadMutationProposalStatus::Rejected)
    } else if code == "applying"@ {
        Some(ThreadMutationProposalStatus::Applying)
    } else if code == "applied"@ {
        Some(ThreadMutationProposalStatus::Applied)
    } else if code == "failed"@ {
        Some(ThreadMutationProposalStatus::Failed)
    } else if code == "unknown_commit"@ {
        Some(ThreadMutationProposalStatus::UnknownCommit)
    } else {
        None
    }
}

/// Reads a stored thread mutation proposal status.
pub fn parse_mutation_status(value: &str) -> (r: Result<ThreadMutationProposalStatus, StoredValueError>)
    ensures
        r is Ok <==> mutation_status_of_code(value@) is Some,
        r matches Ok(x) ==> mutation_status_of_code(value@) == Some(x),
        r matches Err(e) ==> e is InvalidData,
{
    if str_equals(value, "awaiting_approval") {
        Ok(ThreadMutationProposalStatus::AwaitingApproval)
    } else if str_equals(value, "approved") {
        Ok(ThreadMutationProposalStatus::Approved)
    } else if str_equals(value, "rejected") {
        Ok(ThreadMutationProposalStatus::Rejected)
    } else if str_equals(value, "applying") {
        Ok(ThreadMutationProposalStatus::Applying)
    } else if str_equals(value, "applied") {
        Ok(ThreadMutationProposalStatus::Applied)
    } else if str_equals(value, "failed") {
        Ok(ThreadMutationProposalStatus::Failed)
    } else if str_equals(value, "unknown_commit") {
        Ok(ThreadMutationProposalStatus::UnknownCommit)
    } else {
        Err(invalid_data("unknown thread mutation status"))
    }
}

// ---------------------------------------------------------------------------
// Retrieval helpers.

/// The excerpt that may be shown: kept for normal and local-only content,
/// emptied for envelope-only and never-long-term content.
pub fn filter_excerpt_by_trust(text: String, trust: ContentTrustLevel) -> (r: String)
    ensures
        r@ == match trust {
            ContentTrustLevel::Normal | ContentTrustLevel::LocalOnly => text@,
            ContentTrustLevel::EnvelopeOnly | ContentTrustLevel::NeverLongTerm => Seq::empty(),
        },
{
    match trust {
        ContentTrustLevel::Normal | ContentTrustLevel::LocalOnly => text,
        ContentTrustLevel::EnvelopeOnly | ContentTrustLevel::NeverLongTerm => String::new(),
    }
}

/// The comma-separated pieces of a text that are not empty.
pub open spec fn nonempty_pieces(s: Seq<char>) -> Seq<Seq<char>>
    decreases s.len(),
{
    if s.len() == 0 {
        Seq::empty()
    } else {
        proof {
            lemma_first_comma_bounds(s, 0);
        }
        let i = first_comma(s, 0);
        let head = s.take(i);
        let rest = if i < s.len() {
            nonempty_pieces(s.skip(i + 1))
        } else {
            Seq::empty()
        };
        if head.len() == 0 {
            rest
        } else {
            seq![head] + rest
        }
    }
}

/// Index of the first comma at or after `k`; the length when there is none.
pub open spec fn first_comma(s: Seq<char>, k: int) -> int
    decreases s.len() - k,
{
    if k < 0 || k >= s.len() {
        s.len() as int
    } else if s[k] == ',' {
        k
    } else {
        first_comma(s, k + 1)
    }
}

pub proof fn lemma_first_comma_bounds(s: Seq<char>, k: int)
    requires
        0 <= k <= s.len(),
    ensures
        k <= first_comma(s, k) <= s.len(),
        first_comma(s, k) < s.len() ==> s[first_comma(s, k)] == ',',
        forall|j: int| k <= j < first_comma(s, k) ==> s[j] != ',',
    decreases s.len() - k,
{
    if k < s.len() && s[k] != ',' {
        lemma_first_comma_bounds(s, k + 1);
    }
}

/// The text of a stored list; an absent list reads as empty.
pub open spec fn stored_list_text(value: Option<String>) -> Seq<char> {
    match value {
        Some(s) => s@,
        None => Seq::empty(),
    }
}

/// Reads a stored comma-separated list of source event identifiers; empty
/// pieces are skipped and a blank piece is an error.
pub fn parse_source_event_id_list(value: Option<String>) -> (r: Result<Vec<SourceEventId>, StoredValueError>)
    ensures
        ({
            let pieces = nonempty_pieces(stored_list_text(value));
            &&& r is Ok <==> forall|i: int| 0 <= i < pieces.len() ==> !is_blank(#[trigger] pieces[i])
            &&& r matches Ok(ids) ==> ids@.len() == pieces.len() && forall|i: int|
                0 <= i < pieces.len() ==> (#[trigger] ids@[i])@ == pieces[i]
        }),
{
    let ghost orig = stored_list_text(value);
    let text = match value {
        Some(s) => s,
        None => String::new(),
    };
    assert(text@ == orig);
    let chars = crate::text_order::chars_of(text.as_str());
    let ghost all = chars@;
    let n = chars.len();
    let mut ids: Vec<SourceEventId> = Vec::new();
    let mut start: usize = 0;
    let ghost done: Seq<Seq<char>> = Seq::empty();
    proof {
        assert(all.skip(0) =~= all);
    }
    while start < n
        invariant
            chars@ == all,
            all == text@,
            all == orig,
            orig == stored_list_text(value),
            n == all.len(),
            start <= n,
            nonempty_pieces(all) == done + nonempty_pieces(all.skip(start as int)),
            ids@.len() == done.len(),
            forall|i: int| 0 <= i < done.len() ==> (#[trigger] ids@[i])@ == done[i],
            forall|i: int| 0 <= i < done.len() ==> !is_blank(#[trigger] done[i]),
        decreases n - start,
    {
        let ghost rest = all.skip(start as int);
        let mut end: usize = start;
        while end < n && chars[end] != ','
            invariant
                chars@ == all,
                n == all.len(),
                start <= end <= n,
                rest == all.skip(start as int),
                first_comma(rest, 0) == first_comma(rest, end - start),
            decreases n - end,
        {
            end = end + 1;
        }
        proof {
            lemma_first_comma_bounds(rest, 0);
            assert(first_comma(rest, 0) == end - start);
        }
        let mut piece: Vec<char> = Vec::new();
        let mut k: usize = start;
        while k < end
            invariant
                chars@ == all,
                start <= k <= end <= n,
                n == all.len(),
                piece@ == all.subrange(start as int, k as int),
            decreases end - k,
        {
            piece.push(chars[k]);
            k = k + 1;
            assert(piece@ =~= all.subrange(start as int, k as int));
        }
        let ghost head = rest.take(end - start);
        assert(head =~= piece@);
        let next: usize = if end < n {
            end + 1
        } else {
            end
        };
        proof {
            if end < n {
                assert(rest.skip(end - start + 1) =~= all.skip(next as int));
            } else {
                assert(all.skip(next as int) =~= Seq::<char>::empty());
            }
        }
        if piece.len() > 0 {
            let text_piece = crate::json_text::string_from_chars(&piece);
            match SourceEventId::new(text_piece.as_str()) {
                Ok(id) => {
                    ids.push(id);
                    proof {
                        done = done.push(head);
                        assert(nonempty_pieces(all) =~= done + nonempty_pieces(all.skip(next as int)));
                    }
                },
                Err(_) => {
                    proof {
                        assert(rest.len() > 0);
                        assert(head.len() > 0);
                        let tail = if end < n {
                            nonempty_pieces(rest.skip(end - start + 1))
                        } else {
                            Seq::empty()
                        };
                        assert(nonempty_pieces(rest) == seq![head] + tail);
                        assert(nonempty_pieces(rest)[0] == head);
                        assert(nonempty_pieces(all).len() > done.len());
                        let whole = nonempty_pieces(all);
                        assert(whole[done.len() as int] == head);
                        assert(is_blank(whole[done.len() as int]));
                        assert(!(forall|i: int|
                            0 <= i < whole.len() ==> !is_blank(#[trigger] whole[i])));
                    }
                    return Err(invalid_data("stored source event id is blank"));
                },
            }
        } else {
            proof {
                assert(nonempty_pieces(all) =~= done + nonempty_pieces(all.skip(next as int)));
            }
        }
        start = next;
    }
    proof {
        assert(all.skip(start as int) =~= Seq::<char>::empty());
        assert(nonempty_pieces(all) =~= done);
    }
    Ok(ids)
}

/// Converts a stored aggregate count, which must not be negative.
pub fn checked_count(value: i64) -> (r: Result<u64, StoredValueError>)
    ensures
        r is Ok <==> value >= 0,
        r matches Ok(n) ==> n == value,
        r matches Err(e) ==> e is InvalidData,
{
    if value < 0 {
        return Err(invalid_data("database returned a negative aggregate count"));
    }
    Ok(value as u64)
}

} // verus!
