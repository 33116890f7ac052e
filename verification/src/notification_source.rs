//! Due notification sources, locked and checked as fresh by the store, and
//! the structured match key of the candidate that each one produces.
use vstd::prelude::*;

use crate::identity::{ConversationRef, SourceAccountRef};
use crate::notification_policy::{
    EventKind, MatchField, NotificationCategory, NotificationMatchKeyV1, StructuredImportance,
};
use crate::store_codes::{message_source_of_code, parse_message_source, StoredValueError};
use crate::text::is_blank;

verus! {

/// A fresh notification source, locked in the same transaction that turns
/// it into a candidate.
#[derive(Debug)]
pub enum LockedNotificationSource {
    Agenda {
        account_id: u64,
        item_id: String,
        version: u64,
        source_channel: String,
        platform_account_id: String,
    },
    FollowUp {
        account_id: u64,
        follow_up_id: String,
        source_version: u64,
        source_channel: String,
        platform_account_id: String,
    },
    ResponseExpectation {
        account_id: u64,
        expectation_id: String,
        source_version: u64,
        source_channel: String,
        platform_account_id: String,
        conversation: ConversationRef,
        actor_id: String,
    },
}

/// The fields of a source that its candidate is made of.
#[derive(Debug)]
pub struct LockedNotificationSourceParts {
    pub account_id: u64,
    pub source_kind: &'static str,
    pub source_id: String,
    pub source_version: u64,
    pub source_channel: String,
    pub platform_account_id: String,
    pub category: NotificationCategory,
    pub event_kind: EventKind,
    pub conversation: MatchField<ConversationRef>,
    pub actor_id: MatchField<String>,
}

impl LockedNotificationSource {
    /// Agenda items and follow-ups are matched by category and event kind
    /// only; a response expectation also by its conversation and actor.
    pub fn parts(&self) -> (r: LockedNotificationSourceParts)
        ensures
            match *self {
                LockedNotificationSource::Agenda {
                    account_id,
                    item_id,
                    version,
                    source_channel,
                    platform_account_id,
                } => {
                    &&& r.account_id == account_id
                    &&& r.source_kind@ == "agenda"@
                    &&& r.source_id == item_id
                    &&& r.source_version == version
                    &&& r.source_channel == source_channel
                    &&& r.platform_account_id == platform_account_id
                    &&& r.category == NotificationCategory::Agenda
                    &&& r.event_kind == EventKind::AgendaDue
                    &&& r.conversation == MatchField::<ConversationRef>::Absent
                    &&& r.actor_id == MatchField::<String>::Absent
                },
                LockedNotificationSource::FollowUp {
                    account_id,
                    follow_up_id,
                    source_version,
                    source_channel,
                    platform_account_id,
                } => {
                    &&& r.account_id == account_id
                    &&& r.source_kind@ == "follow_up"@
                    &&& r.source_id == follow_up_id
                    &&& r.source_version == source_version
                    &&& r.source_channel == source_channel
                    &&& r.platform_account_id == platform_account_id
                    &&& r.category == NotificationCategory::FollowUp
                    &&& r.event_kind == EventKind::FollowUpDue
                    &&& r.conversation == MatchField::<ConversationRef>::Absent
                    &&& r.actor_id == MatchField::<String>::Absent
                },
                LockedNotificationSource::ResponseExpectation {
                    account_id,
                    expectation_id,
                    source_version,
                    source_channel,
                    platform_account_id,
                    conversation,
                    actor_id,
                } => {
                    &&& r.account_id == account_id
                    &&& r.source_kind@ == "response_expectation"@
                    &&& r.source_id == expectation_id
                    &&& r.source_version == source_version
                    &&& r.source_channel == source_channel
                    &&& r.platform_account_id == platform_account_id
                    &&& r.category == NotificationCategory::FollowUp
                    &&& r.event_kind == EventKind::ResponseOverdue
                    &&& r.conversation == MatchField::Known(conversation)
                    &&& r.actor_id == MatchField::Known(actor_id)
                },
            },
    {
        match self {
            LockedNotificationSource::Agenda {
                account_id,
                item_id,
                version,
                source_channel,
                platform_account_id,
            } => LockedNotificationSourceParts {
                account_id: *account_id,
                source_kind: "agenda",
                source_id: item_id.clone(),
                source_version: *version,
                source_channel: source_channel.clone(),
                platform_account_id: platform_account_id.clone(),
                category: NotificationCategory::Agenda,
                event_kind: EventKind::AgendaDue,
                conversation: MatchField::Absent,
                actor_id: MatchField::Absent,
            },
            LockedNotificationSource::FollowUp {
                account_id,
                follow_up_id,
                source_version,
                source_channel,
                platform_account_id,
            } => LockedNotificationSourceParts {
                account_id: *account_id,
                source_kind: "follow_up",
                source_id: follow_up_id.clone(),
                source_version: *source_version,
                source_channel: source_channel.clone(),
                platform_account_id: platform_account_id.clone(),
                category: NotificationCategory::FollowUp,
                event_kind: EventKind::FollowUpDue,
                conversation: MatchField::Absent,
                actor_id: MatchField::Absent,
            },
            LockedNotificationSource::ResponseExpectation {
                account_id,
                expectation_id,
                source_version,
                source_channel,
                platform_account_id,
                conversation,
                actor_id,
            } => LockedNotificationSourceParts {
                account_id: *account_id,
                source_kind: "response_expectation",
                source_id: expectation_id.clone(),
                source_version: *source_version,
                source_channel: source_channel.clone(),
                platform_account_id: platform_account_id.clone(),
                category: NotificationCategory::FollowUp,
                event_kind: EventKind::ResponseOverdue,
                conversation: MatchField::Known(conversation.clone()),
                actor_id: MatchField::Known(actor_id.clone()),
            },
        }
    }
}

/// The match key of a source's candidate can be built: its channel is a
/// known code, its platform account and any known actor are not blank.
pub open spec fn source_match_key_ok(parts: LockedNotificationSourceParts) -> bool {
    &&& message_source_of_code(parts.source_channel@) is Some
    &&& !is_blank(parts.platform_account_id@)
    &&& !(parts.actor_id matches MatchField::Known(a) && is_blank(a@))
}

/// The structured match key of the candidate that a source produces: its
/// account, conversation, actor, category and event kind; the owner is not
/// mentioned and the importance is normal.
pub fn source_match_key(parts: LockedNotificationSourceParts) -> (r: Result<
    NotificationMatchKeyV1,
    StoredValueError,
>)
    ensures
        r is Ok <==> source_match_key_ok(parts),
        r matches Ok(key) ==> {
            &&& Some(key.account.channel) == message_source_of_code(parts.source_channel@)
            &&& key.account.account_id@ == parts.platform_account_id@
            &&& key.conversation == parts.conversation
            &&& key.actor_id == parts.actor_id
            &&& key.category == MatchField::Known(parts.category)
            &&& key.mentioned_owner == MatchField::Known(false)
            &&& key.structured_importance == MatchField::Known(StructuredImportance::Normal)
            &&& key.event_kind == MatchField::Known(parts.event_kind)
        },
        r matches Err(e) ==> e is InvalidData,
{
    let channel = match parse_message_source(parts.source_channel.as_str()) {
        Ok(channel) => channel,
        Err(e) => {
            return Err(e);
        },
    };
    let account = match SourceAccountRef::new(channel, parts.platform_account_id.as_str()) {
        Ok(account) => account,
        Err(_) => {
            return Err(StoredValueError::InvalidData("stored account id is blank".to_owned()));
        },
    };
    match NotificationMatchKeyV1::new(
        account,
        parts.conversation,
        parts.actor_id,
        MatchField::Known(parts.category),
        MatchField::Known(false),
        MatchField::Known(StructuredImportance::Normal),
        MatchField::Known(parts.event_kind),
    ) {
        Ok(key) => Ok(key),
        Err(_) => Err(StoredValueError::InvalidData("notification match key is invalid".to_owned())),
    }
}

} // verus!
