//! Identities shared by the memory and notification modules: accounts,
//! conversations, actors, source events and content trust levels.
use vstd::prelude::*;

use crate::text::{is_blank, text_is_blank};

verus! {

/// Whether two texts are equal.
pub fn str_equals(a: &str, b: &str) -> (r: bool)
    ensures
        r == (a@ == b@),
{
    let x: String = a.to_owned();
    let y: String = b.to_owned();
    x == y
}

/// Error for an identity whose text is blank.
#[derive(Debug, Clone, Copy, PartialEq, Eq, Structural)]
pub enum IdentityError {
    EmptyAccountId,
    EmptyConversationId,
    EmptySourceEventId,
    EmptyDecisionId,
}

/// Platform that delivered a message.
#[derive(Debug, Clone, Copy, PartialEq, Eq, Structural)]
pub enum MessageSource {
    NapCat,
    QqOpenPlatform,
}

impl MessageSource {
    pub open spec fn name(self) -> Seq<char> {
        match self {
            MessageSource::NapCat => "napcat"@,
            MessageSource::QqOpenPlatform => "qq_open_platform"@,
        }
    }

    pub fn as_str(self) -> (r: &'static str)
        ensures
            r@ == self.name(),
    {
        match self {
            MessageSource::NapCat => "napcat",
            MessageSource::QqOpenPlatform => "qq_open_platform",
        }
    }
}

/// A managed platform account.
#[derive(Debug, PartialEq, Eq)]
pub struct SourceAccountRef {
    pub channel: MessageSource,
    pub account_id: String,
}

/// Two accounts name the same platform account.
pub open spec fn same_account(a: SourceAccountRef, b: SourceAccountRef) -> bool {
    a.channel == b.channel && a.account_id@ == b.account_id@
}

impl SourceAccountRef {
    pub fn new(channel: MessageSource, account_id: &str) -> (r: Result<Self, IdentityError>)
        ensures
            is_blank(account_id@) <==> r is Err,
            r matches Ok(a) ==> a.channel == channel && a.account_id@ == account_id@,
            r matches Err(e) ==> e == IdentityError::EmptyAccountId,
    {
        if text_is_blank(account_id) {
            return Err(IdentityError::EmptyAccountId);
        }
        Ok(SourceAccountRef { channel, account_id: account_id.to_owned() })
    }

    /// Whether both refer to the same platform account.
    pub fn same_as(&self, other: &SourceAccountRef) -> (r: bool)
        ensures
            r == same_account(*self, *other),
    {
        self.channel == other.channel && self.account_id == other.account_id
    }
}

impl Clone for SourceAccountRef {
    fn clone(&self) -> (r: Self)
        ensures
            r == *self,
    {
        SourceAccountRef { channel: self.channel, account_id: self.account_id.clone() }
    }
}

/// Kind of a conversation.
#[derive(Debug, Clone, Copy, PartialEq, Eq, Structural)]
pub enum ConversationKind {
    Private,
    Group,
    OwnerControl,
}

impl ConversationKind {
    pub open spec fn name(self) -> Seq<char> {
        match self {
            ConversationKind::Private => "private"@,
            ConversationKind::Group => "group"@,
            ConversationKind::OwnerControl => "owner_control"@,
        }
    }

    pub fn as_str(self) -> (r: &'static str)
        ensures
            r@ == self.name(),
    {
        match self {
            ConversationKind::Private => "private",
            ConversationKind::Group => "group",
            ConversationKind::OwnerControl => "owner_control",
        }
    }
}

/// A conversation of an account.
#[derive(Debug, PartialEq, Eq)]
pub struct ConversationRef {
    pub kind: ConversationKind,
    pub id: String,
}

impl ConversationRef {
    pub fn new(kind: ConversationKind, id: &str) -> (r: Result<Self, IdentityError>)
        ensures
            is_blank(id@) <==> r is Err,
            r matches Ok(c) ==> c.kind == kind && c.id@ == id@,
            r matches Err(e) ==> e == IdentityError::EmptyConversationId,
    {
        if text_is_blank(id) {
            return Err(IdentityError::EmptyConversationId);
        }
        Ok(ConversationRef { kind, id: id.to_owned() })
    }
}

impl Clone for ConversationRef {
    fn clone(&self) -> (r: Self)
        ensures
            r == *self,
    {
        ConversationRef { kind: self.kind, id: self.id.clone() }
    }
}

/// Identifier of an ingested source event; never blank.
#[derive(Debug, PartialEq, Eq, Hash)]
pub struct SourceEventId(String);

impl View for SourceEventId {
    type V = Seq<char>;

    closed spec fn view(&self) -> Seq<char> {
        self.0@
    }
}

impl SourceEventId {
    #[verifier::type_invariant]
    closed spec fn non_blank(self) -> bool {
        !is_blank(self.0@)
    }

    pub fn new(value: &str) -> (r: Result<Self, IdentityError>)
        ensures
            is_blank(value@) <==> r is Err,
            r matches Ok(id) ==> id@ == value@,
            r matches Err(e) ==> e == IdentityError::EmptySourceEventId,
    {
        if text_is_blank(value) {
            return Err(IdentityError::EmptySourceEventId);
        }
        Ok(SourceEventId(value.to_owned()))
    }

    pub fn as_str(&self) -> (r: &str)
        ensures
            r@ == self@,
            !is_blank(r@),
    {
        proof {
            use_type_invariant(self);
        }
        self.0.as_str()
    }
}

impl Clone for SourceEventId {
    fn clone(&self) -> (r: Self)
        ensures
            r == *self,
    {
        proof {
            use_type_invariant(self);
        }
        SourceEventId(self.0.clone())
    }
}

/// Identifier of a thread decision; never blank.
#[derive(Debug, PartialEq, Eq, Hash)]
pub struct ThreadDecisionId(String);

impl View for ThreadDecisionId {
    type V = Seq<char>;

    closed spec fn view(&self) -> Seq<char> {
        self.0@
    }
}

impl ThreadDecisionId {
    #[verifier::type_invariant]
    closed spec fn non_blank(self) -> bool {
        !is_blank(self.0@)
    }

    pub fn new(value: &str) -> (r: Result<Self, IdentityError>)
        ensures
            is_blank(value@) <==> r is Err,
            r matches Ok(id) ==> id@ == value@,
            r matches Err(e) ==> e == IdentityError::EmptyDecisionId,
    {
        if text_is_blank(value) {
            return Err(IdentityError::EmptyDecisionId);
        }
        Ok(ThreadDecisionId(value.to_owned()))
    }

    pub fn as_str(&self) -> (r: &str)
        ensures
            r@ == self@,
    {
        self.0.as_str()
    }
}

impl Clone for ThreadDecisionId {
    fn clone(&self) -> (r: Self)
        ensures
            r == *self,
    {
        proof {
            use_type_invariant(self);
        }
        ThreadDecisionId(self.0.clone())
    }
}

/// An actor in the scope of a managed account.
#[derive(Debug, PartialEq, Eq)]
pub struct ThreadActorRef {
    pub account: SourceAccountRef,
    pub actor_id: String,
}

impl Clone for ThreadActorRef {
    fn clone(&self) -> (r: Self)
        ensures
            r == *self,
    {
        ThreadActorRef { account: self.account.clone(), actor_id: self.actor_id.clone() }
    }
}

/// How far the content of a conversation may travel.
#[derive(Debug, Clone, Copy, PartialEq, Eq, Structural)]
pub enum ContentTrustLevel {
    Normal,
    LocalOnly,
    EnvelopeOnly,
    NeverLongTerm,
}

/// Role of a message in the secretary's view.
#[derive(Debug, Clone, Copy, PartialEq, Eq, Structural)]
pub enum MessageRole {
    OwnerCommand,
    OwnerObservation,
    ExternalObservation,
    AssistantOutput,
}

/// Kind of a verified sender.
#[derive(Debug, Clone, Copy, PartialEq, Eq, Structural)]
pub enum VerifiedActorKind {
    Owner,
    OfficialBot,
    External,
}

/// Lifecycle status of an event thread.
#[derive(Debug, Clone, Copy, PartialEq, Eq, Structural)]
pub enum ThreadStatus {
    Open,
    Waiting,
    Resolved,
    Closed,
    Reopened,
}

/// Status of a thread mutation proposal.
#[derive(Debug, Clone, Copy, PartialEq, Eq, Structural)]
pub enum ThreadMutationProposalStatus {
    AwaitingApproval,
    Approved,
    Rejected,
    Applying,
    Applied,
    Failed,
    UnknownCommit,
}

} // verus!
