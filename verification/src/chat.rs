//! The part of a chat's identity that moderation reads: its numeric id and
//! enough of its kind to tell public supergroups (the only eligible chats)
//! apart from private chats, basic groups and broadcast channels.

use vstd::prelude::*;

verus! {

/// The kind of chat a message arrived in.  Only a public supergroup with a
/// stable handle can be listed in the policy; every other kind is ignored.
#[derive(Debug, Clone, PartialEq, Eq)]
pub enum ChatCategory {
    /// A one-on-one private chat.
    Private,
    /// A basic (non-super) group.
    Group,
    /// A supergroup, with its public handle if it has one.
    Supergroup { username: Option<String> },
    /// A broadcast channel.
    Channel,
}

/// What the pipeline knows of the chat a message arrived in.
#[derive(Debug, Clone, PartialEq, Eq)]
pub struct ChatInfo {
    /// The platform's numeric id of the chat, used to address remote calls.
    pub id: i64,
    /// The kind of the chat.
    pub category: ChatCategory,
}

impl ChatInfo {
    /// The public handle under which the policy could list this chat, if any.
    pub open spec fn spec_handle(self) -> Option<Seq<char>> {
        match self.category {
            ChatCategory::Supergroup { username: Some(u) } => Some(u@),
            _ => None,
        }
    }

    /// Whether this is a private chat.
    pub fn is_private(&self) -> (r: bool)
        ensures
            r == (self.category is Private),
    {
        match self.category {
            ChatCategory::Private => true,
            _ => false,
        }
    }

    /// Whether this is a broadcast channel.
    pub fn is_channel(&self) -> (r: bool)
        ensures
            r == (self.category is Channel),
    {
        match self.category {
            ChatCategory::Channel => true,
            _ => false,
        }
    }
}

} // verus!
