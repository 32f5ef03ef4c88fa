//! Plain-value model of the transport boundary: the inbound message event a
//! handler unit reads, and the outward action a unit decides on.
//!
//! The transport connection itself delivers events and performs actions; the
//! dispatch core only decides, so an action is a value describing what the
//! caller must perform (send a reply, run a storage upsert, take a filesystem
//! count) on the event's channel.

use vstd::prelude::*;

verus! {

/// What a handler unit reads of an inbound message: whether the author is a
/// bot (or the process itself), the guild context if the message has one, and
/// the text content. The channel to reply on is carried by the caller.
pub struct MessageEvent {
    /// The message was authored by a bot or by the process itself.
    pub author_is_bot: bool,
    /// The guild (community) the message was sent in, if any.
    pub guild_id: Option<u64>,
    /// The message text.
    pub content: String,
}

/// Mathematical view of a `MessageEvent`.
pub struct MessageView {
    pub author_is_bot: bool,
    pub guild_id: Option<u64>,
    pub content: Seq<char>,
}

impl View for MessageEvent {
    type V = MessageView;

    open spec fn view(&self) -> MessageView {
        MessageView {
            author_is_bot: self.author_is_bot,
            guild_id: self.guild_id,
            content: self.content@,
        }
    }
}

/// What a handler unit asks its caller to perform. Replies go to the channel
/// of the event that was dispatched.
pub enum Action {
    /// Send this text as a reply.
    Reply(String),
    /// Walk the filesystem tree under the working directory, count files and
    /// text lines, and reply with the text `files_reply` builds from them.
    CountFiles,
    /// Upsert the guild's stored prefix record with `value` (appending onto an
    /// existing record as `merge_prefixes` states), then send `reply`.
    UpsertPrefix { guild_id: u64, value: String, reply: String },
    /// Fetch the guild's stored prefix record and reply with the text
    /// `list_reply` builds from it and from `fallback`.
    ListPrefixes { guild_id: u64, fallback: String },
}

/// Mathematical view of an `Action`.
pub enum ActionView {
    Reply(Seq<char>),
    CountFiles,
    UpsertPrefix { guild_id: u64, value: Seq<char>, reply: Seq<char> },
    ListPrefixes { guild_id: u64, fallback: Seq<char> },
}

impl View for Action {
    type V = ActionView;

    open spec fn view(&self) -> ActionView {
        match self {
            Action::Reply(t) => ActionView::Reply(t@),
            Action::CountFiles => ActionView::CountFiles,
            Action::UpsertPrefix { guild_id, value, reply } => ActionView::UpsertPrefix {
                guild_id: *guild_id,
                value: value@,
                reply: reply@,
            },
            Action::ListPrefixes { guild_id, fallback } => ActionView::ListPrefixes {
                guild_id: *guild_id,
                fallback: fallback@,
            },
        }
    }
}

/// The view of an optional action: `None` means the unit does not react.
pub open spec fn act_view(a: Option<Action>) -> Option<ActionView> {
    match a {
        Option::None => Option::None,
        Option::Some(x) => Option::Some(x@),
    }
}

} // verus!
