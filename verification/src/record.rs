//! The records that the store keeps.

use vstd::prelude::*;
use crate::text::text_eq;

verus! {

/// A UTC instant, counted in nanoseconds since the Unix epoch.
#[derive(Clone, Copy, Debug, PartialEq, Eq, Structural)]
pub struct Timestamp {
    pub nanos: i64,
}

/// One chat message as the store keeps it. A record is made once, when the
/// message is first seen; afterwards only `deleted` ever changes, and the
/// record itself is never removed.
#[derive(Debug, PartialEq, Eq)]
pub struct ChatMessage {
    pub channel_id: i32,
    pub sender_id: i32,
    pub channel_login: String,
    pub sender_login: String,
    pub sender_name: String,
    pub message_id: String,
    pub message_text: String,
    pub server_timestamp: Timestamp,
    pub deleted: bool,
}

/// The mathematical content of a [`ChatMessage`].
pub struct ChatMessageView {
    pub channel_id: i32,
    pub sender_id: i32,
    pub channel_login: Seq<char>,
    pub sender_login: Seq<char>,
    pub sender_name: Seq<char>,
    pub message_id: Seq<char>,
    pub message_text: Seq<char>,
    pub server_timestamp: Timestamp,
    pub deleted: bool,
}

impl ChatMessageView {
    /// The same record with the soft-delete flag raised.
    pub open spec fn marked(self) -> ChatMessageView {
        ChatMessageView { deleted: true, ..self }
    }

    /// Whether the record was posted by `user_id` in `channel_id`.
    pub open spec fn sent_by(self, channel_id: i32, user_id: i32) -> bool {
        self.channel_id == channel_id && self.sender_id == user_id
    }
}

impl View for ChatMessage {
    type V = ChatMessageView;

    open spec fn view(&self) -> ChatMessageView {
        ChatMessageView {
            channel_id: self.channel_id,
            sender_id: self.sender_id,
            channel_login: self.channel_login@,
            sender_login: self.sender_login@,
            sender_name: self.sender_name@,
            message_id: self.message_id@,
            message_text: self.message_text@,
            server_timestamp: self.server_timestamp,
            deleted: self.deleted,
        }
    }
}

impl Clone for ChatMessage {
    fn clone(&self) -> (copy: Self)
        ensures
            copy == *self,
    {
        ChatMessage {
            channel_id: self.channel_id,
            sender_id: self.sender_id,
            channel_login: self.channel_login.clone(),
            sender_login: self.sender_login.clone(),
            sender_name: self.sender_name.clone(),
            message_id: self.message_id.clone(),
            message_text: self.message_text.clone(),
            server_timestamp: self.server_timestamp,
            deleted: self.deleted,
        }
    }
}

impl ChatMessage {
    /// Raises the soft-delete flag and leaves every other field as it was.
    pub fn mark_deleted(&mut self)
        ensures
            final(self)@ == old(self)@.marked(),
    {
        self.deleted = true;
    }

    /// Whether this message was posted by `user_id` in `channel_id`.
    pub fn sent_by(&self, channel_id: i32, user_id: i32) -> (yes: bool)
        ensures
            yes == self@.sent_by(channel_id, user_id),
    {
        self.channel_id == channel_id && self.sender_id == user_id
    }

    /// Whether this is the record of the message called `message_id`.
    pub fn has_id(&self, message_id: &str) -> (yes: bool)
        ensures
            yes == (self@.message_id == message_id@),
    {
        text_eq(self.message_id.as_str(), message_id)
    }
}

/// One entry of the moderation audit history: a permanent ban when
/// `timeout_duration` is `None`, a suspension of that many seconds otherwise.
/// It names a user and a channel, never a single message.
#[derive(Debug, PartialEq, Eq)]
pub struct ChatHistory {
    pub channel_id: i32,
    pub channel_login: String,
    pub user_id: i32,
    pub user_login: String,
    pub server_timestamp: Timestamp,
    pub timeout_duration: Option<u64>,
}

/// The mathematical content of a [`ChatHistory`].
pub struct ChatHistoryView {
    pub channel_id: i32,
    pub channel_login: Seq<char>,
    pub user_id: i32,
    pub user_login: Seq<char>,
    pub server_timestamp: Timestamp,
    pub timeout_duration: Option<u64>,
}

impl View for ChatHistory {
    type V = ChatHistoryView;

    open spec fn view(&self) -> ChatHistoryView {
        ChatHistoryView {
            channel_id: self.channel_id,
            channel_login: self.channel_login@,
            user_id: self.user_id,
            user_login: self.user_login@,
            server_timestamp: self.server_timestamp,
            timeout_duration: self.timeout_duration,
        }
    }
}

impl Clone for ChatHistory {
    fn clone(&self) -> (copy: Self)
        ensures
            copy == *self,
    {
        ChatHistory {
            channel_id: self.channel_id,
            channel_login: self.channel_login.clone(),
            user_id: self.user_id,
            user_login: self.user_login.clone(),
            server_timestamp: self.server_timestamp,
            timeout_duration: self.timeout_duration,
        }
    }
}

impl ChatHistory {
    /// Whether the entry records a permanent ban.
    pub fn is_permanent(&self) -> (yes: bool)
        ensures
            yes == (self@.timeout_duration is None),
    {
        self.timeout_duration.is_none()
    }
}

} // verus!
