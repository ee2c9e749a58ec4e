//! The messages that travel from the listeners to the store actor.

use vstd::prelude::*;
use vstd::std_specs::convert::FromSpecImpl;
use crate::record::{ChatHistory, ChatHistoryView, ChatMessage, ChatMessageView, Timestamp};

verus! {

/// A message was posted: the store is to create its record.
#[derive(Debug, PartialEq, Eq)]
pub struct AddMessage {
    pub channel_id: i32,
    pub sender_id: i32,
    pub channel_login: String,
    pub sender_login: String,
    pub sender_name: String,
    pub message_id: String,
    pub message_text: String,
    pub server_timestamp: Timestamp,
}

impl View for AddMessage {
    type V = ChatMessageView;

    /// The record that the event asks for: its own fields, not deleted.
    open spec fn view(&self) -> ChatMessageView {
        ChatMessageView {
            channel_id: self.channel_id,
            sender_id: self.sender_id,
            channel_login: self.channel_login@,
            sender_login: self.sender_login@,
            sender_name: self.sender_name@,
            message_id: self.message_id@,
            message_text: self.message_text@,
            server_timestamp: self.server_timestamp,
            deleted: false,
        }
    }
}

impl Clone for AddMessage {
    fn clone(&self) -> (copy: Self)
        ensures
            copy == *self,
    {
        AddMessage {
            channel_id: self.channel_id,
            sender_id: self.sender_id,
            channel_login: self.channel_login.clone(),
            sender_login: self.sender_login.clone(),
            sender_name: self.sender_name.clone(),
            message_id: self.message_id.clone(),
            message_text: self.message_text.clone(),
            server_timestamp: self.server_timestamp,
        }
    }
}

impl From<AddMessage> for ChatMessage {
    fn from(value: AddMessage) -> (record: ChatMessage) {
        ChatMessage {
            channel_id: value.channel_id,
            sender_id: value.sender_id,
            channel_login: value.channel_login,
            sender_login: value.sender_login,
            sender_name: value.sender_name,
            message_id: value.message_id,
            message_text: value.message_text,
            server_timestamp: value.server_timestamp,
            deleted: false,
        }
    }
}

impl FromSpecImpl<AddMessage> for ChatMessage {
    open spec fn obeys_from_spec() -> bool {
        true
    }

    open spec fn from_spec(value: AddMessage) -> ChatMessage {
        ChatMessage {
            channel_id: value.channel_id,
            sender_id: value.sender_id,
            channel_login: value.channel_login,
            sender_login: value.sender_login,
            sender_name: value.sender_name,
            message_id: value.message_id,
            message_text: value.message_text,
            server_timestamp: value.server_timestamp,
            deleted: false,
        }
    }
}

/// A message was removed by a moderator: the store is to mark its record.
#[derive(Debug, PartialEq, Eq)]
pub struct DeleteMessage {
    pub message_id: String,
}

impl View for DeleteMessage {
    type V = Seq<char>;

    /// The identifier of the message to mark.
    open spec fn view(&self) -> Seq<char> {
        self.message_id@
    }
}

impl Clone for DeleteMessage {
    fn clone(&self) -> (copy: Self)
        ensures
            copy == *self,
    {
        DeleteMessage {
            message_id: self.message_id.clone(),
        }
    }
}

/// A user was banned from a channel for good.
#[derive(Debug, PartialEq, Eq)]
pub struct BanMessage {
    pub channel_id: i32,
    pub channel_login: String,
    pub user_id: i32,
    pub user_login: String,
    pub server_timestamp: Timestamp,
}

impl View for BanMessage {
    type V = ChatHistoryView;

    /// The history entry that the event asks for: one without a duration.
    open spec fn view(&self) -> ChatHistoryView {
        ChatHistoryView {
            channel_id: self.channel_id,
            channel_login: self.channel_login@,
            user_id: self.user_id,
            user_login: self.user_login@,
            server_timestamp: self.server_timestamp,
            timeout_duration: None,
        }
    }
}

impl Clone for BanMessage {
    fn clone(&self) -> (copy: Self)
        ensures
            copy == *self,
    {
        BanMessage {
            channel_id: self.channel_id,
            channel_login: self.channel_login.clone(),
            user_id: self.user_id,
            user_login: self.user_login.clone(),
            server_timestamp: self.server_timestamp,
        }
    }
}

impl From<BanMessage> for ChatHistory {
    fn from(value: BanMessage) -> (entry: ChatHistory) {
        ChatHistory {
            channel_id: value.channel_id,
            channel_login: value.channel_login,
            user_id: value.user_id,
            user_login: value.user_login,
            server_timestamp: value.server_timestamp,
            timeout_duration: None,
        }
    }
}

impl FromSpecImpl<BanMessage> for ChatHistory {
    open spec fn obeys_from_spec() -> bool {
        true
    }

    open spec fn from_spec(value: BanMessage) -> ChatHistory {
        ChatHistory {
            channel_id: value.channel_id,
            channel_login: value.channel_login,
            user_id: value.user_id,
            user_login: value.user_login,
            server_timestamp: value.server_timestamp,
            timeout_duration: None,
        }
    }
}

/// A user was suspended from a channel for `timeout_duration` seconds.
#[derive(Debug, PartialEq, Eq)]
pub struct SuspendMessage {
    pub channel_id: i32,
    pub channel_login: String,
    pub user_id: i32,
    pub user_login: String,
    pub server_timestamp: Timestamp,
    pub timeout_duration: u64,
}

impl View for SuspendMessage {
    type V = ChatHistoryView;

    /// The history entry that the event asks for: one with its duration.
    open spec fn view(&self) -> ChatHistoryView {
        ChatHistoryView {
            channel_id: self.channel_id,
            channel_login: self.channel_login@,
            user_id: self.user_id,
            user_login: self.user_login@,
            server_timestamp: self.server_timestamp,
            timeout_duration: Some(self.timeout_duration),
        }
    }
}

impl Clone for SuspendMessage {
    fn clone(&self) -> (copy: Self)
        ensures
            copy == *self,
    {
        SuspendMessage {
            channel_id: self.channel_id,
            channel_login: self.channel_login.clone(),
            user_id: self.user_id,
            user_login: self.user_login.clone(),
            server_timestamp: self.server_timestamp,
            timeout_duration: self.timeout_duration,
        }
    }
}

impl From<SuspendMessage> for ChatHistory {
    fn from(value: SuspendMessage) -> (entry: ChatHistory) {
        ChatHistory {
            channel_id: value.channel_id,
            channel_login: value.channel_login,
            user_id: value.user_id,
            user_login: value.user_login,
            server_timestamp: value.server_timestamp,
            timeout_duration: Some(value.timeout_duration),
        }
    }
}

impl FromSpecImpl<SuspendMessage> for ChatHistory {
    open spec fn obeys_from_spec() -> bool {
        true
    }

    open spec fn from_spec(value: SuspendMessage) -> ChatHistory {
        ChatHistory {
            channel_id: value.channel_id,
            channel_login: value.channel_login,
            user_id: value.user_id,
            user_login: value.user_login,
            server_timestamp: value.server_timestamp,
            timeout_duration: Some(value.timeout_duration),
        }
    }
}

/// What travels from the listeners to the store actor: the four facts about
/// the chat, and `Stop`, which is no fact but the order to end the actor.
#[derive(Debug, PartialEq, Eq)]
pub enum StoreMessage {
    Stop,
    Add(AddMessage),
    Delete(DeleteMessage),
    Ban(BanMessage),
    Suspend(SuspendMessage),
}

/// The mathematical content of a [`StoreMessage`].
pub enum StoreMessageView {
    Stop,
    Add(ChatMessageView),
    Delete(Seq<char>),
    Ban(ChatHistoryView),
    Suspend(ChatHistoryView),
}

impl View for StoreMessage {
    type V = StoreMessageView;

    open spec fn view(&self) -> StoreMessageView {
        match *self {
            StoreMessage::Stop => StoreMessageView::Stop,
            StoreMessage::Add(m) => StoreMessageView::Add(m@),
            StoreMessage::Delete(m) => StoreMessageView::Delete(m@),
            StoreMessage::Ban(m) => StoreMessageView::Ban(m@),
            StoreMessage::Suspend(m) => StoreMessageView::Suspend(m@),
        }
    }
}

impl Clone for StoreMessage {
    fn clone(&self) -> (copy: Self)
        ensures
            copy == *self,
    {
        match self {
            StoreMessage::Stop => StoreMessage::Stop,
            StoreMessage::Add(m) => StoreMessage::Add(m.clone()),
            StoreMessage::Delete(m) => StoreMessage::Delete(m.clone()),
            StoreMessage::Ban(m) => StoreMessage::Ban(m.clone()),
            StoreMessage::Suspend(m) => StoreMessage::Suspend(m.clone()),
        }
    }
}

/// The views of a sequence of messages, in the same order.
pub open spec fn views(messages: Seq<StoreMessage>) -> Seq<StoreMessageView> {
    messages.map_values(|m: StoreMessage| m@)
}

} // verus!
