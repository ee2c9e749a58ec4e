//! The events of a chat session, and what each of them means to the store.

use vstd::prelude::*;
use crate::event::{
    AddMessage, BanMessage, DeleteMessage, StoreMessage, StoreMessageView, SuspendMessage,
};
use crate::ident::{id_of, parse_id, IdFormat};
use crate::record::{ChatHistoryView, ChatMessageView, Timestamp};

verus! {

/// A message was posted in a channel. The identifiers of the channel and of
/// the sender are still text, as the chat protocol carries them.
#[derive(Debug, PartialEq, Eq)]
pub struct MessagePosted {
    pub channel_id: String,
    pub channel_login: String,
    pub sender_id: String,
    pub sender_login: String,
    pub sender_name: String,
    pub message_id: String,
    pub message_text: String,
    pub server_timestamp: Timestamp,
}

/// A single message was removed from a channel.
#[derive(Debug, PartialEq, Eq)]
pub struct MessageRemoved {
    pub message_id: String,
}

/// The chat of a user was cleared because the user was banned for good.
#[derive(Debug, PartialEq, Eq)]
pub struct UserBanned {
    pub channel_id: String,
    pub channel_login: String,
    pub user_id: String,
    pub user_login: String,
    pub server_timestamp: Timestamp,
}

/// The chat of a user was cleared because the user was suspended for
/// `timeout_length` seconds.
#[derive(Debug, PartialEq, Eq)]
pub struct UserTimedOut {
    pub channel_id: String,
    pub channel_login: String,
    pub user_id: String,
    pub user_login: String,
    pub server_timestamp: Timestamp,
    pub timeout_length: u64,
}

/// What the chat client hands to a listener. `Other` stands for every event
/// that the store has no use for.
#[derive(Debug, PartialEq, Eq)]
pub enum ProtocolEvent {
    MessagePosted(MessagePosted),
    MessageRemoved(MessageRemoved),
    UserBanned(UserBanned),
    UserTimedOut(UserTimedOut),
    Other,
}

/// Which identifier of a protocol event could not be read. The first one that
/// fails is named: the channel before the user, the user before the message.
#[derive(Clone, Copy, Debug, PartialEq, Eq, Structural)]
pub enum TranslateError {
    /// The channel identifier is no 32-bit decimal integer.
    ChannelId,
    /// The identifier of the sender, or of the moderated user, is no 32-bit
    /// decimal integer.
    UserId,
    /// The message identifier is not in the format that the backend expects.
    MessageId,
}

/// What a protocol event means to a store whose backend expects message
/// identifiers in `format`: the one message to forward, nothing, or the
/// identifier on which the event fails.
pub open spec fn translation(event: ProtocolEvent, format: IdFormat) -> Result<
    Option<StoreMessageView>,
    TranslateError,
> {
    match event {
        ProtocolEvent::MessagePosted(m) => {
            if id_of(m.channel_id@) is None {
                Err(TranslateError::ChannelId)
            } else if id_of(m.sender_id@) is None {
                Err(TranslateError::UserId)
            } else if !format.admits(m.message_id@) {
                Err(TranslateError::MessageId)
            } else {
                Ok(
                    Some(
                        StoreMessageView::Add(
                            ChatMessageView {
                                channel_id: id_of(m.channel_id@)->0,
                                sender_id: id_of(m.sender_id@)->0,
                                channel_login: m.channel_login@,
                                sender_login: m.sender_login@,
                                sender_name: m.sender_name@,
                                message_id: m.message_id@,
                                message_text: m.message_text@,
                                server_timestamp: m.server_timestamp,
                                deleted: false,
                            },
                        ),
                    ),
                )
            }
        },
        ProtocolEvent::MessageRemoved(m) => {
            if !format.admits(m.message_id@) {
                Err(TranslateError::MessageId)
            } else {
                Ok(Some(StoreMessageView::Delete(m.message_id@)))
            }
        },
        ProtocolEvent::UserBanned(m) => {
            if id_of(m.channel_id@) is None {
                Err(TranslateError::ChannelId)
            } else if id_of(m.user_id@) is None {
                Err(TranslateError::UserId)
            } else {
                Ok(
                    Some(
                        StoreMessageView::Ban(
                            ChatHistoryView {
                                channel_id: id_of(m.channel_id@)->0,
                                channel_login: m.channel_login@,
                                user_id: id_of(m.user_id@)->0,
                                user_login: m.user_login@,
                                server_timestamp: m.server_timestamp,
                                timeout_duration: None,
                            },
                        ),
                    ),
                )
            }
        },
        ProtocolEvent::UserTimedOut(m) => {
            if id_of(m.channel_id@) is None {
                Err(TranslateError::ChannelId)
            } else if id_of(m.user_id@) is None {
                Err(TranslateError::UserId)
            } else {
                Ok(
                    Some(
                        StoreMessageView::Suspend(
                            ChatHistoryView {
                                channel_id: id_of(m.channel_id@)->0,
                                channel_login: m.channel_login@,
                                user_id: id_of(m.user_id@)->0,
                                user_login: m.user_login@,
                                server_timestamp: m.server_timestamp,
                                timeout_duration: Some(m.timeout_length),
                            },
                        ),
                    ),
                )
            }
        },
        ProtocolEvent::Other => Ok(None),
    }
}

/// Whether `result` says of the store messages what `expected` says of their
/// views.
pub open spec fn agrees(
    result: Result<Option<StoreMessage>, TranslateError>,
    expected: Result<Option<StoreMessageView>, TranslateError>,
) -> bool {
    match result {
        Ok(Some(message)) => expected == Ok::<Option<StoreMessageView>, TranslateError>(
            Some(message@),
        ),
        Ok(None) => expected == Ok::<Option<StoreMessageView>, TranslateError>(None),
        Err(e) => expected == Err::<Option<StoreMessageView>, TranslateError>(e),
    }
}

/// Turns one protocol event into at most one store message. A posted message
/// becomes `Add`, a removed one `Delete`, a ban `Ban`, a timeout `Suspend`;
/// any other event becomes nothing. An event whose identifiers cannot be read
/// is an error of that event alone.
pub fn translate(event: ProtocolEvent, format: IdFormat) -> (result: Result<
    Option<StoreMessage>,
    TranslateError,
>)
    ensures
        agrees(result, translation(event, format)),
{
    match event {
        ProtocolEvent::MessagePosted(m) => {
            let channel_id = match parse_id(m.channel_id.as_str()) {
                Some(id) => id,
                None => {
                    return Err(TranslateError::ChannelId);
                },
            };
            let sender_id = match parse_id(m.sender_id.as_str()) {
                Some(id) => id,
                None => {
                    return Err(TranslateError::UserId);
                },
            };
            if !format.accepts(m.message_id.as_str()) {
                return Err(TranslateError::MessageId);
            }
            Ok(
                Some(
                    StoreMessage::Add(
                        AddMessage {
                            channel_id,
                            sender_id,
                            channel_login: m.channel_login,
                            sender_login: m.sender_login,
                            sender_name: m.sender_name,
                            message_id: m.message_id,
                            message_text: m.message_text,
                            server_timestamp: m.server_timestamp,
                        },
                    ),
                ),
            )
        },
        ProtocolEvent::MessageRemoved(m) => {
            if !format.accepts(m.message_id.as_str()) {
                return Err(TranslateError::MessageId);
            }
            Ok(Some(StoreMessage::Delete(DeleteMessage { message_id: m.message_id })))
        },
        ProtocolEvent::UserBanned(m) => {
            let channel_id = match parse_id(m.channel_id.as_str()) {
                Some(id) => id,
                None => {
                    return Err(TranslateError::ChannelId);
                },
            };
            let user_id = match parse_id(m.user_id.as_str()) {
                Some(id) => id,
                None => {
                    return Err(TranslateError::UserId);
                },
            };
            Ok(
                Some(
                    StoreMessage::Ban(
                        BanMessage {
                            channel_id,
                            channel_login: m.channel_login,
                            user_id,
                            user_login: m.user_login,
                            server_timestamp: m.server_timestamp,
                        },
                    ),
                ),
            )
        },
        ProtocolEvent::UserTimedOut(m) => {
            let channel_id = match parse_id(m.channel_id.as_str()) {
                Some(id) => id,
                None => {
                    return Err(TranslateError::ChannelId);
                },
            };
            let user_id = match parse_id(m.user_id.as_str()) {
                Some(id) => id,
                None => {
                    return Err(TranslateError::UserId);
                },
            };
            Ok(
                Some(
                    StoreMessage::Suspend(
                        SuspendMessage {
                            channel_id,
                            channel_login: m.channel_login,
                            user_id,
                            user_login: m.user_login,
                            server_timestamp: m.server_timestamp,
                            timeout_duration: m.timeout_length,
                        },
                    ),
                ),
            )
        },
        ProtocolEvent::Other => Ok(None),
    }
}

} // verus!
