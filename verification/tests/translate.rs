use twirc::event::{AddMessage, BanMessage, DeleteMessage, StoreMessage, SuspendMessage};
use twirc::ident::{check_uuid, parse_id, IdFormat};
use twirc::protocol::{
    translate, MessagePosted, MessageRemoved, ProtocolEvent, TranslateError, UserBanned,
    UserTimedOut,
};
use twirc::record::Timestamp;

const UUID: &str = "885196de-cb67-427a-baa8-82f9b0fcd05f";

fn posted(channel_id: &str, sender_id: &str, message_id: &str) -> ProtocolEvent {
    ProtocolEvent::MessagePosted(MessagePosted {
        channel_id: String::from(channel_id),
        channel_login: String::from("pajlada"),
        sender_id: String::from(sender_id),
        sender_login: String::from("randers"),
        sender_name: String::from("randers"),
        message_id: String::from(message_id),
        message_text: String::from("dank cam"),
        server_timestamp: Timestamp { nanos: 1_594_545_155_039_000_000 },
    })
}

fn banned(channel_id: &str, user_id: &str) -> ProtocolEvent {
    ProtocolEvent::UserBanned(UserBanned {
        channel_id: String::from(channel_id),
        channel_login: String::from("pajlada"),
        user_id: String::from(user_id),
        user_login: String::from("weeb123"),
        server_timestamp: Timestamp { nanos: 7 },
    })
}

fn timed_out(channel_id: &str, user_id: &str, seconds: u64) -> ProtocolEvent {
    ProtocolEvent::UserTimedOut(UserTimedOut {
        channel_id: String::from(channel_id),
        channel_login: String::from("pajlada"),
        user_id: String::from(user_id),
        user_login: String::from("weeb123"),
        server_timestamp: Timestamp { nanos: 8 },
        timeout_length: seconds,
    })
}

#[test]
fn decimal_identifiers() {
    assert_eq!(parse_id("0"), Some(0));
    assert_eq!(parse_id("7"), Some(7));
    assert_eq!(parse_id("11148817"), Some(11148817));
    assert_eq!(parse_id("+15"), Some(15));
    assert_eq!(parse_id("-15"), Some(-15));
    assert_eq!(parse_id("-0"), Some(0));
    assert_eq!(parse_id("0000000000000000000000042"), Some(42));
    assert_eq!(parse_id("2147483647"), Some(i32::MAX));
    assert_eq!(parse_id("+2147483647"), Some(i32::MAX));
    assert_eq!(parse_id("-2147483648"), Some(i32::MIN));
    assert_eq!(parse_id("-0002147483648"), Some(i32::MIN));
}

#[test]
fn texts_that_are_no_identifier() {
    assert_eq!(parse_id(""), None);
    assert_eq!(parse_id("-"), None);
    assert_eq!(parse_id("+"), None);
    assert_eq!(parse_id("+-1"), None);
    assert_eq!(parse_id("--1"), None);
    assert_eq!(parse_id("1-"), None);
    assert_eq!(parse_id(" 1"), None);
    assert_eq!(parse_id("1 "), None);
    assert_eq!(parse_id("12a"), None);
    assert_eq!(parse_id("a12"), None);
    assert_eq!(parse_id("1.0"), None);
    assert_eq!(parse_id("0x10"), None);
    assert_eq!(parse_id("١٢"), None);
    assert_eq!(parse_id("1２"), None);
    assert_eq!(parse_id("2147483648"), None);
    assert_eq!(parse_id("-2147483649"), None);
    assert_eq!(parse_id("4294967296"), None);
    assert_eq!(parse_id("99999999999999999999999999999999999999"), None);
    assert_eq!(parse_id("-99999999999999999999999999999999999999"), None);
    assert_eq!(parse_id("99999999999999999999999999999999999999x"), None);
}

#[test]
fn identifiers_agree_with_the_standard_reading() {
    for text in [
        "0", "-0", "+0", "1", "-1", "+1", "", "+", "-", "12", "2147483647", "2147483648",
        "-2147483648", "-2147483649", "00012", "1_000", "１２", "12 ", "abc", "9999999999",
    ] {
        assert_eq!(parse_id(text), text.parse::<i32>().ok(), "{text:?}");
    }
}

#[test]
fn uuid_form() {
    assert!(check_uuid(UUID));
    assert!(check_uuid("885196DE-CB67-427A-BAA8-82F9B0FCD05F"));
    assert!(check_uuid("00000000-0000-0000-0000-000000000000"));
    assert!(!check_uuid(""));
    assert!(!check_uuid("m1"));
    assert!(!check_uuid("885196de-cb67-427a-baa8-82f9b0fcd05"));
    assert!(!check_uuid("885196de-cb67-427a-baa8-82f9b0fcd05f0"));
    assert!(!check_uuid("885196decb67427abaa882f9b0fcd05f"));
    assert!(!check_uuid("885196de_cb67_427a_baa8_82f9b0fcd05f"));
    assert!(!check_uuid("885196de-cb67-427a-baa8-82f9b0fcd05g"));
    assert!(!check_uuid("885196de-cb67-427a-baa8082f9b0fcd05f"));
    assert!(!check_uuid("885196de-cb67-427a-baa8-82f9b0-cd05f"));
    assert!(!check_uuid("{85196de-cb67-427a-baa8-82f9b0fcd05}"));
    assert!(!check_uuid("885196de-cb67-427a-baa8-82f9b0fcd0é"));
    assert!(IdFormat::Uuid.accepts(UUID));
    assert!(!IdFormat::Uuid.accepts("m1"));
    assert!(IdFormat::Opaque.accepts("m1"));
    assert!(IdFormat::Opaque.accepts(""));
}

#[test]
fn posted_message_becomes_add() {
    assert_eq!(
        translate(posted("11148817", "40286300", UUID), IdFormat::Uuid),
        Ok(Some(StoreMessage::Add(AddMessage {
            channel_id: 11148817,
            sender_id: 40286300,
            channel_login: String::from("pajlada"),
            sender_login: String::from("randers"),
            sender_name: String::from("randers"),
            message_id: String::from(UUID),
            message_text: String::from("dank cam"),
            server_timestamp: Timestamp { nanos: 1_594_545_155_039_000_000 },
        })))
    );
}

#[test]
fn removed_message_becomes_delete() {
    let removed = ProtocolEvent::MessageRemoved(MessageRemoved { message_id: String::from(UUID) });
    assert_eq!(
        translate(removed, IdFormat::Uuid),
        Ok(Some(StoreMessage::Delete(DeleteMessage { message_id: String::from(UUID) })))
    );
    let short = ProtocolEvent::MessageRemoved(MessageRemoved { message_id: String::from("m1") });
    assert_eq!(
        translate(short, IdFormat::Opaque),
        Ok(Some(StoreMessage::Delete(DeleteMessage { message_id: String::from("m1") })))
    );
}

#[test]
fn ban_becomes_ban() {
    assert_eq!(
        translate(banned("11148817", "70948394"), IdFormat::Uuid),
        Ok(Some(StoreMessage::Ban(BanMessage {
            channel_id: 11148817,
            channel_login: String::from("pajlada"),
            user_id: 70948394,
            user_login: String::from("weeb123"),
            server_timestamp: Timestamp { nanos: 7 },
        })))
    );
}

#[test]
fn timeout_becomes_suspend() {
    assert_eq!(
        translate(timed_out("11148817", "70948394", 600), IdFormat::Opaque),
        Ok(Some(StoreMessage::Suspend(SuspendMessage {
            channel_id: 11148817,
            channel_login: String::from("pajlada"),
            user_id: 70948394,
            user_login: String::from("weeb123"),
            server_timestamp: Timestamp { nanos: 8 },
            timeout_duration: 600,
        })))
    );
}

#[test]
fn other_events_become_nothing() {
    assert_eq!(translate(ProtocolEvent::Other, IdFormat::Opaque), Ok(None));
    assert_eq!(translate(ProtocolEvent::Other, IdFormat::Uuid), Ok(None));
}

#[test]
fn malformed_channel_identifier() {
    assert_eq!(translate(posted("abc", "1", UUID), IdFormat::Uuid), Err(TranslateError::ChannelId));
    assert_eq!(translate(posted("", "x", "m1"), IdFormat::Uuid), Err(TranslateError::ChannelId));
    assert_eq!(translate(banned("1e3", "1"), IdFormat::Opaque), Err(TranslateError::ChannelId));
    assert_eq!(
        translate(timed_out("2147483648", "1", 1), IdFormat::Opaque),
        Err(TranslateError::ChannelId)
    );
}

#[test]
fn malformed_user_identifier() {
    assert_eq!(translate(posted("1", "", "m1"), IdFormat::Uuid), Err(TranslateError::UserId));
    assert_eq!(
        translate(posted("1", "seven", UUID), IdFormat::Opaque),
        Err(TranslateError::UserId)
    );
    assert_eq!(translate(banned("1", "-"), IdFormat::Opaque), Err(TranslateError::UserId));
    assert_eq!(translate(timed_out("1", "1 ", 1), IdFormat::Opaque), Err(TranslateError::UserId));
}

#[test]
fn malformed_message_identifier() {
    assert_eq!(translate(posted("1", "7", "m1"), IdFormat::Uuid), Err(TranslateError::MessageId));
    let removed = ProtocolEvent::MessageRemoved(MessageRemoved { message_id: String::from("m1") });
    assert_eq!(translate(removed, IdFormat::Uuid), Err(TranslateError::MessageId));
    assert!(translate(posted("1", "7", "m1"), IdFormat::Opaque).is_ok());
}
