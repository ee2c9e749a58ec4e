use twirc::actor::{Outcome, StoreActor};
use twirc::backend::{judge, Backend, BackendKind};
use twirc::event::{AddMessage, BanMessage, DeleteMessage, StoreMessage, SuspendMessage};
use twirc::ident::IdFormat;
use twirc::mailbox::QUEUE_CAPACITY;
use twirc::record::{ChatHistory, ChatMessage, Timestamp};
use twirc::tables::{BackendError, Tables};

fn add(message_id: &str, channel_id: i32, sender_id: i32) -> AddMessage {
    AddMessage {
        channel_id,
        sender_id,
        channel_login: String::from("channel"),
        sender_login: String::from("sender"),
        sender_name: String::from("Sender"),
        message_id: String::from(message_id),
        message_text: String::from("hello"),
        server_timestamp: Timestamp { nanos: 1_700_000_000_000_000_000 },
    }
}

fn record(message_id: &str, channel_id: i32, sender_id: i32, deleted: bool) -> ChatMessage {
    ChatMessage {
        channel_id,
        sender_id,
        channel_login: String::from("channel"),
        sender_login: String::from("sender"),
        sender_name: String::from("Sender"),
        message_id: String::from(message_id),
        message_text: String::from("hello"),
        server_timestamp: Timestamp { nanos: 1_700_000_000_000_000_000 },
        deleted,
    }
}

fn delete(message_id: &str) -> DeleteMessage {
    DeleteMessage { message_id: String::from(message_id) }
}

fn ban(channel_id: i32, user_id: i32, nanos: i64) -> BanMessage {
    BanMessage {
        channel_id,
        channel_login: String::from("channel"),
        user_id,
        user_login: String::from("user"),
        server_timestamp: Timestamp { nanos },
    }
}

fn suspend(channel_id: i32, user_id: i32, nanos: i64, seconds: u64) -> SuspendMessage {
    SuspendMessage {
        channel_id,
        channel_login: String::from("channel"),
        user_id,
        user_login: String::from("user"),
        server_timestamp: Timestamp { nanos },
        timeout_duration: seconds,
    }
}

#[test]
fn add_then_delete_then_stop_leaves_one_deleted_record() {
    let mut actor = StoreActor::new(Backend::memory());
    let answers = actor.drain(vec![
        StoreMessage::Add(add("m1", 1, 7)),
        StoreMessage::Delete(delete("m1")),
        StoreMessage::Stop,
    ]);
    assert_eq!(answers, vec![Outcome::Applied(1), Outcome::Applied(1), Outcome::Stopped]);
    assert!(actor.is_stopped());
    let backend = actor.into_backend();
    let tables = backend.tables().unwrap();
    assert_eq!(tables.message_count(), 1);
    assert_eq!(tables.history_count(), 0);
    assert_eq!(tables.get("m1"), Some(&record("m1", 1, 7, true)));
}

#[test]
fn every_added_message_is_held_undeleted() {
    let mut actor = StoreActor::new(Backend::memory());
    let mut batch = Vec::new();
    for n in 0..50 {
        batch.push(StoreMessage::Add(add(&format!("id-{n}"), n % 3, n % 5)));
    }
    let answers = actor.drain(batch);
    assert_eq!(answers, vec![Outcome::Applied(1); 50]);
    let tables = actor.backend().tables().unwrap();
    assert_eq!(tables.message_count(), 50);
    for n in 0..50 {
        let id = format!("id-{n}");
        assert!(tables.contains(&id));
        assert_eq!(tables.get(&id), Some(&record(&id, n % 3, n % 5, false)));
    }
}

#[test]
fn the_order_of_arrival_does_not_decide_what_is_held() {
    let mut forward = StoreActor::new(Backend::memory());
    let mut backward = StoreActor::new(Backend::memory());
    let numbered = |n: i32| StoreMessage::Add(add(&format!("id-{n}"), 1, n));
    forward.drain((0..20).map(numbered).collect());
    backward.drain((0..20).rev().map(numbered).collect());
    let one = forward.backend().tables().unwrap();
    let other = backward.backend().tables().unwrap();
    assert_eq!(one.message_count(), other.message_count());
    for n in 0..20 {
        let id = format!("id-{n}");
        assert_eq!(one.get(&id), other.get(&id));
        assert_eq!(one.get(&id).map(|r| r.deleted), Some(false));
    }
    assert_eq!(one.message_at(0).map(|r| r.message_id.as_str()), Some("id-0"));
    assert_eq!(other.message_at(0).map(|r| r.message_id.as_str()), Some("id-19"));
}

#[test]
fn delete_marks_that_record_and_no_other() {
    let mut tables = Tables::new();
    assert_eq!(tables.apply_add(add("a", 1, 7)), Ok(()));
    assert_eq!(tables.apply_add(add("b", 1, 7)), Ok(()));
    assert_eq!(tables.apply_add(add("c", 2, 8)), Ok(()));
    assert_eq!(tables.apply_delete(&delete("b")), Ok(()));
    assert_eq!(tables.get("a"), Some(&record("a", 1, 7, false)));
    assert_eq!(tables.get("b"), Some(&record("b", 1, 7, true)));
    assert_eq!(tables.get("c"), Some(&record("c", 2, 8, false)));
    assert_eq!(tables.message_count(), 3);
    assert_eq!(tables.history_count(), 0);
}

#[test]
fn delete_of_unknown_message_is_a_soft_failure() {
    let mut actor = StoreActor::new(Backend::memory());
    assert_eq!(actor.handle(StoreMessage::Add(add("known", 1, 7))), Outcome::Applied(1));
    let outcome = actor.handle(StoreMessage::Delete(delete("never-added")));
    assert_eq!(outcome, Outcome::Failed(BackendError::UnknownMessage));
    assert!(outcome.is_failure());
    let tables = actor.backend().tables().unwrap();
    assert_eq!(tables.message_count(), 1);
    assert!(!tables.contains("never-added"));
    assert_eq!(tables.get("never-added"), None);
    assert_eq!(tables.get("known"), Some(&record("known", 1, 7, false)));
    assert!(!actor.is_stopped());
    assert_eq!(actor.handle(StoreMessage::Add(add("next", 1, 7))), Outcome::Applied(1));
}

#[test]
fn delete_on_empty_tables_creates_nothing() {
    let mut tables = Tables::new();
    assert_eq!(tables.apply_delete(&delete("m1")), Err(BackendError::UnknownMessage));
    assert_eq!(tables.message_count(), 0);
    assert_eq!(tables.history_count(), 0);
    assert_eq!(tables.message_at(0), None);
    assert_eq!(tables.history_at(0), None);
}

#[test]
fn ban_marks_every_record_of_the_pair_and_is_recorded_once() {
    let mut tables = Tables::new();
    tables.apply_add(add("a", 1, 7)).unwrap();
    tables.apply_add(add("b", 1, 8)).unwrap();
    tables.apply_add(add("c", 2, 7)).unwrap();
    tables.apply_add(add("d", 1, 7)).unwrap();
    tables.apply_delete(&delete("d")).unwrap();
    let marked = tables.apply_ban_or_suspend(ChatHistory::from(ban(1, 7, 42)));
    assert_eq!(marked, 2);
    assert_eq!(tables.get("a").map(|r| r.deleted), Some(true));
    assert_eq!(tables.get("b").map(|r| r.deleted), Some(false));
    assert_eq!(tables.get("c").map(|r| r.deleted), Some(false));
    assert_eq!(tables.get("d").map(|r| r.deleted), Some(true));
    assert_eq!(tables.message_count(), 4);
    assert_eq!(tables.history_count(), 1);
    let entry = tables.history_at(0).unwrap();
    assert_eq!(
        entry,
        &ChatHistory {
            channel_id: 1,
            channel_login: String::from("channel"),
            user_id: 7,
            user_login: String::from("user"),
            server_timestamp: Timestamp { nanos: 42 },
            timeout_duration: None,
        }
    );
    assert!(entry.is_permanent());
    assert_eq!(tables.history_at(1), None);
}

#[test]
fn suspension_is_recorded_with_its_duration() {
    let mut actor = StoreActor::new(Backend::memory());
    let answers = actor.drain(vec![
        StoreMessage::Add(add("a", 1, 7)),
        StoreMessage::Add(add("b", 1, 7)),
        StoreMessage::Add(add("c", 3, 7)),
        StoreMessage::Suspend(suspend(1, 7, 99, 600)),
    ]);
    assert_eq!(
        answers,
        vec![Outcome::Applied(1), Outcome::Applied(1), Outcome::Applied(1), Outcome::Applied(2)]
    );
    let tables = actor.backend().tables().unwrap();
    assert_eq!(tables.get("a").map(|r| r.deleted), Some(true));
    assert_eq!(tables.get("b").map(|r| r.deleted), Some(true));
    assert_eq!(tables.get("c").map(|r| r.deleted), Some(false));
    assert_eq!(tables.history_count(), 1);
    let entry = tables.history_at(0).unwrap();
    assert_eq!(entry.timeout_duration, Some(600));
    assert!(!entry.is_permanent());
    assert_eq!(entry.server_timestamp, Timestamp { nanos: 99 });
}

#[test]
fn moderation_of_a_silent_user_marks_nothing_and_is_still_recorded() {
    let mut tables = Tables::new();
    tables.apply_add(add("a", 1, 7)).unwrap();
    assert_eq!(tables.apply_ban_or_suspend(ChatHistory::from(ban(1, 9, 5))), 0);
    assert_eq!(tables.apply_ban_or_suspend(ChatHistory::from(suspend(1, 9, 5, 10))), 0);
    assert_eq!(tables.get("a").map(|r| r.deleted), Some(false));
    assert_eq!(tables.history_count(), 2);
    assert_eq!(tables.history_at(0).map(|h| h.timeout_duration), Some(None));
    assert_eq!(tables.history_at(1).map(|h| h.timeout_duration), Some(Some(10)));
}

#[test]
fn second_delete_changes_nothing() {
    let mut once = Tables::new();
    let mut twice = Tables::new();
    for tables in [&mut once, &mut twice] {
        tables.apply_add(add("a", 1, 7)).unwrap();
        tables.apply_add(add("b", 1, 7)).unwrap();
        assert_eq!(tables.apply_delete(&delete("a")), Ok(()));
    }
    assert_eq!(twice.apply_delete(&delete("a")), Ok(()));
    assert_eq!(once.message_count(), twice.message_count());
    assert_eq!(once.history_count(), twice.history_count());
    for row in 0..2 {
        assert_eq!(once.message_at(row), twice.message_at(row));
    }
    assert_eq!(twice.get("a"), Some(&record("a", 1, 7, true)));
    assert_eq!(twice.get("b"), Some(&record("b", 1, 7, false)));
}

#[test]
fn duplicate_message_is_refused_and_the_held_record_stays() {
    let mut tables = Tables::new();
    assert_eq!(tables.apply_add(add("a", 1, 7)), Ok(()));
    assert_eq!(tables.apply_delete(&delete("a")), Ok(()));
    let mut again = add("a", 5, 6);
    again.message_text = String::from("other text");
    assert_eq!(tables.apply_add(again), Err(BackendError::DuplicateMessage));
    assert_eq!(tables.message_count(), 1);
    assert_eq!(tables.get("a"), Some(&record("a", 1, 7, true)));
}

#[test]
fn nothing_is_applied_after_stop() {
    let mut actor = StoreActor::new(Backend::memory());
    let answers = actor.drain(vec![
        StoreMessage::Add(add("a", 1, 7)),
        StoreMessage::Stop,
        StoreMessage::Add(add("b", 1, 7)),
        StoreMessage::Delete(delete("a")),
        StoreMessage::Stop,
    ]);
    assert_eq!(
        answers,
        vec![
            Outcome::Applied(1),
            Outcome::Stopped,
            Outcome::Refused,
            Outcome::Refused,
            Outcome::Refused
        ]
    );
    assert_eq!(actor.handle(StoreMessage::Ban(ban(1, 7, 1))), Outcome::Refused);
    let tables = actor.backend().tables().unwrap();
    assert_eq!(tables.message_count(), 1);
    assert_eq!(tables.history_count(), 0);
    assert_eq!(tables.get("a"), Some(&record("a", 1, 7, false)));
}

#[test]
fn a_failure_does_not_end_the_actor() {
    let mut actor = StoreActor::new(Backend::memory());
    let answers = actor.drain(vec![
        StoreMessage::Delete(delete("x")),
        StoreMessage::Add(add("x", 1, 7)),
        StoreMessage::Add(add("x", 1, 7)),
        StoreMessage::Delete(delete("x")),
    ]);
    assert_eq!(
        answers,
        vec![
            Outcome::Failed(BackendError::UnknownMessage),
            Outcome::Applied(1),
            Outcome::Failed(BackendError::DuplicateMessage),
            Outcome::Applied(1)
        ]
    );
    assert!(!actor.is_stopped());
}

#[test]
fn null_backend_takes_everything_and_keeps_nothing() {
    let mut actor = StoreActor::new(Backend::null());
    let answers = actor.drain(vec![
        StoreMessage::Add(add("a", 1, 7)),
        StoreMessage::Add(add("a", 1, 7)),
        StoreMessage::Delete(delete("zzz")),
        StoreMessage::Ban(ban(1, 7, 1)),
        StoreMessage::Suspend(suspend(1, 7, 2, 30)),
        StoreMessage::Stop,
        StoreMessage::Add(add("b", 1, 7)),
    ]);
    assert_eq!(
        answers,
        vec![
            Outcome::Applied(0),
            Outcome::Applied(0),
            Outcome::Applied(0),
            Outcome::Applied(0),
            Outcome::Applied(0),
            Outcome::Stopped,
            Outcome::Refused
        ]
    );
    assert!(actor.backend().tables().is_none());
}

#[test]
fn backend_apply_reports_rows() {
    let mut backend = Backend::memory();
    assert_eq!(backend.apply(StoreMessage::Stop), Ok(0));
    assert_eq!(backend.apply(StoreMessage::Add(add("a", 1, 7))), Ok(1));
    assert_eq!(backend.apply(StoreMessage::Add(add("b", 1, 7))), Ok(1));
    assert_eq!(
        backend.apply(StoreMessage::Add(add("a", 1, 7))),
        Err(BackendError::DuplicateMessage)
    );
    assert_eq!(backend.apply(StoreMessage::Ban(ban(1, 7, 3))), Ok(2));
    assert_eq!(backend.apply(StoreMessage::Delete(delete("a"))), Ok(1));
    assert_eq!(
        backend.apply(StoreMessage::Delete(delete("c"))),
        Err(BackendError::UnknownMessage)
    );
    assert_eq!(backend.tables().unwrap().history_count(), 1);
}

#[test]
fn kinds_of_backend() {
    assert_eq!(BackendKind::Null.id_format(), IdFormat::Opaque);
    assert_eq!(BackendKind::Memory.id_format(), IdFormat::Opaque);
    assert_eq!(BackendKind::EmbeddedKv.id_format(), IdFormat::Opaque);
    assert_eq!(BackendKind::Relational.id_format(), IdFormat::Uuid);
    assert!(Backend::of_kind(BackendKind::Null).unwrap().tables().is_none());
    let memory = Backend::of_kind(BackendKind::Memory).unwrap();
    assert_eq!(memory.tables().unwrap().message_count(), 0);
    assert!(Backend::of_kind(BackendKind::EmbeddedKv).is_none());
    assert!(Backend::of_kind(BackendKind::Relational).is_none());
    assert_eq!(QUEUE_CAPACITY, 200);
}

#[test]
fn rows_tell_success_from_nothing_matched() {
    let added = StoreMessage::Add(add("a", 1, 7));
    let deleted = StoreMessage::Delete(delete("a"));
    let banned = StoreMessage::Ban(ban(1, 7, 1));
    let suspended = StoreMessage::Suspend(suspend(1, 7, 1, 5));
    assert_eq!(judge(&added, 1), Ok(1));
    assert_eq!(judge(&added, 0), Err(BackendError::DuplicateMessage));
    assert_eq!(judge(&deleted, 1), Ok(1));
    assert_eq!(judge(&deleted, 0), Err(BackendError::UnknownMessage));
    assert_eq!(judge(&banned, 0), Ok(0));
    assert_eq!(judge(&banned, 12), Ok(12));
    assert_eq!(judge(&suspended, 0), Ok(0));
    assert_eq!(judge(&StoreMessage::Stop, 0), Ok(0));
    assert_eq!(
        Outcome::from_report(judge(&deleted, 0)),
        Outcome::Failed(BackendError::UnknownMessage)
    );
    assert_eq!(Outcome::from_report(judge(&banned, 3)), Outcome::Applied(3));
}
