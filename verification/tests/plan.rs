use std::collections::BTreeMap;

use twirc::backend::Backend;
use twirc::event::{AddMessage, BanMessage, DeleteMessage, StoreMessage, SuspendMessage};
use twirc::plan::{lookup_for, plan_for, Lookup, Plan};
use twirc::record::{ChatHistory, ChatMessage, Timestamp};

fn add(message_id: &str, channel_id: i32, sender_id: i32) -> AddMessage {
    AddMessage {
        channel_id,
        sender_id,
        channel_login: String::from("channel"),
        sender_login: String::from("sender"),
        sender_name: String::from("Sender"),
        message_id: String::from(message_id),
        message_text: String::from("hello"),
        server_timestamp: Timestamp { nanos: 5 },
    }
}

fn record(message_id: &str, channel_id: i32, sender_id: i32, deleted: bool) -> ChatMessage {
    let mut record = ChatMessage::from(add(message_id, channel_id, sender_id));
    record.deleted = deleted;
    record
}

fn delete(message_id: &str) -> StoreMessage {
    StoreMessage::Delete(DeleteMessage { message_id: String::from(message_id) })
}

fn ban(channel_id: i32, user_id: i32) -> BanMessage {
    BanMessage {
        channel_id,
        channel_login: String::from("channel"),
        user_id,
        user_login: String::from("user"),
        server_timestamp: Timestamp { nanos: 9 },
    }
}

fn suspend(channel_id: i32, user_id: i32, seconds: u64) -> SuspendMessage {
    SuspendMessage {
        channel_id,
        channel_login: String::from("channel"),
        user_id,
        user_login: String::from("user"),
        server_timestamp: Timestamp { nanos: 9 },
        timeout_duration: seconds,
    }
}

#[test]
fn what_each_event_reads() {
    assert_eq!(lookup_for(&StoreMessage::Stop), Lookup::Nothing);
    assert_eq!(
        lookup_for(&StoreMessage::Add(add("a", 1, 7))),
        Lookup::Message(String::from("a"))
    );
    assert_eq!(lookup_for(&delete("b")), Lookup::Message(String::from("b")));
    assert_eq!(lookup_for(&StoreMessage::Ban(ban(1, 7))), Lookup::Messages);
    assert_eq!(lookup_for(&StoreMessage::Suspend(suspend(1, 7, 3))), Lookup::Messages);
}

#[test]
fn new_message_is_written_unless_its_identifier_is_taken() {
    assert_eq!(
        plan_for(StoreMessage::Add(add("a", 1, 7)), vec![]),
        Plan { messages: vec![record("a", 1, 7, false)], history: None }
    );
    assert_eq!(
        plan_for(StoreMessage::Add(add("a", 1, 7)), vec![record("a", 2, 8, true)]),
        Plan { messages: vec![], history: None }
    );
}

#[test]
fn deleted_message_is_written_back_marked() {
    assert_eq!(
        plan_for(delete("a"), vec![record("a", 1, 7, false)]),
        Plan { messages: vec![record("a", 1, 7, true)], history: None }
    );
    assert_eq!(
        plan_for(delete("a"), vec![record("a", 1, 7, true)]),
        Plan { messages: vec![record("a", 1, 7, true)], history: None }
    );
    assert_eq!(plan_for(delete("a"), vec![]), Plan { messages: vec![], history: None });
}

#[test]
fn moderation_writes_back_the_records_of_the_pair_and_its_entry() {
    let table = vec![
        record("a", 1, 7, false),
        record("b", 1, 8, false),
        record("c", 2, 7, false),
        record("d", 1, 7, true),
    ];
    assert_eq!(
        plan_for(StoreMessage::Ban(ban(1, 7)), table.clone()),
        Plan {
            messages: vec![record("a", 1, 7, true), record("d", 1, 7, true)],
            history: Some(ChatHistory::from(ban(1, 7))),
        }
    );
    assert_eq!(
        plan_for(StoreMessage::Suspend(suspend(2, 7, 60)), table.clone()),
        Plan {
            messages: vec![record("c", 2, 7, true)],
            history: Some(ChatHistory::from(suspend(2, 7, 60))),
        }
    );
    assert_eq!(
        plan_for(StoreMessage::Ban(ban(3, 3)), table),
        Plan { messages: vec![], history: Some(ChatHistory::from(ban(3, 3))) }
    );
}

#[test]
fn stop_writes_nothing() {
    assert_eq!(
        plan_for(StoreMessage::Stop, vec![record("a", 1, 7, false)]),
        Plan { messages: vec![], history: None }
    );
}

#[test]
fn key_value_store_written_by_plan_holds_what_the_tables_hold() {
    let events = vec![
        StoreMessage::Add(add("a", 1, 7)),
        StoreMessage::Add(add("b", 1, 8)),
        delete("zzz"),
        StoreMessage::Add(add("c", 2, 7)),
        StoreMessage::Add(add("a", 9, 9)),
        delete("b"),
        StoreMessage::Suspend(suspend(1, 7, 30)),
        StoreMessage::Add(add("d", 1, 7)),
        StoreMessage::Ban(ban(2, 7)),
        delete("b"),
        StoreMessage::Ban(ban(5, 5)),
    ];
    let mut backend = Backend::memory();
    let mut messages: BTreeMap<String, ChatMessage> = BTreeMap::new();
    let mut history: Vec<ChatHistory> = Vec::new();
    for event in events {
        let found: Vec<ChatMessage> = match lookup_for(&event) {
            Lookup::Nothing => vec![],
            Lookup::Message(id) => messages.get(&id).cloned().into_iter().collect(),
            Lookup::Messages => messages.values().cloned().collect(),
        };
        let plan = plan_for(event.clone(), found);
        let rows = plan.messages.len();
        for record in plan.messages {
            messages.insert(record.message_id.clone(), record);
        }
        history.extend(plan.history);
        match backend.apply(event) {
            Ok(touched) => assert_eq!(rows, touched),
            Err(_) => assert_eq!(rows, 0),
        }
    }
    let tables = backend.tables().unwrap();
    assert_eq!(tables.message_count(), messages.len());
    for (id, record) in &messages {
        assert_eq!(tables.get(id), Some(record));
    }
    assert_eq!(tables.history_count(), history.len());
    for (row, entry) in history.iter().enumerate() {
        assert_eq!(tables.history_at(row), Some(entry));
    }
    assert_eq!(tables.get("a").map(|r| (r.channel_id, r.deleted)), Some((1, true)));
    assert_eq!(tables.get("b").map(|r| r.deleted), Some(true));
    assert_eq!(tables.get("c").map(|r| r.deleted), Some(true));
    assert_eq!(tables.get("d").map(|r| r.deleted), Some(false));
    assert_eq!(history.len(), 3);
}
