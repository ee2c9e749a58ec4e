//! The message table and the moderation history, with what each event does
//! to them.

use vstd::prelude::*;
use crate::event::{AddMessage, DeleteMessage, StoreMessageView};
use crate::record::{ChatHistory, ChatHistoryView, ChatMessage, ChatMessageView};

verus! {

/// Why the store left an event unapplied. Both are failures of one event
/// only: the store is as it was, and the next event can be applied.
#[derive(Clone, Copy, Debug, PartialEq, Eq, Structural)]
pub enum BackendError {
    /// A record with the identifier of the new message is already held.
    DuplicateMessage,
    /// No record has the identifier that the event names.
    UnknownMessage,
}

/// The rows that bear the identifier `message_id`.
pub open spec fn under(rows: Seq<ChatMessageView>, message_id: Seq<char>) -> Seq<ChatMessageView> {
    rows.filter(|r: ChatMessageView| r.message_id == message_id)
}

/// The rows of the messages that `user_id` posted in `channel_id`.
pub open spec fn posted_by(rows: Seq<ChatMessageView>, channel_id: i32, user_id: i32) -> Seq<
    ChatMessageView,
> {
    rows.filter(|r: ChatMessageView| r.sent_by(channel_id, user_id))
}

/// Counting one row further adds one exactly when the user posted that row.
proof fn lemma_posted_by_step(rows: Seq<ChatMessageView>, at: int, channel_id: i32, user_id: i32)
    requires
        0 <= at < rows.len(),
    ensures
        posted_by(rows.take(at + 1), channel_id, user_id).len() == posted_by(
            rows.take(at),
            channel_id,
            user_id,
        ).len() + if rows[at].sent_by(channel_id, user_id) {
            1nat
        } else {
            0nat
        },
{
    reveal(Seq::filter);
    assert(rows.take(at + 1).drop_last() =~= rows.take(at));
}

/// What the two tables hold: the message records in the order in which they
/// were created, and the moderation history in the order in which it grew.
pub struct TablesView {
    pub messages: Seq<ChatMessageView>,
    pub history: Seq<ChatHistoryView>,
}

impl TablesView {
    /// Two tables without a row.
    pub open spec fn empty() -> TablesView {
        TablesView { messages: Seq::empty(), history: Seq::empty() }
    }

    /// Whether a record is held under `message_id`.
    pub open spec fn has(self, message_id: Seq<char>) -> bool {
        exists|i: int|
            0 <= i < self.messages.len() && (#[trigger] self.messages[i]).message_id == message_id
    }

    /// The record held under `message_id`, where there is one.
    pub open spec fn record(self, message_id: Seq<char>) -> ChatMessageView
        recommends
            self.has(message_id),
    {
        let i = choose|i: int|
            0 <= i < self.messages.len() && (#[trigger] self.messages[i]).message_id == message_id;
        self.messages[i]
    }

    /// The message table is keyed by the message identifier: no two records
    /// share one.
    pub open spec fn keyed(self) -> bool {
        forall|i: int, j: int|
            0 <= i < j < self.messages.len() ==> (#[trigger] self.messages[i]).message_id != (
            #[trigger] self.messages[j]).message_id
    }

    /// How many records were posted by `user_id` in `channel_id`.
    pub open spec fn covered(self, channel_id: i32, user_id: i32) -> nat {
        posted_by(self.messages, channel_id, user_id).len()
    }

    /// The tables after a message was added: with its record behind the
    /// others, unless its identifier is taken, in which case nothing changes.
    pub open spec fn add(self, record: ChatMessageView) -> TablesView {
        if self.has(record.message_id) {
            self
        } else {
            TablesView { messages: self.messages.push(record), history: self.history }
        }
    }

    /// The tables after the message `message_id` was deleted: its record is
    /// marked, and every other row is as before.
    pub open spec fn delete(self, message_id: Seq<char>) -> TablesView {
        TablesView {
            messages: self.messages.map_values(
                |r: ChatMessageView|
                    if r.message_id == message_id {
                        r.marked()
                    } else {
                        r
                    },
            ),
            history: self.history,
        }
    }

    /// The tables after a ban or a suspension: every record of that user in
    /// that channel is marked, and the entry stands at the end of the history.
    pub open spec fn moderate(self, entry: ChatHistoryView) -> TablesView {
        TablesView {
            messages: self.messages.map_values(
                |r: ChatMessageView|
                    if r.sent_by(entry.channel_id, entry.user_id) {
                        r.marked()
                    } else {
                        r
                    },
            ),
            history: self.history.push(entry),
        }
    }

    /// The tables after one event. `Stop` is no fact and changes nothing.
    pub open spec fn apply(self, message: StoreMessageView) -> TablesView {
        match message {
            StoreMessageView::Stop => self,
            StoreMessageView::Add(record) => self.add(record),
            StoreMessageView::Delete(message_id) => self.delete(message_id),
            StoreMessageView::Ban(entry) => self.moderate(entry),
            StoreMessageView::Suspend(entry) => self.moderate(entry),
        }
    }
}

/// The content of each record of a message table, in the table's order.
pub open spec fn message_views(rows: Seq<ChatMessage>) -> Seq<ChatMessageView> {
    rows.map_values(|m: ChatMessage| m@)
}

/// The content of each entry of a moderation history, in the history's order.
pub open spec fn history_views(rows: Seq<ChatHistory>) -> Seq<ChatHistoryView> {
    rows.map_values(|h: ChatHistory| h@)
}

/// The message table and the moderation history, held in memory.
pub struct Tables {
    messages: Vec<ChatMessage>,
    history: Vec<ChatHistory>,
}

impl View for Tables {
    type V = TablesView;

    closed spec fn view(&self) -> TablesView {
        TablesView {
            messages: message_views(self.messages@),
            history: history_views(self.history@),
        }
    }
}

impl Tables {
    /// Holds of every value of this type: the message table is keyed.
    #[verifier::type_invariant]
    pub open spec fn well_keyed(&self) -> bool {
        self@.keyed()
    }

    /// Two tables without a row.
    pub fn new() -> (tables: Tables)
        ensures
            tables@ == TablesView::empty(),
    {
        let tables = Tables { messages: Vec::new(), history: Vec::new() };
        assert(tables@.messages =~= Seq::empty());
        assert(tables@.history =~= Seq::empty());
        tables
    }

    /// The row of the record held under `message_id`.
    fn position(&self, message_id: &str) -> (found: Option<usize>)
        ensures
            match found {
                Some(i) => i < self.messages.len() && self.messages[i as int]@.message_id
                    == message_id@ && self@.has(message_id@),
                None => !self@.has(message_id@),
            },
    {
        let mut at: usize = 0;
        while at < self.messages.len()
            invariant
                at <= self.messages.len(),
                forall|k: int| 0 <= k < at ==> self.messages[k]@.message_id != message_id@,
            decreases self.messages.len() - at,
        {
            if self.messages[at].has_id(message_id) {
                assert(self@.messages[at as int] == self.messages[at as int]@);
                return Some(at);
            }
            at += 1;
        }
        assert forall|i: int| 0 <= i < self@.messages.len() implies (
        #[trigger] self@.messages[i]).message_id != message_id@ by {
            assert(self@.messages[i] == self.messages[i]@);
        }
        None
    }

    /// Creates the record of a new message. A message whose identifier is
    /// already held is refused, and the record that is held stays untouched.
    pub fn apply_add(&mut self, msg: AddMessage) -> (done: Result<(), BackendError>)
        ensures
            final(self)@ == old(self)@.add(msg@),
            final(self)@.keyed(),
            match done {
                Ok(()) => !old(self)@.has(msg@.message_id),
                Err(e) => e == BackendError::DuplicateMessage && old(self)@.has(msg@.message_id),
            },
    {
        proof {
            use_type_invariant(&*self);
        }
        match self.position(msg.message_id.as_str()) {
            Some(i) => {
                assert(self@.messages[i as int] == self.messages[i as int]@);
                Err(BackendError::DuplicateMessage)
            },
            None => {
                let ghost before = self@;
                let record = ChatMessage::from(msg);
                assert(record@ == msg@);
                let mut rows: Vec<ChatMessage> = Vec::new();
                std::mem::swap(&mut self.messages, &mut rows);
                rows.push(record);
                proof {
                    let after = TablesView {
                        messages: message_views(rows@),
                        history: before.history,
                    };
                    assert(after.messages =~= before.messages.push(msg@));
                    assert(after.keyed());
                }
                self.messages = rows;
                Ok(())
            },
        }
    }

    /// Marks the record of a removed message as deleted. Where no record has
    /// the identifier, nothing is created and nothing changes.
    pub fn apply_delete(&mut self, msg: &DeleteMessage) -> (done: Result<(), BackendError>)
        ensures
            final(self)@ == old(self)@.delete(msg@),
            final(self)@.keyed(),
            match done {
                Ok(()) => old(self)@.has(msg@),
                Err(e) => e == BackendError::UnknownMessage && !old(self)@.has(msg@)
                    && final(self)@ == old(self)@,
            },
    {
        proof {
            use_type_invariant(&*self);
        }
        let ghost before = self@;
        match self.position(msg.message_id.as_str()) {
            Some(i) => {
                assert(before.messages[i as int] == self.messages[i as int]@);
                let mut rows: Vec<ChatMessage> = Vec::new();
                std::mem::swap(&mut self.messages, &mut rows);
                rows[i].mark_deleted();
                proof {
                    let after = TablesView {
                        messages: message_views(rows@),
                        history: before.history,
                    };
                    assert forall|k: int| 0 <= k < rows.len() implies after.messages[k]
                        == before.delete(msg@).messages[k] by {
                        let rows = before.messages;
                        assert(rows[k] == old(self).messages[k]@);
                        if k != i {
                            assert(rows[k].message_id != rows[i as int].message_id);
                        }
                    }
                    assert(after.messages =~= before.delete(msg@).messages);
                    assert(after.keyed());
                }
                self.messages = rows;
                Ok(())
            },
            None => {
                assert(before.delete(msg@).messages =~= before.messages);
                Err(BackendError::UnknownMessage)
            },
        }
    }

    /// Applies a ban or a suspension: marks every record that the user has in
    /// the channel, whether or not it was marked before, and writes the entry
    /// at the end of the history. Returns how many records it covers.
    pub fn apply_ban_or_suspend(&mut self, entry: ChatHistory) -> (marked: usize)
        ensures
            final(self)@ == old(self)@.moderate(entry@),
            final(self)@.keyed(),
            marked == old(self)@.covered(entry@.channel_id, entry@.user_id),
    {
        proof {
            use_type_invariant(&*self);
        }
        let ghost before = self@;
        let ghost goal = before.moderate(entry@);
        let channel_id: i32 = entry.channel_id;
        let user_id: i32 = entry.user_id;
        let mut rows: Vec<ChatMessage> = Vec::new();
        std::mem::swap(&mut self.messages, &mut rows);
        let mut marked: usize = 0;
        let mut at: usize = 0;
        proof {
            reveal(Seq::filter);
            assert(before.messages.take(0) =~= Seq::empty());
        }
        while at < rows.len()
            invariant
                at <= rows.len(),
                rows.len() == before.messages.len(),
                goal == before.moderate(entry@),
                channel_id == entry@.channel_id,
                user_id == entry@.user_id,
                marked <= at,
                marked == posted_by(before.messages.take(at as int), channel_id, user_id).len(),
                forall|k: int| 0 <= k < at ==> rows[k]@ == goal.messages[k],
                forall|k: int| at <= k < rows.len() ==> rows[k]@ == before.messages[k],
            decreases rows.len() - at,
        {
            proof {
                lemma_posted_by_step(before.messages, at as int, channel_id, user_id);
            }
            if rows[at].sent_by(channel_id, user_id) {
                rows[at].mark_deleted();
                marked += 1;
            }
            at += 1;
        }
        let mut log: Vec<ChatHistory> = Vec::new();
        std::mem::swap(&mut self.history, &mut log);
        log.push(entry);
        proof {
            let after = TablesView {
                messages: message_views(rows@),
                history: history_views(log@),
            };
            assert(before.messages.take(at as int) =~= before.messages);
            assert(after.messages =~= goal.messages);
            assert(after.history =~= goal.history);
            let rows = after.messages;
            assert forall|i: int, j: int| 0 <= i < j < rows.len() implies (
            #[trigger] rows[i]).message_id != (#[trigger] rows[j]).message_id by {
                assert(before.messages[i].message_id != before.messages[j].message_id);
            }
        }
        self.history = log;
        self.messages = rows;
        marked
    }

    /// Whether a record is held under `message_id`.
    pub fn contains(&self, message_id: &str) -> (yes: bool)
        ensures
            yes == self@.has(message_id@),
    {
        self.position(message_id).is_some()
    }

    /// The record held under `message_id`.
    pub fn get(&self, message_id: &str) -> (found: Option<&ChatMessage>)
        ensures
            match found {
                Some(record) => self@.has(message_id@) && record@ == self@.record(message_id@),
                None => !self@.has(message_id@),
            },
    {
        proof {
            use_type_invariant(self);
        }
        match self.position(message_id) {
            Some(i) => {
                proof {
                    let rows = self@.messages;
                    assert(rows[i as int] == self.messages[i as int]@);
                    let pick = choose|k: int|
                        0 <= k < rows.len() && (#[trigger] rows[k]).message_id == message_id@;
                    if pick < i {
                        assert(rows[pick].message_id != rows[i as int].message_id);
                    } else if i < pick {
                        assert(rows[i as int].message_id != rows[pick].message_id);
                    }
                }
                Some(&self.messages[i])
            },
            None => None,
        }
    }

    /// The number of message records.
    pub fn message_count(&self) -> (count: usize)
        ensures
            count == self@.messages.len(),
    {
        self.messages.len()
    }

    /// The record in row `row` of the message table, counted from 0 in the
    /// order of creation.
    pub fn message_at(&self, row: usize) -> (found: Option<&ChatMessage>)
        ensures
            match found {
                Some(record) => row < self@.messages.len() && record@ == self@.messages[row as int],
                None => row >= self@.messages.len(),
            },
    {
        if row < self.messages.len() {
            Some(&self.messages[row])
        } else {
            None
        }
    }

    /// The number of entries in the moderation history.
    pub fn history_count(&self) -> (count: usize)
        ensures
            count == self@.history.len(),
    {
        self.history.len()
    }

    /// The entry in row `row` of the moderation history, counted from 0 in
    /// the order in which the history grew.
    pub fn history_at(&self, row: usize) -> (found: Option<&ChatHistory>)
        ensures
            match found {
                Some(entry) => row < self@.history.len() && entry@ == self@.history[row as int],
                None => row >= self@.history.len(),
            },
    {
        if row < self.history.len() {
            Some(&self.history[row])
        } else {
            None
        }
    }
}

} // verus!
