//! What a key-value store has to read and to write for an event, so that its
//! one transaction does what the event says.

use vstd::prelude::*;
use crate::backend::touched;
use crate::event::{StoreMessage, StoreMessageView};
use crate::record::{ChatHistory, ChatHistoryView, ChatMessage, ChatMessageView};
use crate::tables::{message_views, posted_by, under, TablesView};

verus! {

/// What a key-value store has to read before an event can be applied to it,
/// in the transaction that applies it.
#[derive(Debug, PartialEq, Eq)]
pub enum Lookup {
    /// Nothing.
    Nothing,
    /// The record under this message identifier, if there is one.
    Message(String),
    /// Every record of the message table.
    Messages,
}

/// What is to be written to a key-value store for one event: message records,
/// each to be put under its own identifier in place of what is there, and at
/// most one entry for the history.
#[derive(Debug, PartialEq, Eq)]
pub struct Plan {
    pub messages: Vec<ChatMessage>,
    pub history: Option<ChatHistory>,
}

/// The mathematical content of a [`Plan`].
pub struct PlanView {
    pub messages: Seq<ChatMessageView>,
    pub history: Option<ChatHistoryView>,
}

impl View for Plan {
    type V = PlanView;

    open spec fn view(&self) -> PlanView {
        PlanView {
            messages: message_views(self.messages@),
            history: match self.history {
                Some(entry) => Some(entry@),
                None => None,
            },
        }
    }
}

/// The same rows, each marked deleted.
pub open spec fn all_marked(rows: Seq<ChatMessageView>) -> Seq<ChatMessageView> {
    rows.map_values(|r: ChatMessageView| r.marked())
}

/// What reading for `message` finds in a message table that holds `rows`.
pub open spec fn found_in(rows: Seq<ChatMessageView>, message: StoreMessageView) -> Seq<
    ChatMessageView,
> {
    match message {
        StoreMessageView::Stop => Seq::empty(),
        StoreMessageView::Add(record) => under(rows, record.message_id),
        StoreMessageView::Delete(message_id) => under(rows, message_id),
        StoreMessageView::Ban(_) => rows,
        StoreMessageView::Suspend(_) => rows,
    }
}

/// What is to be written for `message` when reading has found `found`.
///
/// A new message is written unless its identifier was found. A deleted message
/// is written back with its mark, if it was found. A ban or a suspension writes
/// back, marked, every record found that the user posted in the channel, and
/// adds its entry to the history.
pub open spec fn planned(message: StoreMessageView, found: Seq<ChatMessageView>) -> PlanView {
    match message {
        StoreMessageView::Stop => PlanView { messages: Seq::empty(), history: None },
        StoreMessageView::Add(record) => PlanView {
            messages: if under(found, record.message_id).len() > 0 {
                Seq::empty()
            } else {
                seq![record]
            },
            history: None,
        },
        StoreMessageView::Delete(message_id) => PlanView {
            messages: all_marked(under(found, message_id)),
            history: None,
        },
        StoreMessageView::Ban(entry) => PlanView {
            messages: all_marked(posted_by(found, entry.channel_id, entry.user_id)),
            history: Some(entry),
        },
        StoreMessageView::Suspend(entry) => PlanView {
            messages: all_marked(posted_by(found, entry.channel_id, entry.user_id)),
            history: Some(entry),
        },
    }
}

/// The message table after `record` was put under its identifier: in place of
/// the row that bore the identifier, or behind the others where none did.
pub open spec fn put(rows: Seq<ChatMessageView>, record: ChatMessageView) -> Seq<ChatMessageView> {
    if under(rows, record.message_id).len() > 0 {
        rows.map_values(
            |r: ChatMessageView|
                if r.message_id == record.message_id {
                    record
                } else {
                    r
                },
        )
    } else {
        rows.push(record)
    }
}

/// The message table after each of `records` was put, in their order.
pub open spec fn put_all(rows: Seq<ChatMessageView>, records: Seq<ChatMessageView>) -> Seq<
    ChatMessageView,
>
    decreases records.len(),
{
    if records.len() == 0 {
        rows
    } else {
        put(put_all(rows, records.drop_last()), records.last())
    }
}

/// The tables after everything in `plan` was written.
pub open spec fn written(tables: TablesView, plan: PlanView) -> TablesView {
    TablesView {
        messages: put_all(tables.messages, plan.messages),
        history: match plan.history {
            Some(entry) => tables.history.push(entry),
            None => tables.history,
        },
    }
}

/// Says what a key-value store has to read for `message`.
pub fn lookup_for(message: &StoreMessage) -> (lookup: Lookup)
    ensures
        match lookup {
            Lookup::Nothing => message is Stop,
            Lookup::Message(message_id) => match message@ {
                StoreMessageView::Add(record) => message_id@ == record.message_id,
                StoreMessageView::Delete(wanted) => message_id@ == wanted,
                _ => false,
            },
            Lookup::Messages => message is Ban || message is Suspend,
        },
{
    match message {
        StoreMessage::Stop => Lookup::Nothing,
        StoreMessage::Add(m) => Lookup::Message(m.message_id.clone()),
        StoreMessage::Delete(m) => Lookup::Message(m.message_id.clone()),
        StoreMessage::Ban(_) => Lookup::Messages,
        StoreMessage::Suspend(_) => Lookup::Messages,
    }
}

/// Whether one of `found` bears the identifier `message_id`.
fn any_under(found: &Vec<ChatMessage>, message_id: &str) -> (yes: bool)
    ensures
        yes == (under(message_views(found@), message_id@).len() > 0),
{
    let ghost all = message_views(found@);
    let mut yes = false;
    let mut at: usize = 0;
    proof {
        reveal(Seq::filter);
        assert(all.take(0) =~= Seq::empty());
    }
    while at < found.len()
        invariant
            at <= found.len(),
            all == message_views(found@),
            yes == (under(all.take(at as int), message_id@).len() > 0),
        decreases found.len() - at,
    {
        proof {
            reveal(Seq::filter);
            assert(all.take(at + 1).drop_last() =~= all.take(at as int));
            assert(all.take(at + 1).last() == found[at as int]@);
        }
        if found[at].has_id(message_id) {
            yes = true;
        }
        at += 1;
    }
    proof {
        assert(all.take(at as int) =~= all);
    }
    yes
}

/// Those of `found` that bear the identifier `message_id`, marked deleted.
fn marked_under(found: Vec<ChatMessage>, message_id: &str) -> (out: Vec<ChatMessage>)
    ensures
        message_views(out@) == all_marked(under(message_views(found@), message_id@)),
{
    let ghost all = message_views(found@);
    let mut out: Vec<ChatMessage> = Vec::new();
    proof {
        reveal(Seq::filter);
        assert(all.take(0) =~= Seq::empty());
        assert(message_views(out@) =~= all_marked(under(all.take(0), message_id@)));
    }
    for record in it: found
        invariant
            it.seq() == found@,
            all == message_views(found@),
            message_views(out@) == all_marked(under(all.take(it.index() as int), message_id@)),
    {
        let ghost done = it.index() as int;
        let ghost before = out@;
        proof {
            reveal(Seq::filter);
            assert(all.take(done + 1).drop_last() =~= all.take(done));
            assert(all.take(done + 1).last() == record@);
        }
        if record.has_id(message_id) {
            let mut record = record;
            record.mark_deleted();
            out.push(record);
            proof {
                assert(message_views(out@) =~= message_views(before).push(record@));
                assert(all_marked(under(all.take(done + 1), message_id@)) =~= all_marked(
                    under(all.take(done), message_id@),
                ).push(record@));
            }
        }
    }
    proof {
        assert(all.take(found@.len() as int) =~= all);
    }
    out
}

/// Those of `found` that `user_id` posted in `channel_id`, marked deleted.
fn marked_posted_by(found: Vec<ChatMessage>, channel_id: i32, user_id: i32) -> (out: Vec<
    ChatMessage,
>)
    ensures
        message_views(out@) == all_marked(posted_by(message_views(found@), channel_id, user_id)),
{
    let ghost all = message_views(found@);
    let mut out: Vec<ChatMessage> = Vec::new();
    proof {
        reveal(Seq::filter);
        assert(all.take(0) =~= Seq::empty());
        assert(message_views(out@) =~= all_marked(posted_by(all.take(0), channel_id, user_id)));
    }
    for record in it: found
        invariant
            it.seq() == found@,
            all == message_views(found@),
            message_views(out@) == all_marked(
                posted_by(all.take(it.index() as int), channel_id, user_id),
            ),
    {
        let ghost done = it.index() as int;
        let ghost before = out@;
        proof {
            reveal(Seq::filter);
            assert(all.take(done + 1).drop_last() =~= all.take(done));
            assert(all.take(done + 1).last() == record@);
        }
        if record.sent_by(channel_id, user_id) {
            let mut record = record;
            record.mark_deleted();
            out.push(record);
            proof {
                assert(message_views(out@) =~= message_views(before).push(record@));
                assert(all_marked(posted_by(all.take(done + 1), channel_id, user_id))
                    =~= all_marked(posted_by(all.take(done), channel_id, user_id)).push(record@));
            }
        }
    }
    proof {
        assert(all.take(found@.len() as int) =~= all);
    }
    out
}

/// Says what is to be written for `message` when reading has found `found`.
pub fn plan_for(message: StoreMessage, found: Vec<ChatMessage>) -> (plan: Plan)
    ensures
        plan@ == planned(message@, message_views(found@)),
{
    match message {
        StoreMessage::Stop => {
            let plan = Plan { messages: Vec::new(), history: None };
            assert(plan@.messages =~= Seq::empty());
            plan
        },
        StoreMessage::Add(m) => {
            let mut messages: Vec<ChatMessage> = Vec::new();
            if !any_under(&found, m.message_id.as_str()) {
                messages.push(ChatMessage::from(m));
            }
            let plan = Plan { messages, history: None };
            assert(plan@.messages =~= planned(message@, message_views(found@)).messages);
            plan
        },
        StoreMessage::Delete(m) => Plan {
            messages: marked_under(found, m.message_id.as_str()),
            history: None,
        },
        StoreMessage::Ban(m) => Plan {
            messages: marked_posted_by(found, m.channel_id, m.user_id),
            history: Some(ChatHistory::from(m)),
        },
        StoreMessage::Suspend(m) => Plan {
            messages: marked_posted_by(found, m.channel_id, m.user_id),
            history: Some(ChatHistory::from(m)),
        },
    }
}

/// Rows are found under an identifier exactly when some row bears it, and
/// every row found there does.
proof fn lemma_under(rows: Seq<ChatMessageView>, message_id: Seq<char>)
    ensures
        under(rows, message_id).len() > 0 <==> exists|i: int|
            0 <= i < rows.len() && (#[trigger] rows[i]).message_id == message_id,
        forall|j: int|
            0 <= j < under(rows, message_id).len() ==> (#[trigger] under(
                rows,
                message_id,
            )[j]).message_id == message_id,
    decreases rows.len(),
{
    reveal(Seq::filter);
    if rows.len() > 0 {
        let front = rows.drop_last();
        lemma_under(front, message_id);
        if rows.last().message_id == message_id {
            assert(rows[rows.len() - 1].message_id == message_id);
        }
        if under(front, message_id).len() > 0 {
            let i = choose|i: int|
                0 <= i < front.len() && (#[trigger] front[i]).message_id == message_id;
            assert(rows[i].message_id == message_id);
        }
        if exists|i: int| 0 <= i < rows.len() && (#[trigger] rows[i]).message_id == message_id {
            let i = choose|i: int|
                0 <= i < rows.len() && (#[trigger] rows[i]).message_id == message_id;
            if i < front.len() {
                assert(front[i].message_id == message_id);
            }
        }
    }
}

/// In a keyed table the one row that bears an identifier is all that is found
/// under it.
proof fn lemma_under_keyed(tables: TablesView, at: int)
    requires
        tables.keyed(),
        0 <= at < tables.messages.len(),
    ensures
        under(tables.messages, tables.messages[at].message_id) == seq![tables.messages[at]],
    decreases tables.messages.len(),
{
    reveal(Seq::filter);
    let rows = tables.messages;
    let id = rows[at].message_id;
    let front = rows.drop_last();
    let shorter = TablesView { messages: front, history: tables.history };
    assert(shorter.keyed()) by {
        assert forall|i: int, j: int| 0 <= i < j < front.len() implies (
        #[trigger] front[i]).message_id != (#[trigger] front[j]).message_id by {
            assert(rows[i].message_id != rows[j].message_id);
        }
    }
    if at == rows.len() - 1 {
        lemma_under(front, id);
        if under(front, id).len() > 0 {
            let i = choose|i: int| 0 <= i < front.len() && (#[trigger] front[i]).message_id == id;
            assert(rows[i].message_id != rows[at].message_id);
        }
        assert(under(rows, id) =~= seq![rows[at]]);
    } else {
        assert(rows[at].message_id != rows[rows.len() - 1].message_id);
        lemma_under_keyed(shorter, at);
        assert(front[at] == rows[at]);
    }
}

/// Putting a marked copy of every row that a user posted marks those rows and
/// leaves the others, for the rows up to `upto` taken alone.
proof fn lemma_put_marked(tables: TablesView, channel_id: i32, user_id: i32, upto: int)
    requires
        tables.keyed(),
        0 <= upto <= tables.messages.len(),
    ensures
        put_all(
            tables.messages,
            all_marked(posted_by(tables.messages.take(upto), channel_id, user_id)),
        ) == Seq::new(
            tables.messages.len(),
            |i: int|
                if i < upto && tables.messages[i].sent_by(channel_id, user_id) {
                    tables.messages[i].marked()
                } else {
                    tables.messages[i]
                },
        ),
    decreases upto,
{
    reveal(Seq::filter);
    let rows = tables.messages;
    let goal = |k: int|
        Seq::new(
            rows.len(),
            |i: int|
                if i < k && rows[i].sent_by(channel_id, user_id) {
                    rows[i].marked()
                } else {
                    rows[i]
                },
        );
    if upto == 0 {
        assert(rows.take(0) =~= Seq::empty());
        assert(all_marked(posted_by(rows.take(0), channel_id, user_id)) =~= Seq::empty());
        assert(goal(0) =~= rows);
    } else {
        let k = upto - 1;
        lemma_put_marked(tables, channel_id, user_id, k);
        assert(rows.take(upto).drop_last() =~= rows.take(k));
        assert(rows.take(upto).last() == rows[k]);
        let before = all_marked(posted_by(rows.take(k), channel_id, user_id));
        let after = all_marked(posted_by(rows.take(upto), channel_id, user_id));
        if rows[k].sent_by(channel_id, user_id) {
            let record = rows[k].marked();
            assert(after =~= before.push(record));
            assert(after.drop_last() =~= before);
            let mid = goal(k);
            assert(mid[k] == rows[k]);
            lemma_under(mid, record.message_id);
            assert(under(mid, record.message_id).len() > 0);
            assert(put(mid, record) =~= goal(upto)) by {
                assert forall|i: int| 0 <= i < rows.len() implies put(mid, record)[i] == goal(
                    upto,
                )[i] by {
                    if i < k {
                        assert(rows[i].message_id != rows[k].message_id);
                    } else if k < i {
                        assert(rows[k].message_id != rows[i].message_id);
                    }
                }
            }
        } else {
            assert(after =~= before);
            assert(goal(upto) =~= goal(k));
        }
    }
}

/// Writing what is planned from what reading finds does to keyed tables
/// exactly what the event says, and the number of message records written is
/// the number of rows that the event touches.
pub proof fn plan_does_what_the_event_says(tables: TablesView, message: StoreMessageView)
    requires
        tables.keyed(),
    ensures
        written(tables, planned(message, found_in(tables.messages, message))) == tables.apply(
            message,
        ),
        planned(message, found_in(tables.messages, message)).messages.len() == touched(
            tables,
            message,
        ),
{
    reveal(Seq::filter);
    let rows = tables.messages;
    let plan = planned(message, found_in(rows, message));
    match message {
        StoreMessageView::Stop => {},
        StoreMessageView::Add(record) => {
            let id = record.message_id;
            lemma_under(rows, id);
            if tables.has(id) {
                let at = choose|i: int|
                    0 <= i < rows.len() && (#[trigger] rows[i]).message_id == id;
                lemma_under_keyed(tables, at);
                assert(under(seq![rows[at]], id) =~= seq![rows[at]]) by {
                    reveal_with_fuel(Seq::filter, 2);
                    assert(seq![rows[at]].drop_last() =~= Seq::empty());
                }
            } else {
                assert(under(rows, id) =~= Seq::empty());
                assert(plan.messages =~= seq![record]);
                assert(plan.messages.drop_last() =~= Seq::empty());
                assert(put_all(rows, plan.messages) == put(rows, record)) by {
                    reveal_with_fuel(put_all, 2);
                }
            }
        },
        StoreMessageView::Delete(id) => {
            lemma_under(rows, id);
            if tables.has(id) {
                let at = choose|i: int|
                    0 <= i < rows.len() && (#[trigger] rows[i]).message_id == id;
                lemma_under_keyed(tables, at);
                assert(under(seq![rows[at]], id) =~= seq![rows[at]]) by {
                    reveal_with_fuel(Seq::filter, 2);
                    assert(seq![rows[at]].drop_last() =~= Seq::empty());
                }
                let record = rows[at].marked();
                assert(plan.messages =~= seq![record]);
                assert(plan.messages.drop_last() =~= Seq::empty());
                assert(put_all(rows, plan.messages) == put(rows, record)) by {
                    reveal_with_fuel(put_all, 2);
                }
                assert(put(rows, record) =~= tables.delete(id).messages) by {
                    assert forall|i: int| 0 <= i < rows.len() implies put(rows, record)[i]
                        == tables.delete(id).messages[i] by {
                        if i < at {
                            assert(rows[i].message_id != rows[at].message_id);
                        } else if at < i {
                            assert(rows[at].message_id != rows[i].message_id);
                        }
                    }
                }
            } else {
                assert(under(rows, id) =~= Seq::empty());
                assert(plan.messages =~= Seq::empty());
                assert(tables.delete(id).messages =~= rows) by {
                    assert forall|i: int| 0 <= i < rows.len() implies tables.delete(id).messages[i]
                        == rows[i] by {
                        assert(rows[i].message_id != id);
                    }
                }
            }
        },
        StoreMessageView::Ban(entry) => {
            lemma_put_marked(tables, entry.channel_id, entry.user_id, rows.len() as int);
            assert(rows.take(rows.len() as int) =~= rows);
            assert(put_all(rows, plan.messages) =~= tables.moderate(entry).messages);
        },
        StoreMessageView::Suspend(entry) => {
            lemma_put_marked(tables, entry.channel_id, entry.user_id, rows.len() as int);
            assert(rows.take(rows.len() as int) =~= rows);
            assert(put_all(rows, plan.messages) =~= tables.moderate(entry).messages);
        },
    }
}

} // verus!
