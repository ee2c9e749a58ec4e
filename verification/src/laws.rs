//! What holds of the tables and of the actor over any run of events.

use vstd::prelude::*;
use crate::actor::{ActorView, Outcome};
use crate::backend::effect_on;
use crate::event::{AddMessage, BanMessage, StoreMessageView, SuspendMessage};
use crate::record::ChatMessageView;
use crate::tables::{BackendError, TablesView};

verus! {

/// The records that a run of added messages asks for, in the same order.
pub open spec fn records_of(adds: Seq<AddMessage>) -> Seq<ChatMessageView> {
    adds.map_values(|a: AddMessage| a@)
}

/// A run of added messages as the actor's queue carries them.
pub open spec fn as_events(adds: Seq<AddMessage>) -> Seq<StoreMessageView> {
    adds.map_values(|a: AddMessage| StoreMessageView::Add(a@))
}

/// In keyed tables the record found under an identifier is the one row that
/// bears it.
proof fn lemma_record_at(tables: TablesView, at: int)
    requires
        tables.keyed(),
        0 <= at < tables.messages.len(),
    ensures
        tables.has(tables.messages[at].message_id),
        tables.record(tables.messages[at].message_id) == tables.messages[at],
{
    let id = tables.messages[at].message_id;
    let pick = choose|i: int|
        0 <= i < tables.messages.len() && (#[trigger] tables.messages[i]).message_id == id;
    if pick < at {
        assert(tables.messages[pick].message_id != tables.messages[at].message_id);
    } else if at < pick {
        assert(tables.messages[at].message_id != tables.messages[pick].message_id);
    }
}

/// Running one message more is one step from where the run before it ended.
proof fn lemma_run_push(start: ActorView, messages: Seq<StoreMessageView>, next: StoreMessageView)
    ensures
        start.run(messages.push(next)) == start.run(messages).step(next),
{
    assert(messages.push(next).drop_last() =~= messages);
}

/// Added messages with distinct identifiers, none of them held before, are
/// all held afterwards, in whatever order they reached a running actor whose
/// backend keeps what it applies: the message table has grown by exactly
/// their records, each is found under its identifier, and none is marked
/// deleted.
pub proof fn adds_are_all_held(start: ActorView, adds: Seq<AddMessage>)
    requires
        start.keeps,
        !start.stopped,
        start.content.keyed(),
        forall|i: int, j: int|
            0 <= i < j < adds.len() ==> (#[trigger] adds[i])@.message_id != (
            #[trigger] adds[j])@.message_id,
        forall|i: int| 0 <= i < adds.len() ==> !start.content.has((#[trigger] adds[i])@.message_id),
    ensures
        ({
            let end = start.run(as_events(adds));
            &&& !end.stopped
            &&& end.keeps
            &&& end.content.keyed()
            &&& end.content.messages == start.content.messages + records_of(adds)
            &&& end.content.history == start.content.history
            &&& forall|i: int|
                0 <= i < adds.len() ==> {
                    &&& end.content.has((#[trigger] adds[i])@.message_id)
                    &&& end.content.record(adds[i]@.message_id) == adds[i]@
                    &&& !end.content.record(adds[i]@.message_id).deleted
                }
        }),
    decreases adds.len(),
{
    let end = start.run(as_events(adds));
    if adds.len() == 0 {
        assert(start.content.messages + records_of(adds) =~= start.content.messages);
    } else {
        let front = adds.drop_last();
        let last = adds.last();
        adds_are_all_held(start, front);
        let mid = start.run(as_events(front));
        assert(as_events(adds) =~= as_events(front).push(StoreMessageView::Add(last@)));
        lemma_run_push(start, as_events(front), StoreMessageView::Add(last@));
        assert(!mid.content.has(last@.message_id)) by {
            if mid.content.has(last@.message_id) {
                let rows = mid.content.messages;
                let k = choose|k: int|
                    0 <= k < rows.len() && (#[trigger] rows[k]).message_id == last@.message_id;
                if k < start.content.messages.len() {
                    assert(start.content.messages[k] == mid.content.messages[k]);
                    assert(start.content.has(adds[adds.len() - 1]@.message_id));
                } else {
                    let i = k - start.content.messages.len();
                    assert(mid.content.messages[k] == front[i]@);
                    assert(adds[i]@.message_id != adds[adds.len() - 1]@.message_id);
                }
            }
        }
        assert(end.content.messages =~= start.content.messages + records_of(adds));
        assert(end.content.keyed()) by {
            assert forall|i: int, j: int| 0 <= i < j < end.content.messages.len() implies (
            #[trigger] end.content.messages[i]).message_id != (
            #[trigger] end.content.messages[j]).message_id by {
                let rows = mid.content.messages;
                if j < rows.len() {
                    assert(rows[i].message_id != rows[j].message_id);
                } else {
                    assert(mid.content.messages[i] == end.content.messages[i]);
                }
            }
        }
        assert forall|i: int| 0 <= i < adds.len() implies {
            &&& end.content.has((#[trigger] adds[i])@.message_id)
            &&& end.content.record(adds[i]@.message_id) == adds[i]@
            &&& !end.content.record(adds[i]@.message_id).deleted
        } by {
            let at = start.content.messages.len() + i;
            assert(end.content.messages[at] == adds[i]@);
            lemma_record_at(end.content, at);
        }
    }
}

/// Deleting a message right after it was added leaves its record marked
/// deleted, whether the record is the new one or one that was held before,
/// and leaves every other row of both tables as it was.
pub proof fn delete_after_add_marks_that_record_only(tables: TablesView, add: AddMessage)
    requires
        tables.keyed(),
    ensures
        tables.add(add@).delete(add@.message_id).keyed(),
        tables.add(add@).delete(add@.message_id).has(add@.message_id),
        tables.add(add@).delete(add@.message_id).record(add@.message_id).deleted,
        tables.add(add@).delete(add@.message_id).history == tables.history,
        forall|other: Seq<char>|
            other != add@.message_id ==> #[trigger] tables.add(add@).delete(add@.message_id).has(
                other,
            ) == tables.has(other),
        forall|other: Seq<char>|
            other != add@.message_id && tables.has(other) ==> #[trigger] tables.add(add@).delete(
                add@.message_id,
            ).record(other) == tables.record(other),
{
    let id = add@.message_id;
    let added = tables.add(add@);
    let after = added.delete(id);
    assert(added.keyed());
    assert(after.keyed()) by {
        assert forall|i: int, j: int| 0 <= i < j < after.messages.len() implies (
        #[trigger] after.messages[i]).message_id != (#[trigger] after.messages[j]).message_id by {
            assert(added.messages[i].message_id != added.messages[j].message_id);
        }
    }
    assert(added.has(id)) by {
        if !tables.has(id) {
            assert(added.messages[added.messages.len() - 1].message_id == id);
        }
    }
    let at = choose|i: int|
        0 <= i < added.messages.len() && (#[trigger] added.messages[i]).message_id == id;
    assert(after.messages[at] == added.messages[at].marked());
    lemma_record_at(after, at);
    assert forall|other: Seq<char>| other != id implies #[trigger] after.has(other) == tables.has(
        other,
    ) by {
        if tables.has(other) {
            let k = choose|k: int|
                0 <= k < tables.messages.len() && (#[trigger] tables.messages[k]).message_id
                    == other;
            assert(added.messages[k] == tables.messages[k]);
            assert(after.messages[k] == tables.messages[k]);
        }
        if after.has(other) {
            let k = choose|k: int|
                0 <= k < after.messages.len() && (#[trigger] after.messages[k]).message_id
                    == other;
            assert(added.messages[k].message_id == other);
            if k < tables.messages.len() {
                assert(tables.messages[k] == added.messages[k]);
            }
        }
    }
    assert forall|other: Seq<char>| other != id && tables.has(other) implies (
    #[trigger] after.record(other)) == tables.record(other) by {
        let k = choose|k: int|
            0 <= k < tables.messages.len() && (#[trigger] tables.messages[k]).message_id == other;
        assert(added.messages[k] == tables.messages[k]);
        assert(after.messages[k] == tables.messages[k]);
        lemma_record_at(after, k);
        lemma_record_at(tables, k);
    }
}

/// Deleting a message that was never added is a failure of that one event:
/// the backend reports that it knows no such message, creates no record, and
/// leaves both tables as they were.
pub proof fn delete_of_unknown_creates_nothing(tables: TablesView, message_id: Seq<char>)
    requires
        !tables.has(message_id),
    ensures
        effect_on(tables, StoreMessageView::Delete(message_id)) == Err::<nat, BackendError>(
            BackendError::UnknownMessage,
        ),
        tables.apply(StoreMessageView::Delete(message_id)) == tables,
        !tables.apply(StoreMessageView::Delete(message_id)).has(message_id),
{
    assert(tables.delete(message_id).messages =~= tables.messages);
}

/// What a ban or a suspension with this history entry makes of the tables:
/// every record of the user in the channel is marked deleted, every other
/// record is as before, and the history is one entry longer, the new entry
/// standing last.
pub open spec fn moderated(
    before: TablesView,
    after: TablesView,
    channel_id: i32,
    user_id: i32,
) -> bool {
    &&& after.messages.len() == before.messages.len()
    &&& forall|i: int|
        0 <= i < before.messages.len() ==> #[trigger] after.messages[i] == if (
        before.messages[i].sent_by(channel_id, user_id)) {
            before.messages[i].marked()
        } else {
            before.messages[i]
        }
    &&& forall|i: int|
        0 <= i < after.messages.len() && (#[trigger] after.messages[i]).sent_by(channel_id, user_id)
            ==> after.messages[i].deleted
    &&& after.history.len() == before.history.len() + 1
    &&& after.history.drop_last() == before.history
}

/// A ban marks every record that the user has in the channel and adds exactly
/// one entry to the history: the ban itself, without a duration.
pub proof fn ban_marks_all_and_is_recorded_once(tables: TablesView, ban: BanMessage)
    ensures
        ({
            let after = tables.apply(StoreMessageView::Ban(ban@));
            &&& moderated(tables, after, ban.channel_id, ban.user_id)
            &&& after.history.last() == ban@
            &&& after.history.last().timeout_duration is None
        }),
{
    let after = tables.apply(StoreMessageView::Ban(ban@));
    assert(after.history.drop_last() =~= tables.history);
}

/// A suspension does what a ban does, and the one entry that it adds to the
/// history carries the duration that came with it.
pub proof fn suspension_marks_all_and_is_recorded_once(
    tables: TablesView,
    suspension: SuspendMessage,
)
    ensures
        ({
            let after = tables.apply(StoreMessageView::Suspend(suspension@));
            &&& moderated(tables, after, suspension.channel_id, suspension.user_id)
            &&& after.history.last() == suspension@
            &&& after.history.last().timeout_duration == Some(suspension.timeout_duration)
        }),
{
    let after = tables.apply(StoreMessageView::Suspend(suspension@));
    assert(after.history.drop_last() =~= tables.history);
}

/// Deleting the same message twice leaves the tables exactly as deleting it
/// once does.
pub proof fn delete_is_idempotent(tables: TablesView, message_id: Seq<char>)
    ensures
        tables.delete(message_id).delete(message_id) == tables.delete(message_id),
{
    assert(tables.delete(message_id).delete(message_id).messages =~= tables.delete(
        message_id,
    ).messages);
}

/// The same holds of an actor: a second `DeleteMessage` for the same message
/// leaves the state in which the first one left it.
pub proof fn repeated_delete_changes_nothing(start: ActorView, message_id: Seq<char>)
    ensures
        start.step(StoreMessageView::Delete(message_id)).step(StoreMessageView::Delete(message_id))
            == start.step(StoreMessageView::Delete(message_id)),
{
    delete_is_idempotent(start.content, message_id);
}

/// Once the actor has stopped, no further message changes it or its backend,
/// and every one of them is refused.
pub proof fn nothing_is_applied_after_stop(start: ActorView, later: Seq<StoreMessageView>)
    requires
        start.stopped,
    ensures
        start.run(later) == start,
        forall|i: int|
            0 <= i < later.len() ==> #[trigger] start.outcomes(later)[i] == Outcome::Refused,
    decreases later.len(),
{
    if later.len() > 0 {
        nothing_is_applied_after_stop(start, later.drop_last());
    }
    assert forall|i: int| 0 <= i < later.len() implies #[trigger] start.outcomes(later)[i]
        == Outcome::Refused by {
        nothing_is_applied_after_stop(start, later.take(i));
    }
}

/// Whether `after` still holds everything that `before` held: every message
/// record stands in its row, unchanged but for the mark that it may have
/// gained, and the history begins with the entries that it had.
pub open spec fn preserves(before: TablesView, after: TablesView) -> bool {
    &&& before.messages.len() <= after.messages.len()
    &&& forall|i: int|
        0 <= i < before.messages.len() ==> #[trigger] after.messages[i] == before.messages[i]
            || after.messages[i] == before.messages[i].marked()
    &&& before.history.len() <= after.history.len()
    &&& after.history.take(before.history.len() as int) == before.history
}

/// No event removes a record, changes any field of one but `deleted`, or
/// lowers that flag again; and none takes an entry out of the history.
pub proof fn records_are_kept(tables: TablesView, message: StoreMessageView)
    ensures
        preserves(tables, tables.apply(message)),
{
    let after = tables.apply(message);
    assert(after.history.take(tables.history.len() as int) =~= tables.history);
}

/// The same holds of everything that an actor ever does to its backend.
pub proof fn records_are_kept_by_every_run(start: ActorView, messages: Seq<StoreMessageView>)
    ensures
        preserves(start.content, start.run(messages).content),
    decreases messages.len(),
{
    let end = start.run(messages).content;
    if messages.len() == 0 {
        assert(end.history.take(start.content.history.len() as int) =~= start.content.history);
    } else {
        let mid = start.run(messages.drop_last()).content;
        records_are_kept_by_every_run(start, messages.drop_last());
        records_are_kept(mid, messages.last());
        let rows = start.content.messages;
        assert forall|i: int| 0 <= i < rows.len() implies #[trigger] end.messages[i] == rows[i]
            || end.messages[i] == rows[i].marked() by {
            assert(mid.messages[i] == rows[i] || mid.messages[i] == rows[i].marked());
            assert(end.messages[i] == mid.messages[i] || end.messages[i]
                == mid.messages[i].marked());
        }
        assert(end.history.take(start.content.history.len() as int) =~= start.content.history) by {
            let n = start.content.history.len() as int;
            let m = mid.history.len() as int;
            assert(end.history.take(m) == mid.history);
            assert(mid.history.take(n) == start.content.history);
            assert forall|i: int| 0 <= i < n implies end.history.take(n)[i]
                == start.content.history[i] by {
                assert(end.history.take(m)[i] == mid.history[i]);
                assert(mid.history.take(n)[i] == start.content.history[i]);
            }
        }
    }
}

/// Message identifiers stay unique: no event gives two records the same one.
pub proof fn identifiers_stay_unique(tables: TablesView, message: StoreMessageView)
    requires
        tables.keyed(),
    ensures
        tables.apply(message).keyed(),
{
    let after = tables.apply(message);
    assert forall|i: int, j: int| 0 <= i < j < after.messages.len() implies (
    #[trigger] after.messages[i]).message_id != (#[trigger] after.messages[j]).message_id by {
        if j < tables.messages.len() {
            assert(tables.messages[i].message_id != tables.messages[j].message_id);
        } else {
            assert(tables.messages[i] == after.messages[i]);
        }
    }
}

/// The same holds of everything that an actor ever does to its backend.
pub proof fn identifiers_stay_unique_over_every_run(
    start: ActorView,
    messages: Seq<StoreMessageView>,
)
    requires
        start.content.keyed(),
    ensures
        start.run(messages).content.keyed(),
    decreases messages.len(),
{
    if messages.len() > 0 {
        identifiers_stay_unique_over_every_run(start, messages.drop_last());
        identifiers_stay_unique(start.run(messages.drop_last()).content, messages.last());
    }
}

} // verus!
