//! The backends that the library holds itself, and what a count of touched
//! rows says of an event on a backend that it does not hold.

use vstd::prelude::*;
use crate::event::{StoreMessage, StoreMessageView};
use crate::ident::IdFormat;
use crate::record::ChatHistory;
use crate::tables::{BackendError, Tables, TablesView};

verus! {

/// The kinds of backend that a store can be set up with.
#[derive(Clone, Copy, Debug, PartialEq, Eq, Structural)]
pub enum BackendKind {
    /// Takes every event and keeps none.
    Null,
    /// Keeps the tables in memory, for as long as the process lives.
    Memory,
    /// Keeps the tables in an embedded transactional key-value store.
    EmbeddedKv,
    /// Keeps the messages in a table of a relational database, reached
    /// through a pool of connections.
    Relational,
}

impl BackendKind {
    /// The format in which a backend of this kind expects message
    /// identifiers: the relational one keys its table by UUID, the others
    /// take any text.
    pub open spec fn expects(self) -> IdFormat {
        if self == BackendKind::Relational {
            IdFormat::Uuid
        } else {
            IdFormat::Opaque
        }
    }

    /// The format in which a backend of this kind expects message identifiers.
    pub fn id_format(self) -> (format: IdFormat)
        ensures
            format == self.expects(),
    {
        match self {
            BackendKind::Relational => IdFormat::Uuid,
            _ => IdFormat::Opaque,
        }
    }
}

/// How many rows of the message table a statement for `message` touches on
/// keyed tables that hold `content`: the row that it inserts, the rows that it
/// finds to mark.
pub open spec fn touched(content: TablesView, message: StoreMessageView) -> nat {
    match message {
        StoreMessageView::Stop => 0,
        StoreMessageView::Add(record) => if content.has(record.message_id) {
            0
        } else {
            1
        },
        StoreMessageView::Delete(message_id) => if content.has(message_id) {
            1
        } else {
            0
        },
        StoreMessageView::Ban(entry) => content.covered(entry.channel_id, entry.user_id),
        StoreMessageView::Suspend(entry) => content.covered(entry.channel_id, entry.user_id),
    }
}

/// What a count of touched rows says of an event: an added message that
/// touched no row was a duplicate, a deleted one that touched no row was
/// unknown, and everything else was applied.
pub open spec fn verdict(message: StoreMessageView, rows: nat) -> Result<nat, BackendError> {
    match message {
        StoreMessageView::Add(_) => if rows == 0 {
            Err(BackendError::DuplicateMessage)
        } else {
            Ok(rows)
        },
        StoreMessageView::Delete(_) => if rows == 0 {
            Err(BackendError::UnknownMessage)
        } else {
            Ok(rows)
        },
        _ => Ok(rows),
    }
}

/// Tells a write that succeeded from one that matched nothing, by the number
/// of rows that the backend reports as touched.
pub fn judge(message: &StoreMessage, rows: usize) -> (done: Result<usize, BackendError>)
    ensures
        match done {
            Ok(n) => verdict(message@, rows as nat) == Ok::<nat, BackendError>(n as nat),
            Err(e) => verdict(message@, rows as nat) == Err::<nat, BackendError>(e),
        },
{
    match message {
        StoreMessage::Add(_) => if rows == 0 {
            Err(BackendError::DuplicateMessage)
        } else {
            Ok(rows)
        },
        StoreMessage::Delete(_) => if rows == 0 {
            Err(BackendError::UnknownMessage)
        } else {
            Ok(rows)
        },
        _ => Ok(rows),
    }
}

/// Judging an event by the rows that it touches gives what the tables
/// themselves report of it.
pub proof fn verdict_agrees_with_tables(content: TablesView, message: StoreMessageView)
    ensures
        verdict(message, touched(content, message)) == effect_on(content, message),
{
}

/// Where applied events end up. `Null` takes every event and keeps none;
/// `Memory` keeps the two tables in memory.
pub enum Backend {
    Null,
    Memory(Tables),
}

/// How many rows of the message table an event touches, or why it fails, on
/// tables that hold `content`.
pub open spec fn effect_on(content: TablesView, message: StoreMessageView) -> Result<
    nat,
    BackendError,
> {
    match message {
        StoreMessageView::Stop => Ok(0),
        StoreMessageView::Add(record) => if content.has(record.message_id) {
            Err(BackendError::DuplicateMessage)
        } else {
            Ok(1)
        },
        StoreMessageView::Delete(message_id) => if content.has(message_id) {
            Ok(1)
        } else {
            Err(BackendError::UnknownMessage)
        },
        StoreMessageView::Ban(entry) => Ok(content.covered(entry.channel_id, entry.user_id)),
        StoreMessageView::Suspend(entry) => Ok(content.covered(entry.channel_id, entry.user_id)),
    }
}

impl Backend {
    /// Whether the backend keeps what it applies.
    pub open spec fn keeps(self) -> bool {
        self is Memory
    }

    /// What a reader of the backend finds in it.
    pub open spec fn content(self) -> TablesView {
        match self {
            Backend::Null => TablesView::empty(),
            Backend::Memory(tables) => tables@,
        }
    }

    /// What one event makes of the content of a backend, given whether the
    /// backend keeps what it applies.
    pub open spec fn content_after(
        keeps: bool,
        content: TablesView,
        message: StoreMessageView,
    ) -> TablesView {
        if keeps {
            content.apply(message)
        } else {
            content
        }
    }

    /// What applying one event to such a backend reports.
    pub open spec fn report(keeps: bool, content: TablesView, message: StoreMessageView) -> Result<
        nat,
        BackendError,
    > {
        if keeps {
            effect_on(content, message)
        } else {
            Ok(0)
        }
    }

    /// The backend of a kind that needs no service outside the process. There
    /// is none for the kinds that do: those are set up by whoever holds the
    /// connection.
    pub fn of_kind(kind: BackendKind) -> (made: Option<Backend>)
        ensures
            match made {
                Some(backend) => (kind == BackendKind::Null || kind == BackendKind::Memory)
                    && backend.keeps() == (kind == BackendKind::Memory) && backend.content()
                    == TablesView::empty(),
                None => kind == BackendKind::EmbeddedKv || kind == BackendKind::Relational,
            },
    {
        match kind {
            BackendKind::Null => Some(Backend::Null),
            BackendKind::Memory => Some(Backend::memory()),
            _ => None,
        }
    }

    /// A backend that discards what it is given.
    pub fn null() -> (backend: Backend)
        ensures
            backend is Null,
    {
        Backend::Null
    }

    /// A backend that keeps empty tables in memory.
    pub fn memory() -> (backend: Backend)
        ensures
            backend is Memory,
            backend.content() == TablesView::empty(),
    {
        Backend::Memory(Tables::new())
    }

    /// Applies one event. A backend that keeps its events changes as the event
    /// says and reports the number of message rows touched, or the reason why
    /// the event could not be applied; the null backend reports no row and
    /// stays empty. `Stop` is not an event to apply: it changes nothing
    /// anywhere.
    pub fn apply(&mut self, message: StoreMessage) -> (done: Result<usize, BackendError>)
        ensures
            final(self).keeps() == old(self).keeps(),
            final(self).content() == Self::content_after(
                old(self).keeps(),
                old(self).content(),
                message@,
            ),
            final(self).content().keyed(),
            match done {
                Ok(rows) => Self::report(old(self).keeps(), old(self).content(), message@)
                    == Ok::<nat, BackendError>(rows as nat),
                Err(e) => Self::report(old(self).keeps(), old(self).content(), message@)
                    == Err::<nat, BackendError>(e),
            },
    {
        match self {
            Backend::Null => Ok(0),
            Backend::Memory(tables) => match message {
                StoreMessage::Stop => {
                    proof {
                        use_type_invariant(&*tables);
                    }
                    Ok(0)
                },
                StoreMessage::Add(msg) => match tables.apply_add(msg) {
                    Ok(()) => Ok(1),
                    Err(e) => Err(e),
                },
                StoreMessage::Delete(msg) => match tables.apply_delete(&msg) {
                    Ok(()) => Ok(1),
                    Err(e) => Err(e),
                },
                StoreMessage::Ban(msg) => Ok(tables.apply_ban_or_suspend(ChatHistory::from(msg))),
                StoreMessage::Suspend(msg) => Ok(
                    tables.apply_ban_or_suspend(ChatHistory::from(msg)),
                ),
            },
        }
    }

    /// The tables of a backend that keeps any.
    pub fn tables(&self) -> (found: Option<&Tables>)
        ensures
            match found {
                Some(tables) => self.keeps() && tables@ == self.content(),
                None => !self.keeps(),
            },
    {
        match self {
            Backend::Null => None,
            Backend::Memory(tables) => Some(tables),
        }
    }
}

} // verus!
