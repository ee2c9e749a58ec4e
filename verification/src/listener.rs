//! The deciding part of a source listener.

use vstd::prelude::*;
use crate::event::{views, StoreMessage, StoreMessageView};
use crate::ident::IdFormat;
use crate::protocol::{translate, translation, ProtocolEvent, TranslateError};

verus! {

/// What a listener finds when it wakes: the order to end, or the next event
/// of its chat session. Where both are ready, the order to end comes first.
#[derive(Debug, PartialEq, Eq)]
pub enum Signal {
    Cancelled,
    Event(ProtocolEvent),
}

/// What a listener does about one signal.
#[derive(Debug, PartialEq, Eq)]
pub enum Reaction {
    /// Send this message to the store actor.
    Forward(StoreMessage),
    /// The event means nothing to the store: go on.
    Skip,
    /// The event cannot be read: report it, drop it, go on.
    Reject(TranslateError),
    /// Leave the chat session and return.
    Exit,
}

/// The mathematical content of a [`Reaction`].
pub enum ReactionView {
    Forward(StoreMessageView),
    Skip,
    Reject(TranslateError),
    Exit,
}

impl View for Reaction {
    type V = ReactionView;

    open spec fn view(&self) -> ReactionView {
        match *self {
            Reaction::Forward(message) => ReactionView::Forward(message@),
            Reaction::Skip => ReactionView::Skip,
            Reaction::Reject(e) => ReactionView::Reject(e),
            Reaction::Exit => ReactionView::Exit,
        }
    }
}

/// What a listener does about `signal`. Once cancelled it only ever exits,
/// whatever the signal; before that, it exits on the order to end and treats an
/// event as its translation says.
pub open spec fn reaction_to(format: IdFormat, cancelled: bool, signal: Signal) -> ReactionView {
    if cancelled {
        ReactionView::Exit
    } else {
        match signal {
            Signal::Cancelled => ReactionView::Exit,
            Signal::Event(event) => match translation(event, format) {
                Ok(Some(message)) => ReactionView::Forward(message),
                Ok(None) => ReactionView::Skip,
                Err(e) => ReactionView::Reject(e),
            },
        }
    }
}

/// Whether a listener is cancelled after `signals`, given whether it was
/// before them.
pub open spec fn cancelled_by(cancelled: bool, signals: Seq<Signal>) -> bool {
    cancelled || exists|i: int| 0 <= i < signals.len() && #[trigger] signals[i] is Cancelled
}

/// The messages that a listener forwards while it takes `signals` in their
/// order, given whether it was cancelled before them.
pub open spec fn forwarded(format: IdFormat, cancelled: bool, signals: Seq<Signal>) -> Seq<
    StoreMessageView,
>
    decreases signals.len(),
{
    if signals.len() == 0 {
        Seq::empty()
    } else {
        let before = forwarded(format, cancelled, signals.drop_last());
        match reaction_to(format, cancelled_by(cancelled, signals.drop_last()), signals.last()) {
            ReactionView::Forward(message) => before.push(message),
            _ => before,
        }
    }
}

/// The part of a source listener that decides: it knows the identifier format
/// of the backend and whether the order to end has reached it.
pub struct Listener {
    format: IdFormat,
    cancelled: bool,
}

impl Listener {
    /// The identifier format that the listener checks message identifiers
    /// against.
    pub closed spec fn format(&self) -> IdFormat {
        self.format
    }

    /// Whether the order to end has reached the listener.
    pub closed spec fn cancelled(&self) -> bool {
        self.cancelled
    }

    /// A listener that has not been cancelled.
    pub fn new(format: IdFormat) -> (listener: Listener)
        ensures
            listener.format() == format,
            !listener.cancelled(),
    {
        Listener { format, cancelled: false }
    }

    /// Whether the order to end has reached the listener.
    pub fn is_cancelled(&self) -> (yes: bool)
        ensures
            yes == self.cancelled(),
    {
        self.cancelled
    }

    /// Decides what to do about one signal. After the order to end the answer
    /// is `Exit` for good: no event is translated and none is forwarded, even
    /// if events keep arriving.
    pub fn react(&mut self, signal: Signal) -> (reaction: Reaction)
        ensures
            reaction@ == reaction_to(old(self).format(), old(self).cancelled(), signal),
            final(self).format() == old(self).format(),
            final(self).cancelled() == (old(self).cancelled() || signal is Cancelled),
    {
        if self.cancelled {
            return Reaction::Exit;
        }
        match signal {
            Signal::Cancelled => {
                self.cancelled = true;
                Reaction::Exit
            },
            Signal::Event(event) => match translate(event, self.format) {
                Ok(Some(message)) => Reaction::Forward(message),
                Ok(None) => Reaction::Skip,
                Err(e) => Reaction::Reject(e),
            },
        }
    }

    /// Takes a run of signals in their order and returns the messages to
    /// forward, in the order of the events that they come from. Events behind
    /// the order to end contribute nothing.
    pub fn relay(&mut self, signals: Vec<Signal>) -> (out: Vec<StoreMessage>)
        ensures
            views(out@) == forwarded(old(self).format(), old(self).cancelled(), signals@),
            final(self).format() == old(self).format(),
            final(self).cancelled() == cancelled_by(old(self).cancelled(), signals@),
    {
        let ghost format = self.format;
        let ghost start = self.cancelled;
        let mut out: Vec<StoreMessage> = Vec::new();
        proof {
            assert(signals@.take(0) =~= Seq::empty());
            assert(views(out@) =~= Seq::empty());
        }
        for signal in it: signals
            invariant
                it.seq() == signals@,
                self.format == format,
                self.cancelled == cancelled_by(start, signals@.take(it.index() as int)),
                views(out@) == forwarded(format, start, signals@.take(it.index() as int)),
        {
            let ghost done = it.index() as int;
            let ghost before = out@;
            proof {
                assert(signals@.take(done + 1).drop_last() =~= signals@.take(done));
                assert(signals@.take(done + 1).last() == signal);
                lemma_cancelled_by_push(start, signals@.take(done), signal);
                assert(signals@.take(done).push(signal) =~= signals@.take(done + 1));
            }
            match self.react(signal) {
                Reaction::Forward(message) => {
                    out.push(message);
                    assert(views(out@) =~= views(before).push(message@));
                },
                _ => {},
            }
        }
        proof {
            assert(signals@.take(signals@.len() as int) =~= signals@);
        }
        out
    }
}

/// One signal more cancels exactly when the signals before it did or when it
/// is itself the order to end.
proof fn lemma_cancelled_by_push(cancelled: bool, signals: Seq<Signal>, next: Signal)
    ensures
        cancelled_by(cancelled, signals.push(next)) == (cancelled_by(cancelled, signals)
            || next is Cancelled),
{
    let longer = signals.push(next);
    if cancelled_by(cancelled, signals) && !cancelled {
        let i = choose|i: int| 0 <= i < signals.len() && #[trigger] signals[i] is Cancelled;
        assert(longer[i] is Cancelled);
    }
    if next is Cancelled {
        assert(longer[signals.len() as int] is Cancelled);
    }
    if cancelled_by(cancelled, longer) && !cancelled {
        let i = choose|i: int| 0 <= i < longer.len() && #[trigger] longer[i] is Cancelled;
        if i < signals.len() {
            assert(signals[i] is Cancelled);
        }
    }
}

/// After the order to end has reached a listener it forwards nothing more:
/// what it forwards over all of `signals` is what it forwarded before the
/// order, however many events stand behind it.
pub proof fn nothing_is_forwarded_after_cancellation(
    format: IdFormat,
    cancelled: bool,
    signals: Seq<Signal>,
    at: int,
)
    requires
        0 <= at < signals.len(),
        signals[at] is Cancelled,
    ensures
        forwarded(format, cancelled, signals) == forwarded(format, cancelled, signals.take(at)),
    decreases signals.len(),
{
    let front = signals.drop_last();
    if at == signals.len() - 1 {
        assert(front =~= signals.take(at));
    } else {
        nothing_is_forwarded_after_cancellation(format, cancelled, front, at);
        assert(front.take(at) =~= signals.take(at));
        assert(front[at] is Cancelled);
    }
}

} // verus!
