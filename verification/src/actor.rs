//! The store actor: the one writer of a backend.

use vstd::prelude::*;
use crate::backend::Backend;
use crate::event::{views, StoreMessage, StoreMessageView};
use crate::mailbox::Mailbox;
use crate::tables::{BackendError, TablesView};

verus! {

/// What became of one message that reached the actor.
#[derive(Clone, Copy, Debug, PartialEq, Eq, Structural)]
pub enum Outcome {
    /// The backend applied the event; the number says how many message rows
    /// it touched.
    Applied(usize),
    /// The backend could not apply the event. The failure concerns this event
    /// alone: it is to be logged, and the actor goes on.
    Failed(BackendError),
    /// The message was `Stop`: the actor has ended.
    Stopped,
    /// The message came after `Stop` and was not accepted.
    Refused,
}

impl Outcome {
    /// The answer that stands for what a backend reports of one event.
    pub open spec fn of(done: Result<nat, BackendError>) -> Outcome {
        match done {
            Ok(rows) => Outcome::Applied(rows as usize),
            Err(e) => Outcome::Failed(e),
        }
    }

    /// The answer that stands for what a backend has reported of one event.
    pub fn from_report(done: Result<usize, BackendError>) -> (outcome: Outcome)
        ensures
            outcome == match done {
                Ok(rows) => Outcome::Applied(rows),
                Err(e) => Outcome::Failed(e),
            },
    {
        match done {
            Ok(rows) => Outcome::Applied(rows),
            Err(e) => Outcome::Failed(e),
        }
    }

    /// Whether the answer is a failure to log.
    pub fn is_failure(&self) -> (yes: bool)
        ensures
            yes == (*self is Failed),
    {
        match self {
            Outcome::Failed(_) => true,
            _ => false,
        }
    }
}

/// The state of a store actor: whether its backend keeps what it applies,
/// whether it has seen `Stop`, and what its backend holds.
pub struct ActorView {
    pub keeps: bool,
    pub stopped: bool,
    pub content: TablesView,
}

impl ActorView {
    /// The state after one message. A stopped actor never changes again; a
    /// running one stops at `Stop` and hands everything else to its backend.
    pub open spec fn step(self, message: StoreMessageView) -> ActorView {
        if self.stopped {
            self
        } else if message is Stop {
            ActorView { stopped: true, ..self }
        } else {
            ActorView {
                content: Backend::content_after(self.keeps, self.content, message),
                ..self
            }
        }
    }

    /// What the actor answers to one message in this state.
    pub open spec fn outcome(self, message: StoreMessageView) -> Outcome {
        if self.stopped {
            Outcome::Refused
        } else if message is Stop {
            Outcome::Stopped
        } else {
            Outcome::of(Backend::report(self.keeps, self.content, message))
        }
    }

    /// The state after a run of messages, taken in their order.
    pub open spec fn run(self, messages: Seq<StoreMessageView>) -> ActorView
        decreases messages.len(),
    {
        if messages.len() == 0 {
            self
        } else {
            self.run(messages.drop_last()).step(messages.last())
        }
    }

    /// The answers to a run of messages: each is given in the state that the
    /// messages before it have left.
    pub open spec fn outcomes(self, messages: Seq<StoreMessageView>) -> Seq<Outcome> {
        Seq::new(messages.len(), |i: int| self.run(messages.take(i)).outcome(messages[i]))
    }
}

/// How many messages a running actor takes from the front of `queue`: all of
/// them up to the first `Stop`, that one included, or all of them where there
/// is no `Stop`.
pub open spec fn served(queue: Seq<StoreMessage>) -> nat
    decreases queue.len(),
{
    if queue.len() == 0 {
        0
    } else if queue[0] is Stop {
        1
    } else {
        1 + served(queue.drop_first())
    }
}

/// What is to be done with a message that has reached the actor.
#[derive(Debug, PartialEq, Eq)]
pub enum Admission {
    /// Hand the message to the backend.
    Apply(StoreMessage),
    /// The message was `Stop`: close the backend and end.
    Close,
    /// The actor has ended before: the message is not accepted.
    Refuse,
}

/// The part of the actor that decides whether a message still goes to the
/// backend. It is all that a caller needs who applies the events to a backend
/// of its own.
#[derive(Clone, Copy, Debug, PartialEq, Eq, Structural)]
pub struct Intake {
    pub stopped: bool,
}

impl Intake {
    /// An intake that has not seen `Stop`.
    pub fn new() -> (intake: Intake)
        ensures
            !intake.stopped,
    {
        Intake { stopped: false }
    }

    /// Decides about one message. After `Stop` nothing is accepted any more;
    /// until then every other message goes on to the backend, unchanged.
    pub fn accept(&mut self, message: StoreMessage) -> (admission: Admission)
        ensures
            final(self).stopped == (old(self).stopped || message is Stop),
            match admission {
                Admission::Apply(passed) => !old(self).stopped && !(message is Stop) && passed
                    == message,
                Admission::Close => !old(self).stopped && message is Stop,
                Admission::Refuse => old(self).stopped,
            },
    {
        if self.stopped {
            return Admission::Refuse;
        }
        match message {
            StoreMessage::Stop => {
                self.stopped = true;
                Admission::Close
            },
            other => Admission::Apply(other),
        }
    }
}

/// The one writer of a backend. It takes the messages of its queue one by one,
/// in the order of their arrival, until it meets `Stop`.
pub struct StoreActor {
    backend: Backend,
    intake: Intake,
}

impl View for StoreActor {
    type V = ActorView;

    closed spec fn view(&self) -> ActorView {
        ActorView {
            keeps: self.backend.keeps(),
            stopped: self.intake.stopped,
            content: self.backend.content(),
        }
    }
}

impl StoreActor {
    /// A running actor that writes to `backend`.
    pub fn new(backend: Backend) -> (actor: StoreActor)
        ensures
            actor@ == (ActorView {
                keeps: backend.keeps(),
                stopped: false,
                content: backend.content(),
            }),
    {
        StoreActor { backend, intake: Intake::new() }
    }

    /// Whether the actor has seen `Stop`.
    pub fn is_stopped(&self) -> (yes: bool)
        ensures
            yes == self@.stopped,
    {
        self.intake.stopped
    }

    /// The backend that the actor writes to.
    pub fn backend(&self) -> (backend: &Backend)
        ensures
            backend.keeps() == self@.keeps,
            backend.content() == self@.content,
    {
        &self.backend
    }

    /// Gives the backend back and ends the actor with it.
    pub fn into_backend(self) -> (backend: Backend)
        ensures
            backend.keeps() == self@.keeps,
            backend.content() == self@.content,
    {
        self.backend
    }

    /// Handles one message. `Stop` ends the actor; after it every message is
    /// refused and the backend is never written again. Any other message goes
    /// to the backend, and a failure there is an answer, not an end: the actor
    /// stays ready for the next message.
    pub fn handle(&mut self, message: StoreMessage) -> (outcome: Outcome)
        ensures
            final(self)@ == old(self)@.step(message@),
            outcome == old(self)@.outcome(message@),
    {
        match self.intake.accept(message) {
            Admission::Apply(passed) => Outcome::from_report(self.backend.apply(passed)),
            Admission::Close => Outcome::Stopped,
            Admission::Refuse => Outcome::Refused,
        }
    }

    /// Handles a batch of messages in their order and returns one answer for
    /// each. Messages behind a `Stop` are refused.
    pub fn drain(&mut self, batch: Vec<StoreMessage>) -> (answers: Vec<Outcome>)
        ensures
            final(self)@ == old(self)@.run(views(batch@)),
            answers@ == old(self)@.outcomes(views(batch@)),
    {
        let ghost start = self@;
        let ghost all = views(batch@);
        let mut answers: Vec<Outcome> = Vec::new();
        for message in it: batch
            invariant
                it.seq() == batch@,
                all == views(batch@),
                self@ == start.run(all.take(it.index() as int)),
                answers@.len() == it.index(),
                forall|i: int|
                    0 <= i < it.index() ==> answers@[i] == start.run(all.take(i)).outcome(all[i]),
        {
            let ghost done = it.index() as int;
            proof {
                assert(all.take(done + 1).drop_last() =~= all.take(done));
                assert(all[done] == message@);
            }
            let outcome = self.handle(message);
            answers.push(outcome);
        }
        proof {
            assert(all.take(all.len() as int) =~= all);
            assert(answers@ =~= start.outcomes(all));
        }
        answers
    }

    /// Works off the queue: takes message after message from its front, in the
    /// order in which they entered, and handles each, until the queue is empty
    /// or `Stop` has been handled. What stands behind `Stop` stays in the queue
    /// and is never read; an actor that had stopped before takes nothing.
    pub fn serve(&mut self, mailbox: &mut Mailbox) -> (answers: Vec<Outcome>)
        requires
            old(mailbox).wf(),
        ensures
            final(mailbox).wf(),
            final(mailbox).capacity() == old(mailbox).capacity(),
            answers@.len() == (if old(self)@.stopped {
                0
            } else {
                served(old(mailbox)@)
            }),
            final(mailbox)@ == old(mailbox)@.skip(answers@.len() as int),
            final(self)@ == old(self)@.run(views(old(mailbox)@.take(answers@.len() as int))),
            answers@ == old(self)@.outcomes(views(old(mailbox)@.take(answers@.len() as int))),
    {
        let ghost start = self@;
        let ghost queue = mailbox@;
        let mut answers: Vec<Outcome> = Vec::new();
        proof {
            assert(queue.skip(0) =~= queue);
            assert(views(queue.take(0)) =~= Seq::empty());
            lemma_served_bound(queue);
        }
        while !self.intake.stopped
            invariant
                mailbox.wf(),
                mailbox.capacity() == old(mailbox).capacity(),
                queue == old(mailbox)@,
                start == old(self)@,
                answers@.len() <= queue.len(),
                mailbox@ == queue.skip(answers@.len() as int),
                self@ == start.run(views(queue.take(answers@.len() as int))),
                answers@ == start.outcomes(views(queue.take(answers@.len() as int))),
                !start.stopped ==> served(queue) == answers@.len() + (if self@.stopped {
                    0
                } else {
                    served(queue.skip(answers@.len() as int))
                }),
                start.stopped ==> answers@.len() == 0 && self@.stopped,
            ensures
                mailbox.wf(),
                mailbox.capacity() == old(mailbox).capacity(),
                mailbox@ == queue.skip(answers@.len() as int),
                self@ == start.run(views(queue.take(answers@.len() as int))),
                answers@ == start.outcomes(views(queue.take(answers@.len() as int))),
                answers@.len() == (if start.stopped {
                    0
                } else {
                    served(queue)
                }),
            decreases mailbox@.len(),
        {
            let ghost done = answers@.len() as int;
            let ghost rest = queue.skip(done);
            match mailbox.take() {
                None => {
                    break ;
                },
                Some(message) => {
                    proof {
                        assert(message == queue[done]);
                        assert(rest.drop_first() =~= queue.skip(done + 1));
                        assert(queue.take(done + 1).drop_last() =~= queue.take(done));
                        assert(views(queue.take(done + 1)).drop_last() =~= views(queue.take(done)));
                        assert(views(queue.take(done + 1)).last() == message@);
                    }
                    let outcome = self.handle(message);
                    answers.push(outcome);
                    proof {
                        let seen = views(queue.take(done + 1));
                        assert(answers@ =~= start.outcomes(seen)) by {
                            assert forall|i: int| 0 <= i < seen.len() implies answers@[i]
                                == start.outcomes(seen)[i] by {
                                if i < done {
                                    assert(seen.take(i) =~= views(queue.take(done)).take(i));
                                } else {
                                    assert(seen.take(i) =~= views(queue.take(done)));
                                }
                            }
                        }
                    }
                },
            }
        }
        answers
    }
}

/// A running actor takes no more messages than the queue holds.
proof fn lemma_served_bound(queue: Seq<StoreMessage>)
    ensures
        served(queue) <= queue.len(),
    decreases queue.len(),
{
    if queue.len() > 0 && !(queue[0] is Stop) {
        lemma_served_bound(queue.drop_first());
    }
}

} // verus!
