//! The order in which the tasks are ended.

use vstd::prelude::*;

verus! {

/// How far the shutdown has come.
#[derive(Clone, Copy, Debug, PartialEq, Eq, Structural)]
pub enum Phase {
    /// Listeners and actor are at work.
    Running,
    /// The listeners were told to end; some have not returned yet.
    Cancelling,
    /// Every listener has returned and `Stop` is in the queue; the actor is
    /// working off what stands before it.
    Draining,
    /// Every task has returned.
    Done,
}

/// What the supervisor learns.
#[derive(Clone, Copy, Debug, PartialEq, Eq, Structural)]
pub enum Notice {
    /// The operator asked the process to end.
    Interrupt,
    /// One listener task has returned.
    ListenerExited,
    /// The actor task has returned.
    ActorExited,
}

/// What the supervisor is to do next.
#[derive(Clone, Copy, Debug, PartialEq, Eq, Structural)]
pub enum Order {
    /// Nothing: keep waiting.
    Wait,
    /// Raise the cancellation signal that every listener watches.
    Cancel,
    /// Put `Stop` into the actor's queue.
    Stop,
    /// Leave: no task is left to wait for.
    Finish,
}

/// The state of the shutdown protocol: how many listener tasks have not
/// returned, whether the actor task is still at work, and the phase.
#[derive(Clone, Copy, Debug, PartialEq, Eq, Structural)]
pub struct State {
    pub listeners: usize,
    pub actor: bool,
    pub phase: Phase,
}

impl State {
    /// What holds of every state that the protocol reaches: while it drains
    /// no listener is left and the actor is at work, and when it is done no
    /// task is left.
    pub open spec fn valid(self) -> bool {
        &&& self.phase == Phase::Draining ==> self.listeners == 0 && self.actor
        &&& self.phase == Phase::Done ==> self.listeners == 0 && !self.actor
    }

    /// The state after `notice`.
    ///
    /// The shutdown begins with the interrupt, or with an actor that returns
    /// on its own. From then on the phase follows the tasks that are left:
    /// `Cancelling` while a listener is, `Draining` while only the actor is,
    /// `Done` when none is.
    ///
    /// This is the rule that orders the shutdown: `Stop` enters the queue only
    /// when every listener has returned. A listener may be in the middle of
    /// forwarding an event when it is cancelled; because the supervisor waits
    /// for it first, nothing can enter the queue behind `Stop`.
    pub open spec fn after(self, notice: Notice) -> State {
        let listeners = if notice == Notice::ListenerExited && self.listeners > 0 {
            (self.listeners - 1) as usize
        } else {
            self.listeners
        };
        let actor = self.actor && notice != Notice::ActorExited;
        let ending = self.phase != Phase::Running || notice == Notice::Interrupt || notice
            == Notice::ActorExited;
        let phase = if !ending {
            Phase::Running
        } else if listeners > 0 {
            Phase::Cancelling
        } else if actor {
            Phase::Draining
        } else {
            Phase::Done
        };
        State { listeners, actor, phase }
    }

    /// What the supervisor does on `notice`: it cancels on entering
    /// `Cancelling`, enqueues `Stop` on entering `Draining`, finishes on
    /// entering `Done`, and waits otherwise.
    pub open spec fn order_on(self, notice: Notice) -> Order {
        let next = self.after(notice);
        if next.phase == self.phase {
            Order::Wait
        } else {
            match next.phase {
                Phase::Running => Order::Wait,
                Phase::Cancelling => Order::Cancel,
                Phase::Draining => Order::Stop,
                Phase::Done => Order::Finish,
            }
        }
    }

    /// The state after a run of notices.
    pub open spec fn after_all(self, notices: Seq<Notice>) -> State
        decreases notices.len(),
    {
        if notices.len() == 0 {
            self
        } else {
            self.after_all(notices.drop_last()).after(notices.last())
        }
    }

    /// The orders given over a run of notices, one for each.
    pub open spec fn orders(self, notices: Seq<Notice>) -> Seq<Order> {
        Seq::new(notices.len(), |i: int| self.after_all(notices.take(i)).order_on(notices[i]))
    }
}

/// The part of the supervisor that decides: it is told what happens to the
/// tasks and says what to do about it.
pub struct Supervisor {
    state: State,
}

impl View for Supervisor {
    type V = State;

    closed spec fn view(&self) -> State {
        self.state
    }
}

impl Supervisor {
    /// Holds of every value of this type: its state is one that the protocol
    /// reaches.
    #[verifier::type_invariant]
    pub closed spec fn well_formed(&self) -> bool {
        self.state.valid()
    }

    /// A supervisor over `listeners` running listener tasks and a running
    /// actor. It refuses to start without a listener: with no source to watch
    /// there is nothing to run.
    pub fn new(listeners: usize) -> (supervisor: Option<Supervisor>)
        ensures
            supervisor is Some <==> listeners > 0,
            supervisor matches Some(s) ==> s@ == (State {
                listeners,
                actor: true,
                phase: Phase::Running,
            }),
    {
        if listeners == 0 {
            None
        } else {
            Some(Supervisor { state: State { listeners, actor: true, phase: Phase::Running } })
        }
    }

    /// The state that the supervisor is in.
    pub fn state(&self) -> (state: State)
        ensures
            state == self@,
            state.valid(),
    {
        proof {
            use_type_invariant(self);
        }
        self.state
    }

    /// Takes one notice and says what to do.
    pub fn notify(&mut self, notice: Notice) -> (order: Order)
        ensures
            final(self)@ == old(self)@.after(notice),
            final(self)@.valid(),
            order == old(self)@.order_on(notice),
    {
        let before = self.state;
        let listeners = if notice == Notice::ListenerExited && before.listeners > 0 {
            before.listeners - 1
        } else {
            before.listeners
        };
        let actor = before.actor && notice != Notice::ActorExited;
        let ending = before.phase != Phase::Running || notice == Notice::Interrupt || notice
            == Notice::ActorExited;
        let phase = if !ending {
            Phase::Running
        } else if listeners > 0 {
            Phase::Cancelling
        } else if actor {
            Phase::Draining
        } else {
            Phase::Done
        };
        self.state = State { listeners, actor, phase };
        if phase == before.phase {
            Order::Wait
        } else {
            match phase {
                Phase::Running => Order::Wait,
                Phase::Cancelling => Order::Cancel,
                Phase::Draining => Order::Stop,
                Phase::Done => Order::Finish,
            }
        }
    }
}

/// How many of `orders` are `order`.
pub open spec fn times(orders: Seq<Order>, order: Order) -> nat
    decreases orders.len(),
{
    if orders.len() == 0 {
        0
    } else {
        times(orders.drop_last(), order) + if orders.last() == order {
            1nat
        } else {
            0nat
        }
    }
}

/// `Stop` is enqueued only when no listener is left that could still forward
/// an event, and the supervisor finishes only when no task is left at all.
pub proof fn stop_follows_the_last_listener(state: State, notice: Notice)
    ensures
        state.after(notice).valid(),
        state.order_on(notice) == Order::Stop ==> state.after(notice).listeners == 0
            && state.after(notice).actor,
        state.order_on(notice) == Order::Finish ==> state.after(notice).listeners == 0
            && !state.after(notice).actor,
{
}

/// The place of a phase in the order in which the phases follow each other.
pub open spec fn rank(phase: Phase) -> nat {
    match phase {
        Phase::Running => 0,
        Phase::Cancelling => 1,
        Phase::Draining => 2,
        Phase::Done => 3,
    }
}

/// An order is given on entering its phase, and no phase is entered twice.
proof fn lemma_orders_follow_phases(start: State, notices: Seq<Notice>)
    requires
        start.valid(),
    ensures
        start.after_all(notices).valid(),
        rank(start.phase) <= rank(start.after_all(notices).phase),
        times(start.orders(notices), Order::Cancel) <= (if rank(start.phase) < 1 && rank(
            start.after_all(notices).phase,
        ) >= 1 {
            1nat
        } else {
            0nat
        }),
        times(start.orders(notices), Order::Stop) <= (if rank(start.phase) < 2 && rank(
            start.after_all(notices).phase,
        ) >= 2 {
            1nat
        } else {
            0nat
        }),
        times(start.orders(notices), Order::Finish) <= (if rank(start.phase) < 3 && rank(
            start.after_all(notices).phase,
        ) >= 3 {
            1nat
        } else {
            0nat
        }),
    decreases notices.len(),
{
    if notices.len() > 0 {
        let front = notices.drop_last();
        lemma_orders_follow_phases(start, front);
        assert(start.orders(notices).drop_last() =~= start.orders(front)) by {
            assert forall|i: int| 0 <= i < front.len() implies start.orders(notices)[i]
                == start.orders(front)[i] by {
                assert(notices.take(i) =~= front.take(i));
            }
        }
        assert(notices.take(notices.len() - 1) =~= front);
    }
}

/// Whatever the supervisor is told and in whatever order, the phase never
/// goes back, the cancellation is raised at most once, `Stop` is enqueued at
/// most once, and the supervisor finishes at most once.
pub proof fn each_order_is_given_once(start: State, notices: Seq<Notice>)
    requires
        start.valid(),
    ensures
        start.after_all(notices).valid(),
        rank(start.phase) <= rank(start.after_all(notices).phase),
        times(start.orders(notices), Order::Cancel) <= 1,
        times(start.orders(notices), Order::Stop) <= 1,
        times(start.orders(notices), Order::Finish) <= 1,
{
    lemma_orders_follow_phases(start, notices);
}

} // verus!
