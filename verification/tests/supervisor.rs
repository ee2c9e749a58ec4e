use twirc::supervisor::{Notice, Order, Phase, State, Supervisor};

#[test]
fn no_supervisor_without_a_listener() {
    assert!(Supervisor::new(0).is_none());
    assert_eq!(
        Supervisor::new(3).map(|s| s.state()),
        Some(State { listeners: 3, actor: true, phase: Phase::Running })
    );
    assert_eq!(
        Supervisor::new(usize::MAX).map(|s| s.state()),
        Some(State { listeners: usize::MAX, actor: true, phase: Phase::Running })
    );
}

#[test]
fn stop_is_enqueued_when_the_last_listener_has_returned() {
    let mut supervisor = Supervisor::new(3).unwrap();
    assert_eq!(supervisor.notify(Notice::Interrupt), Order::Cancel);
    assert_eq!(supervisor.state().phase, Phase::Cancelling);
    assert_eq!(supervisor.notify(Notice::ListenerExited), Order::Wait);
    assert_eq!(supervisor.notify(Notice::Interrupt), Order::Wait);
    assert_eq!(supervisor.notify(Notice::ListenerExited), Order::Wait);
    assert_eq!(supervisor.state().phase, Phase::Cancelling);
    assert_eq!(supervisor.notify(Notice::ListenerExited), Order::Stop);
    assert_eq!(supervisor.state(), State { listeners: 0, actor: true, phase: Phase::Draining });
    assert_eq!(supervisor.notify(Notice::ListenerExited), Order::Wait);
    assert_eq!(supervisor.notify(Notice::Interrupt), Order::Wait);
    assert_eq!(supervisor.notify(Notice::ActorExited), Order::Finish);
    assert_eq!(supervisor.state(), State { listeners: 0, actor: false, phase: Phase::Done });
    assert_eq!(supervisor.notify(Notice::ActorExited), Order::Wait);
    assert_eq!(supervisor.notify(Notice::Interrupt), Order::Wait);
    assert_eq!(supervisor.state().phase, Phase::Done);
}

#[test]
fn a_listener_that_fails_does_not_end_the_process() {
    let mut supervisor = Supervisor::new(2).unwrap();
    assert_eq!(supervisor.notify(Notice::ListenerExited), Order::Wait);
    assert_eq!(supervisor.state(), State { listeners: 1, actor: true, phase: Phase::Running });
    assert_eq!(supervisor.notify(Notice::ListenerExited), Order::Wait);
    assert_eq!(supervisor.state(), State { listeners: 0, actor: true, phase: Phase::Running });
    assert_eq!(supervisor.notify(Notice::Interrupt), Order::Stop);
    assert_eq!(supervisor.state().phase, Phase::Draining);
    assert_eq!(supervisor.notify(Notice::ActorExited), Order::Finish);
}

#[test]
fn an_actor_that_ends_early_ends_the_listeners() {
    let mut supervisor = Supervisor::new(2).unwrap();
    assert_eq!(supervisor.notify(Notice::ActorExited), Order::Cancel);
    assert_eq!(supervisor.state(), State { listeners: 2, actor: false, phase: Phase::Cancelling });
    assert_eq!(supervisor.notify(Notice::ListenerExited), Order::Wait);
    assert_eq!(supervisor.notify(Notice::ListenerExited), Order::Finish);
    assert_eq!(supervisor.state(), State { listeners: 0, actor: false, phase: Phase::Done });
}

#[test]
fn actor_may_end_while_the_listeners_are_cancelled() {
    let mut supervisor = Supervisor::new(1).unwrap();
    assert_eq!(supervisor.notify(Notice::Interrupt), Order::Cancel);
    assert_eq!(supervisor.notify(Notice::ActorExited), Order::Wait);
    assert_eq!(supervisor.notify(Notice::ListenerExited), Order::Finish);
    assert_eq!(supervisor.state().phase, Phase::Done);
}
