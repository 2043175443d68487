use reload_supervisor::config::Config;
use reload_supervisor::protocol::{Action, Event, FatalError, Phase};
use reload_supervisor::supervisor::{start, Supervisor};

const EVENTS: [Event; 5] = [
    Event::SchemaBuilt,
    Event::BuildFailed,
    Event::Invalidated,
    Event::ServerStopped,
    Event::BindFailed,
];

fn supervisor_in(phase: Phase) -> Supervisor {
    let mut supervisor = Supervisor::new(Config::default());
    let path: &[Event] = match phase {
        Phase::Building => &[],
        Phase::Serving => &[Event::SchemaBuilt],
        Phase::Draining => &[Event::SchemaBuilt, Event::Invalidated],
        Phase::Failed(FatalError::Build) => &[Event::BuildFailed],
        Phase::Failed(FatalError::Bind) => &[Event::SchemaBuilt, Event::BindFailed],
    };
    supervisor.replay(path);
    assert_eq!(supervisor.phase(), phase);
    supervisor
}

fn check(phase: Phase, event: Event, next: Phase, action: Action) {
    let mut supervisor = supervisor_in(phase);
    assert_eq!(supervisor.step(event), action);
    assert_eq!(supervisor.phase(), next);
}

#[test]
fn start_begins_by_building() {
    let (supervisor, action) = start(Config::default());
    assert_eq!(supervisor.phase(), Phase::Building);
    assert_eq!(action, Action::Build);
}

#[test]
fn new_supervisor_keeps_its_configuration() {
    let supervisor = Supervisor::new(Config::new("127.0.0.1:9000", 250));
    assert_eq!(supervisor.phase(), Phase::Building);
    assert_eq!(supervisor.config().listen_address, "127.0.0.1:9000");
    assert_eq!(supervisor.config().grace_period_millis, 250);
}

#[test]
fn step_never_changes_the_configuration() {
    let mut supervisor = Supervisor::new(Config::new("127.0.0.1:9000", 250));
    for event in EVENTS {
        supervisor.step(event);
        assert_eq!(supervisor.config().listen_address, "127.0.0.1:9000");
        assert_eq!(supervisor.config().grace_period_millis, 250);
    }
}

#[test]
fn building_table() {
    check(Phase::Building, Event::SchemaBuilt, Phase::Serving, Action::Serve);
    check(
        Phase::Building,
        Event::BuildFailed,
        Phase::Failed(FatalError::Build),
        Action::Exit(FatalError::Build),
    );
    check(Phase::Building, Event::Invalidated, Phase::Building, Action::Wait);
    check(Phase::Building, Event::ServerStopped, Phase::Building, Action::Wait);
    check(Phase::Building, Event::BindFailed, Phase::Building, Action::Wait);
}

#[test]
fn serving_table() {
    check(Phase::Serving, Event::SchemaBuilt, Phase::Serving, Action::Wait);
    check(Phase::Serving, Event::BuildFailed, Phase::Serving, Action::Wait);
    check(Phase::Serving, Event::Invalidated, Phase::Draining, Action::Shutdown);
    check(Phase::Serving, Event::ServerStopped, Phase::Building, Action::Build);
    check(
        Phase::Serving,
        Event::BindFailed,
        Phase::Failed(FatalError::Bind),
        Action::Exit(FatalError::Bind),
    );
}

#[test]
fn draining_table() {
    check(Phase::Draining, Event::SchemaBuilt, Phase::Draining, Action::Wait);
    check(Phase::Draining, Event::BuildFailed, Phase::Draining, Action::Wait);
    check(Phase::Draining, Event::Invalidated, Phase::Draining, Action::Wait);
    check(Phase::Draining, Event::ServerStopped, Phase::Building, Action::Build);
    check(
        Phase::Draining,
        Event::BindFailed,
        Phase::Failed(FatalError::Bind),
        Action::Exit(FatalError::Bind),
    );
}

#[test]
fn failed_is_final() {
    for error in [FatalError::Build, FatalError::Bind] {
        for event in EVENTS {
            check(Phase::Failed(error), event, Phase::Failed(error), Action::Wait);
        }
    }
}

#[test]
fn invalidation_while_draining_changes_nothing() {
    let mut supervisor = supervisor_in(Phase::Draining);
    for _ in 0..10 {
        assert_eq!(supervisor.step(Event::Invalidated), Action::Wait);
        assert_eq!(supervisor.phase(), Phase::Draining);
    }
    assert_eq!(supervisor.step(Event::ServerStopped), Action::Build);
    assert_eq!(supervisor.phase(), Phase::Building);
}

#[test]
fn invalidation_while_draining_leaves_the_rest_of_the_history_alone() {
    let before = [Event::SchemaBuilt, Event::Invalidated];
    let after = [
        Event::ServerStopped,
        Event::SchemaBuilt,
        Event::Invalidated,
        Event::ServerStopped,
    ];
    let mut plain = Supervisor::new(Config::default());
    plain.replay(&before);
    let expected = plain.replay(&after);

    let mut disturbed = Supervisor::new(Config::default());
    disturbed.replay(&before);
    assert_eq!(disturbed.step(Event::Invalidated), Action::Wait);
    assert_eq!(disturbed.replay(&after), expected);
    assert_eq!(disturbed.phase(), plain.phase());
    assert_eq!(
        expected,
        vec![Action::Build, Action::Serve, Action::Shutdown, Action::Build]
    );
}

#[test]
fn first_build_failure_is_fatal_and_starts_no_instance() {
    let (mut supervisor, first) = start(Config::default());
    assert_eq!(first, Action::Build);
    assert_eq!(
        supervisor.step(Event::BuildFailed),
        Action::Exit(FatalError::Build)
    );
    assert_eq!(supervisor.phase(), Phase::Failed(FatalError::Build));
    assert!(!supervisor.phase().holds_instance());
    assert!(supervisor.phase().is_terminal());
    for event in EVENTS {
        assert_eq!(supervisor.step(event), Action::Wait);
        assert_eq!(supervisor.phase(), Phase::Failed(FatalError::Build));
    }
}

#[test]
fn later_build_failure_is_fatal_too() {
    let mut supervisor = Supervisor::new(Config::default());
    let actions = supervisor.replay(&[
        Event::SchemaBuilt,
        Event::Invalidated,
        Event::ServerStopped,
        Event::BuildFailed,
    ]);
    assert_eq!(
        actions,
        vec![
            Action::Serve,
            Action::Shutdown,
            Action::Build,
            Action::Exit(FatalError::Build)
        ]
    );
    assert_eq!(supervisor.phase(), Phase::Failed(FatalError::Build));
}

#[test]
fn bind_failure_is_fatal() {
    let mut supervisor = Supervisor::new(Config::default());
    assert_eq!(supervisor.step(Event::SchemaBuilt), Action::Serve);
    assert_eq!(
        supervisor.step(Event::BindFailed),
        Action::Exit(FatalError::Bind)
    );
    assert_eq!(supervisor.phase(), Phase::Failed(FatalError::Bind));
    assert_eq!(supervisor.step(Event::SchemaBuilt), Action::Wait);
}

#[test]
fn server_that_stops_by_itself_is_rebuilt() {
    let mut supervisor = supervisor_in(Phase::Serving);
    assert_eq!(supervisor.step(Event::ServerStopped), Action::Build);
    assert_eq!(supervisor.phase(), Phase::Building);
    assert_eq!(supervisor.step(Event::SchemaBuilt), Action::Serve);
    assert_eq!(supervisor.phase(), Phase::Serving);
}

#[test]
fn invalidation_during_a_build_is_lost() {
    let mut supervisor = supervisor_in(Phase::Building);
    assert_eq!(supervisor.step(Event::Invalidated), Action::Wait);
    assert_eq!(supervisor.phase(), Phase::Building);
    assert_eq!(supervisor.step(Event::SchemaBuilt), Action::Serve);
    assert_eq!(supervisor.phase(), Phase::Serving);
}

#[test]
fn phases_that_hold_an_instance() {
    assert!(!Phase::Building.holds_instance());
    assert!(Phase::Serving.holds_instance());
    assert!(Phase::Draining.holds_instance());
    assert!(!Phase::Failed(FatalError::Build).holds_instance());
    assert!(!Phase::Failed(FatalError::Bind).holds_instance());
}

#[test]
fn terminal_phases() {
    assert!(!Phase::Building.is_terminal());
    assert!(!Phase::Serving.is_terminal());
    assert!(!Phase::Draining.is_terminal());
    assert!(Phase::Failed(FatalError::Build).is_terminal());
    assert!(Phase::Failed(FatalError::Bind).is_terminal());
}

#[test]
fn replay_answers_as_step_does() {
    let events = [
        Event::Invalidated,
        Event::SchemaBuilt,
        Event::SchemaBuilt,
        Event::Invalidated,
        Event::Invalidated,
        Event::BuildFailed,
        Event::ServerStopped,
        Event::ServerStopped,
        Event::SchemaBuilt,
        Event::ServerStopped,
        Event::SchemaBuilt,
        Event::BindFailed,
        Event::Invalidated,
    ];
    let mut stepped = Supervisor::new(Config::default());
    let mut expected = Vec::new();
    for event in events {
        expected.push(stepped.step(event));
    }
    let mut replayed = Supervisor::new(Config::default());
    assert_eq!(replayed.replay(&events), expected);
    assert_eq!(replayed.phase(), stepped.phase());
    assert_eq!(replayed.phase(), Phase::Failed(FatalError::Bind));
    assert_eq!(
        expected,
        vec![
            Action::Wait,
            Action::Serve,
            Action::Wait,
            Action::Shutdown,
            Action::Wait,
            Action::Wait,
            Action::Build,
            Action::Wait,
            Action::Serve,
            Action::Build,
            Action::Serve,
            Action::Exit(FatalError::Bind),
            Action::Wait,
        ]
    );
}

#[test]
fn replay_of_nothing_does_nothing() {
    let mut supervisor = supervisor_in(Phase::Draining);
    assert_eq!(supervisor.replay(&[]), Vec::<Action>::new());
    assert_eq!(supervisor.phase(), Phase::Draining);
}
