use aegistrate::cooldown::{CooldownStore, StoreUnavailable};
use aegistrate::gate::{Phase, Watchdog, WatchdogVerdict};
use aegistrate::handler::{
    Admission, Clearance, Dispatch, Handler, Interaction, Invocation, Startup, StartupError,
};
use aegistrate::registry::{Command, DuplicateCommand};
use aegistrate::respond::{
    not_cooled_down_respond, not_ready_respond, unknown_command_respond, LogLevel, Presence,
};

fn invocation(id: u64, user: u64, command: &str) -> Invocation {
    Invocation { id, user, command: command.to_string() }
}

fn started(commands: Vec<Command<u32>>) -> Handler<u32> {
    let mut handler = Handler::new();
    handler.ready(commands).unwrap();
    handler
}

/// Runs one invocation to its end as an application would, with the cooldowns
/// in `store`; returns the executor of the command where it was run.
fn run(
    handler: &Handler<u32>,
    store: &mut CooldownStore,
    invocation: &Invocation,
    now: u64,
) -> Option<u32> {
    match handler.dispatch(store, invocation, now) {
        Dispatch::Execute(command) => {
            let conclusion =
                Handler::handle_command_execution(command, invocation, &Ok(()), now);
            store.record_use(
                conclusion.record.user,
                &conclusion.record.command,
                conclusion.record.at,
            );
            Some(command.executor)
        }
        _ => None,
    }
}

#[test]
fn new_handler_has_not_started() {
    let handler: Handler<u32> = Handler::new();
    assert_eq!(handler.gate().current_phase(), Phase::NotReady);
    assert!(handler.appear_active().is_none());
}

#[test]
fn first_ready_event_starts_the_service() {
    let mut handler = Handler::new();
    let startup = handler.ready(vec![Command::new("ban", 0, 1u32)]).unwrap();
    assert_eq!(
        startup,
        Startup { announced: Some(Presence::waiting()), presence: Some(Presence::active()) }
    );
    assert_eq!(handler.gate().current_phase(), Phase::AcceptingWork);
}

#[test]
fn startup_twice_is_startup_once() {
    let mut once = Handler::new();
    once.ready(vec![Command::new("ban", 0, 1u32)]).unwrap();
    let mut twice = Handler::new();
    twice.ready(vec![Command::new("ban", 0, 1u32)]).unwrap();
    let again = twice.ready(vec![Command::new("kick", 60, 2u32)]).unwrap();
    assert_eq!(again, Startup { announced: None, presence: Some(Presence::active()) });
    assert_eq!(twice.gate().current_phase(), once.gate().current_phase());
    assert_eq!(twice.gate().is_service_ready(), once.gate().is_service_ready());
    assert_eq!(twice.gate().is_accepting_work(), once.gate().is_accepting_work());
    assert!(matches!(
        twice.run_application_command(&invocation(1, 1, "ban")),
        Admission::Admitted(_)
    ));
    assert!(matches!(
        twice.run_application_command(&invocation(2, 1, "kick")),
        Admission::UnknownCommand(_)
    ));
}

#[test]
fn duplicate_commands_keep_the_service_from_accepting_work() {
    let mut handler = Handler::new();
    let outcome =
        handler.ready(vec![Command::new("ban", 0, 1u32), Command::new("ban", 5, 2u32)]);
    assert_eq!(outcome, Err(DuplicateCommand { name: "ban".to_string() }));
    assert_eq!(handler.gate().current_phase(), Phase::ServiceReady);
    assert!(matches!(
        handler.run_application_command(&invocation(1, 1, "ban")),
        Admission::NotReady(_)
    ));
    let again = handler.ready(vec![Command::new("ban", 0, 1u32)]).unwrap();
    assert_eq!(again, Startup { announced: None, presence: None });
    assert_eq!(handler.gate().current_phase(), Phase::ServiceReady);
}

#[test]
fn startup_step_by_step() {
    let mut handler = Handler::new();
    assert_eq!(
        handler.initialize_systems(vec![Command::new("ban", 0, 1u32)]),
        Err(StartupError::NotServiceReady)
    );
    assert_eq!(handler.gate().current_phase(), Phase::NotReady);
    assert_eq!(handler.discord_ready_up(), Some(Presence::waiting()));
    assert_eq!(handler.gate().current_phase(), Phase::ServiceReady);
    assert_eq!(handler.discord_ready_up(), None);
    assert_eq!(handler.appear_active(), None);
    assert!(matches!(
        handler.run_application_command(&invocation(1, 1, "ban")),
        Admission::NotReady(_)
    ));
    assert_eq!(
        handler.initialize_systems(vec![Command::new("a", 0, 1u32), Command::new("a", 0, 2u32)]),
        Err(StartupError::Duplicate(DuplicateCommand { name: "a".to_string() }))
    );
    assert_eq!(handler.gate().current_phase(), Phase::ServiceReady);
    assert_eq!(handler.initialize_systems(vec![Command::new("ban", 0, 1u32)]), Ok(()));
    assert_eq!(handler.gate().current_phase(), Phase::AcceptingWork);
    assert_eq!(handler.appear_active(), Some(Presence::active()));
    assert_eq!(
        handler.initialize_systems(vec![Command::new("kick", 0, 2u32)]),
        Err(StartupError::AlreadyInitialized)
    );
    assert!(matches!(
        handler.run_application_command(&invocation(2, 1, "kick")),
        Admission::UnknownCommand(_)
    ));
    assert_eq!(handler.discord_ready_up(), None);
    assert_eq!(handler.gate().current_phase(), Phase::AcceptingWork);
}

#[test]
fn watchdog_reads_the_gate_of_the_handler() {
    let mut handler: Handler<u32> = Handler::new();
    let watchdog = Watchdog::new(2);
    assert_eq!(
        watchdog.verdict(2, handler.gate()),
        WatchdogVerdict::Expired { exit_code: 1 }
    );
    handler.discord_ready_up();
    assert_eq!(watchdog.verdict(2, handler.gate()), WatchdogVerdict::Satisfied);
}

#[test]
fn command_without_cooldown_runs_twice_in_succession() {
    let handler = started(vec![Command::new("ban", 0, 1u32)]);
    let mut store = CooldownStore::new();
    assert_eq!(run(&handler, &mut store, &invocation(1, 7, "ban"), 1000), Some(1));
    assert_eq!(store.len(), 1);
    assert_eq!(store.last_use(7, "ban"), Some(1000));
    assert_eq!(run(&handler, &mut store, &invocation(2, 7, "ban"), 1000), Some(1));
    assert_eq!(run(&handler, &mut store, &invocation(3, 7, "ban"), 1003), Some(1));
    assert_eq!(store.len(), 1);
    assert_eq!(store.last_use(7, "ban"), Some(1003));
}

#[test]
fn command_with_cooldown_rejects_an_early_second_use() {
    let handler = started(vec![Command::new("kick", 60, 2u32)]);
    let mut store = CooldownStore::new();
    assert_eq!(run(&handler, &mut store, &invocation(1, 7, "kick"), 1000), Some(2));
    match handler.dispatch(&store, &invocation(2, 7, "kick"), 1010) {
        Dispatch::CoolingDown(response) => {
            assert_eq!(response, not_cooled_down_respond(50));
            assert_eq!(response.description, "Cooldown has not been reached: 50s left.");
        }
        other => panic!("{:?}", other),
    }
    assert_eq!(store.remaining_cooldown(7, &Command::new("kick", 60, ()), 1010), 50);
    assert_eq!(run(&handler, &mut store, &invocation(3, 7, "kick"), 1010), None);
    assert_eq!(store.last_use(7, "kick"), Some(1000));
    assert_eq!(store.len(), 1);
    assert_eq!(run(&handler, &mut store, &invocation(4, 8, "kick"), 1010), Some(2));
    assert_eq!(run(&handler, &mut store, &invocation(5, 7, "kick"), 1060), Some(2));
    assert_eq!(store.last_use(7, "kick"), Some(1060));
}

#[test]
fn unknown_command_is_answered_and_leaves_no_trace() {
    let handler = started(vec![Command::new("ban", 0, 1u32)]);
    let mut store = CooldownStore::new();
    match handler.run_application_command(&invocation(1, 7, "foo")) {
        Admission::UnknownCommand(response) => {
            assert_eq!(response, unknown_command_respond("foo"));
        }
        other => panic!("{:?}", other),
    }
    assert!(matches!(
        handler.dispatch(&store, &invocation(1, 7, "foo"), 1000),
        Dispatch::UnknownCommand(_)
    ));
    assert_eq!(run(&handler, &mut store, &invocation(1, 7, "foo"), 1000), None);
    assert_eq!(store.len(), 0);
    assert_eq!(store.last_use(7, "foo"), None);
}

#[test]
fn closed_gate_answers_not_ready_whatever_is_asked() {
    let mut handler = Handler::new();
    let mut store = CooldownStore::new();
    for name in ["ban", "foo", ""] {
        match handler.run_application_command(&invocation(1, 7, name)) {
            Admission::NotReady(response) => assert_eq!(response, not_ready_respond()),
            other => panic!("{:?}", other),
        }
        assert_eq!(run(&handler, &mut store, &invocation(1, 7, name), 1000), None);
    }
    handler.discord_ready_up();
    assert!(matches!(
        handler.dispatch(&store, &invocation(2, 7, "ban"), 1000),
        Dispatch::NotReady(_)
    ));
    assert_eq!(store.len(), 0);
}

#[test]
fn closed_gate_does_not_tell_known_from_unknown_commands() {
    let mut handler = Handler::new();
    handler.discord_ready_up();
    assert_eq!(
        handler.initialize_systems(vec![Command::new("ban", 0, 1u32), Command::new("ban", 0, 2u32)]),
        Err(StartupError::Duplicate(DuplicateCommand { name: "ban".to_string() }))
    );
    let known = handler.run_application_command(&invocation(1, 7, "ban"));
    let unknown = handler.run_application_command(&invocation(1, 7, "foo"));
    match (known, unknown) {
        (Admission::NotReady(a), Admission::NotReady(b)) => assert_eq!(a, b),
        other => panic!("{:?}", other),
    }
}

#[test]
fn other_interactions_are_not_dispatched() {
    let handler = started(vec![Command::new("ban", 0, 1u32)]);
    assert!(handler.interaction_create(&Interaction::Other).is_none());
    assert!(matches!(
        handler.interaction_create(&Interaction::ApplicationCommand(invocation(1, 7, "ban"))),
        Some(Admission::Admitted(command)) if command.executor == 1
    ));
    assert!(matches!(
        handler.interaction_create(&Interaction::ApplicationCommand(invocation(1, 7, "foo"))),
        Some(Admission::UnknownCommand(_))
    ));
    let closed: Handler<u32> = Handler::new();
    assert!(closed.interaction_create(&Interaction::Other).is_none());
    assert!(matches!(
        closed.interaction_create(&Interaction::ApplicationCommand(invocation(1, 7, "ban"))),
        Some(Admission::NotReady(_))
    ));
}

#[test]
fn cooldown_check_on_what_the_store_gave() {
    let kick = Command::new("kick", 60, ());
    assert_eq!(Handler::check_cooldown(&kick, Ok(None), 1000), Clearance::Cleared);
    assert_eq!(Handler::check_cooldown(&kick, Ok(Some(1000)), 1060), Clearance::Cleared);
    assert_eq!(
        Handler::check_cooldown(&kick, Ok(Some(1000)), 1010),
        Clearance::CoolingDown(not_cooled_down_respond(50))
    );
    assert_eq!(
        Handler::check_cooldown(&kick, Ok(Some(1000)), 1000),
        Clearance::CoolingDown(not_cooled_down_respond(60))
    );
}

#[test]
fn unreadable_store_aborts_the_dispatch() {
    let kick = Command::new("kick", 60, ());
    let down = StoreUnavailable { reason: "connection refused".to_string() };
    assert_eq!(
        Handler::check_cooldown(&kick, Err(down.clone()), 1000),
        Clearance::Aborted(down.clone())
    );
    let free = Command::new("ban", 0, ());
    assert_eq!(Handler::check_cooldown(&free, Err(down.clone()), 1000), Clearance::Aborted(down));
}

#[test]
fn use_is_recorded_whether_the_command_succeeded_or_failed() {
    let kick = Command::new("kick", 60, ());
    let asked = invocation(77, 7, "kick");
    let done = Handler::handle_command_execution(&kick, &asked, &Ok(()), 1000);
    assert_eq!(done.log.level, LogLevel::Info);
    assert_eq!(done.log.message, "Interaction 77: Command /kick executed successfully");
    assert_eq!(done.record.user, 7);
    assert_eq!(done.record.command, "kick");
    assert_eq!(done.record.at, 1000);
    let failed =
        Handler::handle_command_execution(&kick, &asked, &Err("no such member".to_string()), 1001);
    assert_eq!(failed.log.level, LogLevel::Error);
    assert_eq!(
        failed.log.message,
        "Interaction 77: Command /kick executed with an error: no such member"
    );
    assert_eq!(failed.record.user, 7);
    assert_eq!(failed.record.command, "kick");
    assert_eq!(failed.record.at, 1001);
}

#[test]
fn first_use_is_free_and_the_next_waits() {
    let handler = started(vec![Command::new("kick", 60, 2u32), Command::new("ban", 0, 1u32)]);
    let mut store = CooldownStore::new();
    assert!(matches!(
        handler.dispatch(&store, &invocation(1, 7, "kick"), 0),
        Dispatch::Execute(command) if command.name == "kick"
    ));
    assert_eq!(run(&handler, &mut store, &invocation(1, 7, "kick"), 5), Some(2));
    assert!(matches!(
        handler.dispatch(&store, &invocation(2, 7, "kick"), 5),
        Dispatch::CoolingDown(_)
    ));
    assert_eq!(run(&handler, &mut store, &invocation(3, 7, "ban"), 5), Some(1));
    assert!(matches!(
        handler.dispatch(&store, &invocation(4, 7, "ban"), 5),
        Dispatch::Execute(_)
    ));
}
