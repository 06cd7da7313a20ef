//! The dispatcher: what to do with each inbound event.
//!
//! The handler owns the readiness gate and the command registry. It performs no
//! input or output itself: every function decides one step from what is known
//! so far, and the caller does the outside work the step asks for (answer the
//! user, read the store, run the command, write the store) before it asks for
//! the next one. A dispatch goes through these steps in this order and stops at
//! the first that fails: readiness, lookup, cooldown, execution, recording.

use crate::cooldown::{
    cooled_down, is_cooled_down_since, last_use_in, remaining, remaining_cooldown_since,
    CooldownKey, CooldownStore, StoreUnavailable,
};
use crate::gate::{Phase, ReadinessGate};
use crate::registry::{
    by_name, first_clash, registrable, Command, CommandRegistry, DuplicateCommand,
};
use crate::respond::{
    not_cooled_down_description, not_cooled_down_respond, not_cooled_down_title,
    not_ready_description, not_ready_respond, not_ready_title, unknown_command_description,
    execution_record, failure_message, success_message, unknown_command_respond,
    unknown_command_title, LogEntry, LogLevel, Presence, Response,
};
use vstd::prelude::*;

verus! {

/// One use of a command by a user, as it arrives.
#[derive(Clone, Debug, PartialEq, Eq)]
pub struct Invocation {
    /// The identifier of the interaction.
    pub id: u64,
    /// The user who asks.
    pub user: u64,
    /// The name of the command asked for.
    pub command: String,
}

/// An inbound interaction.
#[derive(Clone, Debug, PartialEq, Eq)]
pub enum Interaction {
    /// A user asks for a command.
    ApplicationCommand(Invocation),
    /// Anything else; it is not dispatched.
    Other,
}

/// The first decision of a dispatch, taken from readiness and the registry.
#[derive(Debug)]
pub enum Admission<'a, E> {
    /// Work is not accepted yet: answer with the response and stop.
    NotReady(Response),
    /// No such command is registered: answer with the response and stop.
    UnknownCommand(Response),
    /// The command exists: read when the user last used it, then ask for the
    /// clearance.
    Admitted(&'a Command<E>),
}

/// The second decision of a dispatch, taken from the user's last use of the
/// command.
#[derive(Debug, PartialEq, Eq)]
pub enum Clearance {
    /// The store could not be read: the dispatch ends here, without an answer.
    Aborted(StoreUnavailable),
    /// The command is still cooling down for this user: answer with the
    /// response and stop.
    CoolingDown(Response),
    /// The user may use the command: run it, then ask for the conclusion.
    Cleared,
}

/// The use to write to the store once a command has run.
#[derive(Clone, Debug, PartialEq, Eq)]
pub struct UseRecord {
    pub user: u64,
    pub command: String,
    pub at: u64,
}

/// The last step of a dispatch: what to log, and the use to record. A failure
/// to record is logged and goes no further.
#[derive(Clone, Debug, PartialEq, Eq)]
pub struct Conclusion {
    pub log: LogEntry,
    pub record: UseRecord,
}

/// How a dispatch ends.
pub enum Outcome {
    /// Work was not accepted yet.
    NotReady,
    /// No such command was registered.
    UnknownCommand,
    /// The store could not be read.
    Aborted,
    /// The command was cooling down for `left` more seconds.
    CoolingDown { left: int },
    /// The command was run.
    Executed,
}

/// How the dispatch of a use of the command `name` at `now` ends, for a handler
/// in `phase` with the registered `commands`, where reading the user's last use
/// of the command gave `last_use`. The checks come in a fixed order, and each
/// one is reached only where all those before it have passed.
pub open spec fn dispatch_outcome<E>(
    phase: Phase,
    commands: Map<Seq<char>, Command<E>>,
    name: Seq<char>,
    last_use: Result<Option<u64>, StoreUnavailable>,
    now: u64,
) -> Outcome {
    if !phase.accepting_work() {
        Outcome::NotReady
    } else if !commands.dom().contains(name) {
        Outcome::UnknownCommand
    } else {
        match last_use {
            Err(_) => Outcome::Aborted,
            Ok(at) => if cooled_down(at, commands[name].cooldown, now) {
                Outcome::Executed
            } else {
                Outcome::CoolingDown { left: remaining(at, commands[name].cooldown, now) }
            },
        }
    }
}

/// The whole decision of a dispatch whose cooldowns are kept in memory.
#[derive(Debug)]
pub enum Dispatch<'a, E> {
    /// Work is not accepted yet: answer with the response.
    NotReady(Response),
    /// No such command is registered: answer with the response.
    UnknownCommand(Response),
    /// The command is still cooling down for this user: answer with the response.
    CoolingDown(Response),
    /// Run the command, then ask for the conclusion.
    Execute(&'a Command<E>),
}

/// Why the systems could not be initialized.
#[derive(Debug, PartialEq, Eq)]
pub enum StartupError {
    /// The service is not ready yet: there is nothing to initialize for.
    NotServiceReady,
    /// Work is accepted already: the systems are initialized once.
    AlreadyInitialized,
    /// Two commands share a name.
    Duplicate(DuplicateCommand),
}

/// What the start-up sequence asks its caller to show.
#[derive(Clone, Debug, PartialEq, Eq)]
pub struct Startup {
    /// The presence to announce first; only the first start-up has one.
    pub announced: Option<Presence>,
    /// The presence to show at the end, where work is accepted.
    pub presence: Option<Presence>,
}

/// The phase of a handler after the start-up sequence has run with `commands`.
/// Only a handler that is not ready runs the one-time part: it becomes ready
/// and, where the commands can be registered, accepts work.
pub open spec fn phase_after_ready<E>(
    phase: Phase,
    registered: Map<Seq<char>, Command<E>>,
    commands: Seq<Command<E>>,
) -> Phase {
    if phase is NotReady {
        if registrable(registered, commands) {
            Phase::AcceptingWork
        } else {
            Phase::ServiceReady
        }
    } else {
        phase
    }
}

/// The registered commands of a handler after the start-up sequence has run
/// with `commands`.
pub open spec fn commands_after_ready<E>(
    phase: Phase,
    registered: Map<Seq<char>, Command<E>>,
    commands: Seq<Command<E>>,
) -> Map<Seq<char>, Command<E>> {
    if phase is NotReady && registrable(registered, commands) {
        registered.union_prefer_right(by_name(commands))
    } else {
        registered
    }
}

/// The event handler of the service.
pub struct Handler<E> {
    gate: ReadinessGate,
    registry: CommandRegistry<E>,
}

impl<E> Handler<E> {
    /// The phase of start-up the handler is in.
    pub closed spec fn phase(&self) -> Phase {
        self.gate.phase()
    }

    /// The registered commands, each under its name.
    pub closed spec fn commands(&self) -> Map<Seq<char>, Command<E>> {
        self.registry@
    }

    /// A handler that has not started: not ready, without commands.
    pub fn new() -> (handler: Self)
        ensures
            handler.phase() == Phase::NotReady,
            handler.commands() == Map::<Seq<char>, Command<E>>::empty(),
    {
        Handler { gate: ReadinessGate::new(), registry: CommandRegistry::new() }
    }

    /// The readiness latches, for a reader such as the watchdog.
    pub fn gate(&self) -> (gate: &ReadinessGate)
        ensures
            gate.phase() == self.phase(),
    {
        &self.gate
    }

    /// Readies the service: sets the first latch. The one call that sets it
    /// returns the presence to announce; every later call changes nothing and
    /// returns `None`.
    pub fn discord_ready_up(&mut self) -> (announced: Option<Presence>)
        ensures
            final(self).phase() == old(self).phase().after_service_ready(),
            final(self).commands() == old(self).commands(),
            match announced {
                Some(presence) => old(self).phase() is NotReady && presence.is_waiting(),
                None => old(self).phase().service_ready(),
            },
    {
        if self.gate.mark_service_ready() {
            Some(Presence::waiting())
        } else {
            None
        }
    }

    /// Initializes the systems of a service that is ready: registers `commands`
    /// and, where that succeeds, starts to accept work. This happens once: in
    /// any other phase, and where two commands share a name, nothing changes.
    pub fn initialize_systems(&mut self, commands: Vec<Command<E>>) -> (outcome: Result<
        (),
        StartupError,
    >)
        ensures
            match outcome {
                Ok(_) => old(self).phase() is ServiceReady && registrable(
                    old(self).commands(),
                    commands@,
                ) && final(self).phase() == Phase::AcceptingWork && final(self).commands()
                    == old(self).commands().union_prefer_right(by_name(commands@)),
                Err(error) => final(self).phase() == old(self).phase() && final(self).commands()
                    == old(self).commands() && match error {
                    StartupError::NotServiceReady => old(self).phase() is NotReady,
                    StartupError::AlreadyInitialized => old(self).phase() is AcceptingWork,
                    StartupError::Duplicate(duplicate) => old(self).phase() is ServiceReady
                        && exists|index: int|
                        first_clash(old(self).commands(), commands@, index) && duplicate.name@
                            == commands@[index].name@,
                },
            },
    {
        match self.gate.current_phase() {
            Phase::NotReady => Err(StartupError::NotServiceReady),
            Phase::AcceptingWork => Err(StartupError::AlreadyInitialized),
            Phase::ServiceReady => match self.registry.register(commands) {
                Err(duplicate) => Err(StartupError::Duplicate(duplicate)),
                Ok(_) => {
                    self.gate.mark_accepting_work();
                    Ok(())
                },
            },
        }
    }

    /// The presence to show on every ready event: the active one, once work is
    /// accepted.
    pub fn appear_active(&self) -> (presence: Option<Presence>)
        ensures
            match presence {
                Some(shown) => self.phase().accepting_work() && shown.is_active(),
                None => !self.phase().accepting_work(),
            },
    {
        if self.gate.is_accepting_work() {
            Some(Presence::active())
        } else {
            None
        }
    }

    /// Runs the start-up sequence on a ready event. The first event readies the
    /// service and initializes its systems with `commands`; every later event
    /// leaves the handler as it is and `commands` unused. Where two commands
    /// share a name the service stays ready without accepting work, for good.
    pub fn ready(&mut self, commands: Vec<Command<E>>) -> (outcome: Result<
        Startup,
        DuplicateCommand,
    >)
        ensures
            final(self).phase() == phase_after_ready(
                old(self).phase(),
                old(self).commands(),
                commands@,
            ),
            final(self).commands() == commands_after_ready(
                old(self).phase(),
                old(self).commands(),
                commands@,
            ),
            match outcome {
                Ok(startup) => {
                    &&& old(self).phase() is NotReady ==> registrable(
                        old(self).commands(),
                        commands@,
                    )
                    &&& match startup.announced {
                        Some(presence) => old(self).phase() is NotReady && presence.is_waiting(),
                        None => old(self).phase().service_ready(),
                    }
                    &&& match startup.presence {
                        Some(presence) => final(self).phase().accepting_work()
                            && presence.is_active(),
                        None => !final(self).phase().accepting_work(),
                    }
                },
                Err(duplicate) => old(self).phase() is NotReady && exists|index: int|
                    first_clash(old(self).commands(), commands@, index) && duplicate.name@
                        == commands@[index].name@,
            },
    {
        let announced = self.discord_ready_up();
        if announced.is_some() {
            match self.initialize_systems(commands) {
                Err(StartupError::Duplicate(duplicate)) => {
                    return Err(duplicate);
                },
                _ => {},
            }
        }
        let presence = self.appear_active();
        Ok(Startup { announced, presence })
    }

    /// Whether `admission` is the first decision of this handler on a use of
    /// the command `name`.
    pub open spec fn admits(&self, name: Seq<char>, admission: Admission<'_, E>) -> bool {
        match admission {
            Admission::NotReady(response) => !self.phase().accepting_work() && response.is_error(
                not_ready_title(),
                not_ready_description(),
            ),
            Admission::UnknownCommand(response) => self.phase().accepting_work()
                && !self.commands().dom().contains(name) && response.is_error(
                unknown_command_title(name),
                unknown_command_description(name),
            ),
            Admission::Admitted(command) => self.phase().accepting_work()
                && self.commands().dom().contains(name) && *command == self.commands()[name]
                && command.name@ == name,
        }
    }

    /// Takes the first decision on an invocation. While work is not accepted the
    /// registry is not consulted; after that, the command is looked up by name.
    pub fn run_application_command(&self, invocation: &Invocation) -> (admission: Admission<'_, E>)
        ensures
            self.admits(invocation.command@, admission),
    {
        if !self.gate.is_accepting_work() {
            return Admission::NotReady(not_ready_respond());
        }
        match self.registry.lookup(invocation.command.as_str()) {
            None => Admission::UnknownCommand(unknown_command_respond(invocation.command.as_str())),
            Some(command) => Admission::Admitted(command),
        }
    }

    /// Takes the first decision on an interaction: an invocation is dispatched,
    /// anything else is left alone.
    pub fn interaction_create<'a>(&'a self, interaction: &Interaction) -> (admission: Option<
        Admission<'a, E>,
    >)
        ensures
            match interaction {
                Interaction::ApplicationCommand(invocation) => admission matches Some(first)
                    && self.admits(invocation.command@, first),
                Interaction::Other => admission is None,
            },
    {
        match interaction {
            Interaction::ApplicationCommand(invocation) => Some(
                self.run_application_command(invocation),
            ),
            Interaction::Other => None,
        }
    }

    /// Takes the second decision of a dispatch, on an admitted command:
    /// `last_use` is what reading the store gave for the user and the command.
    pub fn check_cooldown(
        command: &Command<E>,
        last_use: Result<Option<u64>, StoreUnavailable>,
        now: u64,
    ) -> (clearance: Clearance)
        ensures
            match last_use {
                Err(unavailable) => clearance == Clearance::Aborted(unavailable),
                Ok(at) => if cooled_down(at, command.cooldown, now) {
                    clearance is Cleared
                } else {
                    clearance matches Clearance::CoolingDown(response) && response.is_error(
                        not_cooled_down_title(),
                        not_cooled_down_description(remaining(at, command.cooldown, now) as nat),
                    )
                },
            },
    {
        match last_use {
            Err(unavailable) => Clearance::Aborted(unavailable),
            Ok(at) => {
                if is_cooled_down_since(at, command.cooldown, now) {
                    Clearance::Cleared
                } else {
                    Clearance::CoolingDown(
                        not_cooled_down_respond(
                            remaining_cooldown_since(at, command.cooldown, now),
                        ),
                    )
                }
            },
        }
    }

    /// Whether `dispatch` is the whole decision of this handler on a use of the
    /// command `name` by `user` at `now`, with the last uses `uses`.
    pub open spec fn dispatches(
        &self,
        uses: Map<CooldownKey, u64>,
        user: u64,
        name: Seq<char>,
        now: u64,
        dispatch: Dispatch<'_, E>,
    ) -> bool {
        match dispatch_outcome(
            self.phase(),
            self.commands(),
            name,
            Ok(last_use_in(uses, (user, name))),
            now,
        ) {
            Outcome::NotReady => dispatch matches Dispatch::NotReady(response)
                && response.is_error(not_ready_title(), not_ready_description()),
            Outcome::UnknownCommand => dispatch matches Dispatch::UnknownCommand(response)
                && response.is_error(
                unknown_command_title(name),
                unknown_command_description(name),
            ),
            Outcome::Aborted => false,
            Outcome::CoolingDown { left } => dispatch matches Dispatch::CoolingDown(response)
                && response.is_error(
                not_cooled_down_title(),
                not_cooled_down_description(left as nat),
            ),
            Outcome::Executed => dispatch matches Dispatch::Execute(command) && *command
                == self.commands()[name],
        }
    }

    /// Takes the whole decision on an invocation at `now`, with the last uses
    /// kept in `store`. Neither the handler nor the store changes: the use is
    /// recorded when the command has run.
    pub fn dispatch<'a>(&'a self, store: &CooldownStore, invocation: &Invocation, now: u64) -> (dispatch:
        Dispatch<'a, E>)
        ensures
            self.dispatches(store@, invocation.user, invocation.command@, now, dispatch),
    {
        match self.run_application_command(invocation) {
            Admission::NotReady(response) => Dispatch::NotReady(response),
            Admission::UnknownCommand(response) => Dispatch::UnknownCommand(response),
            Admission::Admitted(command) => {
                let last_use = store.last_use(invocation.user, invocation.command.as_str());
                match Self::check_cooldown(command, Ok(last_use), now) {
                    Clearance::CoolingDown(response) => Dispatch::CoolingDown(response),
                    _ => Dispatch::Execute(command),
                }
            },
        }
    }

    /// Concludes a dispatch once the command has run: `outcome` is how it ended.
    /// Whether it succeeded or failed, the outcome is logged and the use at
    /// `now` is to be recorded.
    pub fn handle_command_execution(
        command: &Command<E>,
        invocation: &Invocation,
        outcome: &Result<(), String>,
        now: u64,
    ) -> (conclusion: Conclusion)
        ensures
            conclusion.record.user == invocation.user,
            conclusion.record.command@ == command.name@,
            conclusion.record.at == now,
            match outcome {
                Ok(_) => conclusion.log.level == LogLevel::Info && conclusion.log.message@
                    == success_message(invocation.id, command.name@),
                Err(why) => conclusion.log.level == LogLevel::Error && conclusion.log.message@
                    == failure_message(invocation.id, command.name@, why@),
            },
    {
        Conclusion {
            log: execution_record(invocation.id, command.name.as_str(), outcome),
            record: UseRecord { user: invocation.user, command: command.name.clone(), at: now },
        }
    }
}

/// An interaction that arrives while work is not accepted never reaches the
/// command, whatever is registered and whatever the store holds.
pub proof fn law_closed_gate_runs_nothing<E>(
    phase: Phase,
    commands: Map<Seq<char>, Command<E>>,
    name: Seq<char>,
    last_use: Result<Option<u64>, StoreUnavailable>,
    now: u64,
)
    requires
        !phase.accepting_work(),
    ensures
        dispatch_outcome(phase, commands, name, last_use, now) == Outcome::NotReady,
{
}

/// A command is run exactly when every check before it has passed: work is
/// accepted, the command is registered, the store was read and the command is
/// cooled down for the user.
pub proof fn law_execution_passes_every_check<E>(
    phase: Phase,
    commands: Map<Seq<char>, Command<E>>,
    name: Seq<char>,
    last_use: Result<Option<u64>, StoreUnavailable>,
    now: u64,
)
    ensures
        dispatch_outcome(phase, commands, name, last_use, now) is Executed <==> {
            &&& phase.accepting_work()
            &&& commands.dom().contains(name)
            &&& last_use matches Ok(at)
            &&& cooled_down(at, commands[name].cooldown, now)
        },
{
}

/// Running the start-up sequence twice leaves the handler as running it once.
pub proof fn law_startup_is_idempotent<E>(
    phase: Phase,
    registered: Map<Seq<char>, Command<E>>,
    first: Seq<Command<E>>,
    second: Seq<Command<E>>,
)
    ensures
        phase_after_ready(
            phase_after_ready(phase, registered, first),
            commands_after_ready(phase, registered, first),
            second,
        ) == phase_after_ready(phase, registered, first),
        commands_after_ready(
            phase_after_ready(phase, registered, first),
            commands_after_ready(phase, registered, first),
            second,
        ) == commands_after_ready(phase, registered, first),
{
}

/// The start-up sequence never moves a handler backwards, and it accepts work
/// only with the service ready.
pub proof fn law_startup_moves_forward<E>(
    phase: Phase,
    registered: Map<Seq<char>, Command<E>>,
    commands: Seq<Command<E>>,
)
    ensures
        phase.rank() <= phase_after_ready(phase, registered, commands).rank(),
        phase_after_ready(phase, registered, commands).service_ready(),
{
}

} // verus!
