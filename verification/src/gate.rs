//! The two-phase readiness latch and the watchdog that supervises its first phase.
//!
//! Start-up happens in two observably different moments: the transport connects
//! (the service is ready), and later all commands and data are loaded (work is
//! accepted). Both latches are one-way, and the second can only be set after the
//! first. The watchdog looks at the first latch alone, once, when its deadline
//! has passed.

use vstd::prelude::*;

verus! {

/// How far start-up has come. A gate only ever moves forward through the phases.
#[derive(Clone, Copy, Debug, PartialEq, Eq, Structural)]
pub enum Phase {
    /// Nothing is connected yet.
    NotReady,
    /// The transport is connected; commands and data are still loading.
    ServiceReady,
    /// Everything is loaded; interactions are dispatched.
    AcceptingWork,
}

impl Phase {
    /// The first latch: the transport is connected.
    pub open spec fn service_ready(self) -> bool {
        !(self is NotReady)
    }

    /// The second latch: interactions are dispatched.
    pub open spec fn accepting_work(self) -> bool {
        self is AcceptingWork
    }

    /// The position of the phase in the order of start-up.
    pub open spec fn rank(self) -> nat {
        match self {
            Phase::NotReady => 0,
            Phase::ServiceReady => 1,
            Phase::AcceptingWork => 2,
        }
    }

    /// The phase after the first latch has been set.
    pub open spec fn after_service_ready(self) -> Phase {
        if self is NotReady {
            Phase::ServiceReady
        } else {
            self
        }
    }

    /// The phase after an attempt to set the second latch: it takes effect only
    /// where the first latch is set.
    pub open spec fn after_accepting_work(self) -> Phase {
        if self.service_ready() {
            Phase::AcceptingWork
        } else {
            self
        }
    }
}

/// The readiness latch pair. The phase is private, so that it can only move forward.
#[derive(Debug)]
pub struct ReadinessGate {
    phase: Phase,
}

impl ReadinessGate {
    /// The phase this gate is in.
    pub closed spec fn phase(&self) -> Phase {
        self.phase
    }

    /// A gate with neither latch set.
    pub fn new() -> (gate: Self)
        ensures
            gate.phase() == Phase::NotReady,
    {
        ReadinessGate { phase: Phase::NotReady }
    }

    /// The phase this gate is in.
    pub fn current_phase(&self) -> (phase: Phase)
        ensures
            phase == self.phase(),
    {
        self.phase
    }

    /// Reads the first latch.
    pub fn is_service_ready(&self) -> (ready: bool)
        ensures
            ready == self.phase().service_ready(),
    {
        match self.phase {
            Phase::NotReady => false,
            _ => true,
        }
    }

    /// Reads the second latch.
    pub fn is_accepting_work(&self) -> (accepting: bool)
        ensures
            accepting == self.phase().accepting_work(),
    {
        match self.phase {
            Phase::AcceptingWork => true,
            _ => false,
        }
    }

    /// Sets the first latch. Returns `true` for the one call that set it, so that
    /// the caller runs its one-time side effects exactly then; every later call
    /// changes nothing and returns `false`.
    pub fn mark_service_ready(&mut self) -> (first: bool)
        ensures
            final(self).phase() == old(self).phase().after_service_ready(),
            first == (old(self).phase() is NotReady),
    {
        match self.phase {
            Phase::NotReady => {
                self.phase = Phase::ServiceReady;
                true
            },
            _ => false,
        }
    }

    /// Sets the second latch, if the first one is set; otherwise changes nothing.
    /// Returns whether work is accepted after the call.
    pub fn mark_accepting_work(&mut self) -> (accepting: bool)
        ensures
            final(self).phase() == old(self).phase().after_accepting_work(),
            accepting == old(self).phase().service_ready(),
    {
        match self.phase {
            Phase::NotReady => false,
            _ => {
                self.phase = Phase::AcceptingWork;
                true
            },
        }
    }
}

/// Work is never accepted before the service is ready.
pub proof fn law_accepting_implies_ready(phase: Phase)
    ensures
        phase.accepting_work() ==> phase.service_ready(),
{
}

/// An attempt to accept work before the service is ready has no effect.
pub proof fn law_accepting_needs_service_ready(phase: Phase)
    ensures
        !phase.service_ready() ==> phase.after_accepting_work() == phase,
        !phase.service_ready() ==> !phase.after_accepting_work().accepting_work(),
{
}

/// Neither transition ever moves a gate backwards, and a latch that is set stays set.
pub proof fn law_latches_never_reverse(phase: Phase)
    ensures
        phase.rank() <= phase.after_service_ready().rank(),
        phase.rank() <= phase.after_accepting_work().rank(),
        phase.after_service_ready().service_ready(),
        phase.service_ready() ==> phase.after_accepting_work().service_ready(),
        phase.accepting_work() ==> phase.after_service_ready().accepting_work(),
        phase.accepting_work() ==> phase.after_accepting_work().accepting_work(),
{
}

/// Setting a latch twice is the same as setting it once.
pub proof fn law_latches_are_idempotent(phase: Phase)
    ensures
        phase.after_service_ready().after_service_ready() == phase.after_service_ready(),
        phase.after_accepting_work().after_accepting_work() == phase.after_accepting_work(),
{
}

/// The status with which the watchdog ends the process.
pub const WATCHDOG_EXIT_CODE: i32 = 1;

/// What the watchdog concludes at some moment after it was started.
#[derive(Clone, Copy, Debug, PartialEq, Eq, Structural)]
pub enum WatchdogVerdict {
    /// The deadline has not passed: sleep for `remaining` more, then ask again.
    Pending { remaining: u64 },
    /// The deadline has passed and the service is ready: nothing more to do.
    Satisfied,
    /// The deadline has passed and the service is not ready: end the process
    /// with `exit_code`.
    Expired { exit_code: i32 },
}

/// The verdict of a watchdog with the given deadline, `elapsed` after its start,
/// on a gate in the given phase. Before the deadline the phase plays no part.
pub open spec fn watchdog_verdict(deadline: u64, elapsed: u64, phase: Phase) -> WatchdogVerdict {
    if elapsed < deadline {
        WatchdogVerdict::Pending { remaining: (deadline - elapsed) as u64 }
    } else if phase.service_ready() {
        WatchdogVerdict::Satisfied
    } else {
        WatchdogVerdict::Expired { exit_code: WATCHDOG_EXIT_CODE }
    }
}

/// A timeout supervisor for the first phase of start-up.
#[derive(Clone, Copy, Debug)]
pub struct Watchdog {
    deadline: u64,
}

impl Watchdog {
    /// The time the service is given to become ready.
    pub closed spec fn deadline(&self) -> u64 {
        self.deadline
    }

    /// A watchdog that gives the service `deadline` units of time.
    pub fn new(deadline: u64) -> (watchdog: Self)
        ensures
            watchdog.deadline() == deadline,
    {
        Watchdog { deadline }
    }

    /// The time the service is given to become ready.
    pub fn configured_deadline(&self) -> (deadline: u64)
        ensures
            deadline == self.deadline(),
    {
        self.deadline
    }

    /// Judges `gate`, `elapsed` units of time after the watchdog was started.
    pub fn verdict(&self, elapsed: u64, gate: &ReadinessGate) -> (verdict: WatchdogVerdict)
        ensures
            verdict == watchdog_verdict(self.deadline(), elapsed, gate.phase()),
    {
        if elapsed < self.deadline {
            WatchdogVerdict::Pending { remaining: self.deadline - elapsed }
        } else if gate.is_service_ready() {
            WatchdogVerdict::Satisfied
        } else {
            WatchdogVerdict::Expired { exit_code: WATCHDOG_EXIT_CODE }
        }
    }
}

/// The watchdog ends the process only after its deadline, and then exactly when
/// the service is not ready; whether work is accepted plays no part.
pub proof fn law_watchdog_fails_fast_on_first_phase_only(deadline: u64, elapsed: u64, phase: Phase)
    ensures
        watchdog_verdict(deadline, elapsed, phase) is Expired <==> elapsed >= deadline
            && !phase.service_ready(),
        watchdog_verdict(deadline, elapsed, phase) is Expired ==> watchdog_verdict(
            deadline,
            elapsed,
            phase,
        ) == (WatchdogVerdict::Expired { exit_code: WATCHDOG_EXIT_CODE }),
        watchdog_verdict(deadline, elapsed, Phase::ServiceReady) == watchdog_verdict(
            deadline,
            elapsed,
            Phase::AcceptingWork,
        ),
{
}

} // verus!
