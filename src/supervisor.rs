//! The dev-mode supervisor as a state machine.
//!
//! The supervisor owns at most two watcher processes: the mandatory primary
//! (the build-and-rerun watcher) and an optional secondary (the CSS watcher).
//! It performs no I/O itself: each call to [`Supervisor::step`] takes the
//! answer to the previous request as an [`Event`] and returns the next
//! request as a [`Decision`]. The driver performs the request (spawns, polls,
//! sleeps, kills) and reports back.
use vstd::prelude::*;

use crate::session_laws::{lemma_step, reachable_inv};

verus! {

/// The two supervised watcher roles.
#[derive(Clone, Copy, Debug, PartialEq, Eq, Structural)]
pub enum Role {
    Primary,
    Secondary,
}

/// Why a session ended fatally.
#[derive(Clone, Copy, Debug, PartialEq, Eq, Structural)]
pub enum FatalCause {
    /// The primary tool was missing and could not be installed.
    InstallFailed,
    /// The primary watcher could not be spawned.
    PrimarySpawnFailed,
    /// The interrupt handler could not be installed.
    SignalInstallFailed,
    /// The primary watcher could no longer be observed.
    PrimaryLost,
}

/// The final classification of a supervised session.
#[derive(Clone, Copy, Debug, PartialEq, Eq, Structural)]
pub enum SessionOutcome {
    /// Clean shutdown: cancellation, or the primary exited successfully.
    Done,
    /// The primary exited with this non-zero status.
    Failed(i32),
    /// A fatal condition aborted the session.
    Fatal(FatalCause),
}

/// A non-fatal condition reported to the user.
#[derive(Clone, Copy, Debug, PartialEq, Eq, Structural)]
pub enum Warning {
    /// The secondary is enabled but its runtime is not reachable.
    RuntimeMissing,
    /// The secondary could not be spawned.
    SecondarySpawnFailed,
}

/// The result of a non-blocking poll of the primary watcher.
#[derive(Clone, Copy, Debug, PartialEq, Eq, Structural)]
pub enum PollResult {
    Running,
    Exited(i32),
    Lost,
}

/// The answer to the previous request.
#[derive(Clone, Copy, Debug, PartialEq, Eq, Structural)]
pub enum Event {
    /// Whether the primary tool is available.
    ToolChecked(bool),
    /// Whether installing the primary tool succeeded.
    InstallFinished(bool),
    /// Whether the configuration enables the secondary watcher.
    ConfigRead(bool),
    /// Whether the secondary's runtime is reachable.
    RuntimeChecked(bool),
    /// Whether spawning the primary succeeded.
    PrimarySpawned(bool),
    /// Whether spawning the secondary succeeded.
    SecondarySpawned(bool),
    /// Whether the interrupt handler was installed.
    SignalInstalled(bool),
    /// The current value of the cancellation flag.
    CancelChecked(bool),
    /// The result of polling the primary.
    PrimaryPolled(PollResult),
    /// One polling interval has passed.
    Slept,
    /// A kill has completed, with the status it reaped, if any.
    Killed(Option<i32>),
}

/// A request to the driver.
#[derive(Clone, Copy, Debug, PartialEq, Eq, Structural)]
pub enum Action {
    CheckTool,
    InstallTool,
    ReadConfig,
    CheckRuntime,
    SpawnPrimary,
    SpawnSecondary,
    InstallSignal,
    ReadCancel,
    PollPrimary,
    Sleep,
    /// Take the handle of this role out of its guard, terminate it and wait.
    Kill(Role),
    /// The session is over with this outcome.
    Finish(SessionOutcome),
    /// Nothing is left to do.
    Idle,
}

/// What the driver does next, and an optional warning to show first.
#[derive(Clone, Copy, Debug, PartialEq, Eq, Structural)]
pub struct Decision {
    pub warning: Option<Warning>,
    pub action: Action,
}

/// The states of a session: the setup steps, the poll loop, and shutdown.
#[derive(Clone, Copy, Debug, PartialEq, Eq, Structural)]
pub enum Phase {
    CheckingTool,
    Installing,
    ReadingConfig,
    CheckingRuntime,
    SpawningPrimary,
    SpawningSecondary,
    InstallingSignal,
    CheckingCancel,
    Polling,
    Sleeping,
    ShuttingDown,
    Finished,
}

/// The supervisor's state.
///
/// `primary_live` and `secondary_live` say whether a guard still holds the
/// handle of that role; `outcome` is meaningful once shutdown has begun.
/// Every state that a session reaches satisfies
/// `session_laws::reachable_inv`.
#[derive(Clone, Copy, Debug, PartialEq, Eq, Structural)]
pub struct Supervisor {
    pub phase: Phase,
    pub secondary_wanted: bool,
    pub primary_live: bool,
    pub secondary_live: bool,
    pub cancelled: bool,
    pub outcome: SessionOutcome,
}

/// The state in which every session starts.
pub open spec fn initial_state() -> Supervisor {
    Supervisor {
        phase: Phase::CheckingTool,
        secondary_wanted: false,
        primary_live: false,
        secondary_live: false,
        cancelled: false,
        outcome: SessionOutcome::Done,
    }
}

/// The request that a phase is waiting to have answered.
pub open spec fn pending_action(p: Phase) -> Action {
    match p {
        Phase::CheckingTool => Action::CheckTool,
        Phase::Installing => Action::InstallTool,
        Phase::ReadingConfig => Action::ReadConfig,
        Phase::CheckingRuntime => Action::CheckRuntime,
        Phase::SpawningPrimary => Action::SpawnPrimary,
        Phase::SpawningSecondary => Action::SpawnSecondary,
        Phase::InstallingSignal => Action::InstallSignal,
        Phase::CheckingCancel => Action::ReadCancel,
        Phase::Polling => Action::PollPrimary,
        Phase::Sleeping => Action::Sleep,
        Phase::ShuttingDown => Action::Idle,
        Phase::Finished => Action::Idle,
    }
}

/// A decision to do `a`, with no warning.
pub open spec fn quiet(a: Action) -> Decision {
    Decision { warning: None, action: a }
}

/// Enter phase `p` and request what it waits for.
pub open spec fn enter(s: Supervisor, p: Phase) -> (Supervisor, Decision) {
    (Supervisor { phase: p, ..s }, quiet(pending_action(p)))
}

/// Enter phase `p`, with a warning.
pub open spec fn enter_warning(s: Supervisor, p: Phase, w: Warning) -> (Supervisor, Decision) {
    (Supervisor { phase: p, ..s }, Decision { warning: Some(w), action: pending_action(p) })
}

/// One step of an ordered shutdown: the secondary first, then the primary,
/// then the outcome.
pub open spec fn shutdown_step(s: Supervisor) -> (Supervisor, Decision) {
    if s.secondary_live {
        (
            Supervisor { phase: Phase::ShuttingDown, secondary_live: false, ..s },
            quiet(Action::Kill(Role::Secondary)),
        )
    } else if s.primary_live {
        (
            Supervisor { phase: Phase::ShuttingDown, primary_live: false, ..s },
            quiet(Action::Kill(Role::Primary)),
        )
    } else {
        (Supervisor { phase: Phase::Finished, ..s }, quiet(Action::Finish(s.outcome)))
    }
}

/// Begin shutting down towards outcome `o`.
pub open spec fn begin_shutdown(s: Supervisor, o: SessionOutcome) -> (Supervisor, Decision) {
    shutdown_step(Supervisor { outcome: o, ..s })
}

/// The outcome of a primary that exited with status `code`.
pub open spec fn exit_outcome(code: i32) -> SessionOutcome {
    if code == 0 {
        SessionOutcome::Done
    } else {
        SessionOutcome::Failed(code)
    }
}

/// The transition function. An event that does not answer the pending
/// request leaves the state as it is and repeats the request; during shutdown
/// every event moves shutdown on.
pub open spec fn next(s: Supervisor, e: Event) -> (Supervisor, Decision) {
    let stay = (s, quiet(pending_action(s.phase)));
    match s.phase {
        Phase::CheckingTool => match e {
            Event::ToolChecked(ok) => if ok {
                enter(s, Phase::ReadingConfig)
            } else {
                enter(s, Phase::Installing)
            },
            _ => stay,
        },
        Phase::Installing => match e {
            Event::InstallFinished(ok) => if ok {
                enter(s, Phase::ReadingConfig)
            } else {
                begin_shutdown(s, SessionOutcome::Fatal(FatalCause::InstallFailed))
            },
            _ => stay,
        },
        Phase::ReadingConfig => match e {
            Event::ConfigRead(enabled) => if enabled {
                enter(s, Phase::CheckingRuntime)
            } else {
                enter(Supervisor { secondary_wanted: false, ..s }, Phase::SpawningPrimary)
            },
            _ => stay,
        },
        Phase::CheckingRuntime => match e {
            Event::RuntimeChecked(ok) => if ok {
                enter(Supervisor { secondary_wanted: true, ..s }, Phase::SpawningPrimary)
            } else {
                enter_warning(
                    Supervisor { secondary_wanted: false, ..s },
                    Phase::SpawningPrimary,
                    Warning::RuntimeMissing,
                )
            },
            _ => stay,
        },
        Phase::SpawningPrimary => match e {
            Event::PrimarySpawned(ok) => if !ok {
                begin_shutdown(s, SessionOutcome::Fatal(FatalCause::PrimarySpawnFailed))
            } else if s.secondary_wanted {
                enter(Supervisor { primary_live: true, ..s }, Phase::SpawningSecondary)
            } else {
                enter(Supervisor { primary_live: true, ..s }, Phase::InstallingSignal)
            },
            _ => stay,
        },
        Phase::SpawningSecondary => match e {
            Event::SecondarySpawned(ok) => if ok {
                enter(Supervisor { secondary_live: true, ..s }, Phase::InstallingSignal)
            } else {
                enter_warning(s, Phase::InstallingSignal, Warning::SecondarySpawnFailed)
            },
            _ => stay,
        },
        Phase::InstallingSignal => match e {
            Event::SignalInstalled(ok) => if ok {
                enter(s, Phase::CheckingCancel)
            } else {
                begin_shutdown(s, SessionOutcome::Fatal(FatalCause::SignalInstallFailed))
            },
            _ => stay,
        },
        Phase::CheckingCancel => match e {
            Event::CancelChecked(flag) => if s.cancelled || flag {
                begin_shutdown(Supervisor { cancelled: true, ..s }, SessionOutcome::Done)
            } else {
                enter(s, Phase::Polling)
            },
            _ => stay,
        },
        Phase::Polling => match e {
            Event::PrimaryPolled(p) => match p {
                PollResult::Running => enter(s, Phase::Sleeping),
                PollResult::Exited(code) => begin_shutdown(
                    Supervisor { primary_live: false, ..s },
                    exit_outcome(code),
                ),
                PollResult::Lost => begin_shutdown(
                    s,
                    SessionOutcome::Fatal(FatalCause::PrimaryLost),
                ),
            },
            _ => stay,
        },
        Phase::Sleeping => match e {
            Event::Slept => enter(s, Phase::CheckingCancel),
            _ => stay,
        },
        Phase::ShuttingDown => shutdown_step(s),
        Phase::Finished => (s, quiet(Action::Idle)),
    }
}

impl SessionOutcome {
    /// The process exit code for this outcome: 0 for a clean shutdown, 1
    /// otherwise.
    pub fn exit_code(&self) -> (r: i32)
        ensures
            r == (if *self == SessionOutcome::Done { 0i32 } else { 1i32 }),
    {
        match self {
            SessionOutcome::Done => 0,
            _ => 1,
        }
    }
}

impl Supervisor {
    /// A supervisor at the start of a session.
    pub fn new() -> (r: Supervisor)
        ensures
            r == initial_state(),
            reachable_inv(r),
    {
        Supervisor {
            phase: Phase::CheckingTool,
            secondary_wanted: false,
            primary_live: false,
            secondary_live: false,
            cancelled: false,
            outcome: SessionOutcome::Done,
        }
    }

    /// The first request of a session.
    pub fn start(&self) -> (r: Decision)
        ensures
            r == quiet(pending_action(self.phase)),
    {
        Decision { warning: None, action: Self::pending(self.phase) }
    }

    fn pending(p: Phase) -> (r: Action)
        ensures
            r == pending_action(p),
    {
        match p {
            Phase::CheckingTool => Action::CheckTool,
            Phase::Installing => Action::InstallTool,
            Phase::ReadingConfig => Action::ReadConfig,
            Phase::CheckingRuntime => Action::CheckRuntime,
            Phase::SpawningPrimary => Action::SpawnPrimary,
            Phase::SpawningSecondary => Action::SpawnSecondary,
            Phase::InstallingSignal => Action::InstallSignal,
            Phase::CheckingCancel => Action::ReadCancel,
            Phase::Polling => Action::PollPrimary,
            Phase::Sleeping => Action::Sleep,
            Phase::ShuttingDown => Action::Idle,
            Phase::Finished => Action::Idle,
        }
    }

    fn enter(&mut self, p: Phase, warning: Option<Warning>) -> (r: Decision)
        ensures
            *final(self) == (Supervisor { phase: p, ..*old(self) }),
            r == (Decision { warning: warning, action: pending_action(p) }),
    {
        self.phase = p;
        Decision { warning, action: Self::pending(p) }
    }

    fn shutdown(&mut self) -> (r: Decision)
        ensures
            (*final(self), r) == shutdown_step(*old(self)),
    {
        if self.secondary_live {
            self.phase = Phase::ShuttingDown;
            self.secondary_live = false;
            Decision { warning: None, action: Action::Kill(Role::Secondary) }
        } else if self.primary_live {
            self.phase = Phase::ShuttingDown;
            self.primary_live = false;
            Decision { warning: None, action: Action::Kill(Role::Primary) }
        } else {
            self.phase = Phase::Finished;
            Decision { warning: None, action: Action::Finish(self.outcome) }
        }
    }

    fn begin_shutdown(&mut self, o: SessionOutcome) -> (r: Decision)
        ensures
            (*final(self), r) == begin_shutdown(*old(self), o),
    {
        self.outcome = o;
        self.shutdown()
    }

    /// Takes the answer to the previous request and returns the next one.
    pub fn step(&mut self, e: Event) -> (r: Decision)
        ensures
            (*final(self), r) == next(*old(self), e),
            reachable_inv(*old(self)) ==> reachable_inv(*final(self)),
    {
        proof {
            if reachable_inv(*self) {
                lemma_step(*self, e, Role::Primary);
            }
        }
        let pending = Decision { warning: None, action: Self::pending(self.phase) };
        match self.phase {
            Phase::CheckingTool => match e {
                Event::ToolChecked(ok) => if ok {
                    self.enter(Phase::ReadingConfig, None)
                } else {
                    self.enter(Phase::Installing, None)
                },
                _ => pending,
            },
            Phase::Installing => match e {
                Event::InstallFinished(ok) => if ok {
                    self.enter(Phase::ReadingConfig, None)
                } else {
                    self.begin_shutdown(SessionOutcome::Fatal(FatalCause::InstallFailed))
                },
                _ => pending,
            },
            Phase::ReadingConfig => match e {
                Event::ConfigRead(enabled) => if enabled {
                    self.enter(Phase::CheckingRuntime, None)
                } else {
                    self.secondary_wanted = false;
                    self.enter(Phase::SpawningPrimary, None)
                },
                _ => pending,
            },
            Phase::CheckingRuntime => match e {
                Event::RuntimeChecked(ok) => if ok {
                    self.secondary_wanted = true;
                    self.enter(Phase::SpawningPrimary, None)
                } else {
                    self.secondary_wanted = false;
                    self.enter(Phase::SpawningPrimary, Some(Warning::RuntimeMissing))
                },
                _ => pending,
            },
            Phase::SpawningPrimary => match e {
                Event::PrimarySpawned(ok) => if !ok {
                    self.begin_shutdown(SessionOutcome::Fatal(FatalCause::PrimarySpawnFailed))
                } else if self.secondary_wanted {
                    self.primary_live = true;
                    self.enter(Phase::SpawningSecondary, None)
                } else {
                    self.primary_live = true;
                    self.enter(Phase::InstallingSignal, None)
                },
                _ => pending,
            },
            Phase::SpawningSecondary => match e {
                Event::SecondarySpawned(ok) => if ok {
                    self.secondary_live = true;
                    self.enter(Phase::InstallingSignal, None)
                } else {
                    self.enter(Phase::InstallingSignal, Some(Warning::SecondarySpawnFailed))
                },
                _ => pending,
            },
            Phase::InstallingSignal => match e {
                Event::SignalInstalled(ok) => if ok {
                    self.enter(Phase::CheckingCancel, None)
                } else {
                    self.begin_shutdown(SessionOutcome::Fatal(FatalCause::SignalInstallFailed))
                },
                _ => pending,
            },
            Phase::CheckingCancel => match e {
                Event::CancelChecked(flag) => if self.cancelled || flag {
                    self.cancelled = true;
                    self.begin_shutdown(SessionOutcome::Done)
                } else {
                    self.enter(Phase::Polling, None)
                },
                _ => pending,
            },
            Phase::Polling => match e {
                Event::PrimaryPolled(p) => match p {
                    PollResult::Running => self.enter(Phase::Sleeping, None),
                    PollResult::Exited(code) => {
                        self.primary_live = false;
                        let o = if code == 0 {
                            SessionOutcome::Done
                        } else {
                            SessionOutcome::Failed(code)
                        };
                        self.begin_shutdown(o)
                    },
                    PollResult::Lost => self.begin_shutdown(
                        SessionOutcome::Fatal(FatalCause::PrimaryLost),
                    ),
                },
                _ => pending,
            },
            Phase::Sleeping => match e {
                Event::Slept => self.enter(Phase::CheckingCancel, None),
                _ => pending,
            },
            Phase::ShuttingDown => self.shutdown(),
            Phase::Finished => Decision { warning: None, action: Action::Idle },
        }
    }
}

} // verus!
