use crate::config::{opt_view, ServerPre};
use crate::executor::{decode_utf8, utf8_text, CommandResult, Execution, HookOutcome};
use vstd::prelude::*;

verus! {

/// Why a supervisor operation was refused or failed.
#[derive(Clone, Copy, Debug, PartialEq, Eq, Structural)]
pub enum SupervisorError {
    /// The operation does not fit the running / not-running state.
    Conflict,
    /// The shell or the process layer could not be invoked.
    ExecutionError,
    /// A command ran but exited non-zero.
    CommandFailed,
}

/// Where the operation in progress stands. Every operation starts and ends in `Idle`.
#[derive(Clone, Copy, Debug, PartialEq, Eq, Structural)]
pub enum Phase {
    Idle,
    /// A start waits for the child to be spawned.
    Spawning,
    /// A stop waits for the before-stop hook.
    BeforeStop,
    /// A stop waits for the termination request to the child.
    Killing,
    /// A stop waits for the child to exit.
    Waiting,
    /// A stop waits for the after-stop hook; the child is gone already.
    AfterStop,
}

/// What the caller reports to the supervisor: a request, or how the last action went.
#[derive(Clone, Copy, Debug, PartialEq, Eq, Structural)]
pub enum Event {
    RunRequested,
    StopRequested,
    /// Whether the run command could be spawned.
    Spawned(bool),
    HookFinished(HookOutcome),
    /// Whether the termination request reached the child.
    Killed(bool),
    /// Whether the child's exit was confirmed.
    Waited(bool),
}

/// What the supervisor asks the caller to do next.
#[derive(Clone, Copy, Debug, PartialEq, Eq, Structural)]
pub enum Action {
    /// Spawn the run command as a long-lived child, and report `Spawned`.
    Spawn,
    /// Run the before-stop hook to completion, and report `HookFinished`.
    RunBeforeStop,
    /// Send the child a termination request, and report `Killed`.
    Kill,
    /// Wait for the child to exit, and report `Waited`.
    Wait,
    /// Run the after-stop hook to completion, and report `HookFinished`.
    RunAfterStop,
    /// The operation is over and succeeded.
    Succeed,
    /// The operation is over and failed.
    Fail(SupervisorError),
}

impl Action {
    /// Whether the action ends the operation.
    pub open spec fn is_final(self) -> bool {
        self is Succeed || self is Fail
    }
}

/// The supervisor as a mathematical value.
pub ghost struct SupervisorView {
    /// Whether a child is held.
    pub running: bool,
    pub phase: Phase,
    pub has_before_stop: bool,
    pub has_after_stop: bool,
}

impl SupervisorView {
    pub open spec fn with_phase(self, p: Phase) -> SupervisorView {
        SupervisorView { phase: p, ..self }
    }

    pub open spec fn with_running(self, running: bool, p: Phase) -> SupervisorView {
        SupervisorView { running, phase: p, ..self }
    }
}

/// The error that a hook outcome other than success ends a stop with.
pub open spec fn hook_error(o: HookOutcome) -> SupervisorError {
    if o is NotLaunched {
        SupervisorError::ExecutionError
    } else {
        SupervisorError::CommandFailed
    }
}

/// The supervisor's transition: the state after event `e` and the action it asks for.
///
/// A request starts a fresh operation whatever the phase. A report that the
/// current phase does not await ends the operation with `ExecutionError` and
/// changes nothing else.
pub open spec fn next(s: SupervisorView, e: Event) -> (SupervisorView, Action) {
    let idle = s.with_phase(Phase::Idle);
    let stray = (idle, Action::Fail(SupervisorError::ExecutionError));
    match e {
        Event::RunRequested => if s.running {
            (idle, Action::Fail(SupervisorError::Conflict))
        } else {
            (s.with_phase(Phase::Spawning), Action::Spawn)
        },
        Event::StopRequested => if !s.running {
            (idle, Action::Fail(SupervisorError::Conflict))
        } else if s.has_before_stop {
            (s.with_phase(Phase::BeforeStop), Action::RunBeforeStop)
        } else {
            (s.with_phase(Phase::Killing), Action::Kill)
        },
        Event::Spawned(ok) => if s.phase !is Spawning {
            stray
        } else if ok {
            (s.with_running(true, Phase::Idle), Action::Succeed)
        } else {
            stray
        },
        Event::HookFinished(o) => if s.phase is BeforeStop {
            if o is Succeeded {
                (s.with_phase(Phase::Killing), Action::Kill)
            } else {
                (idle, Action::Fail(hook_error(o)))
            }
        } else if s.phase is AfterStop {
            if o is Succeeded {
                (idle, Action::Succeed)
            } else {
                (idle, Action::Fail(hook_error(o)))
            }
        } else {
            stray
        },
        Event::Killed(ok) => if s.phase is Killing && ok {
            (s.with_phase(Phase::Waiting), Action::Wait)
        } else {
            stray
        },
        Event::Waited(ok) => if s.phase is Waiting && ok {
            if s.has_after_stop {
                (s.with_running(false, Phase::AfterStop), Action::RunAfterStop)
            } else {
                (s.with_running(false, Phase::Idle), Action::Succeed)
            }
        } else {
            stray
        },
    }
}

/// What `GET /status` reports.
pub struct StatusReport {
    pub running: bool,
    pub output: String,
}

/// A status report as a value: the running flag and the text of the output.
pub open spec fn report_view(r: Result<StatusReport, SupervisorError>) -> Result<(bool, Seq<char>), SupervisorError> {
    match r {
        Ok(rep) => Ok((rep.running, rep.output@)),
        Err(e) => Err(e),
    }
}

/// The answer to a status check whose command exited (successfully or not) with
/// stdout that reads as `text` (`None`: it is not UTF-8).
pub open spec fn status_answer(running: bool, exit_success: bool, text: Option<Seq<char>>) -> Result<(bool, Seq<char>), SupervisorError> {
    if !exit_success {
        Err(SupervisorError::CommandFailed)
    } else {
        match text {
            Some(t) => Ok((running, t)),
            None => Err(SupervisorError::ExecutionError),
        }
    }
}

/// The answer to a status check, from the running flag and how the status command went.
pub open spec fn status_of(running: bool, e: Execution) -> Result<(bool, Seq<char>), SupervisorError> {
    match e {
        Execution::NotLaunched => Err(SupervisorError::ExecutionError),
        Execution::Exited(c) => status_answer(running, c.exit_success, utf8_text(c.stdout@)),
    }
}

/// Builds the status report from the running flag, whether the status command
/// exited with status zero, and its stdout as text (`None` where it was not UTF-8).
pub fn report_status(running: bool, exit_success: bool, text: Option<String>) -> (r: Result<
    StatusReport,
    SupervisorError,
>)
    ensures
        report_view(r) == status_answer(running, exit_success, opt_view(text)),
{
    if !exit_success {
        return Err(SupervisorError::CommandFailed);
    }
    match text {
        Some(output) => Ok(StatusReport { running, output }),
        None => Err(SupervisorError::ExecutionError),
    }
}

/// The owner of the running / not-running state of the one supervised child.
///
/// It holds no process handle: the caller keeps the handle, stores it when
/// `Spawn` succeeded and drops it when `Wait` succeeded, so that a handle is
/// held exactly when `is_running` holds. All calls are made under one lock.
pub struct Supervisor {
    running: bool,
    phase: Phase,
    has_before_stop: bool,
    has_after_stop: bool,
}

impl View for Supervisor {
    type V = SupervisorView;

    closed spec fn view(&self) -> SupervisorView {
        SupervisorView {
            running: self.running,
            phase: self.phase,
            has_before_stop: self.has_before_stop,
            has_after_stop: self.has_after_stop,
        }
    }
}

impl Supervisor {
    /// A supervisor with no child, for the hooks that `config` has.
    pub fn new(config: &ServerPre) -> (r: Supervisor)
        ensures
            r@ == (SupervisorView {
                running: false,
                phase: Phase::Idle,
                has_before_stop: config@.before_stop_command is Some,
                has_after_stop: config@.after_stop_command is Some,
            }),
    {
        let has_before_stop = config.before_stop_command().is_some();
        let has_after_stop = config.after_stop_command().is_some();
        Supervisor { running: false, phase: Phase::Idle, has_before_stop, has_after_stop }
    }

    pub fn is_running(&self) -> (r: bool)
        ensures
            r == self@.running,
    {
        self.running
    }

    pub fn phase(&self) -> (r: Phase)
        ensures
            r == self@.phase,
    {
        self.phase
    }

    /// Answers a status check, given how the status command went. The state is
    /// only read: a check made under the lock never sees an operation half done.
    pub fn status(&self, result: Execution) -> (r: Result<StatusReport, SupervisorError>)
        ensures
            report_view(r) == status_of(self@.running, result),
    {
        match result {
            Execution::NotLaunched => Err(SupervisorError::ExecutionError),
            Execution::Exited(c) => {
                let CommandResult { exit_success, stdout, .. } = c;
                report_status(self.running, exit_success, decode_utf8(stdout))
            },
        }
    }

    fn set(&mut self, running: bool, phase: Phase)
        ensures
            final(self)@ == old(self)@.with_running(running, phase),
    {
        self.running = running;
        self.phase = phase;
    }

    /// Takes one event and says what to do next.
    pub fn step(&mut self, e: Event) -> (a: Action)
        ensures
            (final(self)@, a) == next(old(self)@, e),
    {
        let running = self.running;
        let stray = Action::Fail(SupervisorError::ExecutionError);
        match e {
            Event::RunRequested => {
                if running {
                    self.set(running, Phase::Idle);
                    Action::Fail(SupervisorError::Conflict)
                } else {
                    self.set(running, Phase::Spawning);
                    Action::Spawn
                }
            },
            Event::StopRequested => {
                if !running {
                    self.set(running, Phase::Idle);
                    Action::Fail(SupervisorError::Conflict)
                } else if self.has_before_stop {
                    self.set(running, Phase::BeforeStop);
                    Action::RunBeforeStop
                } else {
                    self.set(running, Phase::Killing);
                    Action::Kill
                }
            },
            Event::Spawned(ok) => {
                if ok && self.phase == Phase::Spawning {
                    self.set(true, Phase::Idle);
                    Action::Succeed
                } else {
                    self.set(running, Phase::Idle);
                    stray
                }
            },
            Event::HookFinished(o) => {
                let phase = self.phase;
                if phase == Phase::BeforeStop || phase == Phase::AfterStop {
                    let failure = if o == HookOutcome::NotLaunched {
                        SupervisorError::ExecutionError
                    } else {
                        SupervisorError::CommandFailed
                    };
                    if o != HookOutcome::Succeeded {
                        self.set(running, Phase::Idle);
                        Action::Fail(failure)
                    } else if phase == Phase::BeforeStop {
                        self.set(running, Phase::Killing);
                        Action::Kill
                    } else {
                        self.set(running, Phase::Idle);
                        Action::Succeed
                    }
                } else {
                    self.set(running, Phase::Idle);
                    stray
                }
            },
            Event::Killed(ok) => {
                if ok && self.phase == Phase::Killing {
                    self.set(running, Phase::Waiting);
                    Action::Wait
                } else {
                    self.set(running, Phase::Idle);
                    stray
                }
            },
            Event::Waited(ok) => {
                if ok && self.phase == Phase::Waiting {
                    if self.has_after_stop {
                        self.set(false, Phase::AfterStop);
                        Action::RunAfterStop
                    } else {
                        self.set(false, Phase::Idle);
                        Action::Succeed
                    }
                } else {
                    self.set(running, Phase::Idle);
                    stray
                }
            },
        }
    }
}

} // verus!
