use vstd::prelude::*;

verus! {

/// The exit status of a process forced out by a second termination signal.
pub const FORCED_EXIT_CODE: i32 = 1;

/// Where the supervisor process stands in its own shutdown.
#[derive(Clone, Copy, Debug, PartialEq, Eq, Structural)]
pub enum ShutdownPhase {
    /// Accepting connections.
    Serving,
    /// A termination signal came: no new connections, in-flight requests finish.
    Draining,
    Terminated,
}

/// What to do on a termination signal.
#[derive(Clone, Copy, Debug, PartialEq, Eq, Structural)]
pub enum SignalAction {
    /// Set the cancellation flag that the listener watches.
    Cancel,
    /// Exit the process at once with this status, without further drain or cleanup.
    ForceExit(i32),
    /// Nothing is left to do.
    Ignore,
}

/// The phase after a termination signal, and what to do about it: the first
/// signal starts the drain, a second one during the drain ends the process.
pub open spec fn on_signal_spec(p: ShutdownPhase) -> (ShutdownPhase, SignalAction) {
    match p {
        ShutdownPhase::Serving => (ShutdownPhase::Draining, SignalAction::Cancel),
        ShutdownPhase::Draining => (
            ShutdownPhase::Terminated,
            SignalAction::ForceExit(FORCED_EXIT_CODE),
        ),
        ShutdownPhase::Terminated => (ShutdownPhase::Terminated, SignalAction::Ignore),
    }
}

/// The exit status once the listener has stopped: zero where serving ended without error.
pub open spec fn exit_code_spec(served_ok: bool) -> i32 {
    if served_ok {
        0
    } else {
        1
    }
}

/// The two-signal shutdown policy of the supervisor process.
pub struct Coordinator {
    phase: ShutdownPhase,
}

impl View for Coordinator {
    type V = ShutdownPhase;

    closed spec fn view(&self) -> ShutdownPhase {
        self.phase
    }
}

impl Coordinator {
    pub fn new() -> (r: Coordinator)
        ensures
            r@ == ShutdownPhase::Serving,
    {
        Coordinator { phase: ShutdownPhase::Serving }
    }

    pub fn phase(&self) -> (r: ShutdownPhase)
        ensures
            r == self@,
    {
        self.phase
    }

    /// Takes one termination signal (interrupt and terminate alike).
    pub fn on_signal(&mut self) -> (a: SignalAction)
        ensures
            (final(self)@, a) == on_signal_spec(old(self)@),
    {
        match self.phase {
            ShutdownPhase::Serving => {
                self.phase = ShutdownPhase::Draining;
                SignalAction::Cancel
            },
            ShutdownPhase::Draining => {
                self.phase = ShutdownPhase::Terminated;
                SignalAction::ForceExit(FORCED_EXIT_CODE)
            },
            ShutdownPhase::Terminated => SignalAction::Ignore,
        }
    }

    /// The listener's graceful shutdown has completed; gives the exit status.
    pub fn on_drained(&mut self, served_ok: bool) -> (code: i32)
        ensures
            final(self)@ == ShutdownPhase::Terminated,
            code == exit_code_spec(served_ok),
    {
        self.phase = ShutdownPhase::Terminated;
        if served_ok {
            0
        } else {
            1
        }
    }
}

} // verus!
