use crate::control::{action_code, CONFLICT, INTERNAL_SERVER_ERROR, OK};
use crate::executor::{Execution, HookOutcome};
use crate::supervisor::{next, status_of, Action, Event, Phase, SupervisorError, SupervisorView};
use vstd::prelude::*;

verus! {

/// One whole `/run` request: the state after it and its final action, where
/// the spawn, if the supervisor asks for one, reports `spawn_ok`.
pub open spec fn run_call(s: SupervisorView, spawn_ok: bool) -> (SupervisorView, Action) {
    let (s1, a1) = next(s, Event::RunRequested);
    if a1 is Spawn {
        next(s1, Event::Spawned(spawn_ok))
    } else {
        (s1, a1)
    }
}

/// `/run` requests served one after another, as the lock orders them: the
/// final state and the final action of each.
pub open spec fn run_calls(s: SupervisorView, spawns: Seq<bool>) -> (SupervisorView, Seq<Action>)
    decreases spawns.len(),
{
    if spawns.len() == 0 {
        (s, Seq::empty())
    } else {
        let (s1, a) = run_call(s, spawns[0]);
        let (s2, rest) = run_calls(s1, spawns.drop_first());
        (s2, seq![a] + rest)
    }
}

/// How the outside work of a stop goes: the two hooks, the termination
/// request and the wait for the child's exit.
pub ghost struct StopWorld {
    pub before: HookOutcome,
    pub kill_ok: bool,
    pub wait_ok: bool,
    pub after: HookOutcome,
}

/// The report that answers action `a` in world `w`.
pub open spec fn report(w: StopWorld, a: Action) -> Event {
    match a {
        Action::RunBeforeStop => Event::HookFinished(w.before),
        Action::Kill => Event::Killed(w.kill_ok),
        Action::Wait => Event::Waited(w.wait_ok),
        Action::RunAfterStop => Event::HookFinished(w.after),
        _ => Event::Spawned(false),
    }
}

/// Performs the supervisor's actions, at most `fuel` of them, until one is
/// final: the state reached, the last action, and the actions performed.
pub open spec fn drive(s: SupervisorView, a: Action, w: StopWorld, fuel: nat) -> (
    SupervisorView,
    Action,
    Seq<Action>,
)
    decreases fuel,
{
    if fuel == 0 || a.is_final() || a is Spawn {
        (s, a, Seq::empty())
    } else {
        let (s1, a1) = next(s, report(w, a));
        let (s2, last, done) = drive(s1, a1, w, (fuel - 1) as nat);
        (s2, last, seq![a] + done)
    }
}

/// One whole `/stop` request in world `w`: the state after it, its final
/// action, and the side effects it had (hooks run, child killed or waited for).
pub open spec fn stop_call(s: SupervisorView, w: StopWorld) -> (SupervisorView, Action, Seq<Action>) {
    let (s1, a1) = next(s, Event::StopRequested);
    drive(s1, a1, w, 4)
}

proof fn lemma_runs_while_running(s: SupervisorView, spawns: Seq<bool>)
    requires
        s.running,
    ensures
        run_calls(s, spawns).0.running,
        forall|i: int|
            0 <= i < spawns.len() ==> #[trigger] run_calls(s, spawns).1[i] == Action::Fail(
                SupervisorError::Conflict,
            ),
        run_calls(s, spawns).1.len() == spawns.len(),
    decreases spawns.len(),
{
    if spawns.len() > 0 {
        let s1 = run_call(s, spawns[0]).0;
        lemma_runs_while_running(s1, spawns.drop_first());
        let rest = run_calls(s1, spawns.drop_first()).1;
        assert forall|i: int| 0 <= i < spawns.len() implies #[trigger] run_calls(s, spawns).1[i]
            == Action::Fail(SupervisorError::Conflict) by {
            if i > 0 {
                assert(run_calls(s, spawns).1[i] == rest[i - 1]);
            }
        }
    }
}

/// Of `/run` requests served one after another from a state with no child,
/// where the first spawn works, the first succeeds (200) and every later one
/// is refused as a conflict (409): the child is never spawned twice.
pub proof fn lemma_one_run_succeeds(s: SupervisorView, spawns: Seq<bool>)
    requires
        !s.running,
        spawns.len() > 0,
        spawns[0],
    ensures
        run_calls(s, spawns).1.len() == spawns.len(),
        run_calls(s, spawns).1[0] == Action::Succeed,
        action_code(run_calls(s, spawns).1[0]) == Some(OK),
        forall|i: int|
            1 <= i < spawns.len() ==> #[trigger] run_calls(s, spawns).1[i] == Action::Fail(
                SupervisorError::Conflict,
            ) && action_code(run_calls(s, spawns).1[i]) == Some(CONFLICT),
        run_calls(s, spawns).0.running,
{
    let s1 = run_call(s, spawns[0]).0;
    lemma_runs_while_running(s1, spawns.drop_first());
    let all = run_calls(s, spawns).1;
    let rest = run_calls(s1, spawns.drop_first()).1;
    assert forall|i: int| 1 <= i < spawns.len() implies #[trigger] all[i] == Action::Fail(
        SupervisorError::Conflict,
    ) && action_code(all[i]) == Some(CONFLICT) by {
        assert(all[i] == rest[i - 1]);
    }
}

/// Of any `/run` requests served one after another, whatever the spawns
/// report, at most one succeeds once a child is held: after a success every
/// later one is refused.
pub proof fn lemma_runs_never_succeed_twice(s: SupervisorView, spawns: Seq<bool>, i: int, j: int)
    requires
        0 <= i < j < spawns.len(),
        run_calls(s, spawns).1[i] == Action::Succeed,
    ensures
        run_calls(s, spawns).1[j] == Action::Fail(SupervisorError::Conflict),
    decreases spawns.len(),
{
    let (s1, a) = run_call(s, spawns[0]);
    let rest = run_calls(s1, spawns.drop_first()).1;
    lemma_runs_length(s1, spawns.drop_first());
    if i == 0 {
        lemma_runs_while_running(s1, spawns.drop_first());
        assert(run_calls(s, spawns).1[j] == rest[j - 1]);
    } else {
        assert(run_calls(s, spawns).1[i] == rest[i - 1]);
        assert(run_calls(s, spawns).1[j] == rest[j - 1]);
        lemma_runs_never_succeed_twice(s1, spawns.drop_first(), i - 1, j - 1);
    }
}

proof fn lemma_runs_length(s: SupervisorView, spawns: Seq<bool>)
    ensures
        run_calls(s, spawns).1.len() == spawns.len(),
    decreases spawns.len(),
{
    if spawns.len() > 0 {
        lemma_runs_length(run_call(s, spawns[0]).0, spawns.drop_first());
    }
}

/// `/stop` with no child is refused as a conflict (409), whatever the world,
/// and has no side effect: no hook runs, nothing is killed, the state keeps
/// its child-less value.
pub proof fn lemma_stop_without_child(s: SupervisorView, w: StopWorld)
    requires
        !s.running,
    ensures
        stop_call(s, w) == (
            s.with_phase(Phase::Idle),
            Action::Fail(SupervisorError::Conflict),
            Seq::<Action>::empty(),
        ),
        action_code(stop_call(s, w).1) == Some(CONFLICT),
{
    reveal_with_fuel(drive, 1);
}

/// After a `/stop` that succeeded, the supervisor holds no child, and a
/// `/status` that follows reports `running: false`.
pub proof fn lemma_stop_then_status(s: SupervisorView, w: StopWorld, status_run: Execution)
    requires
        stop_call(s, w).1 == Action::Succeed,
    ensures
        !stop_call(s, w).0.running,
        stop_call(s, w).0.phase is Idle,
        status_of(stop_call(s, w).0.running, status_run) matches Ok((running, _)) ==> !running,
{
    reveal_with_fuel(drive, 5);
}

/// After a `/run` that succeeded, the supervisor holds a child, and a
/// `/status` that follows reports `running: true`; a status check only reads
/// the state, so one made meanwhile changes nothing.
pub proof fn lemma_run_then_status(s: SupervisorView, spawn_ok: bool, status_run: Execution)
    requires
        run_call(s, spawn_ok).1 == Action::Succeed,
    ensures
        run_call(s, spawn_ok).0.running,
        run_call(s, spawn_ok).0.phase is Idle,
        status_of(run_call(s, spawn_ok).0.running, status_run) matches Ok((running, _)) ==> running,
{
}

/// Where the before-stop hook exits non-zero, `/stop` fails with a server
/// error (500), the child is left untouched (nothing is killed or waited for)
/// and the supervisor still holds it: a `/status` that follows reports
/// `running: true`.
pub proof fn lemma_before_stop_fails(s: SupervisorView, w: StopWorld, status_run: Execution)
    requires
        s.running,
        s.has_before_stop,
        w.before == HookOutcome::Failed,
    ensures
        stop_call(s, w).1 == Action::Fail(SupervisorError::CommandFailed),
        action_code(stop_call(s, w).1) == Some(INTERNAL_SERVER_ERROR),
        stop_call(s, w).0.running,
        stop_call(s, w).2 == seq![Action::RunBeforeStop],
        status_of(stop_call(s, w).0.running, status_run) matches Ok((running, _)) ==> running,
{
    reveal_with_fuel(drive, 2);
    assert(stop_call(s, w).2 =~= seq![Action::RunBeforeStop]);
}

/// Where the child is killed and its exit confirmed but the after-stop hook
/// exits non-zero, `/stop` fails with a server error (500), yet the supervisor
/// holds no child any more: the state was cleared before the hook ran, and a
/// `/status` that follows reports `running: false`.
pub proof fn lemma_after_stop_fails(s: SupervisorView, w: StopWorld, status_run: Execution)
    requires
        s.running,
        s.has_after_stop,
        !s.has_before_stop || w.before == HookOutcome::Succeeded,
        w.kill_ok,
        w.wait_ok,
        w.after == HookOutcome::Failed,
    ensures
        stop_call(s, w).1 == Action::Fail(SupervisorError::CommandFailed),
        action_code(stop_call(s, w).1) == Some(INTERNAL_SERVER_ERROR),
        !stop_call(s, w).0.running,
        status_of(stop_call(s, w).0.running, status_run) matches Ok((running, _)) ==> !running,
{
    reveal_with_fuel(drive, 5);
}

/// Every `/stop` request ends within its four steps of outside work, with the
/// supervisor back in `Idle` and a final answer.
pub proof fn lemma_stop_ends(s: SupervisorView, w: StopWorld)
    ensures
        stop_call(s, w).1.is_final(),
        stop_call(s, w).0.phase is Idle,
{
    reveal_with_fuel(drive, 5);
}

} // verus!
