use command_server::config::{prepare, ServerPre};
use command_server::control::{greeting, status_http_status};
use command_server::executor::{hook_outcome, CommandResult, Execution, HookOutcome};
use command_server::supervisor::{report_status, Action, Event, Phase, Supervisor, SupervisorError};

fn config(before: Option<&str>, after: Option<&str>) -> ServerPre {
    prepare(
        "sleep 100".to_string(),
        "echo idle".to_string(),
        before.map(|s| s.to_string()),
        after.map(|s| s.to_string()),
    )
}

fn exited(success: bool, stdout: &[u8]) -> Execution {
    Execution::Exited(CommandResult {
        exit_success: success,
        code: Some(if success { 0 } else { 1 }),
        stdout: stdout.to_vec(),
        stderr: Vec::new(),
    })
}

fn start(sup: &mut Supervisor) -> Action {
    match sup.step(Event::RunRequested) {
        Action::Spawn => sup.step(Event::Spawned(true)),
        a => a,
    }
}

/// Stops with every piece of outside work succeeding except where given.
fn stop(sup: &mut Supervisor, before: HookOutcome, kill: bool, wait: bool, after: HookOutcome) -> (Action, Vec<Action>) {
    let mut done = Vec::new();
    let mut a = sup.step(Event::StopRequested);
    loop {
        let e = match a {
            Action::RunBeforeStop => Event::HookFinished(before),
            Action::Kill => Event::Killed(kill),
            Action::Wait => Event::Waited(wait),
            Action::RunAfterStop => Event::HookFinished(after),
            _ => return (a, done),
        };
        done.push(a);
        a = sup.step(e);
    }
}

#[test]
fn scenario_run_status_stop() {
    let cfg = config(None, None);
    let mut sup = Supervisor::new(&cfg);
    assert_eq!(sup.step(Event::RunRequested), Action::Spawn);
    let a = sup.step(Event::Spawned(true));
    assert_eq!(a.http_status(), Some(200));
    assert_eq!(start(&mut sup).http_status(), Some(409));
    let r = sup.status(exited(true, b"idle\n"));
    assert_eq!(status_http_status(&r), 200);
    let rep = r.unwrap();
    assert!(rep.running);
    assert_eq!(rep.output, "idle\n");
    let (a, done) = stop(&mut sup, HookOutcome::Succeeded, true, true, HookOutcome::Succeeded);
    assert_eq!(a.http_status(), Some(200));
    assert_eq!(done, vec![Action::Kill, Action::Wait]);
    let rep = sup.status(exited(true, b"idle\n")).unwrap();
    assert!(!rep.running);
    assert_eq!(rep.output, "idle\n");
    let (a, done) = stop(&mut sup, HookOutcome::Succeeded, true, true, HookOutcome::Succeeded);
    assert_eq!(a.http_status(), Some(409));
    assert!(done.is_empty());
}

#[test]
fn many_runs_one_success() {
    let cfg = config(None, None);
    let mut sup = Supervisor::new(&cfg);
    let codes: Vec<Option<u16>> = (0..5).map(|_| start(&mut sup).http_status()).collect();
    assert_eq!(codes, vec![Some(200), Some(409), Some(409), Some(409), Some(409)]);
    assert!(sup.is_running());
}

#[test]
fn failed_spawn_leaves_no_child() {
    let cfg = config(None, None);
    let mut sup = Supervisor::new(&cfg);
    assert_eq!(sup.step(Event::RunRequested), Action::Spawn);
    assert_eq!(sup.step(Event::Spawned(false)), Action::Fail(SupervisorError::ExecutionError));
    assert!(!sup.is_running());
    assert_eq!(sup.phase(), Phase::Idle);
    assert_eq!(start(&mut sup), Action::Succeed);
}

#[test]
fn stop_without_child_runs_no_hook() {
    let cfg = config(Some("echo before"), Some("echo after"));
    let mut sup = Supervisor::new(&cfg);
    let (a, done) = stop(&mut sup, HookOutcome::Succeeded, true, true, HookOutcome::Succeeded);
    assert_eq!(a, Action::Fail(SupervisorError::Conflict));
    assert_eq!(a.http_status(), Some(409));
    assert!(done.is_empty());
    assert!(!sup.is_running());
}

#[test]
fn stop_with_hooks_runs_them_in_order() {
    let cfg = config(Some("echo before"), Some("echo after"));
    let mut sup = Supervisor::new(&cfg);
    assert_eq!(start(&mut sup), Action::Succeed);
    let (a, done) = stop(&mut sup, HookOutcome::Succeeded, true, true, HookOutcome::Succeeded);
    assert_eq!(a, Action::Succeed);
    assert_eq!(
        done,
        vec![Action::RunBeforeStop, Action::Kill, Action::Wait, Action::RunAfterStop]
    );
    assert!(!sup.is_running());
}

#[test]
fn before_stop_failure_keeps_child() {
    let cfg = config(Some("exit 3"), None);
    let mut sup = Supervisor::new(&cfg);
    assert_eq!(start(&mut sup), Action::Succeed);
    let (a, done) = stop(&mut sup, HookOutcome::Failed, true, true, HookOutcome::Succeeded);
    assert_eq!(a, Action::Fail(SupervisorError::CommandFailed));
    assert_eq!(a.http_status(), Some(500));
    assert_eq!(done, vec![Action::RunBeforeStop]);
    let rep = sup.status(exited(true, b"")).unwrap();
    assert!(rep.running);
    assert_eq!(rep.output, "");
}

#[test]
fn before_stop_not_launched_keeps_child() {
    let cfg = config(Some("echo before"), None);
    let mut sup = Supervisor::new(&cfg);
    assert_eq!(start(&mut sup), Action::Succeed);
    let (a, _) = stop(&mut sup, HookOutcome::NotLaunched, true, true, HookOutcome::Succeeded);
    assert_eq!(a, Action::Fail(SupervisorError::ExecutionError));
    assert!(sup.is_running());
}

#[test]
fn after_stop_failure_still_clears_child() {
    let cfg = config(None, Some("exit 1"));
    let mut sup = Supervisor::new(&cfg);
    assert_eq!(start(&mut sup), Action::Succeed);
    let (a, done) = stop(&mut sup, HookOutcome::Succeeded, true, true, HookOutcome::Failed);
    assert_eq!(a, Action::Fail(SupervisorError::CommandFailed));
    assert_eq!(a.http_status(), Some(500));
    assert_eq!(done, vec![Action::Kill, Action::Wait, Action::RunAfterStop]);
    let rep = sup.status(exited(true, b"idle\n")).unwrap();
    assert!(!rep.running);
}

#[test]
fn kill_failure_keeps_child() {
    let cfg = config(None, None);
    let mut sup = Supervisor::new(&cfg);
    assert_eq!(start(&mut sup), Action::Succeed);
    let (a, done) = stop(&mut sup, HookOutcome::Succeeded, false, true, HookOutcome::Succeeded);
    assert_eq!(a, Action::Fail(SupervisorError::ExecutionError));
    assert_eq!(done, vec![Action::Kill]);
    assert!(sup.is_running());
}

#[test]
fn wait_failure_keeps_child() {
    let cfg = config(None, Some("echo after"));
    let mut sup = Supervisor::new(&cfg);
    assert_eq!(start(&mut sup), Action::Succeed);
    let (a, done) = stop(&mut sup, HookOutcome::Succeeded, true, false, HookOutcome::Succeeded);
    assert_eq!(a, Action::Fail(SupervisorError::ExecutionError));
    assert_eq!(done, vec![Action::Kill, Action::Wait]);
    assert!(sup.is_running());
}

#[test]
fn stray_report_is_refused() {
    let cfg = config(None, None);
    let mut sup = Supervisor::new(&cfg);
    assert_eq!(sup.step(Event::Waited(true)), Action::Fail(SupervisorError::ExecutionError));
    assert_eq!(sup.step(Event::Spawned(true)), Action::Fail(SupervisorError::ExecutionError));
    assert!(!sup.is_running());
    assert_eq!(start(&mut sup), Action::Succeed);
    assert_eq!(sup.step(Event::HookFinished(HookOutcome::Succeeded)), Action::Fail(SupervisorError::ExecutionError));
    assert!(sup.is_running());
}

#[test]
fn status_errors() {
    let cfg = config(None, None);
    let sup = Supervisor::new(&cfg);
    let r = sup.status(Execution::NotLaunched);
    assert_eq!(r.as_ref().err(), Some(&SupervisorError::ExecutionError));
    assert_eq!(status_http_status(&r), 500);
    let r = sup.status(exited(false, b"idle\n"));
    assert_eq!(r.as_ref().err(), Some(&SupervisorError::CommandFailed));
    assert_eq!(status_http_status(&r), 500);
    let r = sup.status(exited(true, &[0xff, 0xfe]));
    assert_eq!(r.as_ref().err(), Some(&SupervisorError::ExecutionError));
}

#[test]
fn status_keeps_unicode_output() {
    let cfg = config(None, None);
    let sup = Supervisor::new(&cfg);
    let rep = sup.status(exited(true, "état: ok\n".as_bytes())).unwrap();
    assert_eq!(rep.output, "état: ok\n");
    assert!(!rep.running);
}

#[test]
fn report_status_cases() {
    assert_eq!(report_status(true, false, Some("x".to_string())).err(), Some(SupervisorError::CommandFailed));
    assert_eq!(report_status(true, true, None).err(), Some(SupervisorError::ExecutionError));
    let rep = report_status(true, true, Some("x".to_string())).ok().unwrap();
    assert!(rep.running);
    assert_eq!(rep.output, "x");
}

#[test]
fn hook_outcomes() {
    assert_eq!(hook_outcome(&Execution::NotLaunched), HookOutcome::NotLaunched);
    assert_eq!(hook_outcome(&exited(false, b"")), HookOutcome::Failed);
    assert_eq!(hook_outcome(&exited(true, b"noise")), HookOutcome::Succeeded);
}

#[test]
fn error_codes() {
    assert_eq!(SupervisorError::Conflict.http_status(), 409);
    assert_eq!(SupervisorError::ExecutionError.http_status(), 500);
    assert_eq!(SupervisorError::CommandFailed.http_status(), 500);
    assert_eq!(Action::Succeed.http_status(), Some(200));
    assert_eq!(Action::Kill.http_status(), None);
    assert_eq!(Action::Spawn.http_status(), None);
}

#[test]
fn greeting_text() {
    assert_eq!(greeting(), "Hello from command-server!");
}

#[test]
fn prepare_keeps_commands() {
    let cfg = prepare("a".to_string(), "b".to_string(), Some("c".to_string()), None);
    assert_eq!(cfg.run_command(), "a");
    assert_eq!(cfg.status_command(), "b");
    assert_eq!(cfg.before_stop_command().as_deref(), Some("c"));
    assert_eq!(cfg.after_stop_command(), &None);
}
