use crate::config::opt_view;
use vstd::prelude::*;

verus! {

/// What a one-shot shell command left behind once it exited.
pub struct CommandResult {
    /// Whether it exited with status zero.
    pub exit_success: bool,
    /// Its exit code, or `None` where a signal ended it.
    pub code: Option<i32>,
    pub stdout: Vec<u8>,
    pub stderr: Vec<u8>,
}

/// The result of handing a command to the shell.
pub enum Execution {
    /// The shell could not be started, or its output could not be collected.
    NotLaunched,
    Exited(CommandResult),
}

/// How a hook command went, as far as the supervisor's decisions go.
#[derive(Clone, Copy, Debug, PartialEq, Eq, Structural)]
pub enum HookOutcome {
    NotLaunched,
    Failed,
    Succeeded,
}

pub open spec fn outcome_of(e: Execution) -> HookOutcome {
    match e {
        Execution::NotLaunched => HookOutcome::NotLaunched,
        Execution::Exited(c) => if c.exit_success {
            HookOutcome::Succeeded
        } else {
            HookOutcome::Failed
        },
    }
}

/// Classifies the execution of a hook.
pub fn hook_outcome(e: &Execution) -> (r: HookOutcome)
    ensures
        r == outcome_of(*e),
{
    match e {
        Execution::NotLaunched => HookOutcome::NotLaunched,
        Execution::Exited(c) => if c.exit_success {
            HookOutcome::Succeeded
        } else {
            HookOutcome::Failed
        },
    }
}

/// The text that a byte string holds as UTF-8, or `None` where it is not valid UTF-8.
pub uninterp spec fn utf8_text(b: Seq<u8>) -> Option<Seq<char>>;

/// Relies on `String::from_utf8`: it succeeds exactly on valid UTF-8 and then
/// holds the text that the bytes encode.
#[verifier::external_body]
pub(crate) fn decode_utf8(bytes: Vec<u8>) -> (r: Option<String>)
    ensures
        opt_view(r) == utf8_text(bytes@),
{
    String::from_utf8(bytes).ok()
}

} // verus!
