use vstd::prelude::*;

verus! {

/// What the supervisor is configured with, as plain sequences of characters.
pub ghost struct ConfigView {
    pub run_command: Seq<char>,
    pub status_command: Seq<char>,
    pub before_stop_command: Option<Seq<char>>,
    pub after_stop_command: Option<Seq<char>>,
}

pub open spec fn opt_view(o: Option<String>) -> Option<Seq<char>> {
    match o {
        Some(s) => Some(s@),
        None => None,
    }
}

/// The supervisor's configuration, fixed at startup: the shell snippet that
/// starts the child, the one that reports its status, and two optional hooks
/// run around a stop.
pub struct ServerPre {
    run_command: String,
    status_command: String,
    before_stop_command: Option<String>,
    after_stop_command: Option<String>,
}

impl View for ServerPre {
    type V = ConfigView;

    closed spec fn view(&self) -> ConfigView {
        ConfigView {
            run_command: self.run_command@,
            status_command: self.status_command@,
            before_stop_command: opt_view(self.before_stop_command),
            after_stop_command: opt_view(self.after_stop_command),
        }
    }
}

impl ServerPre {
    /// The run and status commands are never empty.
    pub open spec fn wf(&self) -> bool {
        &&& self@.run_command.len() > 0
        &&& self@.status_command.len() > 0
    }

    pub fn run_command(&self) -> (r: &String)
        ensures
            r@ == self@.run_command,
    {
        &self.run_command
    }

    pub fn status_command(&self) -> (r: &String)
        ensures
            r@ == self@.status_command,
    {
        &self.status_command
    }

    pub fn before_stop_command(&self) -> (r: &Option<String>)
        ensures
            opt_view(*r) == self@.before_stop_command,
    {
        &self.before_stop_command
    }

    pub fn after_stop_command(&self) -> (r: &Option<String>)
        ensures
            opt_view(*r) == self@.after_stop_command,
    {
        &self.after_stop_command
    }
}

/// Builds the configuration from the four command strings.
pub fn prepare(
    run_command: String,
    status_command: String,
    before_stop_command: Option<String>,
    after_stop_command: Option<String>,
) -> (r: ServerPre)
    requires
        run_command@.len() > 0,
        status_command@.len() > 0,
    ensures
        r.wf(),
        r@ == (ConfigView {
            run_command: run_command@,
            status_command: status_command@,
            before_stop_command: opt_view(before_stop_command),
            after_stop_command: opt_view(after_stop_command),
        }),
{
    ServerPre { run_command, status_command, before_stop_command, after_stop_command }
}

} // verus!
