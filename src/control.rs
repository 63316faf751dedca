use crate::supervisor::{Action, StatusReport, SupervisorError};
use vstd::prelude::*;

verus! {

pub const OK: u16 = 200;

pub const CONFLICT: u16 = 409;

pub const INTERNAL_SERVER_ERROR: u16 = 500;

/// The HTTP status code that reports an error: a conflict with the current
/// state is the client's error, anything else the server's.
pub open spec fn error_code(e: SupervisorError) -> u16 {
    match e {
        SupervisorError::Conflict => CONFLICT,
        _ => INTERNAL_SERVER_ERROR,
    }
}

/// The HTTP status code that ends a `/run` or `/stop` request, once the
/// supervisor's action is final.
pub open spec fn action_code(a: Action) -> Option<u16> {
    match a {
        Action::Succeed => Some(OK),
        Action::Fail(e) => Some(error_code(e)),
        _ => None,
    }
}

impl SupervisorError {
    pub fn http_status(&self) -> (r: u16)
        ensures
            r == error_code(*self),
    {
        match self {
            SupervisorError::Conflict => CONFLICT,
            _ => INTERNAL_SERVER_ERROR,
        }
    }
}

impl Action {
    /// The HTTP status code to answer with, or `None` while the operation goes on.
    pub fn http_status(&self) -> (r: Option<u16>)
        ensures
            r == action_code(*self),
    {
        match self {
            Action::Succeed => Some(OK),
            Action::Fail(e) => Some(e.http_status()),
            _ => None,
        }
    }
}

/// The HTTP status code that answers `GET /status`.
pub fn status_http_status(r: &Result<StatusReport, SupervisorError>) -> (c: u16)
    ensures
        r is Ok ==> c == OK,
        r matches Err(e) ==> c == error_code(*e),
{
    match r {
        Ok(_) => OK,
        Err(e) => e.http_status(),
    }
}

pub open spec fn greeting_text() -> Seq<char> {
    "Hello from command-server!"@
}

/// The text that `GET /` answers with.
pub fn greeting() -> (r: String)
    ensures
        r@ == greeting_text(),
{
    "Hello from command-server!".to_owned()
}

} // verus!
