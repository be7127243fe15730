use vstd::prelude::*;

verus! {

/// Outcome reported by one supervised activity (the lifecycle driver or the
/// probe endpoint): success, or a failure with a descriptive cause.
pub enum RunResult {
    Success,
    Failure { cause: String },
}

impl RunResult {
    pub fn is_success(&self) -> (b: bool)
        ensures
            b == (self is Success),
    {
        match self {
            RunResult::Success => true,
            RunResult::Failure { .. } => false,
        }
    }
}

/// Which supervised activity a failure belongs to: the managed game process
/// (lifecycle driver) or the web server (probe endpoint).
#[derive(Clone, Copy, PartialEq, Eq, Structural, Debug)]
pub enum ComponentTag {
    Game,
    Server,
}

/// What the supervisor decides once both activities have completed: the
/// process exit code and, if anything failed, the first failure together with
/// the component it came from (the game process is inspected first).
pub struct SupervisorVerdict {
    pub exit_code: i32,
    pub fault: Option<(ComponentTag, String)>,
}

impl SupervisorVerdict {
    /// The short error text the process reports for the failing component,
    /// or `None` on a clean run.
    pub fn error_message(&self) -> (m: Option<&'static str>)
        ensures
            m is Some <==> self.fault is Some,
            self.fault matches Some((t, _)) && t == ComponentTag::Game ==> (m matches Some(
                s,
            ) && s@ == "game error"@),
            self.fault matches Some((t, _)) && t == ComponentTag::Server ==> (m matches Some(
                s,
            ) && s@ == "server error"@),
    {
        match &self.fault {
            Option::None => Option::None,
            Option::Some((ComponentTag::Game, _)) => Option::Some("game error"),
            Option::Some((ComponentTag::Server, _)) => Option::Some("server error"),
        }
    }
}

/// Join the outcomes of the two supervised activities. The exit code is 0
/// exactly when both succeeded; otherwise it is 1 and the verdict carries the
/// first failure, looking at the game process before the web server.
pub fn supervise(game: RunResult, server: RunResult) -> (v: SupervisorVerdict)
    ensures
        v.exit_code == 0 <==> (game is Success && server is Success),
        v.exit_code == 0 || v.exit_code == 1,
        v.fault is Some <==> v.exit_code == 1,
        game matches RunResult::Failure { cause } ==> v.fault == Some(
            (ComponentTag::Game, cause),
        ),
        game is Success ==> (server matches RunResult::Failure { cause } ==> v.fault == Some(
            (ComponentTag::Server, cause),
        )),
{
    match game {
        RunResult::Failure { cause } => SupervisorVerdict {
            exit_code: 1,
            fault: Some((ComponentTag::Game, cause)),
        },
        RunResult::Success => match server {
            RunResult::Failure { cause } => SupervisorVerdict {
                exit_code: 1,
                fault: Some((ComponentTag::Server, cause)),
            },
            RunResult::Success => SupervisorVerdict { exit_code: 0, fault: None },
        },
    }
}

/// The HTTP status the liveness route answers with. It depends on nothing:
/// the probe reports process liveness, not lifecycle state.
pub fn healthz_status() -> (s: u16)
    ensures
        s == 200,
{
    200
}

} // verus!
