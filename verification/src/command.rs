//! Running a command-line tool: what a run gives back, the trait that runs
//! one, and what a finished run means to the modules that use tools.

use vstd::prelude::*;
use crate::error::{ApiError, BAD_GATEWAY};
use crate::orbit::tool_failed_message;
use crate::text::{owned, truncatable};

verus! {

/// What a finished run gives back: its exit status (`-1` when it has none)
/// and its error output.
#[derive(Debug)]
pub struct CommandOutput {
    pub status: i32,
    pub stderr: String,
}

impl Clone for CommandOutput {
    fn clone(&self) -> (r: Self)
        ensures
            r == *self,
    {
        CommandOutput { status: self.status, stderr: self.stderr.clone() }
    }
}

/// Runs a program with its arguments and waits for it. The server runs a
/// process; a test puts a fake in its place. `Err` carries why the program
/// could not be run. Nothing is promised of what a run gives back.
pub trait CommandRunner {
    fn run(&self, program: &str, args: &[String]) -> (r: Result<CommandOutput, String>);
}

/// Whether the error output of a failed run can be cut where the failure
/// message cuts it (a run that exited with 0 needs no message).
pub open spec fn run_cuttable(ran: Result<CommandOutput, String>) -> bool {
    ran matches Ok(o) ==> (o.status != 0 ==> truncatable(o.stderr@))
}

/// Tests `run_cuttable`.
pub fn is_run_cuttable(ran: &Result<CommandOutput, String>) -> (r: bool)
    ensures
        r == run_cuttable(*ran),
{
    match ran {
        Err(_) => true,
        Ok(o) => o.status == 0 || crate::text::is_truncatable(o.stderr.as_str()),
    }
}

/// `v` is what a run of `tool` that gave back `ran` means to a request: one
/// that could not start is a 502 `<tool> invocation failed: <why>`; one that
/// exited non-zero is a 502 with its status and the start of its error output;
/// one that exited with 0 is fine.
pub open spec fn run_verdict_is(tool: Seq<char>, ran: Result<CommandOutput, String>, v: Result<(), ApiError>) -> bool {
    match ran {
        Err(m) => v matches Err(e) && e.is(BAD_GATEWAY, tool + " invocation failed: "@ + m@),
        Ok(o) => {
            &&& (v is Ok <==> o.status == 0)
            &&& (v matches Err(e) ==> e.is(BAD_GATEWAY, tool_failed_message(tool, o.status, o.stderr@)))
        },
    }
}

/// `r` is the answer to a request whose run of `tool` gave back `ran`: its
/// verdict, which for a run that exited with 0 is always `Ok`; `None` only
/// where a failed run's error output cannot be cut.
pub open spec fn run_answer_is(tool: Seq<char>, ran: Result<CommandOutput, String>, r: Option<Result<(), ApiError>>) -> bool {
    if run_cuttable(ran) {
        r matches Some(v) && run_verdict_is(tool, ran, v)
    } else {
        r is None
    }
}

/// What a run of a tool means to a request, as `run_verdict_is` says.
pub fn run_verdict(tool: &str, ran: Result<CommandOutput, String>) -> (r: Result<(), ApiError>)
    requires
        run_cuttable(ran),
    ensures
        run_verdict_is(tool@, ran, r),
{
    match ran {
        Err(m) => {
            let mut msg = owned(tool);
            crate::text::push_str(&mut msg, " invocation failed: ");
            crate::text::push_str(&mut msg, m.as_str());
            Err(ApiError::bad_gateway(msg))
        },
        Ok(o) => crate::search::tool_outcome(tool, o.status, o.stderr.as_str()),
    }
}

/// Runs a tool for a request and says what the run means, as `run_verdict`
/// does. `None` when a failed run's error output cannot be cut between two
/// characters where the failure message cuts it. The runner promises nothing
/// of what it gives back, so the answer is that of some outcome of a run.
pub fn run_tool<R: CommandRunner>(runner: &R, tool: &str, args: &[String]) -> (r: Option<Result<(), ApiError>>)
    ensures
        exists|ran: Result<CommandOutput, String>| #[trigger] run_answer_is(tool@, ran, r),
{
    let ran = runner.run(tool, args);
    let ghost outcome = ran;
    let r = if is_run_cuttable(&ran) {
        Some(run_verdict(tool, ran))
    } else {
        None
    };
    assert(run_answer_is(tool@, outcome, r));
    r
}

} // verus!
