use vstd::prelude::*;

use crate::artist::{Artist, config_of, model_of};
use crate::error::ServiceError;
use crate::paths::{response_body, response_text};

verus! {

/// The arguments that the conversion tool is started with: inference mode,
/// the profile's model and config, the output path, then the input path.
pub open spec fn tool_args(a: Artist, input: Seq<char>, output: Seq<char>) -> Seq<Seq<char>> {
    seq!["infer"@, "-m"@, model_of(a), "-c"@, config_of(a), "-o"@, output, input]
}

/// The program that converts an upload.
pub open spec fn tool_program() -> Seq<char> {
    "svc"@
}

/// The environment variable that the tool is started with, and its value:
/// it lets the tool fall back from an accelerator it cannot use.
pub open spec fn tool_env() -> (Seq<char>, Seq<char>) {
    ("PYTORCH_ENABLE_MPS_FALLBACK"@, "1"@)
}

/// How a run of the conversion tool ended.
#[derive(Clone, Copy, Debug, PartialEq, Eq, Structural)]
pub enum ToolExit {
    /// The process exited with this status code.
    Exited(i32),
    /// The process was ended by a signal.
    Signalled,
    /// The process could not be started.
    SpawnFailed,
    /// The process was started but could not be waited for.
    WaitFailed,
    /// The process ran past its time limit and was killed.
    TimedOut,
}

/// Longest time, in milliseconds, that the conversion tool may run.
pub const TOOL_LIMIT_MS: u64 = 600000;

/// What one look at the running tool found.
#[derive(Clone, Copy, Debug, PartialEq, Eq, Structural)]
pub enum ToolPoll {
    /// The process has not ended yet.
    Running,
    /// The process exited with this status code.
    Exited(i32),
    /// The process was ended by a signal.
    Signalled,
    /// The state of the process could not be read.
    Failed,
}

/// What the watcher of the tool does next.
#[derive(Clone, Copy, Debug, PartialEq, Eq, Structural)]
pub enum WatchStep {
    /// Look again later.
    Wait,
    /// Kill the process; the run then ended as `ToolExit::TimedOut`.
    Kill,
    /// The run is over and ended this way.
    Finish(ToolExit),
}

/// The watcher's decision after finding `poll` when the tool has run for
/// `elapsed_ms` milliseconds.
pub open spec fn watch_spec(poll: ToolPoll, elapsed_ms: u64) -> WatchStep {
    match poll {
        ToolPoll::Running => if elapsed_ms >= TOOL_LIMIT_MS {
            WatchStep::Kill
        } else {
            WatchStep::Wait
        },
        ToolPoll::Exited(code) => WatchStep::Finish(ToolExit::Exited(code)),
        ToolPoll::Signalled => WatchStep::Finish(ToolExit::Signalled),
        ToolPoll::Failed => WatchStep::Finish(ToolExit::WaitFailed),
    }
}

/// Decides what to do about the running tool: a finished run is reported,
/// a run past the time limit is killed, any other is left to go on.
pub fn watch_step(poll: ToolPoll, elapsed_ms: u64) -> (r: WatchStep)
    ensures
        r == watch_spec(poll, elapsed_ms),
{
    match poll {
        ToolPoll::Running => if elapsed_ms >= TOOL_LIMIT_MS {
            WatchStep::Kill
        } else {
            WatchStep::Wait
        },
        ToolPoll::Exited(code) => WatchStep::Finish(ToolExit::Exited(code)),
        ToolPoll::Signalled => WatchStep::Finish(ToolExit::Signalled),
        ToolPoll::Failed => WatchStep::Finish(ToolExit::WaitFailed),
    }
}

/// What a run of the tool means for the request.
pub open spec fn exit_outcome(e: ToolExit) -> Result<(), ServiceError> {
    match e {
        ToolExit::Exited(code) => if code == 0 {
            Ok(())
        } else {
            Err(ServiceError::ConversionFailed)
        },
        ToolExit::TimedOut => Err(ServiceError::ConversionTimeout),
        _ => Err(ServiceError::ConversionFailed),
    }
}

/// The name of the conversion program.
pub fn program() -> (r: &'static str)
    ensures
        r@ == tool_program(),
{
    "svc"
}

/// The environment override handed to the conversion program alone.
pub fn environment() -> (r: (&'static str, &'static str))
    ensures
        (r.0@, r.1@) == tool_env(),
{
    ("PYTORCH_ENABLE_MPS_FALLBACK", "1")
}

/// The command-line arguments that convert `input` into `output` with the
/// profile of `artist`.
pub fn conversion_args(artist: Artist, input: &str, output: &str) -> (r: Vec<String>)
    ensures
        r@.len() == 8,
        forall|i: int| 0 <= i < 8 ==> #[trigger] r@[i]@ == tool_args(artist, input@, output@)[i],
{
    let mut args: Vec<String> = Vec::new();
    args.push(String::from_str("infer"));
    args.push(String::from_str("-m"));
    args.push(String::from_str(artist.model()));
    args.push(String::from_str("-c"));
    args.push(String::from_str(artist.config()));
    args.push(String::from_str("-o"));
    args.push(String::from_str(output));
    args.push(String::from_str(input));
    args
}

/// Judges how the tool ended: only a zero exit status is success; a
/// timeout is told apart from every other failure.
pub fn judge_exit(exit: ToolExit) -> (r: Result<(), ServiceError>)
    ensures
        r == exit_outcome(exit),
{
    match exit {
        ToolExit::Exited(code) => if code == 0 {
            Ok(())
        } else {
            Err(ServiceError::ConversionFailed)
        },
        ToolExit::TimedOut => Err(ServiceError::ConversionTimeout),
        ToolExit::Signalled => Err(ServiceError::ConversionFailed),
        ToolExit::SpawnFailed => Err(ServiceError::ConversionFailed),
        ToolExit::WaitFailed => Err(ServiceError::ConversionFailed),
    }
}

/// The response to an upload whose conversion wrote to `output` and ended
/// as `exit`: the download path on success, the conversion error otherwise.
pub fn conversion_response(exit: ToolExit, output: &str) -> (r: Result<String, ServiceError>)
    ensures
        match r {
            Ok(body) => exit_outcome(exit) is Ok && body@ == response_text(output@),
            Err(e) => exit_outcome(exit) == Err::<(), ServiceError>(e),
        },
{
    match judge_exit(exit) {
        Ok(()) => Ok(response_body(output)),
        Err(e) => Err(e),
    }
}

} // verus!
