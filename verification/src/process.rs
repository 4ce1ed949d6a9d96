//! The process runner: the fixed argument contract handed to the tool, and
//! the judgement of what a finished run means.
//!
//! Spawning, stream wiring and waiting are the caller's work; the observed
//! exit status and captured error stream come back here to be judged.

use vstd::prelude::*;
use vstd::string::StringExecFns;

use crate::version::TailwindCli;

verus! {

/// Exit status of a finished process as the OS reports it: an exit code, or
/// none when the process was terminated by a signal.
#[derive(Clone, Copy, Debug, PartialEq, Eq)]
pub struct ProcStatus {
    pub code: Option<i32>,
}

impl ProcStatus {
    /// A process succeeded exactly when it exited with code zero.
    pub open spec fn success_spec(self) -> bool {
        self.code == Option::Some(0i32)
    }

    /// Whether the process exited successfully.
    pub fn success(&self) -> (r: bool)
        ensures
            r == self.success_spec(),
    {
        match self.code {
            Option::Some(c) => c == 0,
            Option::None => false,
        }
    }

    /// Status of a process that exited with `code`.
    pub fn exited(code: i32) -> (r: ProcStatus)
        ensures
            r.code == Option::Some(code),
    {
        ProcStatus { code: Option::Some(code) }
    }

    /// Status of a process terminated without an exit code.
    pub fn signaled() -> (r: ProcStatus)
        ensures
            r.code is None,
    {
        ProcStatus { code: Option::None }
    }
}

/// A supervised tool run failed.
#[derive(Clone, Copy, Debug, PartialEq, Eq)]
pub enum RunError {
    /// A one-shot build exited with a failing status.
    ToolFailed { status: ProcStatus },
    /// The watch process exited (it never should) with a failing status.
    WatchExited { status: ProcStatus },
}

/// How the spawned tool's standard streams are wired.
#[derive(Clone, Copy, Debug, PartialEq, Eq, Structural)]
pub enum StdioPolicy {
    /// Output and error streams are buffered for one synchronous run, so
    /// that failures can be inspected and warnings logged.
    Captured,
    /// All three streams are connected to the caller's, so that the user
    /// sees live tool output during an interactive session.
    Inherited,
}

/// The stream wiring each run mode requires: one-shot builds capture their
/// output, interactive watch (and dev) sessions inherit the caller's
/// streams.
pub open spec fn stdio_policy_spec(watch: bool) -> StdioPolicy {
    if watch {
        StdioPolicy::Inherited
    } else {
        StdioPolicy::Captured
    }
}

/// Decide how a tool run's standard streams are wired.
pub fn stdio_policy(watch: bool) -> (r: StdioPolicy)
    ensures
        r == stdio_policy_spec(watch),
{
    if watch {
        StdioPolicy::Inherited
    } else {
        StdioPolicy::Captured
    }
}

/// The fixed argument contract of the tool: input and output always, the
/// watch and minify flags each exactly when asked for.
pub open spec fn tailwind_args_spec(
    input: Seq<char>,
    output: Seq<char>,
    watch: bool,
    minify: bool,
) -> Seq<Seq<char>> {
    seq!["--input"@, input, "--output"@, output] + (if watch {
        seq!["--watch"@]
    } else {
        Seq::<Seq<char>>::empty()
    }) + (if minify {
        seq!["--minify"@]
    } else {
        Seq::<Seq<char>>::empty()
    })
}

/// Build the argument list for one tool invocation on already-resolved
/// paths.
pub fn tailwind_args(input: &str, output: &str, watch: bool, minify: bool) -> (r: Vec<String>)
    ensures
        r.deep_view() == tailwind_args_spec(input@, output@, watch, minify),
{
    let mut args: Vec<String> = Vec::new();
    args.push(String::from_str("--input"));
    args.push(String::from_str(input));
    args.push(String::from_str("--output"));
    args.push(String::from_str(output));
    if watch {
        args.push(String::from_str("--watch"));
    }
    if minify {
        args.push(String::from_str("--minify"));
    }
    proof {
        assert(args.deep_view() =~= tailwind_args_spec(input@, output@, watch, minify));
    }
    args
}

/// Everything a captured one-shot run reports back: the exit status and the
/// bytes of the error stream.
#[derive(Clone, Debug)]
pub struct RunOutput {
    pub status: ProcStatus,
    pub stderr: Vec<u8>,
}

impl TailwindCli {
    /// Judge a finished one-shot build. Success is owed exactly when the
    /// process exited successfully; error-stream output on a successful run
    /// comes back as a warning, never as an error; a failing status is a
    /// hard error carrying that status.
    pub fn run_once(&self, output: RunOutput) -> (r: Result<Option<Vec<u8>>, RunError>)
        ensures
            r is Ok <==> output.status.success_spec(),
            r matches Ok(w) ==> ((w is Some <==> output.stderr@.len() > 0) && (w matches Some(e)
                ==> e@ == output.stderr@)),
            r is Err ==> r == Result::<Option<Vec<u8>>, RunError>::Err(
                RunError::ToolFailed { status: output.status },
            ),
    {
        if output.status.success() {
            if output.stderr.len() > 0 {
                Result::Ok(Option::Some(output.stderr))
            } else {
                Result::Ok(Option::None)
            }
        } else {
            Result::Err(RunError::ToolFailed { status: output.status })
        }
    }

    /// Judge a finished watch session: the process is expected to run until
    /// externally interrupted, so any failing exit status is a hard error.
    pub fn watch(&self, status: ProcStatus) -> (r: Result<(), RunError>)
        ensures
            r is Ok <==> status.success_spec(),
            r is Err ==> r == Result::<(), RunError>::Err(RunError::WatchExited { status }),
    {
        if status.success() {
            Result::Ok(())
        } else {
            Result::Err(RunError::WatchExited { status })
        }
    }
}

} // verus!
