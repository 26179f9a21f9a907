//! The process supervisor's decisions: what to do on each event of the
//! select loop over the child's stdout, stderr, the terminator, and exit.
//!
//! The host shell performs the reads, the kill and the wait; each event is
//! handed here and the returned step is executed.

use vstd::prelude::*;

use crate::error::LauncherError;

verus! {

/// The runtime binary a profile is launched with.
pub struct JavaRuntime(pub String);

impl JavaRuntime {
    pub fn new(path: String) -> (r: JavaRuntime)
        ensures
            r.0@ == path@,
    {
        JavaRuntime(path)
    }
}

/// The exit code the supervisor substitutes when the child reports none.
pub const MISSING_EXIT_CODE: i32 = 7900;

/// The code a forcefully killed child reports on Windows; treated as
/// success because the supervisor itself causes it.
pub const WINDOWS_KILLED_EXIT_CODE: i32 = -1073740791;

/// Whether an exit code counts as success: zero, or the Windows
/// killed-process code.
pub fn exit_code_success(code: i32) -> (r: bool)
    ensures
        r == (code == 0 || code == WINDOWS_KILLED_EXIT_CODE),
{
    code == 0 || code == WINDOWS_KILLED_EXIT_CODE
}

/// One event of the supervisor's select loop.
pub enum SupervisorEvent {
    /// `len` bytes are readable on the child's stdout.
    StdoutChunk { len: usize },
    /// `len` bytes are readable on the child's stderr.
    StderrChunk { len: usize },
    /// The terminator fired.
    Terminated,
    /// The child exited, reporting `code` (or nothing).
    Exited { code: Option<i32> },
}

/// What the supervisor does in response to one event.
pub enum SupervisorStep {
    /// Forward the first `len` stdout bytes to the caller and keep looping.
    ForwardStdout { len: usize },
    /// Forward the first `len` stderr bytes to the caller and keep looping.
    ForwardStderr { len: usize },
    /// Kill the child and stop with success.
    KillAndStop,
    /// Stop with the given outcome.
    Stop { outcome: Result<(), LauncherError> },
}

/// The exit outcome for a reported code: success for the two known-success
/// codes, `NonZeroExit` otherwise; a missing code is reported as the
/// sentinel.
pub open spec fn spec_exit_outcome(code: Option<i32>) -> Result<(), LauncherError> {
    let c = match code {
        Option::Some(c) => c,
        Option::None => MISSING_EXIT_CODE,
    };
    if c == 0 || c == WINDOWS_KILLED_EXIT_CODE {
        Result::Ok(())
    } else {
        Result::Err(LauncherError::NonZeroExit { code: c })
    }
}

/// Decides the supervisor's next step for one event: forward output chunks,
/// kill the child when the terminator fires, and map the exit code on exit.
pub fn supervise_step(event: &SupervisorEvent) -> (r: SupervisorStep)
    ensures
        match event {
            SupervisorEvent::StdoutChunk { len } => r == (SupervisorStep::ForwardStdout {
                len: *len,
            }),
            SupervisorEvent::StderrChunk { len } => r == (SupervisorStep::ForwardStderr {
                len: *len,
            }),
            SupervisorEvent::Terminated => r == SupervisorStep::KillAndStop,
            SupervisorEvent::Exited { code } => r == (SupervisorStep::Stop {
                outcome: spec_exit_outcome(*code),
            }),
        },
{
    match event {
        SupervisorEvent::StdoutChunk { len } => SupervisorStep::ForwardStdout { len: *len },
        SupervisorEvent::StderrChunk { len } => SupervisorStep::ForwardStderr { len: *len },
        SupervisorEvent::Terminated => SupervisorStep::KillAndStop,
        SupervisorEvent::Exited { code } => {
            let c = match code {
                Option::Some(c) => *c,
                Option::None => MISSING_EXIT_CODE,
            };
            if exit_code_success(c) {
                SupervisorStep::Stop { outcome: Ok(()) }
            } else {
                SupervisorStep::Stop { outcome: Err(LauncherError::NonZeroExit { code: c }) }
            }
        },
    }
}

} // verus!
