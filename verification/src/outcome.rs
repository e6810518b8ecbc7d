//! The request and outcome types of the two entry points, timeout
//! clamping, and the assembly of a structured outcome from what the OS
//! reported about one finished child process.

use vstd::prelude::*;
use crate::text::{decode_lossy, lossy_of};

verus! {

/// A request to run a script: the script path, the arguments passed
/// through verbatim, an optional explicit interpreter override (blank
/// means absent), and an optional timeout in milliseconds.
#[derive(Debug)]
pub struct RunPythonScriptRequest {
    pub script_path: String,
    pub args: Vec<String>,
    pub python_path: Option<String>,
    pub timeout_ms: Option<u64>,
}

/// The structured result of one execution: `ok` holds exactly when the
/// process exited within the timeout with a success status; the two
/// streams are captured in full and decoded lossily; `exit_code` is
/// present only when the process terminated normally; `duration_ms` is
/// the wall-clock time from spawn to assembly.
#[derive(Debug)]
pub struct RunPythonScriptResponse {
    pub ok: bool,
    pub stdout: String,
    pub stderr: String,
    pub exit_code: Option<i32>,
    pub timed_out: bool,
    pub duration_ms: u128,
}

/// A request to validate a script without running it.
#[derive(Debug)]
pub struct ValidatePythonScriptRequest {
    pub script_path: String,
    pub python_path: Option<String>,
}

/// The result of validation: whether script and interpreter are
/// usable, an explanation, and — only when valid — the display name of
/// the first available interpreter.
#[derive(Debug)]
pub struct ValidatePythonScriptResponse {
    pub valid: bool,
    pub message: Option<String>,
    pub resolved_python: Option<String>,
}

/// How one child process ended, as plain values: whether its exit
/// status was success, and its exit code when it terminated normally
/// (absent when it was killed by a signal).
#[derive(Debug, Clone, Copy, PartialEq, Eq, Structural)]
pub struct ExitInfo {
    pub success: bool,
    pub code: Option<i32>,
}

/// The effective timeout for a requested value: 10000 ms when absent,
/// otherwise the request clamped into [1000, 120000] ms.
pub open spec fn clamped_timeout_ms(requested: Option<u64>) -> u64 {
    match requested {
        None => 10000u64,
        Some(t) => if t < 1000 {
            1000u64
        } else if t > 120000 {
            120000u64
        } else {
            t
        },
    }
}

/// Clamps the requested timeout into the accepted window, defaulting
/// to 10 seconds when no timeout was requested.
pub fn clamp_timeout_ms(requested: Option<u64>) -> (r: u64)
    ensures
        r == clamped_timeout_ms(requested),
        1000 <= r <= 120000,
{
    match requested {
        None => 10000,
        Some(t) => {
            if t < 1000 {
                1000
            } else if t > 120000 {
                120000
            } else {
                t
            }
        },
    }
}

/// Assembles the outcome of one finished execution attempt from what
/// the OS reported: whether the timeout fired first, how the process
/// ended, the fully drained stream contents, and the elapsed time.
/// `ok` holds exactly when the process exited within the timeout with
/// a success status — a timed-out run is never `ok`.
pub fn build_outcome(
    timed_out: bool,
    exit: ExitInfo,
    stdout_bytes: Vec<u8>,
    stderr_bytes: Vec<u8>,
    duration_ms: u128,
) -> (r: RunPythonScriptResponse)
    ensures
        r.ok == (!timed_out && exit.success),
        timed_out ==> !r.ok,
        r.timed_out == timed_out,
        r.exit_code == exit.code,
        r.duration_ms == duration_ms,
        r.stdout@ == lossy_of(stdout_bytes@),
        r.stderr@ == lossy_of(stderr_bytes@),
{
    RunPythonScriptResponse {
        ok: !timed_out && exit.success,
        stdout: decode_lossy(&stdout_bytes),
        stderr: decode_lossy(&stderr_bytes),
        exit_code: exit.code,
        timed_out,
        duration_ms,
    }
}

} // verus!
