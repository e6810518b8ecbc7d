//! The two entry-point loops as explicit state machines over the
//! candidate list. The embedding application performs one execution or
//! probe attempt per step and feeds the observed event back in; every
//! decision — accept, fall through to the next candidate, or fail the
//! call — is made and verified here.

use vstd::prelude::*;
use vstd::string::StringExecFns;
use crate::outcome::{RunPythonScriptResponse, ValidatePythonScriptResponse};
use crate::preflight::{PreflightError, preflight_message_of};
use crate::resolver::PythonCandidate;

verus! {

/// What one execution attempt with one candidate reported back:
/// the attempt completed (however the script itself fared), the
/// candidate binary does not exist, or spawning failed for another
/// reason, with the OS error text.
pub enum AttemptResult {
    Completed(RunPythonScriptResponse),
    InterpreterNotFound,
    SpawnError(String),
}

/// What the run loop does after one attempt: try the next candidate,
/// or finish with the call's result.
pub enum RunStep {
    Continue { next_idx: usize },
    Done(Result<RunPythonScriptResponse, String>),
}

/// What the validation loop does after one probe: try the next
/// candidate, or finish with the validation outcome.
pub enum ValidateStep {
    Continue { next_idx: usize },
    Done(ValidatePythonScriptResponse),
}

/// The run loop's abstract state over a candidate list of length
/// `len`: still trying candidate `i`, finished with an outcome, every
/// candidate exhausted via "not found", or stopped by a fatal spawn
/// error.
pub enum RunPhase {
    Trying(int),
    Succeeded,
    ExhaustedNotFound,
    FailedFatal,
}

/// The validation loop's abstract state: still probing candidate `i`,
/// resolved to candidate `i`, or no candidate available.
pub enum ValidatePhase {
    Probing(int),
    Resolved(int),
    Unavailable,
}

/// The run loop's transition from candidate `idx` on one attempt
/// event: a completed attempt always wins; a missing interpreter falls
/// through to the next candidate while one remains; any other spawn
/// failure is fatal.
pub open spec fn run_transition(len: int, idx: int, event: AttemptResult) -> RunPhase {
    match event {
        AttemptResult::Completed(_) => RunPhase::Succeeded,
        AttemptResult::InterpreterNotFound => if idx + 1 < len {
            RunPhase::Trying(idx + 1)
        } else {
            RunPhase::ExhaustedNotFound
        },
        AttemptResult::SpawnError(_) => RunPhase::FailedFatal,
    }
}

/// The validation loop's transition from candidate `idx` on one probe
/// result: the first available candidate resolves; an unavailable one
/// falls through while a candidate remains.
pub open spec fn validate_transition(len: int, idx: int, available: bool) -> ValidatePhase {
    if available {
        ValidatePhase::Resolved(idx)
    } else if idx + 1 < len {
        ValidatePhase::Probing(idx + 1)
    } else {
        ValidatePhase::Unavailable
    }
}

/// The diagnostic recorded when a candidate's binary does not exist.
pub open spec fn not_found_message_of(display_name: Seq<char>) -> Seq<char> {
    "python interpreter not found: "@ + display_name
}

/// The fatal diagnostic for a spawn failure other than "not found".
pub open spec fn spawn_error_message_of(display_name: Seq<char>, error_text: Seq<char>) -> Seq<
    char,
> {
    "failed to execute script with "@ + display_name + ": "@ + error_text
}

/// Builds [`not_found_message_of`] for one candidate's display name.
pub fn not_found_message(display_name: &str) -> (r: String)
    ensures
        r@ == not_found_message_of(display_name@),
{
    String::from_str("python interpreter not found: ").concat(display_name)
}

/// Builds [`spawn_error_message_of`] for one candidate and one OS
/// error text.
pub fn spawn_error_message(display_name: &str, error_text: &str) -> (r: String)
    ensures
        r@ == spawn_error_message_of(display_name@, error_text@),
{
    String::from_str("failed to execute script with ").concat(display_name).concat(": ").concat(
        error_text,
    )
}

/// The generic diagnostic for a run that found no candidate to try.
pub fn no_interpreter_message() -> (r: String)
    ensures
        r@ == "failed to find available python interpreter"@,
{
    String::from_str("failed to find available python interpreter")
}

/// One step of the run loop: candidate `idx` was attempted and `event`
/// came back. A completed attempt is returned as the call's outcome
/// as-is; a missing interpreter advances to the next candidate, or —
/// from the last candidate — fails the call with the "not found"
/// diagnostic; any other spawn failure fails the call at once.
pub fn run_step(candidates: &Vec<PythonCandidate>, idx: usize, event: AttemptResult) -> (r:
    RunStep)
    requires
        idx < candidates@.len(),
    ensures
        match run_transition(candidates@.len() as int, idx as int, event) {
            RunPhase::Trying(next) => r == (RunStep::Continue { next_idx: next as usize }),
            RunPhase::Succeeded => r matches RunStep::Done(d) && d is Ok,
            RunPhase::ExhaustedNotFound => r matches RunStep::Done(d) && d is Err,
            RunPhase::FailedFatal => r matches RunStep::Done(d) && d is Err,
        },
        match event {
            AttemptResult::Completed(resp) => r == RunStep::Done(
                Result::<RunPythonScriptResponse, String>::Ok(resp),
            ),
            AttemptResult::InterpreterNotFound => idx + 1 >= candidates@.len() ==> (r matches
                RunStep::Done(d) && d matches Err(m) && m@ == not_found_message_of(
                candidates@[idx as int].display_name@,
            )),
            AttemptResult::SpawnError(err) => r matches RunStep::Done(d) && d matches Err(m) && m@
                == spawn_error_message_of(candidates@[idx as int].display_name@, err@),
        },
{
    let n = candidates.len();
    match event {
        AttemptResult::Completed(resp) => RunStep::Done(Ok(resp)),
        AttemptResult::InterpreterNotFound => {
            if idx + 1 < n {
                RunStep::Continue { next_idx: idx + 1 }
            } else {
                RunStep::Done(Err(not_found_message(candidates[idx].display_name.as_str())))
            }
        },
        AttemptResult::SpawnError(err) => {
            RunStep::Done(
                Err(spawn_error_message(candidates[idx].display_name.as_str(), err.as_str())),
            )
        },
    }
}

/// One step of the validation loop: candidate `idx` was probed and
/// found `available` or not. The first available candidate yields a
/// valid outcome naming it; an unavailable one advances to the next
/// candidate, or — from the last — yields the fixed non-valid outcome
/// with no resolved interpreter.
pub fn validate_step(candidates: &Vec<PythonCandidate>, idx: usize, available: bool) -> (r:
    ValidateStep)
    requires
        idx < candidates@.len(),
    ensures
        match validate_transition(candidates@.len() as int, idx as int, available) {
            ValidatePhase::Probing(next) => r == (ValidateStep::Continue {
                next_idx: next as usize,
            }),
            ValidatePhase::Resolved(_) => r matches ValidateStep::Done(resp) && resp.valid,
            ValidatePhase::Unavailable => r matches ValidateStep::Done(resp) && !resp.valid
                && resp.resolved_python is None,
        },
        available ==> (r matches ValidateStep::Done(resp) && resp.valid && (resp.message matches
            Some(m) && m@ == "script and interpreter are valid"@) && (resp.resolved_python matches
            Some(d) && d@ == candidates@[idx as int].display_name@)),
        !available && idx + 1 >= candidates@.len() ==> (r matches ValidateStep::Done(resp)
            && !resp.valid && (resp.message matches Some(m) && m@
            == "python interpreter is not available"@) && resp.resolved_python is None),
{
    let n = candidates.len();
    if available {
        ValidateStep::Done(
            ValidatePythonScriptResponse {
                valid: true,
                message: Some(String::from_str("script and interpreter are valid")),
                resolved_python: Some(candidates[idx].display_name.clone()),
            },
        )
    } else if idx + 1 < n {
        ValidateStep::Continue { next_idx: idx + 1 }
    } else {
        ValidateStep::Done(
            ValidatePythonScriptResponse {
                valid: false,
                message: Some(String::from_str("python interpreter is not available")),
                resolved_python: None,
            },
        )
    }
}

/// The non-valid validation outcome for a preflight failure, carrying
/// that failure's message; validation reports it in-band rather than
/// failing the call.
pub fn validate_preflight_response(error: PreflightError, script_path: &str) -> (r:
    ValidatePythonScriptResponse)
    ensures
        !r.valid,
        r.message matches Some(m) && m@ == preflight_message_of(error, script_path@),
        r.resolved_python is None,
{
    ValidatePythonScriptResponse {
        valid: false,
        message: Some(error.message(script_path)),
        resolved_python: None,
    }
}

/// Law: an attempt that completes — whatever the script's own exit
/// status, and whether or not it timed out — always ends the run loop
/// with that outcome; no later candidate is tried and no error is
/// surfaced.
pub proof fn lemma_completed_attempt_wins(len: int, idx: int, resp: RunPythonScriptResponse)
    ensures
        run_transition(len, idx, AttemptResult::Completed(resp)) == RunPhase::Succeeded,
{
}

/// Law: a missing interpreter anywhere before the last candidate only
/// advances the run loop to the next candidate in order; it never
/// produces the call's result by itself.
pub proof fn lemma_not_found_advances(len: int, idx: int)
    requires
        idx + 1 < len,
    ensures
        run_transition(len, idx, AttemptResult::InterpreterNotFound) == RunPhase::Trying(idx + 1),
{
}

/// Law: an unavailable candidate never resolves validation — however
/// long the candidate list, probing can only move on or end
/// unavailable, so a search in which every probe fails never yields a
/// valid outcome.
pub proof fn lemma_unavailable_never_resolves(len: int, idx: int)
    ensures
        !(validate_transition(len, idx, false) matches ValidatePhase::Resolved(_)),
        validate_transition(len, idx, false) == if idx + 1 < len {
            ValidatePhase::Probing(idx + 1)
        } else {
            ValidatePhase::Unavailable
        },
{
}

} // verus!
