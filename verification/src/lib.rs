//! Runs an external Python script on behalf of a host application:
//! resolves an ordered list of interpreter candidates, validates the
//! script path before anything is spawned, clamps the execution window,
//! and translates process-level events into structured outcomes.
//!
//! The OS work itself (spawning, draining pipes, killing on timeout) is
//! left to the embedding application; this crate holds every decision
//! and every value computation, each with a verified contract.

pub mod invocation;
pub mod orchestrate;
pub mod outcome;
pub mod preflight;
pub mod resolver;
pub mod text;

pub use invocation::{probe_invocation_args, script_invocation_args};
pub use orchestrate::{
    AttemptResult, RunStep, ValidateStep, no_interpreter_message, run_step,
    validate_preflight_response, validate_step,
};
pub use outcome::{
    ExitInfo, RunPythonScriptRequest, RunPythonScriptResponse, ValidatePythonScriptRequest,
    ValidatePythonScriptResponse, build_outcome, clamp_timeout_ms,
};
pub use preflight::{PathStatus, PreflightError, validate_script_path};
pub use resolver::{Platform, PythonCandidate, default_candidates, python_candidates, resolve_candidates};
pub use text::{trim_of, lossy_of};
