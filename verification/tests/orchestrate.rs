use pyrun::{
    AttemptResult, ExitInfo, PreflightError, RunStep, ValidateStep, build_outcome,
    python_candidates, run_step, validate_preflight_response, validate_step,
};

#[test]
fn not_found_falls_through_then_second_candidate_wins() {
    let candidates = python_candidates(&None);
    let next = match run_step(&candidates, 0, AttemptResult::InterpreterNotFound) {
        RunStep::Continue { next_idx } => next_idx,
        RunStep::Done(_) => panic!("a missing first candidate must not end the run"),
    };
    assert_eq!(next, 1);
    let completed = build_outcome(
        false,
        ExitInfo { success: true, code: Some(0) },
        b"ran\n".to_vec(),
        Vec::new(),
        3,
    );
    match run_step(&candidates, next, AttemptResult::Completed(completed)) {
        RunStep::Done(Ok(outcome)) => {
            assert!(outcome.ok);
            assert_eq!(outcome.stdout, "ran\n");
            assert_eq!(outcome.exit_code, Some(0));
            assert!(!outcome.timed_out);
        }
        _ => panic!("the second candidate's outcome must be returned as-is"),
    }
}

#[test]
fn completed_attempt_ends_the_run_even_when_the_script_failed() {
    let candidates = python_candidates(&None);
    let failed = build_outcome(
        false,
        ExitInfo { success: false, code: Some(1) },
        Vec::new(),
        b"trace\n".to_vec(),
        5,
    );
    match run_step(&candidates, 0, AttemptResult::Completed(failed)) {
        RunStep::Done(Ok(outcome)) => {
            assert!(!outcome.ok);
            assert_eq!(outcome.exit_code, Some(1));
        }
        _ => panic!("a completed attempt must end the run"),
    }
}

#[test]
fn exhausted_not_found_names_the_last_candidate() {
    let candidates = python_candidates(&None);
    match run_step(&candidates, 1, AttemptResult::InterpreterNotFound) {
        RunStep::Done(Err(message)) => {
            assert_eq!(message, "python interpreter not found: python");
        }
        _ => panic!("exhaustion must fail the call"),
    }
}

#[test]
fn other_spawn_error_is_fatal_with_a_diagnostic() {
    let candidates = python_candidates(&None);
    match run_step(
        &candidates,
        0,
        AttemptResult::SpawnError("permission denied".to_string()),
    ) {
        RunStep::Done(Err(message)) => {
            assert_eq!(
                message,
                "failed to execute script with python3: permission denied"
            );
        }
        _ => panic!("a non-not-found spawn error must fail the call at once"),
    }
}

#[test]
fn exhausted_override_names_the_trimmed_override() {
    let candidates = python_candidates(&Some(" /opt/py ".to_string()));
    assert_eq!(candidates.len(), 1);
    match run_step(&candidates, 0, AttemptResult::InterpreterNotFound) {
        RunStep::Done(Err(message)) => {
            assert_eq!(message, "python interpreter not found: /opt/py");
        }
        _ => panic!("a single exhausted candidate must fail the call"),
    }
}

#[test]
fn no_available_interpreter_reports_invalid_without_resolution() {
    let candidates = python_candidates(&None);
    let mut idx: usize = 0;
    loop {
        match validate_step(&candidates, idx, false) {
            ValidateStep::Continue { next_idx } => idx = next_idx,
            ValidateStep::Done(outcome) => {
                assert!(!outcome.valid);
                assert_eq!(
                    outcome.message,
                    Some("python interpreter is not available".to_string())
                );
                assert_eq!(outcome.resolved_python, None);
                break;
            }
        }
    }
}

#[test]
fn first_available_candidate_resolves_validation() {
    let candidates = python_candidates(&None);
    let next = match validate_step(&candidates, 0, false) {
        ValidateStep::Continue { next_idx } => next_idx,
        ValidateStep::Done(_) => panic!("one unavailable candidate must not end the search"),
    };
    match validate_step(&candidates, next, true) {
        ValidateStep::Done(outcome) => {
            assert!(outcome.valid);
            assert_eq!(outcome.resolved_python, Some("python".to_string()));
            assert_eq!(
                outcome.message,
                Some("script and interpreter are valid".to_string())
            );
        }
        ValidateStep::Continue { .. } => panic!("an available candidate must resolve"),
    }
}

#[test]
fn preflight_failure_is_reported_in_band_by_validation() {
    let outcome = validate_preflight_response(PreflightError::NotFound, "/tmp/missing.py");
    assert!(!outcome.valid);
    assert_eq!(
        outcome.message,
        Some("script file not found: /tmp/missing.py".to_string())
    );
    assert_eq!(outcome.resolved_python, None);
}
