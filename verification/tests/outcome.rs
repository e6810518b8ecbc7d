use pyrun::{ExitInfo, build_outcome, clamp_timeout_ms};

#[test]
fn requested_zero_timeout_behaves_as_minimum() {
    assert_eq!(clamp_timeout_ms(Some(0)), 1_000);
}

#[test]
fn oversized_timeout_is_clamped_to_maximum() {
    assert_eq!(clamp_timeout_ms(Some(999_999)), 120_000);
}

#[test]
fn absent_timeout_uses_default() {
    assert_eq!(clamp_timeout_ms(None), 10_000);
}

#[test]
fn in_range_timeouts_are_kept_verbatim() {
    assert_eq!(clamp_timeout_ms(Some(1_000)), 1_000);
    assert_eq!(clamp_timeout_ms(Some(2_500)), 2_500);
    assert_eq!(clamp_timeout_ms(Some(120_000)), 120_000);
}

#[test]
fn successful_hello_run_is_ok() {
    let outcome = build_outcome(
        false,
        ExitInfo { success: true, code: Some(0) },
        b"hello\n".to_vec(),
        Vec::new(),
        12,
    );
    assert!(outcome.ok);
    assert_eq!(outcome.stdout, "hello\n");
    assert_eq!(outcome.stderr, "");
    assert_eq!(outcome.exit_code, Some(0));
    assert!(!outcome.timed_out);
    assert_eq!(outcome.duration_ms, 12);
}

#[test]
fn timed_out_run_is_never_ok_and_keeps_partial_output() {
    let outcome = build_outcome(
        true,
        ExitInfo { success: false, code: None },
        b"written before the kill".to_vec(),
        b"partial diagnostics".to_vec(),
        1_500,
    );
    assert!(!outcome.ok);
    assert!(outcome.timed_out);
    assert_eq!(outcome.exit_code, None);
    assert_eq!(outcome.stdout, "written before the kill");
    assert_eq!(outcome.stderr, "partial diagnostics");
}

#[test]
fn timed_out_run_with_success_status_is_still_not_ok() {
    let outcome = build_outcome(
        true,
        ExitInfo { success: true, code: Some(0) },
        Vec::new(),
        Vec::new(),
        2_000,
    );
    assert!(!outcome.ok);
    assert!(outcome.timed_out);
}

#[test]
fn script_failure_is_reported_as_data_not_as_an_error() {
    let outcome = build_outcome(
        false,
        ExitInfo { success: false, code: Some(2) },
        Vec::new(),
        b"boom\n".to_vec(),
        7,
    );
    assert!(!outcome.ok);
    assert!(!outcome.timed_out);
    assert_eq!(outcome.exit_code, Some(2));
    assert_eq!(outcome.stderr, "boom\n");
}

#[test]
fn invalid_utf8_is_replaced_not_dropped() {
    let outcome = build_outcome(
        false,
        ExitInfo { success: true, code: Some(0) },
        vec![0xff, b'a'],
        vec![0xc3],
        0,
    );
    assert_eq!(outcome.stdout, "\u{FFFD}a");
    assert_eq!(outcome.stderr, "\u{FFFD}");
}
