use wxc_common::telemetry::{
    log_error, log_execution, sanitize_error_message, to_cstring_lossy, ExecutionEvent, FailureReason,
};

#[test]
fn failure_reason_as_str() {
    assert_eq!(FailureReason::ConfigError.as_str(), "config_error");
    assert_eq!(FailureReason::PolicyError.as_str(), "policy_error");
    assert_eq!(FailureReason::ProcessError.as_str(), "process_error");
    assert_eq!(FailureReason::Timeout.as_str(), "timeout");
    assert_eq!(FailureReason::InitError.as_str(), "init_error");
    assert_eq!(FailureReason::Unknown.as_str(), "unknown");
}

#[test]
fn sanitize_strips_windows_paths() {
    let msg = "Failed to read C:\\Users\\alice\\secret\\config.json";
    let result = sanitize_error_message(msg);
    assert!(!result.contains("alice"));
    assert!(!result.contains("secret"));
    assert!(result.contains("<path>"));
}

#[test]
fn sanitize_strips_unix_paths() {
    let msg = "Cannot open /home/bob/project/data.txt";
    let result = sanitize_error_message(msg);
    assert!(!result.contains("bob"));
    assert!(result.contains("<path>"));
}

#[test]
fn sanitize_truncates_long_messages() {
    let long_msg = "x".repeat(500);
    let result = sanitize_error_message(&long_msg);
    assert!(result.len() < 300);
    assert!(result.ends_with("..."));
}

#[test]
fn sanitize_preserves_safe_messages() {
    let msg = "Firewall rule creation failed";
    assert_eq!(sanitize_error_message(msg), msg);
}

#[test]
fn sanitize_keeps_the_character_that_ends_a_path() {
    assert_eq!(
        sanitize_error_message("open 'C:\\Users\\bob\\x.txt' failed"),
        "open '<path>' failed"
    );
    assert_eq!(
        sanitize_error_message("cannot read /tmp/abc\tnow"),
        "cannot read <path>\tnow"
    );
    assert_eq!(sanitize_error_message("at /etc/passwd"), "at <path>");
}

#[test]
fn sanitize_leaves_other_roots_and_drive_letters_without_backslash() {
    assert_eq!(sanitize_error_message("see /srv/data now"), "see /srv/data now");
    assert_eq!(sanitize_error_message("ratio 3:2 C:/x"), "ratio 3:2 C:/x");
    assert_eq!(sanitize_error_message("/hom/x"), "/hom/x");
}

#[test]
fn sanitize_truncates_exactly_at_256_bytes() {
    let msg = "y".repeat(256);
    assert_eq!(sanitize_error_message(&msg), msg);
    let longer = "y".repeat(257);
    let result = sanitize_error_message(&longer);
    assert_eq!(result.len(), 256);
    assert_eq!(result, format!("{}...", "y".repeat(253)));
}

#[test]
fn sanitize_truncates_on_a_character_boundary() {
    // 'é' is two bytes: 126 of them make 252 bytes, and the next would
    // cross the 253-byte budget.
    let msg = "é".repeat(200);
    let result = sanitize_error_message(&msg);
    assert_eq!(result, format!("{}...", "é".repeat(126)));
    assert!(result.len() <= 256);
}

#[test]
fn execution_record_names_the_failure() {
    let event = ExecutionEvent {
        backend: "processcontainer",
        exit_code: 3,
        outcome: "failure",
        duration_ms: 1200,
        version: "0.7.0",
        failure_reason: Some(FailureReason::Timeout),
    };
    let record = log_execution(&event);
    assert_eq!(record.backend, "processcontainer");
    assert_eq!(record.exit_code, 3);
    assert_eq!(record.outcome, "failure");
    assert_eq!(record.duration_ms, 1200);
    assert_eq!(record.failure_reason, "timeout");

    let ok = ExecutionEvent { failure_reason: None, ..event };
    assert_eq!(log_execution(&ok).failure_reason, "");
}

#[test]
fn error_record_scrubs_the_message() {
    let record = log_error("lxc", FailureReason::ConfigError, "bad /home/carol/cfg.json", "0.7.0");
    assert_eq!(record.backend, "lxc");
    assert_eq!(record.error_type, "config_error");
    assert_eq!(record.error_message, "bad <path>");
}

#[test]
fn to_cstring_lossy_normal_string() {
    let c = to_cstring_lossy("hello");
    assert_eq!(c.as_bytes(), b"hello");
}

#[test]
fn to_cstring_lossy_interior_nul() {
    let c = to_cstring_lossy("ab\0cd");
    assert_eq!(c.as_bytes(), b"ab");
}

#[test]
fn to_cstring_lossy_empty_string() {
    let c = to_cstring_lossy("");
    assert_eq!(c.as_bytes(), b"");
}

#[test]
fn to_cstring_lossy_leading_nul() {
    let c = to_cstring_lossy("\0rest");
    assert_eq!(c.as_bytes(), b"");
}

#[test]
fn sanitize_is_idempotent() {
    let long = format!("failed at C:\\Users\\alice\\x {} /home/bob/y 'q'", "é".repeat(200));
    for msg in [
        "Failed to open C:\\Users\\alice\\secret.txt: access denied",
        "cannot read /home/bob/.ssh/id_rsa or /tmp/x",
        "plain message",
        long.as_str(),
    ] {
        let once = sanitize_error_message(msg);
        assert_eq!(sanitize_error_message(&once), once);
    }
}
