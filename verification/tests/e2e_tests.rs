use base64::Engine;
use wxc_common::config_parser::{BuildTarget, TargetOs};
use wxc_common::e2e::{
    assert_exit, assert_success, config_run_args, driver_run_args, is_base64_byte, is_release_mode,
    looks_like_base64_text, state_aware_run_args, CommandResult,
};

fn result(code: Option<i32>, stdout: &str, stderr: &str) -> CommandResult {
    CommandResult {
        label: "run".to_string(),
        code,
        stdout: stdout.to_string(),
        stderr: stderr.to_string(),
        wall_time_ms: 5,
    }
}

#[test]
fn combined_output_joins_streams() {
    assert_eq!(result(Some(0), "out", "err").combined_output(), "out\nerr");
    assert_eq!(result(Some(0), "", "").combined_output(), "\n");
}

#[test]
fn base64_line_detection() {
    assert!(is_base64_byte(b'A') && is_base64_byte(b'z') && is_base64_byte(b'7'));
    assert!(is_base64_byte(b'+') && is_base64_byte(b'/') && is_base64_byte(b'='));
    assert!(!is_base64_byte(b'-') && !is_base64_byte(b' '));
    assert!(looks_like_base64_text("aGVsbG8gd29ybGQh"));
    assert!(!looks_like_base64_text("aGVsbG8gd29ybG"));
    assert!(!looks_like_base64_text("aGVsbG8gd29ybGQhIQ"));
    assert!(!looks_like_base64_text("aGVsbG8gd29y bGQh"));
}

#[test]
fn decoded_base64_lines_are_appended() {
    let encoded = base64::engine::general_purpose::STANDARD.encode("secret output!!");
    let r = result(Some(0), &format!("plain\n  {encoded}  \r\nmore"), "no base64 here");
    assert_eq!(
        r.combined_output_with_decoded_base64(),
        format!("plain\n  {encoded}  \r\nmore\nno base64 here\nsecret output!!")
    );
    let plain = result(Some(0), "just text", "");
    assert_eq!(plain.combined_output_with_decoded_base64(), "just text\n");
    let not_utf8 = base64::engine::general_purpose::STANDARD.encode([0xffu8; 12]);
    let r = result(Some(0), &not_utf8, "");
    assert_eq!(r.combined_output_with_decoded_base64(), format!("{not_utf8}\n"));
}

#[test]
fn missing_prerequisite_detection() {
    assert!(result(Some(1), "", "CreateProcessW failed: The system cannot find the file specified. (0x2)").is_missing_process_prerequisite());
    assert!(result(Some(1), "Unsupported Windows branch or build version", "").is_missing_process_prerequisite());
    assert!(!result(Some(1), "other failure", "").is_missing_process_prerequisite());
}

#[test]
fn exit_verdicts() {
    assert!(assert_success(&result(Some(0), "", "")).is_ok());
    assert_eq!(
        assert_success(&result(Some(-3), "o", "e")).err().unwrap(),
        "run failed: expected exit 0, got Some(-3)\n--- stdout ---\no\n--- stderr ---\ne"
    );
    assert_eq!(
        assert_exit(&result(None, "", ""), 2, None).err().unwrap(),
        "run failed: expected exit 2, got None\n--- stdout ---\n\n--- stderr ---\n"
    );
    assert!(assert_exit(&result(Some(2), "hello world", ""), 2, Some("lo wo")).is_ok());
    assert_eq!(
        assert_exit(&result(Some(2), "hello", ""), 2, Some("bye")).err().unwrap(),
        "run failed: output missing 'bye'\n--- combined output ---\nhello\n"
    );
    let encoded = base64::engine::general_purpose::STANDARD.encode("decoded marker");
    assert!(assert_exit(&result(Some(0), &encoded, ""), 0, Some("decoded marker")).is_ok());
}

#[test]
fn run_arguments() {
    let extra = vec!["--debug".to_string(), "--dry-run".to_string()];
    assert_eq!(config_run_args(&extra, "cfg.json"), vec!["--debug", "--dry-run", "cfg.json"]);
    assert_eq!(driver_run_args("dir", &extra), vec!["dir", "--debug", "--dry-run"]);
    assert!(is_release_mode(BuildTarget { os: TargetOs::Linux, release: true }));
    assert!(!is_release_mode(BuildTarget { os: TargetOs::Linux, release: false }));
}

#[test]
fn state_aware_run_args_encode_the_request() {
    let extra = vec!["--dry-run".to_string()];
    let json = r#"{"phase":"provision","containment":"isolation_session"}"#;
    let args = state_aware_run_args(&extra, json);
    assert_eq!(args.len(), 3);
    assert_eq!(args[0], "--dry-run");
    assert_eq!(args[1], "--config-base64");
    assert_eq!(args[2], base64::engine::general_purpose::STANDARD.encode(json.as_bytes()));
    let decoded = base64::engine::general_purpose::STANDARD.decode(&args[2]).unwrap();
    assert_eq!(String::from_utf8(decoded).unwrap(), json);
}
