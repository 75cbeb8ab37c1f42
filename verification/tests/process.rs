use ollama_manager::process::{CapturedOutput, CapturedText, Outcome};

fn text(stdout: &str, stderr: &str, exit_code: Option<i32>, spawn_error: Option<&str>) -> CapturedText {
    CapturedText {
        stdout: stdout.to_string(),
        stderr: stderr.to_string(),
        exit_code,
        spawn_error: spawn_error.map(|e| e.to_string()),
    }
}

#[test]
fn outcome_of_exit_code_zero_is_success() {
    assert_eq!(text("out", "", Some(0), None).outcome(), Outcome::Succeeded);
    assert_eq!(text("", "warning", Some(0), None).outcome(), Outcome::Succeeded);
}

#[test]
fn outcome_of_other_exit_codes_is_failure() {
    assert_eq!(text("", "", Some(1), None).outcome(), Outcome::FailedNonZeroExit);
    assert_eq!(text("", "", Some(-1), None).outcome(), Outcome::FailedNonZeroExit);
    assert_eq!(text("", "", Some(255), None).outcome(), Outcome::FailedNonZeroExit);
}

#[test]
fn outcome_without_exit_code_is_failure() {
    assert_eq!(text("partial", "", None, None).outcome(), Outcome::FailedNonZeroExit);
}

#[test]
fn outcome_with_spawn_error_is_failed_to_spawn() {
    assert_eq!(text("", "", None, Some("not found")).outcome(), Outcome::FailedToSpawn);
    assert_eq!(text("x", "y", Some(0), Some("not found")).outcome(), Outcome::FailedToSpawn);
}

#[test]
fn exited_keeps_what_it_is_given() {
    let out = CapturedOutput::exited(vec![1, 2], vec![3], Some(4));
    assert_eq!(out.stdout, vec![1, 2]);
    assert_eq!(out.stderr, vec![3]);
    assert_eq!(out.exit_code, Some(4));
    assert_eq!(out.spawn_error, None);
}

#[test]
fn spawn_failed_carries_only_the_reason() {
    let out = CapturedOutput::spawn_failed("No such file or directory (os error 2)".to_string());
    assert!(out.stdout.is_empty());
    assert!(out.stderr.is_empty());
    assert_eq!(out.exit_code, None);
    assert_eq!(out.spawn_error.as_deref(), Some("No such file or directory (os error 2)"));
}

#[test]
fn decode_reads_utf8() {
    let out = CapturedOutput::exited("héllo\n".as_bytes().to_vec(), b"warn".to_vec(), Some(3));
    assert_eq!(out.decode(), text("héllo\n", "warn", Some(3), None));
}

#[test]
fn decode_replaces_what_is_not_utf8() {
    let out = CapturedOutput::exited(vec![b'h', b'i', 0xFF], vec![0xC3], Some(0));
    let decoded = out.decode();
    assert_eq!(decoded.stdout, "hi\u{FFFD}");
    assert_eq!(decoded.stderr, "\u{FFFD}");
    assert_eq!(decoded.exit_code, Some(0));
    assert_eq!(decoded.spawn_error, None);
}

#[test]
fn decode_keeps_the_spawn_error() {
    let out = CapturedOutput::spawn_failed("permission denied".to_string());
    assert_eq!(out.decode(), text("", "", None, Some("permission denied")));
    assert_eq!(out.decode().outcome(), Outcome::FailedToSpawn);
}
