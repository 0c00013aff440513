use rrrestic::outcome::InvocationResult;
use rrrestic::outcome::Outcome;
use rrrestic::outcome::classify;
use rrrestic::outcome::dry_run_or_false;
use rrrestic::outcome::outcome_success_shaped;
use rrrestic::outcome::parse_error_line;
use rrrestic::outcome::parse_summary_line;
use rrrestic::outcome::sentinel_summary;
use rrrestic::outcome::text_or_na;

const SUMMARY_LINE: &str = r#"{"message_type":"summary","files_new":3,"files_changed":1,"files_unmodified":2,"dirs_new":4,"dirs_changed":5,"dirs_unmodified":6,"data_blobs":7,"tree_blobs":-1,"data_added":1024,"data_added_packed":512,"total_files_processed":6,"total_bytes_processed":2048,"backup_start":"2024-01-01T00:00:00Z","backup_end":"2024-01-01T00:10:00Z","total_duration":600.5,"snapshot_id":"abc123"}"#;

fn exited(exit_zero: bool, stdout: &[u8], stderr: &[u8]) -> InvocationResult {
    InvocationResult::Exited {
        exit_zero,
        status: if exit_zero { "exit status: 0".to_string() } else { "exit status: 1".to_string() },
        stdout: stdout.to_vec(),
        stderr: stderr.to_vec(),
    }
}

#[test]
fn summary_record_is_decoded_exactly() {
    let s = parse_summary_line(SUMMARY_LINE.as_bytes()).expect("should decode");
    assert_eq!(s.message_type, "summary");
    assert_eq!(s.dry_run, None);
    assert_eq!(s.files_new, 3);
    assert_eq!(s.files_changed, 1);
    assert_eq!(s.files_unmodified, 2);
    assert_eq!(s.dirs_new, 4);
    assert_eq!(s.dirs_changed, 5);
    assert_eq!(s.dirs_unmodified, 6);
    assert_eq!(s.data_blobs, 7);
    assert_eq!(s.tree_blobs, -1);
    assert_eq!(s.data_added, 1024);
    assert_eq!(s.data_added_packed, 512);
    assert_eq!(s.total_files_processed, 6);
    assert_eq!(s.total_bytes_processed, 2048);
    assert_eq!(s.backup_start, "2024-01-01T00:00:00+00:00");
    assert_eq!(s.backup_end, "2024-01-01T00:10:00+00:00");
    assert_eq!(s.total_duration, "600.5");
    assert_eq!(s.snapshot_id.as_deref(), Some("abc123"));
    assert_eq!(dry_run_or_false(&s.dry_run), false);
}

#[test]
fn clean_exit_with_summary_is_success() {
    let stdout = format!("{{\"message_type\":\"status\"}}\n{}\n", SUMMARY_LINE);
    let outcome = classify(exited(true, stdout.as_bytes(), b""));
    match &outcome {
        Outcome::Success { summary } => {
            assert_eq!(summary.files_new, 3);
            assert_eq!(summary.data_added, 1024);
            assert_eq!(summary.snapshot_id.as_deref(), Some("abc123"));
        },
        other => panic!("expected success, got {}", outcome_name(other)),
    }
    assert!(outcome_success_shaped(&outcome));
}

#[test]
fn unexpected_message_type_keeps_the_line() {
    let line = SUMMARY_LINE.replace("\"summary\"", "\"status\"");
    let outcome = classify(exited(true, line.as_bytes(), b""));
    match &outcome {
        Outcome::UnexpectedOutput { line: kept } => {
            assert_eq!(kept, &line.as_bytes().to_vec());
        },
        other => panic!("expected unexpected-output, got {}", outcome_name(other)),
    }
    assert!(outcome_success_shaped(&outcome));
}

#[test]
fn empty_output_on_clean_exit_yields_the_sentinel() {
    let outcome = classify(exited(true, b"", b""));
    match &outcome {
        Outcome::Unparsable { summary, .. } => {
            assert_eq!(summary.message_type, "invalid");
            assert_eq!(summary.files_new, 0);
            assert_eq!(summary.files_changed, 0);
            assert_eq!(summary.files_unmodified, 0);
            assert_eq!(summary.dirs_new, 0);
            assert_eq!(summary.dirs_changed, 0);
            assert_eq!(summary.dirs_unmodified, 0);
            assert_eq!(summary.data_blobs, 0);
            assert_eq!(summary.tree_blobs, 0);
            assert_eq!(summary.data_added, 0);
            assert_eq!(summary.data_added_packed, 0);
            assert_eq!(summary.total_files_processed, 0);
            assert_eq!(summary.total_bytes_processed, 0);
            assert_eq!(summary.backup_start, "");
            assert_eq!(summary.backup_end, "");
            assert_eq!(summary.total_duration, "0");
            assert_eq!(summary.snapshot_id, None);
        },
        other => panic!("expected unparsable, got {}", outcome_name(other)),
    }
    assert!(outcome_success_shaped(&outcome));
}

#[test]
fn non_json_last_line_on_clean_exit_yields_the_sentinel() {
    let outcome = classify(exited(true, b"progress\nnot json at all", b""));
    match &outcome {
        Outcome::Unparsable { summary, line, .. } => {
            assert_eq!(summary.message_type, "invalid");
            assert_eq!(summary.data_added, 0);
            assert_eq!(line, &b"not json at all".to_vec());
        },
        other => panic!("expected unparsable, got {}", outcome_name(other)),
    }
}

#[test]
fn missing_required_field_yields_the_sentinel() {
    let line = SUMMARY_LINE.replace("\"files_new\":3,", "");
    let outcome = classify(exited(true, line.as_bytes(), b""));
    match &outcome {
        Outcome::Unparsable { summary, line: kept, .. } => {
            assert_eq!(summary.message_type, "invalid");
            assert_eq!(kept, &line.as_bytes().to_vec());
        },
        other => panic!("expected unparsable, got {}", outcome_name(other)),
    }
}

#[test]
fn invalid_timestamp_yields_the_sentinel() {
    let line = SUMMARY_LINE.replace("2024-01-01T00:00:00Z", "not a timestamp");
    let outcome = classify(exited(true, line.as_bytes(), b""));
    assert!(matches!(outcome, Outcome::Unparsable { .. }));
}

#[test]
fn ill_typed_optional_field_yields_the_sentinel() {
    let line = SUMMARY_LINE.replace("\"abc123\"", "5");
    assert!(parse_summary_line(line.as_bytes()).is_err());
}

#[test]
fn absent_snapshot_id_reads_as_not_available() {
    let line = SUMMARY_LINE.replace(",\"snapshot_id\":\"abc123\"", "");
    let s = parse_summary_line(line.as_bytes()).expect("should decode");
    assert_eq!(s.snapshot_id, None);
    assert_eq!(text_or_na(&s.snapshot_id), "N/A");
}

#[test]
fn dry_run_flag_is_read_and_defaults_to_false() {
    let line = SUMMARY_LINE.replace("\"files_new\"", "\"dry_run\":true,\"files_new\"");
    let s = parse_summary_line(line.as_bytes()).expect("should decode");
    assert_eq!(s.dry_run, Some(true));
    assert_eq!(dry_run_or_false(&s.dry_run), true);
}

#[test]
fn tool_error_record_is_decoded_exactly() {
    let line = br#"{"message_type":"error","error":{"message":"repo locked"},"during":"backup","item":null}"#;
    let outcome = classify(exited(false, b"", line));
    match &outcome {
        Outcome::ToolFailure { status, error } => {
            assert_eq!(status, "exit status: 1");
            assert_eq!(error.message_type, "error");
            assert_eq!(error.error.message.as_deref(), Some("repo locked"));
            assert_eq!(error.during.as_deref(), Some("backup"));
            assert_eq!(error.item, None);
            assert_eq!(text_or_na(&error.error.message), "repo locked");
            assert_eq!(text_or_na(&error.during), "backup");
            assert_eq!(text_or_na(&error.item), "N/A");
        },
        other => panic!("expected tool failure, got {}", outcome_name(other)),
    }
    assert!(!outcome_success_shaped(&outcome));
}

#[test]
fn empty_error_message_object_reads_as_not_available() {
    let line = br#"{"message_type":"error","error":{}}"#;
    let e = parse_error_line(line).expect("should decode");
    assert_eq!(e.error.message, None);
    assert_eq!(text_or_na(&e.error.message), "N/A");
    assert_eq!(e.during, None);
    assert_eq!(e.item, None);
}

#[test]
fn missing_error_object_is_unparsable() {
    let line = br#"{"message_type":"error"}"#;
    assert!(parse_error_line(line).is_err());
    let outcome = classify(exited(false, b"", line));
    assert!(matches!(outcome, Outcome::ToolFailureUnparsable { .. }));
    assert!(!outcome_success_shaped(&outcome));
}

#[test]
fn non_json_stderr_keeps_the_raw_line() {
    let outcome = classify(exited(false, b"", b"something went wrong"));
    match &outcome {
        Outcome::ToolFailureUnparsable { line, .. } => {
            assert_eq!(line, &b"something went wrong".to_vec());
        },
        other => panic!("expected unparsable failure, got {}", outcome_name(other)),
    }
}

#[test]
fn launch_failure_keeps_the_spawn_error() {
    let outcome = classify(InvocationResult::LaunchFailed {
        message: "No such file or directory".to_string(),
    });
    match &outcome {
        Outcome::LaunchFailure { message } => {
            assert_eq!(message, "No such file or directory");
        },
        other => panic!("expected launch failure, got {}", outcome_name(other)),
    }
    assert!(!outcome_success_shaped(&outcome));
}

#[test]
fn sentinel_summary_is_all_zero() {
    let s = sentinel_summary();
    assert_eq!(s.message_type, "invalid");
    assert_eq!(s.files_new, 0);
    assert_eq!(s.total_bytes_processed, 0);
    assert_eq!(s.total_duration, "0");
    assert_eq!(s.backup_start, "");
    assert_eq!(s.snapshot_id, None);
    assert_eq!(s.dry_run, None);
}

fn outcome_name(o: &Outcome) -> &'static str {
    match o {
        Outcome::Success { .. } => "success",
        Outcome::UnexpectedOutput { .. } => "unexpected-output",
        Outcome::Unparsable { .. } => "unparsable",
        Outcome::ToolFailure { .. } => "tool-failure",
        Outcome::ToolFailureUnparsable { .. } => "tool-failure-unparsable",
        Outcome::LaunchFailure { .. } => "launch-failure",
    }
}
