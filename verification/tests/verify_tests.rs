use spacebot_homelab_mcp::tools::verify::{
    audit_line_matches, container_state_matches, container_state_report, container_state_verdict,
    container_state_verdict_on_error, recent_audit_lines, select_audit_matches,
    verify_operation, InspectOutcome,
};
use bollard::errors::Error as BollardError;

#[test]
fn test_container_state_matches_uses_exact_states_with_stopped_alias() {
    assert!(container_state_matches("running", "running"));
    assert!(container_state_matches("stopped", "exited"));
    assert!(container_state_matches("exited", "stopped"));
    assert!(!container_state_matches("run", "running"));
    assert!(container_state_matches(" Running ", "RUNNING"));
}

fn classify_absent_error(err: &bollard::errors::Error) -> (bool, String) {
    let (verified, state, _) = container_state_verdict_on_error("local", "test-nginx", "absent", err);
    (verified, state)
}

#[test]
fn test_absent_check_only_confirms_on_404_not_other_errors() {
    let err_404 = BollardError::DockerResponseServerError {
        status_code: 404,
        message: "No such container: test-nginx".to_string(),
    };
    let (verified, state) = classify_absent_error(&err_404);
    assert!(verified, "Docker 404 should confirm container is absent");
    assert_eq!(state, "absent");

    let err_500 = BollardError::DockerResponseServerError {
        status_code: 500,
        message: "Internal Server Error".to_string(),
    };
    let (verified, state) = classify_absent_error(&err_500);
    assert!(!verified, "Docker 500 must NOT confirm container is absent");
    assert_eq!(state, "error");

    let err_403 = BollardError::DockerResponseServerError { status_code: 403, message: "Forbidden".to_string() };
    let (verified, state) = classify_absent_error(&err_403);
    assert!(!verified, "Docker 403 must NOT confirm container is absent");
    assert_eq!(state, "error");

    let err_io = BollardError::IOError {
        err: std::io::Error::new(std::io::ErrorKind::ConnectionRefused, "connection refused"),
    };
    let (verified, state) = classify_absent_error(&err_io);
    assert!(!verified, "IO error must NOT confirm container is absent");
    assert_eq!(state, "error");
}

#[test]
fn state_verdict_texts() {
    let (ok, state, detail) =
        container_state_verdict("h", "c", "running", InspectOutcome::Found(Some("RUNNING".to_string())));
    assert!(ok);
    assert_eq!(state, "running");
    assert_eq!(detail, "Container 'c' on host 'h' is in state 'running' (matches expected 'running').");
    let (ok, state, _) = container_state_verdict("h", "c", "deleted", InspectOutcome::Found(Some("RUNNING".to_string())));
    assert!(!ok);
    assert_eq!(state, "RUNNING");
    let report = container_state_report(true, "c", "h", "absent", "absent", "d");
    assert_eq!(
        report,
        "{\"actual_state\":\"absent\",\"container\":\"c\",\"detail\":\"d\",\"expected_state\":\"absent\",\"host\":\"h\",\"verified\":true}"
    );
}

fn now_line(offset_secs: i64, rest: &str) -> String {
    let t = chrono::Utc::now() + chrono::Duration::seconds(offset_secs);
    format!("{} {}", t.format("%Y-%m-%dT%H:%M:%SZ"), rest)
}

fn cutoff(minutes: i64) -> (i64, u32) {
    let c = chrono::Utc::now() - chrono::Duration::minutes(minutes);
    (c.timestamp(), c.timestamp_subsec_nanos())
}

fn content_of(envelope: &str) -> serde_json::Value {
    let parsed: serde_json::Value = serde_json::from_str(envelope).unwrap();
    serde_json::from_str(parsed["content"].as_str().unwrap()).unwrap()
}

#[test]
fn test_verify_operation_no_audit_file_configured() {
    let (s, n) = cutoff(10);
    let result = verify_operation(None, false, &vec![], "docker.container.delete", None, 10, s, n);
    assert!(result.is_err());
    assert!(result.unwrap_err().contains("not configured"));
}

#[test]
fn test_verify_operation_missing_audit_file() {
    let (s, n) = cutoff(10);
    let result = verify_operation(
        Some("/tmp/nonexistent-audit-test-12345.log"),
        false,
        &vec![],
        "docker.container.delete",
        None,
        10,
        s,
        n,
    )
    .unwrap();
    let content = content_of(&result);
    assert_eq!(content["verified"], false);
    assert_eq!(content["scanned_lines"], 0);
}

#[test]
fn test_verify_operation_finds_match() {
    let lines = vec![
        now_line(0, "tool=docker.container.delete host=local result=success details=test-nginx"),
        now_line(0, "tool=docker.container.list host=local result=success"),
    ];
    let (s, n) = cutoff(10);
    let result =
        verify_operation(Some("/tmp/a.log"), true, &lines, "docker.container.delete", Some("test-nginx"), 10, s, n).unwrap();
    let content = content_of(&result);
    assert_eq!(content["verified"], true);
    assert_eq!(content["matches"].as_array().unwrap().len(), 1);
    assert_eq!(content["scanned_lines"], 2);
}

#[test]
fn test_verify_operation_no_match() {
    let lines = vec![now_line(0, "tool=docker.container.list host=local result=success")];
    let (s, n) = cutoff(10);
    let result =
        verify_operation(Some("/tmp/a.log"), true, &lines, "docker.container.delete", Some("test-nginx"), 10, s, n).unwrap();
    let content = content_of(&result);
    assert_eq!(content["verified"], false);
    assert!(content["matches"].as_array().unwrap().is_empty());
}

#[test]
fn test_verify_operation_keeps_scanning_past_old_out_of_order_lines() {
    let lines = vec![
        now_line(0, "tool=docker.container.delete host=local result=success details=test-nginx"),
        now_line(-30 * 60, "tool=docker.container.delete host=local result=success details=test-nginx"),
    ];
    let (s, n) = cutoff(10);
    let result =
        verify_operation(Some("/tmp/a.log"), true, &lines, "docker.container.delete", Some("test-nginx"), 10, s, n).unwrap();
    let content = content_of(&result);
    assert_eq!(content["verified"], true);
    assert_eq!(content["matches"].as_array().unwrap().len(), 1);
}

#[test]
fn test_verify_operation_skips_malformed_lines() {
    let lines = vec![
        "garbage line".to_string(),
        "".to_string(),
        "not-a-timestamp tool=docker.container.delete host=local result=success".to_string(),
        now_line(0, "tool=docker.container.delete host=local result=success details=real"),
    ];
    let (s, n) = cutoff(10);
    let result = verify_operation(Some("/tmp/a.log"), true, &lines, "docker.container.delete", None, 10, s, n).unwrap();
    let content = content_of(&result);
    assert_eq!(content["verified"], true);
    let first_match = content["matches"][0].as_str().unwrap();
    assert!(first_match.contains("details=real"));
    assert_eq!(content["matches"].as_array().unwrap().len(), 1);
}

#[test]
fn test_verify_operation_exact_tool_token_match() {
    let lines = vec![
        now_line(0, "tool=docker.container.delete.extra host=local result=success details=prefix"),
        now_line(0, "tool=docker.container.delete host=local result=success details=full-name"),
    ];
    let (s, n) = cutoff(10);
    let result = verify_operation(Some("/tmp/a.log"), true, &lines, "docker.container.delete", None, 10, s, n).unwrap();
    let content = content_of(&result);
    assert_eq!(content["verified"], true);
    let arr = content["matches"].as_array().unwrap();
    assert_eq!(arr.len(), 1);
    assert!(arr[0].as_str().unwrap().contains("details=full-name"));
}

#[test]
fn scanning_helpers() {
    assert!(!audit_line_matches("2025-01-15 tool=x", "x", None, 0, 0));
    let line = "2025-01-15T10:30:00Z tool=x host=h result=ok";
    assert!(audit_line_matches(line, "x", None, 1_736_937_000, 0));
    assert!(!audit_line_matches(line, "x", None, 1_736_937_000, 1));
    assert!(!audit_line_matches(line, "x", Some("nope"), 0, 0));
    let lines: Vec<String> = (0..600).map(|i| format!("l{}", i)).collect();
    let recent = recent_audit_lines(&lines);
    assert_eq!(recent.len(), 500);
    assert_eq!(recent[0], "l599");
    assert_eq!(recent[499], "l100");
    let many: Vec<String> = (0..20).map(|_| line.to_string()).collect();
    assert_eq!(select_audit_matches(&many, "x", None, 0, 0).len(), 10);
}
