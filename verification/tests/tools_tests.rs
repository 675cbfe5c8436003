use spacebot_homelab_mcp::tools::{envelope, truncate_output, wrap_output_envelope};

#[test]
fn test_wrap_output_envelope_json_format() {
    let result = wrap_output_envelope("ssh.exec", "hello world");
    let parsed: serde_json::Value = serde_json::from_str(&result).unwrap();
    assert_eq!(parsed["type"], "tool_result");
    assert_eq!(parsed["source"], "ssh.exec");
    assert_eq!(parsed["data_classification"], "untrusted_external");
    assert_eq!(parsed["content"], "hello world");

    let nonce = parsed["server_nonce"].as_str().unwrap();
    assert_eq!(nonce.len(), 16, "nonce should be 16 hex chars");
    assert!(nonce.chars().all(|c| c.is_ascii_hexdigit()), "nonce should be hex");

    let executed_at = parsed["executed_at"].as_str().unwrap();
    assert!(executed_at.contains('T'), "executed_at should be ISO-8601");

    let version = parsed["server_version"].as_str().unwrap();
    assert!(!version.is_empty(), "server_version should be non-empty");
}

#[test]
fn test_wrap_output_envelope_unique_nonces() {
    let r1 = wrap_output_envelope("test", "a");
    let r2 = wrap_output_envelope("test", "b");
    let p1: serde_json::Value = serde_json::from_str(&r1).unwrap();
    let p2: serde_json::Value = serde_json::from_str(&r2).unwrap();
    assert_ne!(p1["server_nonce"], p2["server_nonce"], "each envelope should have a unique nonce");
}

#[test]
fn envelope_matches_serde_json_output() {
    let text = envelope("t", "line\n\"q\"", "00000000000000ff", "2025-01-01T00:00:00+00:00");
    let parsed: serde_json::Value = serde_json::from_str(&text).unwrap();
    assert_eq!(serde_json::to_string(&parsed).unwrap(), text);
    assert_eq!(parsed["server_version"], "0.2.2");
}

#[test]
fn test_truncate_output_short() {
    let short = "hello";
    let result = truncate_output(short, 100);
    assert_eq!(result, "hello");
}

#[test]
fn test_truncate_output_long() {
    let long = "a".repeat(200);
    let result = truncate_output(&long, 50);
    assert!(result.contains("[Output truncated. Showing 50 chars of 200 total chars.]"));
    assert!(result.ends_with(&"a".repeat(50)));
}

#[test]
fn truncate_output_counts_characters() {
    assert_eq!(truncate_output("héé", 3), "héé");
    assert_eq!(truncate_output("héé", 2), "[Output truncated. Showing 2 chars of 3 total chars.]\nhé");
}
