use spacebot_homelab_mcp::confirmation::{ConfirmError, ConfirmRule, ConfirmationManager};

fn token_of(response: &str) -> String {
    let parsed: serde_json::Value = serde_json::from_str(response).unwrap();
    parsed["token"].as_str().unwrap().to_string()
}

#[test]
fn test_always_rule_requires_confirmation() {
    let rules = vec![(
        "docker.container.delete".to_string(),
        ConfirmRule::Always("always".to_string()),
    )];
    let mut manager = ConfirmationManager::new(rules);
    let response = manager
        .check_and_maybe_require(
            "docker.container.delete",
            None,
            "About to delete container webapp-01",
            r#"{"container_id":"webapp-01"}"#,
            1_000,
        )
        .unwrap()
        .unwrap();
    let parsed: serde_json::Value = serde_json::from_str(&response).unwrap();
    assert_eq!(parsed["status"], "confirmation_required");
    assert!(parsed["token"].as_str().unwrap().len() > 10);
}

#[test]
fn test_when_pattern_matches() {
    let rules = vec![(
        "ssh.exec".to_string(),
        ConfirmRule::WhenPattern { when_pattern: vec!["rm -rf".to_string(), "dd if=".to_string()] },
    )];
    let mut manager = ConfirmationManager::new(rules);
    let destructive = manager
        .check_and_maybe_require(
            "ssh.exec",
            Some("sudo rm -rf /tmp/old"),
            "About to run sudo rm -rf /tmp/old",
            r#"{"host":"nas","command":"sudo rm -rf /tmp/old"}"#,
            1_000,
        )
        .unwrap();
    assert!(destructive.is_some());
    let safe = manager
        .check_and_maybe_require(
            "ssh.exec",
            Some("df -h"),
            "About to run df -h",
            r#"{"host":"nas","command":"df -h"}"#,
            1_000,
        )
        .unwrap();
    assert!(safe.is_none());
}

#[test]
fn test_token_single_use() {
    let rules = vec![("ssh.exec".to_string(), ConfirmRule::Always("always".to_string()))];
    let mut manager = ConfirmationManager::new(rules);
    let params = r#"{"host":"nas","command":"sudo rm -rf /tmp/old"}"#;
    let response = manager
        .check_and_maybe_require(
            "ssh.exec",
            Some("sudo rm -rf /tmp/old"),
            "About to run sudo rm -rf /tmp/old",
            params,
            1_000,
        )
        .unwrap()
        .unwrap();
    let token = token_of(&response);
    assert_eq!(manager.confirm(&token, "ssh.exec", 2_000).unwrap(), params);
    assert!(manager.confirm(&token, "ssh.exec", 2_000).is_err());
}

#[test]
fn test_wrong_tool_rejected() {
    let rules = vec![("ssh.exec".to_string(), ConfirmRule::Always("always".to_string()))];
    let mut manager = ConfirmationManager::new(rules);
    let response = manager
        .check_and_maybe_require(
            "ssh.exec",
            Some("sudo rm -rf /tmp/old"),
            "About to run sudo rm -rf /tmp/old",
            r#"{"host":"nas","command":"sudo rm -rf /tmp/old"}"#,
            1_000,
        )
        .unwrap()
        .unwrap();
    let token = token_of(&response);
    let err = manager.confirm(&token, "docker.container.delete", 1_500).unwrap_err();
    assert!(matches!(err, ConfirmError::WrongTool { .. }));
    assert_eq!(
        err.message(),
        "Token was issued for 'ssh.exec', not 'docker.container.delete'. Tokens are tool-specific."
    );
}

#[test]
fn test_validate_rejects_typo() {
    let rule = ConfirmRule::Always("aways".to_string());
    let result = rule.validate("ssh.exec");
    assert!(result.is_err());
    let msg = result.unwrap_err();
    assert!(msg.contains("ssh.exec"), "error should mention the rule name");
    assert!(msg.contains("aways"), "error should mention the bad value");
}

#[test]
fn test_validate_accepts_always() {
    let rule = ConfirmRule::Always("always".to_string());
    assert!(rule.validate("ssh.exec").is_ok());
}

#[test]
fn test_validate_accepts_when_pattern() {
    let rule = ConfirmRule::WhenPattern { when_pattern: vec!["rm -rf".to_string()] };
    assert!(rule.validate("ssh.exec").is_ok());
}

#[test]
fn test_token_expires_after_ttl() {
    let rules = vec![("ssh.exec".to_string(), ConfirmRule::Always("always".to_string()))];
    let mut manager = ConfirmationManager::new(rules).with_ttl(1);
    let response = manager
        .check_and_maybe_require(
            "ssh.exec",
            Some("rm -rf /tmp/old"),
            "About to run rm -rf /tmp/old",
            r#"{"host":"nas","command":"rm -rf /tmp/old"}"#,
            1_000,
        )
        .unwrap()
        .unwrap();
    let token = token_of(&response);
    let result = manager.confirm(&token, "ssh.exec", 1_050);
    assert!(result.is_err(), "token should have expired");
    let msg = result.unwrap_err().message();
    assert!(msg.contains("expired") || msg.contains("Invalid"), "error should mention expiration, got: {}", msg);
}

#[test]
fn token_within_five_minutes_is_accepted() {
    let rules = vec![("ssh.exec".to_string(), ConfirmRule::Always("always".to_string()))];
    let mut manager = ConfirmationManager::new(rules);
    let response = manager.check_and_maybe_require("ssh.exec", None, "d", "{}", 0).unwrap().unwrap();
    let token = token_of(&response);
    assert!(manager.confirm(&token, "ssh.exec", 299_999).is_ok());
    let response = manager.check_and_maybe_require("ssh.exec", None, "d", "{}", 0).unwrap().unwrap();
    let token = token_of(&response);
    assert!(matches!(manager.confirm(&token, "ssh.exec", 300_000), Err(ConfirmError::Expired)));
    assert!(matches!(manager.confirm("nope", "ssh.exec", 0), Err(ConfirmError::NotFound)));
}

#[test]
fn reply_text_is_exact() {
    let rules = vec![("t".to_string(), ConfirmRule::Always("always".to_string()))];
    let mut manager = ConfirmationManager::new(rules);
    let reply = manager.require_with_token("t", None, "Do it", "{}", 5, "tok-1".to_string()).unwrap();
    assert_eq!(
        reply,
        "{\"message\":\"Do it. Call confirm_operation with this token and tool name 't' to proceed.\",\"status\":\"confirmation_required\",\"token\":\"tok-1\"}"
    );
    assert!(manager.require_with_token("other", None, "x", "{}", 5, "tok-2".to_string()).is_none());
}
