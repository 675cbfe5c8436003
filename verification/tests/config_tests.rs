use spacebot_homelab_mcp::config::{
    check_config_permissions, default_max_channels, default_max_idle, default_max_lifetime,
    default_max_sessions, default_metrics_listen, ensure_exists, env_var_reference, expand_home,
    resolve_env_var, CommandAllowlist, SshPoolConfig, ToolsConfig,
};

#[test]
fn test_tools_config_none_enables_all() {
    let config = ToolsConfig { enabled: None };
    assert!(config.is_enabled("anything"));
    assert!(config.is_enabled("ssh.exec"));
    assert!(config.is_enabled("docker.container.list"));
}

#[test]
fn test_tools_config_empty_disables_all() {
    let config = ToolsConfig { enabled: Some(vec![]) };
    assert!(!config.is_enabled("anything"));
    assert!(!config.is_enabled("ssh.exec"));
}

#[test]
fn test_tools_config_specific_list() {
    let config = ToolsConfig { enabled: Some(vec!["ssh.exec".into()]) };
    assert!(config.is_enabled("ssh.exec"));
    assert!(!config.is_enabled("docker.container.list"));
}

#[test]
fn test_resolve_env_var_dollar_syntax() {
    assert_eq!(env_var_reference("$TEST_PASSPHRASE_DOLLAR").as_deref(), Some("TEST_PASSPHRASE_DOLLAR"));
    let result = resolve_env_var("$TEST_PASSPHRASE_DOLLAR", Some("secret123"));
    assert_eq!(result, "secret123");
}

#[test]
fn test_resolve_env_var_braces_syntax() {
    assert_eq!(env_var_reference("${TEST_PASSPHRASE_BRACES}").as_deref(), Some("TEST_PASSPHRASE_BRACES"));
    let result = resolve_env_var("${TEST_PASSPHRASE_BRACES}", Some("secret123"));
    assert_eq!(result, "secret123");
}

#[test]
fn test_resolve_env_var_literal_passthrough() {
    assert_eq!(env_var_reference("literal_value"), None);
    let result = resolve_env_var("literal_value", None);
    assert_eq!(result, "literal_value");
}

#[test]
fn resolve_env_var_unset_variable_keeps_reference() {
    assert_eq!(resolve_env_var("$UNSET_VAR", None), "$UNSET_VAR");
    assert_eq!(resolve_env_var("  ${X}  ", Some("v")), "v");
    assert_eq!(env_var_reference("$bad-name"), None);
    assert_eq!(env_var_reference("$"), None);
    assert_eq!(env_var_reference("  $A_1  ").as_deref(), Some("A_1"));
}

#[test]
fn test_check_config_permissions_rejects_world_readable() {
    let result = check_config_permissions("/tmp/config.toml", 0o100644);
    assert!(result.is_err());
    let msg = result.unwrap_err();
    assert!(msg.contains("world-accessible"), "error should mention world-accessible, got: {}", msg);
    assert_eq!(
        msg,
        "Configuration file \"/tmp/config.toml\" has mode 0644 — world-accessible. Config may contain sensitive paths and credentials. Fix with: chmod 600 \"/tmp/config.toml\""
    );
}

#[test]
fn test_check_config_permissions_accepts_0600() {
    let result = check_config_permissions("/tmp/config.toml", 0o100600);
    assert!(result.is_ok(), "0600 should be accepted, got: {:?}", result);
    assert!(check_config_permissions("/tmp/config.toml", 0o640).is_ok());
}

#[test]
fn config_permissions_reject_group_write() {
    let msg = check_config_permissions("/etc/x", 0o660).unwrap_err();
    assert_eq!(
        msg,
        "Configuration file \"/etc/x\" has mode 0660 — group write/execute is allowed. Fix with: chmod 640 \"/etc/x\""
    );
}

#[test]
fn ensure_exists_reports_missing_file() {
    assert!(ensure_exists("/a/b", "Docker certificate", true).is_ok());
    assert_eq!(
        ensure_exists("/a/b", "Docker certificate", false).unwrap_err(),
        "Docker certificate not found at \"/a/b\""
    );
}

#[test]
fn expand_home_cases() {
    assert_eq!(expand_home("~", Some("/home/u")), "/home/u");
    assert_eq!(expand_home("~", None), "~");
    assert_eq!(expand_home("~/.ssh/key", Some("/home/u")), "/home/u/.ssh/key");
    assert_eq!(expand_home("~/.ssh/key", Some("/home/u/")), "/home/u/.ssh/key");
    assert_eq!(expand_home("~/.ssh/key", None), "~/.ssh/key");
    assert_eq!(expand_home("/etc/key", Some("/home/u")), "/etc/key");
    assert_eq!(expand_home("~user/x", Some("/home/u")), "~user/x");
}

#[test]
fn defaults_match_documentation() {
    let pool = SshPoolConfig::default();
    assert_eq!(pool.max_sessions_per_host, 3);
    assert_eq!(pool.max_lifetime_secs, 1800);
    assert_eq!(pool.max_idle_time_secs, 300);
    assert_eq!(pool.connect_timeout_secs, 10);
    assert_eq!(pool.checkout_timeout_secs, 5);
    assert_eq!(pool.keepalive_interval_secs, 60);
    assert_eq!(pool.max_channels_per_session, 10);
    assert_eq!(default_max_sessions(), 3);
    assert_eq!(default_max_lifetime(), 1800);
    assert_eq!(default_max_idle(), 300);
    assert_eq!(default_max_channels(), 10);
    assert_eq!(default_metrics_listen(), "127.0.0.1:9090");
    let allow = CommandAllowlist::default();
    assert_eq!(allow.allowed_prefixes.len(), 14);
    assert_eq!(allow.allowed_prefixes[0], "docker");
    assert_eq!(allow.blocked_patterns.len(), 12);
    assert_eq!(allow.blocked_patterns[11], "`");
}
