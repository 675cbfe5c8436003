use spacebot_homelab_mcp::config::{
    AuditConfig, CommandAllowlist, Config, DockerConfig, MetricsConfig, ProxmoxConfig, RateLimit, RateLimitConfig,
    RateLimitMode, SshConfig, SshPoolConfig, ToolsConfig,
};
use spacebot_homelab_mcp::confirmation::ConfirmRule;
use spacebot_homelab_mcp::mcp::{ConfirmTarget, HomelabMcpServer};
use spacebot_homelab_mcp::tools::ssh::{exec_description, exec_params_json};

fn config(confirm: Option<Vec<(String, ConfirmRule)>>, limits: Vec<(String, RateLimit)>) -> Config {
    Config {
        docker: DockerConfig { hosts: vec![] },
        ssh: SshConfig {
            hosts: vec![],
            pool: SshPoolConfig::default(),
            command_allowlist: CommandAllowlist::default(),
        },
        proxmox: ProxmoxConfig { hosts: vec![] },
        audit: AuditConfig { file: None, syslog: None },
        rate_limits: RateLimitConfig { mode: RateLimitMode::Global, limits },
        tools: ToolsConfig { enabled: None },
        confirm,
        metrics: MetricsConfig { enabled: false, listen: "127.0.0.1:9090".to_string() },
    }
}

#[test]
fn ssh_exec_with_a_matching_pattern_is_held_for_confirmation_then_completed() {
    let rules = vec![(
        "ssh.exec".to_string(),
        ConfirmRule::WhenPattern { when_pattern: vec!["systemctl restart".to_string()] },
    )];
    let mut server = HomelabMcpServer::new(config(Some(rules), vec![]));
    assert!(server.ensure_tool_available("ssh.exec", 1_000).is_ok());
    let command = "sudo systemctl restart nginx";
    let params = exec_params_json("nas", command, None);
    let reply = server
        .confirmation
        .check_and_maybe_require("ssh.exec", Some(command), &exec_description(command, "nas"), &params, 1_000)
        .unwrap()
        .unwrap();
    let parsed: serde_json::Value = serde_json::from_str(&reply).unwrap();
    assert_eq!(parsed["status"], "confirmation_required");
    let token = parsed["token"].as_str().unwrap().to_string();
    assert!(token.len() > 10);

    let call = server.confirm_operation(&token, "ssh.exec", 2_000).unwrap();
    assert_eq!(call.params_json, params);
    assert_eq!(call.target, Ok(ConfirmTarget::SshExec));
    assert_eq!(call.audit_detail, format!("tool=ssh.exec token={}", token));
    let again = server.confirm_operation(&token, "ssh.exec", 3_000).unwrap_err();
    assert_eq!(again, "Invalid or expired confirmation token. Tokens expire after 5 minutes.");
}

#[test]
fn confirm_operation_is_itself_rate_limited() {
    let limits = vec![("confirm_operation".to_string(), RateLimit { per_minute: 1 })];
    let mut server = HomelabMcpServer::new(config(None, limits));
    let first = server.confirm_operation("no-such-token", "ssh.exec", 1_000).unwrap_err();
    assert_eq!(first, "Invalid or expired confirmation token. Tokens expire after 5 minutes.");
    let second = server.confirm_operation("no-such-token", "ssh.exec", 2_000).unwrap_err();
    assert_eq!(second, "Rate limit exceeded for confirm_operation. Limit: 1/min. Retry after 59s.");
}

#[test]
fn disabled_tools_are_refused_before_the_rate_limit() {
    let mut c = config(None, vec![]);
    c.tools = ToolsConfig { enabled: Some(vec!["docker.container.list".to_string()]) };
    let mut server = HomelabMcpServer::new(c);
    assert!(server.ensure_tool_available("docker.container.list", 0).is_ok());
    assert_eq!(
        server.ensure_tool_available("ssh.exec", 0).unwrap_err(),
        "Tool 'ssh.exec' is disabled by configuration."
    );
}
