use spacebot_homelab_mcp::config::{
    ensure_exists, DockerHost, ProxmoxHost, RateLimit, RateLimitMode, ToolsConfig,
};
use spacebot_homelab_mcp::connection::{docker_tls_warning, DockerClient, DockerEndpoint, ProxmoxClient};
use spacebot_homelab_mcp::mcp::{tool_count, tool_summary};
use spacebot_homelab_mcp::rate_limit::RateLimiter;
use spacebot_homelab_mcp::tools::docker::redact_env_entry;
use spacebot_homelab_mcp::tools::verify::{classify_inspect_error, container_state_verdict_on_status, InspectOutcome};
use spacebot_homelab_mcp::tools::wrap_output_envelope;

#[test]
fn empty_enabled_list_leaves_only_confirm_operation() {
    let tools = ToolsConfig { enabled: Some(vec![]) };
    assert_eq!(tool_count(&tools), 1);
    assert_eq!(tool_summary(&tools), "Confirm (1)");
    let some = ToolsConfig { enabled: Some(vec!["ssh.exec".to_string(), "audit.verify_operation".to_string()]) };
    assert_eq!(tool_count(&some), 3);
}

fn pve(verify_tls: bool) -> ProxmoxHost {
    ProxmoxHost {
        url: "https://pve:8006".to_string(),
        token_id: "root@pam!bot".to_string(),
        token_secret: "SECRET-REDACTED".to_string(),
        node: None,
        verify_tls,
        task_wait_timeout_secs: 600,
        next_vmid_retry_attempts: 3,
        next_vmid_retry_backoff_ms: 250,
    }
}

#[test]
fn proxmox_client_checks_certificates_unless_told_not_to() {
    let lax = ProxmoxClient::new(&pve(false)).unwrap();
    assert!(lax.accepts_invalid_certs());
    assert_eq!(lax.timeout_secs(), 30);
    let strict = ProxmoxClient::new(&pve(true)).unwrap();
    assert!(!strict.accepts_invalid_certs());
}

fn docker(host: &str, key: Option<&str>, cert: Option<&str>, ca: Option<&str>) -> DockerHost {
    DockerHost {
        host: host.to_string(),
        cert_path: cert.map(|s| s.to_string()),
        key_path: key.map(|s| s.to_string()),
        ca_path: ca.map(|s| s.to_string()),
    }
}

#[test]
fn docker_client_keeps_the_endpoint_it_was_made_for() {
    let client = DockerClient::new(&docker("tcp://127.0.0.1:2375", None, None, None)).unwrap();
    assert!(matches!(client.endpoint(), DockerEndpoint::TcpPlain { addr } if addr == "tcp://127.0.0.1:2375"));
    assert_eq!(client.timeout_secs(), 120);
}

#[test]
fn partial_tls_configuration_is_warned_about() {
    assert_eq!(
        docker_tls_warning(&docker("tcp://h:2376", None, Some("/c"), None)).unwrap(),
        "Docker host 'tcp://h:2376' has partial TLS config (cert_path/key_path set but ca_path missing). \
         Falling back to unencrypted HTTP. Set all three (cert_path, key_path, ca_path) for TLS."
    );
    assert!(docker_tls_warning(&docker("tcp://h:2376", Some("/k"), Some("/c"), Some("/a"))).is_none());
    assert!(docker_tls_warning(&docker("tcp://h:2376", None, None, Some("/a"))).is_none());
    assert!(docker_tls_warning(&docker("unix:///var/run/docker.sock", Some("/k"), None, None)).is_none());
}

#[test]
fn only_a_daemon_404_confirms_absence() {
    assert!(matches!(classify_inspect_error(Some(404), "gone".to_string()), InspectOutcome::NotFound(t) if t == "gone"));
    assert!(matches!(classify_inspect_error(Some(500), "boom".to_string()), InspectOutcome::Failed(_)));
    assert!(matches!(classify_inspect_error(None, "io".to_string()), InspectOutcome::Failed(_)));
    assert!(container_state_verdict_on_status("h", "c", "absent", Some(404), "no such container".to_string()).0);
    assert!(!container_state_verdict_on_status("h", "c", "absent", Some(500), "server error".to_string()).0);
    assert!(!container_state_verdict_on_status("h", "c", "absent", None, "timeout".to_string()).0);
}

#[test]
fn envelope_time_is_utc_rfc3339() {
    let parsed: serde_json::Value = serde_json::from_str(&wrap_output_envelope("t", "x")).unwrap();
    let at = parsed["executed_at"].as_str().unwrap();
    assert!(at.contains('T'), "{}", at);
    assert!(at.ends_with("+00:00"), "{}", at);
    assert!(at.len() >= 25, "{}", at);
}

#[test]
fn missing_file_is_named_as_a_path() {
    assert_eq!(
        ensure_exists("/a/it's", "Docker certificate", false).unwrap_err(),
        "Docker certificate not found at \"/a/it's\""
    );
}

#[test]
fn redacting_twice_is_redacting_once() {
    let once = redact_env_entry("TOKEN=abc=def");
    assert_eq!(once, "TOKEN=<redacted>");
    assert_eq!(redact_env_entry(&once), once);
    assert_eq!(redact_env_entry("PLAIN"), "PLAIN");
}

#[test]
fn configured_limits_resolve_exact_then_longest_wildcard() {
    let limits = vec![
        ("docker.*".to_string(), RateLimit { per_minute: 5 }),
        ("docker.container.*".to_string(), RateLimit { per_minute: 2 }),
        ("ssh.exec".to_string(), RateLimit { per_minute: 1 }),
    ];
    let mut l = RateLimiter::from_config(&limits, RateLimitMode::Global);
    assert!(l.check("docker.container.list", None, 0).is_ok());
    assert!(l.check("docker.container.stop", None, 1).is_ok());
    let e = l.check("docker.container.list", None, 2).unwrap_err();
    assert_eq!((e.limit, e.tool_name.as_str()), (2, "docker.container.list"));
    for i in 0..5 {
        assert!(l.check("docker.image.list", None, 10 + i).is_ok());
    }
    assert!(l.check("docker.image.list", None, 20).is_err());
    assert!(l.check("ssh.exec", None, 30).is_ok());
    assert!(l.check("ssh.exec", None, 31).is_err());
    for i in 0..50 {
        assert!(l.check("proxmox.vm.list", None, 40 + i).is_ok());
    }
}
