use spacebot_homelab_mcp::config::{
    AuditConfig, CommandAllowlist, Config, DockerConfig, DockerHost, MetricsConfig, ProxmoxConfig, RateLimitConfig,
    RateLimitMode, SshConfig, SshPoolConfig, ToolsConfig,
};
use spacebot_homelab_mcp::connection::{CheckReport, ConnectionManager};

fn config() -> Config {
    Config {
        docker: DockerConfig {
            hosts: vec![(
                "local".to_string(),
                DockerHost { host: "unix:///var/run/docker.sock".to_string(), cert_path: None, key_path: None, ca_path: None },
            )],
        },
        ssh: SshConfig { hosts: vec![], pool: SshPoolConfig::default(), command_allowlist: CommandAllowlist::default() },
        proxmox: ProxmoxConfig { hosts: vec![] },
        audit: AuditConfig { file: None, syslog: None },
        rate_limits: RateLimitConfig { mode: RateLimitMode::Global, limits: vec![] },
        tools: ToolsConfig { enabled: None },
        confirm: None,
        metrics: MetricsConfig { enabled: false, listen: "127.0.0.1:9090".to_string() },
    }
}

#[test]
fn a_failed_check_keeps_its_error_and_a_pass_clears_the_back_off() {
    let mut m = ConnectionManager::new(config());
    let key = "docker:local";
    for n in 1..=3u32 {
        assert!(matches!(m.record_check(key, Err(format!("refused {}", n)), 1_000), CheckReport::Unhealthy { failures } if failures == n));
    }
    let msg = m.disconnected_error_message(key, "local", 2_000);
    assert!(msg.starts_with("Host 'local' is unreachable. Last error: refused 3."), "{}", msg);
    // three failures: three checks skipped, the fourth runs, and the pattern repeats
    let pattern: Vec<bool> = (0..8).map(|_| m.should_skip_health_check(key)).collect();
    assert_eq!(pattern, vec![true, true, true, false, true, true, true, false]);
    assert!(matches!(m.record_check(key, Ok(()), 3_000), CheckReport::Healthy { recovered: true }));
    for _ in 0..4 {
        assert!(!m.should_skip_health_check(key));
    }
    assert!(matches!(m.record_check(key, Ok(()), 4_000), CheckReport::Healthy { recovered: false }));
}

#[test]
fn an_unknown_host_is_left_alone() {
    let mut m = ConnectionManager::new(config());
    assert!(matches!(m.record_check("docker:other", Err("x".to_string()), 0), CheckReport::Unhealthy { failures: 0 }));
    assert!(!m.should_skip_health_check("docker:other"));
}
