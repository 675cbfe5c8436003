use spacebot_homelab_mcp::config::{DockerHost, ProxmoxHost};
use spacebot_homelab_mcp::connection::{
    docker_endpoint, DockerClient, node_from_listing, ssh_keyscan_hint, task_poll, task_status_path, Acquire,
    DockerEndpoint, HostKeyCheck, ProxmoxClient, SessionPool, SshClientHandler, TaskPoll,
    KNOWN_HOSTS_HINT_PATH,
};
use spacebot_homelab_mcp::health::{backoff_cycles, ConnectionStatus, HealthRegistry};

#[test]
fn test_ssh_keyscan_hint_omits_default_port() {
    assert_eq!(
        ssh_keyscan_hint("example.com", 22),
        format!("ssh-keyscan -H example.com >> {}", KNOWN_HOSTS_HINT_PATH)
    );
}

#[test]
fn test_ssh_keyscan_hint_includes_non_default_port() {
    assert_eq!(
        ssh_keyscan_hint("example.com", 2222),
        format!("ssh-keyscan -H -p 2222 example.com >> {}", KNOWN_HOSTS_HINT_PATH)
    );
}

#[test]
fn test_backoff_schedule() {
    let expected = vec![(1, 0), (2, 1), (3, 3), (4, 5), (10, 5)];
    for (failures, expected_skip) in expected {
        let skip = backoff_cycles(failures);
        assert_eq!(skip, expected_skip);
    }
}

#[test]
fn test_disconnected_error_mentions_last_success() {
    let mut registry = HealthRegistry::new();
    registry.register("ssh:test");
    registry.mark_unhealthy("ssh:test", "boom".to_string());
    registry.mark_unhealthy("ssh:test", "boom".to_string());
    assert_eq!(registry.mark_unhealthy("ssh:test", "boom".to_string()), 3);
    let message = registry.disconnected_error_message("ssh:test", "test", 0);
    assert!(message.contains("boom"));
    assert!(message.contains("test"));
    assert_eq!(
        message,
        "Host 'test' is unreachable. Last error: boom. Last successful connection: never. The connection manager will retry automatically."
    );
    assert!(registry.check_available("ssh:test", "test", 0).is_err());
    assert_eq!(registry.disconnected_error_message("ssh:none", "none", 0), "Host 'none' is not configured");
}

#[test]
fn health_backoff_cycle() {
    let mut registry = HealthRegistry::new();
    registry.register("docker:a");
    assert!(registry.mark_healthy("docker:a", 1_000));
    assert!(!registry.mark_healthy("docker:a", 2_000));
    registry.mark_unhealthy("docker:a", "e".to_string());
    registry.mark_unhealthy("docker:a", "e".to_string());
    // two failures: one cycle skipped, then a check
    assert!(registry.should_skip_health_check("docker:a"));
    assert!(!registry.should_skip_health_check("docker:a"));
    assert!(registry.should_skip_health_check("docker:a"));
    assert!(registry.check_available("docker:a", "a", 0).is_ok());
    registry.mark_unhealthy("docker:a", "e".to_string());
    let msg = registry.disconnected_error_message("docker:a", "a", 200_000);
    assert!(msg.contains("Last successful connection: 3 minutes ago."), "{}", msg);
    assert!(registry.mark_healthy("docker:a", 300_000));
    assert!(!registry.should_skip_health_check("docker:a"));
    assert!(registry.is_connected("docker:a"));
}

#[test]
fn host_key_judgement() {
    let h = SshClientHandler::new("nas".to_string(), 2222);
    assert_eq!(h.judge_host_key(HostKeyCheck::Known), Ok(true));
    assert_eq!(
        h.judge_host_key(HostKeyCheck::Unknown).unwrap_err(),
        "SSH host key for nas:2222 not found in known_hosts. Run: ssh-keyscan -H -p 2222 nas >> ~/.ssh/known_hosts"
    );
    assert_eq!(
        h.judge_host_key(HostKeyCheck::Changed { line: 7 }).unwrap_err(),
        "SSH HOST KEY CHANGED for nas:2222 (known_hosts line 7). Possible MITM attack. Remove the old key and re-verify manually."
    );
    assert_eq!(
        h.judge_host_key(HostKeyCheck::Failed("no file".to_string())).unwrap_err(),
        "SSH host key verification failed for nas:2222: no file"
    );
}

fn docker_host(host: &str, tls: bool) -> DockerHost {
    DockerHost {
        host: host.to_string(),
        cert_path: if tls { Some("/c".to_string()) } else { None },
        key_path: if tls { Some("/k".to_string()) } else { None },
        ca_path: if tls { Some("/a".to_string()) } else { None },
    }
}

#[test]
fn docker_endpoints() {
    match docker_endpoint(&docker_host("unix:///var/run/docker.sock", false)) {
        Ok(DockerEndpoint::Unix { socket_path }) => assert_eq!(socket_path, "/var/run/docker.sock"),
        _ => panic!("expected a socket"),
    }
    match docker_endpoint(&docker_host("tcp://h:2376", true)) {
        Ok(DockerEndpoint::TcpTls { addr, key, .. }) => {
            assert_eq!(addr, "tcp://h:2376");
            assert_eq!(key, "/k");
        }
        _ => panic!("expected TLS"),
    }
    assert!(matches!(docker_endpoint(&docker_host("tcp://h:2375", false)), Ok(DockerEndpoint::TcpPlain { .. })));
    assert_eq!(
        docker_endpoint(&docker_host("npipe:////./pipe/docker", false)).err().unwrap(),
        "Named pipe connections (npipe://) are only supported on Windows. Got: 'npipe:////./pipe/docker'"
    );
    assert_eq!(
        docker_endpoint(&docker_host("http://x", false)).err().unwrap(),
        "Invalid Docker connection string 'http://x'. Expected unix://, tcp://, or npipe://"
    );
}

#[test]
fn proxmox_client_shape() {
    let host = ProxmoxHost {
        url: "https://pve:8006//".to_string(),
        token_id: "root@pam!bot".to_string(),
        token_secret: "SECRET-REDACTED".to_string(),
        node: None,
        verify_tls: false,
        task_wait_timeout_secs: 600,
        next_vmid_retry_attempts: 3,
        next_vmid_retry_backoff_ms: 250,
    };
    let client = ProxmoxClient::new(&host).unwrap();
    assert_eq!(client.api_url("/nodes"), "https://pve:8006/api2/json/nodes");
    assert_eq!(client.auth_header(), "PVEAPIToken=root@pam!bot=SECRET-REDACTED");
    assert_eq!(client.connection_summary(), "https://pve:8006 (node: auto)");
    assert_eq!(client.resolve_node(Some("pve2")), Some("pve2".to_string()));
    assert_eq!(client.resolve_node(None), None);
    assert_eq!(node_from_listing(Some("pve1")).unwrap(), "pve1");
    assert_eq!(
        node_from_listing(None).unwrap_err(),
        "Could not auto-detect Proxmox node name. Set 'node' in config."
    );
}

#[test]
fn task_polling() {
    assert_eq!(task_status_path("pve", "UPID:1"), "/nodes/pve/tasks/UPID:1/status");
    match task_poll(Some("stopped"), Some("OK"), "U", 0, 10) {
        TaskPoll::Done(Ok(m)) => assert_eq!(m, "Task completed successfully (UPID: U)"),
        _ => panic!(),
    }
    match task_poll(Some("stopped"), None, "U", 0, 10) {
        TaskPoll::Done(Err(m)) => assert_eq!(m, "Proxmox task failed with exit status 'unknown' (UPID: U)"),
        _ => panic!(),
    }
    assert!(matches!(task_poll(Some("running"), None, "U", 10_000_000_000, 10), TaskPoll::Wait));
    match task_poll(None, None, "U", 10_000_000_001, 10) {
        TaskPoll::Done(Err(m)) => assert_eq!(m, "Proxmox task timed out after 10s (UPID: U). Task may still be running."),
        _ => panic!(),
    }
}

#[test]
fn session_pool_balances_and_releases() {
    let mut pool: SessionPool<u32> = SessionPool::new(2, 2, 1800, 300);
    assert!(matches!(pool.acquire(0), Acquire::CreateNew));
    assert_eq!(pool.add_session(10, 0), 0);
    assert!(matches!(pool.acquire(1), Acquire::Existing(0)));
    assert!(matches!(pool.acquire(2), Acquire::CreateNew));
    assert_eq!(pool.add_session(11, 2), 1);
    assert!(matches!(pool.acquire(3), Acquire::Existing(1)));
    assert!(matches!(pool.acquire(4), Acquire::Wait));
    assert_eq!(pool.active_channel_count(), 4);
    pool.release(0, false, 5);
    assert_eq!(pool.active_channel_count(), 3);
    assert!(matches!(pool.acquire(6), Acquire::Existing(0)));
    pool.release(1, true, 7);
    pool.release(1, true, 8);
    assert_eq!(pool.session_count(), 1);
    // sessions past their lifetime are not reused
    assert!(matches!(pool.acquire(1_800_001), Acquire::CreateNew));
    pool.release(0, false, 9);
    pool.release(0, false, 9);
    assert_eq!(pool.cleanup_stale_sessions(1_000_000), 1);
    assert_eq!(pool.session_count(), 0);
    assert!(!pool.has_live_session(0));
}

#[test]
fn docker_clients_are_made_for_sockets_and_plain_tcp() {
    let missing = DockerClient::new(&docker_host("unix:///nonexistent/docker.sock", false)).unwrap_err();
    assert!(missing.starts_with("Failed to connect to Docker socket /nonexistent/docker.sock"), "{}", missing);
    let tcp = DockerClient::new(&docker_host("tcp://127.0.0.1:2375", false)).unwrap();
    assert_eq!(tcp.transport_summary(), "tcp tcp://127.0.0.1:2375");
    let tls = DockerClient::new(&docker_host("tcp://h:2376", true)).unwrap_err();
    assert!(tls.starts_with("Failed to connect to Docker TLS endpoint tcp://h:2376"), "{}", tls);
}
