use spacebot_homelab_mcp::doctor::{
    docker_check_lines, security_summary, ssh_check_lines, ssh_key_check,
};
use spacebot_homelab_mcp::setup::{
    default_config_path, insert_entry, keygen_args, mcp_client_snippet, parse_per_minute,
    parse_ssh_port, split_patterns, ssh_copy_target, validate_alias, validate_required,
    WizardConfig, WizardSshHost, DEFAULT_DOCKER_SOCKET,
};
use spacebot_homelab_mcp::tools::docker::{
    container_start_dry_run, container_stop_report, logs_report, logs_since, logs_tail,
    parse_i64, stop_timeout,
};

#[test]
fn wizard_answers_are_checked() {
    assert_eq!(validate_alias("  "), Err("Alias cannot be empty".to_string()));
    assert_eq!(validate_alias(" my nas "), Err("Alias cannot contain spaces".to_string()));
    assert_eq!(validate_alias(" nas "), Ok(()));
    assert_eq!(validate_required(" ", "Hostname cannot be empty"), Err("Hostname cannot be empty".to_string()));
    assert_eq!(parse_ssh_port(" 22 "), Ok(None));
    assert_eq!(parse_ssh_port("2222"), Ok(Some(2222)));
    assert_eq!(parse_ssh_port("70000"), Err("Invalid port number: '70000'".to_string()));
    assert_eq!(parse_ssh_port(" x "), Err("Invalid port number: 'x'".to_string()));
    assert_eq!(parse_per_minute("30"), Ok(30));
    assert_eq!(parse_per_minute("-1"), Err("Invalid number: '-1'".to_string()));
}

#[test]
fn wizard_patterns_split_like_std() {
    for input in ["rm -rf, reboot ,,shutdown", "", ",", " a ", "a,b,", "x"] {
        let expected: Vec<String> = input
            .split(',')
            .map(|p| p.trim().to_string())
            .filter(|p| !p.is_empty())
            .collect();
        assert_eq!(split_patterns(input), expected, "input {:?}", input);
    }
}

#[test]
fn wizard_entries_behave_like_a_map() {
    let mut e: Vec<(String, u32)> = vec![];
    insert_entry(&mut e, "a".to_string(), 1);
    insert_entry(&mut e, "b".to_string(), 2);
    insert_entry(&mut e, "a".to_string(), 3);
    assert_eq!(e, vec![("a".to_string(), 3), ("b".to_string(), 2)]);

    let mut c = WizardConfig::new();
    let host = || WizardSshHost {
        host: "10.0.0.5".to_string(),
        port: None,
        user: "admin".to_string(),
        private_key_path: "~/.ssh/id".to_string(),
        private_key_passphrase: None,
    };
    c.add_ssh_host("nas", host(), true);
    c.add_ssh_host("nas", host(), false);
    assert_eq!(c.ssh.hosts.len(), 1);
    assert_eq!(c.docker.hosts.len(), 1);
    assert_eq!(c.docker.hosts[0].1.host, DEFAULT_DOCKER_SOCKET);
    c.use_default_rate_limit();
    assert_eq!(c.rate_limits.limits[0].0, "*");
    assert_eq!(c.rate_limits.limits[0].1.per_minute, 30);
}

#[test]
fn wizard_texts() {
    assert_eq!(default_config_path("/home/u"), "/home/u/.config/spacebot-homelab-mcp/config.toml");
    assert_eq!(keygen_args("/k")[3], "/k");
    assert_eq!(keygen_args("/k")[5], "");
    assert_eq!(ssh_copy_target("u", "h"), "u@h");
    let expected = format!(
        r#"  {{
    "spacebot-homelab-mcp": {{
      "command": "{}",
      "args": ["server", "--config", "{}"]
    }}
  }}"#,
        "/bin/x", "/c.toml"
    );
    assert_eq!(mcp_client_snippet("/bin/x", "/c.toml"), expected);
}

#[test]
fn doctor_lines() {
    assert_eq!(
        docker_check_lines("local", "unix:///var/run/docker.sock", &Ok(())),
        vec!["  ✓ Docker 'local': unix:///var/run/docker.sock -> accessible".to_string()]
    );
    let lines = ssh_check_lines("nas", "admin", "10.0.0.5", &ssh_key_check(false));
    assert_eq!(lines[0], "  ✗ SSH 'nas': admin@10.0.0.5 -> Private key file not found");
    assert_eq!(lines.len(), 5);
    assert_eq!(security_summary(0), "  ✓ Security checks passed");
    assert_eq!(security_summary(2), "  2 security warnings (see logs)");
}

#[test]
fn docker_action_texts_and_log_options() {
    assert_eq!(container_start_dry_run("web", "local"), "DRY RUN: Would start container 'web' on Docker host 'local'.");
    assert_eq!(container_stop_report("web", "local"), "Stopped container 'web' on Docker host 'local'.");
    assert_eq!(stop_timeout(Some(10)), Some(10));
    assert_eq!(stop_timeout(Some(u64::MAX)), Some(i64::MAX));
    assert_eq!(stop_timeout(None), None);
    for input in ["0", "-5", "+7", "9223372036854775807", "-9223372036854775808", "9223372036854775808", "-+1", "", "-", "abc"] {
        assert_eq!(parse_i64(input), input.parse::<i64>().ok(), "input {:?}", input);
    }
    assert_eq!(logs_since(Some("1700000000")), 1700000000);
    assert_eq!(logs_since(Some("yesterday")), 0);
    assert_eq!(logs_since(None), 0);
    assert_eq!(logs_tail(None), "100");
    assert_eq!(logs_tail(Some(5)), "5");
    assert_eq!(logs_report(" \n "), "No logs returned.");
    assert_eq!(logs_report("hello\n"), "hello\n");
}
