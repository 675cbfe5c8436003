use spacebot_homelab_mcp::config::CommandAllowlist;
use spacebot_homelab_mcp::tools::ssh::{
    check_upload_size, exec_params_json, exec_timeout_secs, match_blocked_pattern,
    render_exec_output, screen_confirmed, screen_request, validate_allowed_prefix, validate_command,
};

#[test]
fn test_command_validation_allowed() {
    let allowlist = CommandAllowlist {
        allowed_prefixes: vec!["docker".to_string(), "df".to_string()],
        blocked_patterns: vec!["rm -rf".to_string()],
    };

    assert!(validate_command("docker ps", &allowlist).is_ok());
    assert!(validate_command("docker", &allowlist).is_ok());
    assert!(validate_command("df -h", &allowlist).is_ok());
}

#[test]
fn test_command_validation_blocked() {
    let allowlist = CommandAllowlist {
        allowed_prefixes: vec!["docker".to_string(), "sudo".to_string()],
        blocked_patterns: vec!["rm -rf".to_string()],
    };

    assert!(validate_command("sudo rm -rf /", &allowlist).is_err());
}

#[test]
fn test_command_validation_not_allowed() {
    let allowlist = CommandAllowlist {
        allowed_prefixes: vec!["docker".to_string()],
        blocked_patterns: vec![],
    };

    assert!(validate_command("apt install foo", &allowlist).is_err());
}

#[test]
fn test_command_validation_prefix_strict() {
    let allowlist = CommandAllowlist {
        allowed_prefixes: vec!["docker".to_string()],
        blocked_patterns: vec![],
    };

    assert!(validate_command("dockerrm ps", &allowlist).is_err());
}

#[test]
fn command_messages_are_exact() {
    let allowlist = CommandAllowlist {
        allowed_prefixes: vec!["docker".to_string(), "sudo".to_string()],
        blocked_patterns: vec!["rm -rf".to_string(), "; ".to_string()],
    };
    assert_eq!(
        validate_allowed_prefix("apt install", &allowlist).unwrap_err(),
        "Command 'apt install' does not match any allowed prefix. Allowed: docker, sudo"
    );
    assert_eq!(match_blocked_pattern("sudo ls; rm -rf /", &allowlist), Some("rm -rf"));
    assert_eq!(match_blocked_pattern("sudo ls", &allowlist), None);
    assert_eq!(
        validate_command("sudo rm -rf /", &allowlist).unwrap_err(),
        "Command blocked: contains dangerous pattern 'rm -rf'. This pattern is in the blocked list for safety."
    );
    assert_eq!(
        screen_request("sudo rm -rf /", &allowlist).unwrap_err(),
        "Command blocked: contains dangerous pattern 'rm -rf'. This pattern is blocked for safety."
    );
    assert_eq!(
        screen_confirmed("sudo rm -rf /", &allowlist).unwrap_err(),
        "Command blocked: contains dangerous pattern 'rm -rf'. This pattern is blocked for safety even after confirmation."
    );
}

#[test]
fn exec_output_rendering() {
    assert_eq!(render_exec_output(b"hi", b"", Some(0)), "Exit code: 0\n--- stdout ---\nhi\n");
    assert_eq!(
        render_exec_output(b"a\n", b"err", None),
        "--- stdout ---\na\n--- stderr ---\nerr\n"
    );
    assert_eq!(render_exec_output(b"", b"", None), "Command completed with no output.");
    assert_eq!(render_exec_output(b"  \n", b"", None), "--- stdout ---\n  \n");
    assert_eq!(render_exec_output(&[0xff], b"", None), "--- stdout ---\n\u{fffd}\n");
}

#[test]
fn exec_limits_and_params() {
    assert_eq!(exec_timeout_secs(None), 30);
    assert_eq!(exec_timeout_secs(Some(5)), 5);
    assert_eq!(exec_timeout_secs(Some(1000)), 300);
    assert!(check_upload_size(52_428_800).is_ok());
    assert_eq!(
        check_upload_size(52_428_801).unwrap_err(),
        "File too large: 52428801 bytes (max 52428800 bytes / 50MB)"
    );
    assert_eq!(
        exec_params_json("nas", "df -h", None),
        "{\"command\":\"df -h\",\"host\":\"nas\",\"timeout\":null}"
    );
    assert_eq!(
        exec_params_json("nas", "say \"hi\"", Some(10)),
        "{\"command\":\"say \\\"hi\\\"\",\"host\":\"nas\",\"timeout\":10}"
    );
}
