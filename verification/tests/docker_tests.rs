use spacebot_homelab_mcp::tools::docker::{
    container_create_dry_run, container_create_report, container_delete_preflight,
    container_delete_report, container_list_report, container_port_key, redact_env_values,
    restart_kind, validate_container_name, ContainerCreateRequest, ContainerRow, RestartKind,
};

#[test]
fn test_redact_env_values() {
    let env = vec!["SECRET=password123".to_string(), "PATH=/usr/bin".to_string()];
    let redacted = redact_env_values(&env);
    assert_eq!(redacted[0], "SECRET=<redacted>");
    assert_eq!(redacted[1], "PATH=<redacted>");
}

#[test]
fn test_container_name_validation() {
    // Valid names
    assert!("my-container".chars().all(|c| c.is_ascii_alphanumeric() || c == '_' || c == '.' || c == '-'));
    assert!("webapp.v2".chars().all(|c| c.is_ascii_alphanumeric() || c == '_' || c == '.' || c == '-'));

    // Invalid names
    assert!(!"my container".chars().all(|c| c.is_ascii_alphanumeric() || c == '_' || c == '.' || c == '-'));
    assert!(!"rm -rf /".chars().all(|c| c.is_ascii_alphanumeric() || c == '_' || c == '.' || c == '-'));

    assert!(validate_container_name("my-container").is_ok());
    assert!(validate_container_name("webapp.v2").is_ok());
    assert!(validate_container_name("my container").is_err());
    assert!(validate_container_name("rm -rf /").is_err());
    assert!(validate_container_name("").is_err());
}

#[test]
fn create_texts() {
    let req = ContainerCreateRequest {
        image: "nginx".to_string(),
        name: "web".to_string(),
        ports: Some(vec![("8080".to_string(), "80".to_string())]),
        env: Some(vec!["A=1".to_string()]),
        volumes: None,
        restart_policy: None,
    };
    assert_eq!(
        container_create_dry_run(&req, "local"),
        "DRY RUN: Would create container 'web' from image 'nginx' on Docker host 'local'.\nPorts: {\"8080\": \"80\"}\nEnv vars: 1 configured\nVolumes: none\nRestart policy: no"
    );
    assert_eq!(container_port_key("80"), "80/tcp");
    assert_eq!(container_port_key("53/udp"), "53/udp");
    assert!(matches!(restart_kind("on-failure"), RestartKind::OnFailure(3)));
    assert!(matches!(restart_kind("bogus"), RestartKind::No));
    assert_eq!(
        container_create_report("web", "0123456789abcdef", "nginx", "local", &vec!["w1".to_string()]),
        "Created container 'web' (ID: 0123456789ab) from image 'nginx' on Docker host 'local'.\nWarnings:\n  - w1\n\nContainer created but NOT started. Use docker.container.start to start it."
    );
}

#[test]
fn delete_checks() {
    assert!(container_delete_preflight("c", false, 0, false).is_ok());
    assert_eq!(
        container_delete_preflight("c", true, 0, false).unwrap_err(),
        "Container 'c' is currently running. Stop it first, or set force=true to force-remove."
    );
    assert_eq!(
        container_delete_preflight("c", false, 2, false).unwrap_err(),
        "Container 'c' has 2 volume(s) attached. Data may be lost. Set force=true to override."
    );
    assert!(container_delete_preflight("c", true, 2, true).is_ok());
    assert_eq!(
        container_delete_report("c", "h", 2),
        "Deleted container 'c' on Docker host 'h'. Note: 2 volume(s) were attached. Anonymous volumes were NOT removed."
    );
}

#[test]
fn list_table() {
    assert_eq!(container_list_report("local", &vec![]), "No containers found.");
    let rows = vec![ContainerRow {
        id: Some("0123456789abcdef".to_string()),
        names: vec!["/web".to_string()],
        image: Some("nginx".to_string()),
        state: Some("running".to_string()),
        status: Some("Up 2 hours".to_string()),
    }];
    let expected = format!(
        "Docker host: {}\n\n{:<12}  {:<24}  {:<24}  {:<10}  {}\n{:<12}  {:<24}  {:<24}  {:<10}  {}",
        "local", "ID", "NAME", "IMAGE", "STATE", "STATUS", "0123456789ab", "web", "nginx", "running", "Up 2 hours"
    );
    assert_eq!(container_list_report("local", &rows), expected);
}
