use spacebot_homelab_mcp::tools::docker_image::{
    image_delete_dry_run, image_delete_params_json, image_delete_report, image_list_report,
    image_prune_dry_run, image_prune_filters, image_prune_params_json, image_prune_report,
    image_pull_dry_run, image_pull_report, image_reference, redact_image_env, ImageEnv, ImageRow,
};

fn texts(items: &[&str]) -> Vec<Option<String>> {
    items.iter().map(|s| Some(s.to_string())).collect()
}

#[test]
fn test_redact_image_env_config() {
    let mut value = ImageEnv {
        config_env: Some(texts(&["SECRET=password123", "PATH=/usr/bin"])),
        container_config_env: None,
    };

    redact_image_env(&mut value);

    let env = value.config_env.unwrap();
    assert_eq!(env[0].as_deref(), Some("SECRET=<redacted>"));
    assert_eq!(env[1].as_deref(), Some("PATH=<redacted>"));
}

#[test]
fn test_redact_image_env_container_config() {
    let mut value = ImageEnv {
        config_env: None,
        container_config_env: Some(texts(&["DB_PASSWORD=hunter2", "HOME=/root"])),
    };

    redact_image_env(&mut value);

    let env = value.container_config_env.unwrap();
    assert_eq!(env[0].as_deref(), Some("DB_PASSWORD=<redacted>"));
    assert_eq!(env[1].as_deref(), Some("HOME=<redacted>"));
}

#[test]
fn test_redact_image_env_both_sections() {
    let mut value = ImageEnv {
        config_env: Some(texts(&["A=1"])),
        container_config_env: Some(texts(&["B=2"])),
    };

    redact_image_env(&mut value);

    assert_eq!(value.config_env.unwrap()[0].as_deref(), Some("A=<redacted>"));
    assert_eq!(value.container_config_env.unwrap()[0].as_deref(), Some("B=<redacted>"));
}

#[test]
fn test_redact_image_env_no_env() {
    let mut value = ImageEnv { config_env: None, container_config_env: None };

    redact_image_env(&mut value);

    assert!(value.config_env.is_none());
    assert!(value.container_config_env.is_none());
}

#[test]
fn redact_image_env_keeps_non_text_items_and_entries_without_value() {
    let mut value = ImageEnv {
        config_env: Some(vec![None, Some("NOVALUE".to_string()), Some("K=a=b".to_string())]),
        container_config_env: None,
    };
    redact_image_env(&mut value);
    let env = value.config_env.unwrap();
    assert_eq!(env[0], None);
    assert_eq!(env[1].as_deref(), Some("NOVALUE"));
    assert_eq!(env[2].as_deref(), Some("K=<redacted>"));
}

#[test]
fn image_reference_splits_tag_and_keeps_registry_port() {
    assert_eq!(image_reference("nginx:1.25"), ("nginx".to_string(), "1.25".to_string()));
    assert_eq!(image_reference("nginx"), ("nginx".to_string(), "latest".to_string()));
    assert_eq!(
        image_reference("registry.local:5000/team/app"),
        ("registry.local:5000/team/app".to_string(), "latest".to_string())
    );
    assert_eq!(
        image_reference("registry.local:5000/team/app:v2"),
        ("registry.local:5000/team/app".to_string(), "v2".to_string())
    );
    assert_eq!(image_reference("app:"), ("app".to_string(), "".to_string()));
}

#[test]
fn image_texts_match_expected() {
    assert_eq!(
        image_pull_dry_run("nginx:latest", "local"),
        "DRY RUN: Would pull image 'nginx:latest' on Docker host 'local'."
    );
    assert_eq!(
        image_pull_report("nginx", "local", "Downloaded newer image", 3),
        "Pulled image 'nginx' on Docker host 'local'. Status: Downloaded newer image. Layers processed: 3."
    );
    assert_eq!(
        image_delete_dry_run("nginx", "local", true),
        "DRY RUN: Would delete image 'nginx' on Docker host 'local'. force=true."
    );
    assert_eq!(
        image_delete_params_json("local", "nginx", false),
        r#"{"force":false,"host":"local","image":"nginx"}"#
    );
    assert_eq!(
        image_delete_report("nginx", "local", &vec![true, false, true], &vec![false, true, false]),
        "Deleted image 'nginx' on Docker host 'local'. 2 layers deleted, 1 tags removed."
    );
    assert_eq!(
        image_prune_dry_run("local", false),
        "DRY RUN: Would prune dangling (untagged) images only on Docker host 'local'."
    );
    assert_eq!(
        image_prune_dry_run("local", true),
        "DRY RUN: Would prune ALL unused images (including tagged) on Docker host 'local'."
    );
    assert_eq!(image_prune_params_json("local", true), r#"{"all":true,"host":"local"}"#);
    assert_eq!(
        image_prune_report(4, "local", "12.5"),
        "Pruned 4 images on Docker host 'local'. Reclaimed 12.5 MB."
    );
    assert!(image_prune_filters(true).is_empty());
    assert_eq!(
        image_prune_filters(false),
        vec![("dangling".to_string(), vec!["true".to_string()])]
    );
}

#[test]
fn image_list_report_formats_table() {
    assert_eq!(image_list_report("local", &vec![]), "No images found.");
    let rows = vec![
        ImageRow {
            id: "sha256:0123456789abcdef0123".to_string(),
            repo_tags: vec!["nginx:latest".to_string(), "nginx:1.25".to_string()],
            size_text: "187.7 MB".to_string(),
            created: 1700000000,
        },
        ImageRow {
            id: "sha256:ab".to_string(),
            repo_tags: vec![],
            size_text: "0.0 MB".to_string(),
            created: -5,
        },
    ];
    let expected = format!(
        "Docker host: local\n\n{:<16}  {:<40}  {:<12}  {}\n{:<16}  {:<40}  {:<12}  {}\n{:<16}  {:<40}  {:<12}  {}",
        "ID", "REPOSITORY:TAG", "SIZE", "CREATED",
        "0123456789ab", "nginx:latest, nginx:1.25", "187.7 MB", 1700000000,
        "ab", "<none>", "0.0 MB", -5
    );
    assert_eq!(image_list_report("local", &rows), expected);
}
