use spacebot_homelab_mcp::config::{RateLimit, RateLimitMode};
use spacebot_homelab_mcp::rate_limit::RateLimiter;

fn limiter(exact: Vec<(&str, u32)>, wild: Vec<(&str, u32)>, mode: RateLimitMode) -> RateLimiter {
    RateLimiter::with_limits(
        exact.into_iter().map(|(k, v)| (k.to_string(), v)).collect(),
        wild.into_iter().map(|(k, v)| (k.to_string(), v)).collect(),
        mode,
    )
}

#[test]
fn test_exact_limit() {
    let mut limiter = limiter(vec![("test.tool", 3)], vec![], RateLimitMode::Global);
    assert!(limiter.check("test.tool", None, 1_000).is_ok());
    assert!(limiter.check("test.tool", None, 1_001).is_ok());
    assert!(limiter.check("test.tool", None, 1_002).is_ok());
    assert!(limiter.check("test.tool", None, 1_003).is_err());
}

#[test]
fn test_no_limit_means_allowed() {
    let mut limiter = RateLimiter::new();
    for i in 0..50u64 {
        assert!(limiter.check("unlisted.tool", None, i).is_ok());
    }
}

#[test]
fn test_wildcard_pattern() {
    let mut limiter = limiter(vec![], vec![("docker.container.", 5)], RateLimitMode::Global);
    assert!(limiter.check("docker.container.list", None, 10).is_ok());
    assert!(limiter.check("docker.container.start", None, 10).is_ok());
    assert!(limiter.check("docker.container.stop", None, 10).is_ok());
    assert!(limiter.check("docker.container.logs", None, 10).is_ok());
    assert!(limiter.check("docker.container.inspect", None, 10).is_ok());
    assert!(limiter.check("docker.container.list", None, 10).is_err());
}

#[test]
fn test_exact_overrides_wildcard() {
    let mut limiter = limiter(vec![("docker.container.list", 2)], vec![("docker.container.", 5)], RateLimitMode::Global);
    assert!(limiter.check("docker.container.list", None, 10).is_ok());
    assert!(limiter.check("docker.container.list", None, 10).is_ok());
    assert!(limiter.check("docker.container.list", None, 10).is_err());
}

#[test]
fn test_per_caller_independent_windows() {
    let mut limiter = limiter(vec![("test.tool", 2)], vec![], RateLimitMode::PerCaller);
    assert!(limiter.check("test.tool", Some("user_a"), 10).is_ok());
    assert!(limiter.check("test.tool", Some("user_a"), 10).is_ok());
    assert!(limiter.check("test.tool", Some("user_a"), 10).is_err());
    assert!(limiter.check("test.tool", Some("user_b"), 10).is_ok());
    assert!(limiter.check("test.tool", Some("user_b"), 10).is_ok());
    assert!(limiter.check("test.tool", Some("user_b"), 10).is_err());
}

#[test]
fn test_per_caller_none_falls_back_to_global() {
    let mut limiter = limiter(vec![("test.tool", 2)], vec![], RateLimitMode::PerCaller);
    assert!(limiter.check("test.tool", None, 10).is_ok());
    assert!(limiter.check("test.tool", None, 10).is_ok());
    assert!(limiter.check("test.tool", None, 10).is_err());
}

#[test]
fn test_global_mode_ignores_caller_id() {
    let mut limiter = limiter(vec![("test.tool", 2)], vec![], RateLimitMode::Global);
    assert!(limiter.check("test.tool", Some("user_a"), 10).is_ok());
    assert!(limiter.check("test.tool", Some("user_b"), 10).is_ok());
    assert!(limiter.check("test.tool", Some("user_c"), 10).is_err());
}

#[test]
fn window_slides_after_a_minute() {
    let mut limiter = limiter(vec![("t", 1)], vec![], RateLimitMode::Global);
    assert!(limiter.check("t", None, 0).is_ok());
    let err = limiter.check("t", None, 30_000).unwrap_err();
    assert_eq!(err.message(), "Rate limit exceeded for t. Limit: 1/min. Retry after 30s.");
    assert!(limiter.check("t", None, 60_000).is_ok());
}

#[test]
fn from_config_splits_patterns() {
    let limits = vec![
        ("proxmox.*".to_string(), RateLimit { per_minute: 1 }),
        ("ssh.exec".to_string(), RateLimit { per_minute: 2 }),
    ];
    let mut limiter = RateLimiter::from_config(&limits, RateLimitMode::Global);
    assert_eq!(limiter.resolve_limit("proxmox.vm.list"), Some(("proxmox.*".to_string(), 1)));
    assert_eq!(limiter.resolve_limit("ssh.exec"), Some(("ssh.exec".to_string(), 2)));
    assert_eq!(limiter.resolve_limit("docker.image.list"), None);
    assert!(limiter.check("proxmox.vm.list", None, 0).is_ok());
    assert!(limiter.check("proxmox.node.list", None, 0).is_err());
}
