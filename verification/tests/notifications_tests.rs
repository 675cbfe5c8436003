use spacebot_homelab_mcp::metrics::{call_status, metric_specs, MetricKind, METRICS_NAMESPACE};
use spacebot_homelab_mcp::notifications::{
    is_suppressed, notify_connected, notify_failed, parse_u64, DesktopDispatcher, Notification,
    NotifyAction, Platform, Severity, ThrottleGuard, THROTTLE_SECS,
};

#[test]
fn throttle_guard_holds_back_failures_within_a_minute() {
    assert!(ThrottleGuard::should_notify_failure(None, 1000));
    assert!(!ThrottleGuard::should_notify_failure(Some("1000"), 1000));
    assert!(!ThrottleGuard::should_notify_failure(Some(" 1000\n"), 1059));
    assert!(ThrottleGuard::should_notify_failure(Some("1000"), 1060));
    assert!(ThrottleGuard::should_notify_failure(Some("garbage"), 1000));
    assert!(!ThrottleGuard::should_notify_failure(Some("2000"), 1000));
    assert_eq!(THROTTLE_SECS, 60);
}

#[test]
fn throttle_record_is_read_back() {
    let content = ThrottleGuard::record_failure(1234567);
    assert_eq!(content, "1234567");
    assert!(!ThrottleGuard::should_notify_failure(Some(&content), 1234567 + 59));
    assert!(ThrottleGuard::should_notify_failure(Some(&content), 1234567 + 60));
}

#[test]
fn parse_u64_follows_std() {
    for s in ["0", "42", "+7", "18446744073709551615", "18446744073709551616", "", "+", "-1", "1 2", "٣"] {
        assert_eq!(parse_u64(s), s.parse::<u64>().ok(), "input {:?}", s);
    }
}

#[test]
fn suppression_needs_a_nonempty_value() {
    assert!(!is_suppressed(None));
    assert!(!is_suppressed(Some("")));
    assert!(is_suppressed(Some("1")));
}

#[test]
fn connected_and_failed_notices() {
    match notify_connected(12, "docker: 3", false) {
        NotifyAction::Send { notification, clear_throttle, record_failure } => {
            assert_eq!(notification.title, "Homelab MCP");
            assert_eq!(notification.body, "Connected — 12 tools available\ndocker: 3");
            assert_eq!(notification.severity, Severity::Success);
            assert!(notification.sound);
            assert!(clear_throttle);
            assert!(!record_failure);
        }
        NotifyAction::Skip => panic!("expected a notice"),
    }
    assert!(matches!(notify_connected(1, "", true), NotifyAction::Skip));
    match notify_failed("boom", false, None, 100) {
        NotifyAction::Send { notification, clear_throttle, record_failure } => {
            assert_eq!(notification.body, "Connection failed: boom");
            assert_eq!(notification.severity, Severity::Error);
            assert!(!clear_throttle);
            assert!(record_failure);
        }
        NotifyAction::Skip => panic!("expected a notice"),
    }
    assert!(matches!(notify_failed("boom", false, Some("90"), 100), NotifyAction::Skip));
    assert!(matches!(notify_failed("boom", true, None, 100), NotifyAction::Skip));
}

#[test]
fn desktop_style_by_platform() {
    let n = Notification {
        title: "t".to_string(),
        body: "b".to_string(),
        severity: Severity::Error,
        sound: true,
    };
    let d = DesktopDispatcher;
    let mac = d.style(&n, Platform::MacOs);
    assert_eq!(mac.sound_name, Some("Basso"));
    assert!(!mac.critical);
    let linux = d.style(&n, Platform::Linux);
    assert_eq!(linux.sound_name, Some("dialog-warning"));
    assert!(linux.critical);
    let ok = Notification { severity: Severity::Success, ..n };
    assert_eq!(d.style(&ok, Platform::MacOs).sound_name, Some("Glass"));
    assert_eq!(d.style(&ok, Platform::Linux).sound_name, Some("message-new-instant"));
    assert!(!d.style(&ok, Platform::Linux).critical);
    assert_eq!(d.style(&ok, Platform::Other).sound_name, None);
    let quiet = Notification { sound: false, ..ok };
    assert_eq!(d.style(&quiet, Platform::Linux).sound_name, None);
}

#[test]
fn metric_families_are_listed_in_order() {
    let specs = metric_specs();
    assert_eq!(METRICS_NAMESPACE, "homelab");
    assert_eq!(specs.len(), 9);
    assert_eq!(specs[0].name, "tool_calls_total");
    assert_eq!(specs[0].labels, vec!["tool", "status"]);
    assert_eq!(specs[0].kind, MetricKind::Counter);
    assert_eq!(specs[1].kind, MetricKind::Histogram);
    assert_eq!(specs[8].name, "confirmation_tokens_resolved_total");
    assert_eq!(specs[8].labels, vec!["outcome"]);
    assert_eq!(call_status(true), "error");
    assert_eq!(call_status(false), "success");
}
