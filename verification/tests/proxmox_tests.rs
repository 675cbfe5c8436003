use spacebot_homelab_mcp::tools::proxmox::{
    bool_to_proxmox, ensure_vm_type, exhausted_auto_vmid_error, format_bytes, format_uptime,
    is_duplicate_vmid_conflict, resolved_vm_type, truncate_cell, validate_vm_create_platform_inputs,
    vmid_retry_decision, AutoVmidRetryPolicy, RetryDecision,
};

#[test]
fn qemu_accepts_os_type_without_template() {
    assert!(validate_vm_create_platform_inputs("qemu", Some("l26"), None).is_ok());
}

#[test]
fn lxc_accepts_template_without_os_type() {
    assert!(validate_vm_create_platform_inputs(
        "lxc",
        None,
        Some("local:vztmpl/ubuntu-24.04-standard_24.04-1_amd64.tar.zst")
    )
    .is_ok());
}

#[test]
fn qemu_rejects_lxc_template_field() {
    let error = validate_vm_create_platform_inputs("qemu", Some("l26"), Some("template")).unwrap_err();
    assert!(error.contains("template is only valid when vm_type is 'lxc'"));
}

#[test]
fn lxc_rejects_qemu_os_type_field() {
    let error = validate_vm_create_platform_inputs("lxc", Some("l26"), Some("template")).unwrap_err();
    assert!(error.contains("os_type is only valid when vm_type is 'qemu'"));
}

#[test]
fn detects_duplicate_vmid_conflict_error() {
    let error = "Proxmox API error (HTTP 500): {\"errors\":{\"vmid\":\"VM 123 already exists\"}}";
    assert!(is_duplicate_vmid_conflict(error, 123));
}

#[test]
fn ignores_non_vmid_conflict_error() {
    let error = "Proxmox API error (HTTP 500): {\"errors\":{\"name\":\"guest name already exists\"}}";
    assert!(!is_duplicate_vmid_conflict(error, 123));
}

#[test]
fn exhausted_auto_vmid_error_mentions_config_and_field() {
    let message = exhausted_auto_vmid_error(
        "proxmox.vm.create",
        "vmid",
        AutoVmidRetryPolicy { attempts: 3, backoff_ms: 250 },
        "VM 123 already exists",
    );
    assert!(message.contains("proxmox.vm.create failed after 3 auto-VMID conflict retries"));
    assert!(message.contains("Pass an explicit vmid"));
    assert!(message.contains("next_vmid_retry_attempts/next_vmid_retry_backoff_ms"));
}

#[test]
fn vm_type_checks() {
    assert!(ensure_vm_type("qemu").is_ok());
    assert_eq!(ensure_vm_type("kvm").unwrap_err(), "vm_type must be 'qemu' or 'lxc'. Got 'kvm'");
    assert_eq!(resolved_vm_type(None).unwrap(), "qemu");
    assert_eq!(resolved_vm_type(Some("lxc")).unwrap(), "lxc");
    assert!(resolved_vm_type(Some("x")).is_err());
}

#[test]
fn retry_decisions() {
    let policy = AutoVmidRetryPolicy { attempts: 2, backoff_ms: 10 };
    let err = "CT 7 already exists";
    assert!(matches!(vmid_retry_decision(true, err, 7, 0, policy, "t", "vmid"), RetryDecision::Retry));
    assert!(matches!(vmid_retry_decision(true, err, 7, 1, policy, "t", "vmid"), RetryDecision::Retry));
    match vmid_retry_decision(true, err, 7, 2, policy, "t", "vmid") {
        RetryDecision::Fail(m) => assert!(m.starts_with("t failed after 2 auto-VMID conflict retries (10ms backoff).")),
        RetryDecision::Retry => panic!("must give up"),
    }
    match vmid_retry_decision(false, err, 7, 0, policy, "t", "vmid") {
        RetryDecision::Fail(m) => assert_eq!(m, err),
        RetryDecision::Retry => panic!("explicit ids are not retried"),
    }
}

#[test]
fn small_formatters() {
    assert_eq!(bool_to_proxmox(true), "1");
    assert_eq!(bool_to_proxmox(false), "0");
    assert_eq!(truncate_cell("abcdef", 3), "abc");
    assert_eq!(truncate_cell("ab", 3), "ab");
    assert_eq!(format_uptime(59), "0m");
    assert_eq!(format_uptime(3_660), "1h 1m");
    assert_eq!(format_uptime(90_061), "1d 1h 1m");
    assert_eq!(format_uptime(86_400), "1d 0h 0m");
}

fn reference_bytes(bytes: u64) -> String {
    const KB: u64 = 1024;
    const MB: u64 = 1024 * KB;
    const GB: u64 = 1024 * MB;
    const TB: u64 = 1024 * GB;
    if bytes >= TB {
        format!("{:.1} TB", bytes as f64 / TB as f64)
    } else if bytes >= GB {
        format!("{:.1} GB", bytes as f64 / GB as f64)
    } else if bytes >= MB {
        format!("{:.1} MB", bytes as f64 / MB as f64)
    } else if bytes >= KB {
        format!("{:.1} KB", bytes as f64 / KB as f64)
    } else {
        format!("{} B", bytes)
    }
}

#[test]
fn format_bytes_matches_float_formatting() {
    assert_eq!(format_bytes(512), "512 B");
    assert_eq!(format_bytes(1536), "1.5 KB");
    assert_eq!(format_bytes(1024 * 1024 * 5), "5.0 MB");
    let mut samples: Vec<u64> = vec![
        0, 1, 1023, 1024, 1025, 1075, 1126, 1177, 10_240, 1_048_575, 1_048_576, 1_153_434,
        1_073_741_823, 1_073_741_824, 1_099_511_627_775, 1_099_511_627_776, 1_154_487_209_164,
        (1u64 << 53) - 1, 1u64 << 53, (1u64 << 53) + 1, (1u64 << 53) + 3, u64::MAX, u64::MAX - 1,
        u64::MAX - 1024, 1u64 << 63, (1u64 << 63) + 1025,
    ];
    let mut x: u64 = 0x9E37_79B9_7F4A_7C15;
    for _ in 0..20_000 {
        x ^= x << 13;
        x ^= x >> 7;
        x ^= x << 17;
        let shift = (x % 64) as u32;
        samples.push(x >> shift);
    }
    for k in [10u32, 20, 30, 40] {
        for m in 0..4096u64 {
            samples.push((m << k) / 10 * 10 + (m % 7));
            samples.push(((2 * m + 1) << k) / 20);
        }
    }
    for b in samples {
        assert_eq!(format_bytes(b), reference_bytes(b), "bytes = {}", b);
    }
}
