use spacebot_homelab_mcp::tools::proxmox::{format_bytes, format_uptime, format_vm_config, VmConfig};
use spacebot_homelab_mcp::tools::proxmox_net::{
    network_apply_params_json, network_apply_report, network_create_dry_run,
    network_create_params, network_delete_params_json, network_list_report,
    network_update_params, network_update_params_json, NetworkRow, NetworkSettings,
};
use spacebot_homelab_mcp::tools::proxmox_ops::{
    backup_create_dry_run, backup_create_params, backup_create_report, backup_list_report,
    backup_mode, backup_restore_params_json, check_backup_compress, format_loadavg,
    node_list_report, node_status_report, snapshot_create_params, snapshot_list_report,
    snapshot_rollback_params_json, snapshot_time, storage_list_report, vm_delete_dry_run,
    vm_delete_params_json, vm_delete_path, vm_list_order, vm_list_report, vm_list_types,
    vm_start_dry_run, vm_start_report, vm_status_path, vm_status_report, vm_stop_params_json,
    vm_stop_report, BackupRow, NodeRow, NodeStatus, SnapshotRow, StorageRow, VmRow, VmStatus,
};

fn s(v: &str) -> Option<String> {
    Some(v.to_string())
}

#[test]
fn vm_power_texts() {
    assert_eq!(vm_start_dry_run("qemu", 100, "pve"), "DRY RUN: Would start qemu 100 on Proxmox host 'pve'.");
    assert_eq!(vm_status_path("pve1", "lxc", 101, "start"), "/nodes/pve1/lxc/101/status/start");
    assert_eq!(vm_start_report("qemu", 100, "pve1", Some("Task OK")), "Started qemu 100 on node 'pve1'. Task OK");
    assert_eq!(vm_start_report("qemu", 100, "pve1", None), "Started qemu 100 on node 'pve1'.");
    assert_eq!(
        vm_stop_report("qemu", 100, "pve1", None),
        "Force-stop requested for qemu 100 on node 'pve1'."
    );
    assert_eq!(
        vm_stop_params_json("pve", None, 100, "qemu"),
        r#"{"host":"pve","node":null,"vm_type":"qemu","vmid":100}"#
    );
    assert_eq!(
        vm_delete_dry_run("qemu", 100, "pve", None),
        "DRY RUN: Would DELETE qemu 100 on Proxmox host 'pve'. Purge: false"
    );
    assert_eq!(
        vm_delete_params_json("pve", Some("n1"), 100, "lxc", Some(true)),
        r#"{"host":"pve","node":"n1","purge":true,"vm_type":"lxc","vmid":100}"#
    );
    assert_eq!(
        vm_delete_path("n1", "qemu", 7, Some(true)),
        "/nodes/n1/qemu/7?purge=1&destroy-unreferenced-disks=1"
    );
    assert_eq!(vm_delete_path("n1", "qemu", 7, Some(false)), "/nodes/n1/qemu/7");
}

#[test]
fn vm_list_types_follow_filter() {
    assert_eq!(vm_list_types(None), Ok((true, true)));
    assert_eq!(vm_list_types(Some("qemu")), Ok((true, false)));
    assert_eq!(vm_list_types(Some("lxc")), Ok((false, true)));
    assert!(vm_list_types(Some("kvm")).is_err());
}

fn row(vmid: u64, t: &str, name: &str) -> VmRow {
    VmRow {
        vmid,
        vm_type: t.to_string(),
        name: s(name),
        status: s("running"),
        cpus: 2,
        maxmem: 2147483648,
        uptime: 3700,
    }
}

#[test]
fn vm_list_is_sorted_stably_by_id() {
    let rows = vec![row(105, "qemu", "b"), row(101, "lxc", "a"), row(105, "lxc", "c"), row(100, "qemu", "d")];
    assert_eq!(vm_list_order(&rows), vec![3, 1, 0, 2]);
    let out = vm_list_report("pve1", "pve", &rows);
    let mut expected = format!(
        "Node: pve1 (Proxmox host: pve)\n\n{:<8}  {:<6}  {:<24}  {:<10}  {:<6}  {:<10}  {}",
        "VMID", "TYPE", "NAME", "STATUS", "CPU", "MEM", "UPTIME"
    );
    for (id, t, n) in [(100, "qemu", "d"), (101, "lxc", "a"), (105, "qemu", "b"), (105, "lxc", "c")] {
        expected.push_str(&format!(
            "\n{:<8}  {:<6}  {:<24}  {:<10}  {:<6}  {:<10}  {}",
            id, t, n, "running", 2, "2.0 GB", "1h 1m"
        ));
    }
    assert_eq!(out, expected);
    assert_eq!(vm_list_report("pve1", "pve", &vec![]), "No VMs/CTs found on node 'pve1'.");
}

#[test]
fn vm_status_page() {
    let st = VmStatus {
        name: s("web"),
        status: s("running"),
        qmpstatus: s("running"),
        uptime: 90061,
        cpus: 4,
        cpu_usage_text: "12.5".to_string(),
        mem: 1073741824,
        maxmem: 4294967296,
        mem_pct_text: "25.0".to_string(),
        disk: 0,
        maxdisk: 34359738368,
        disk_pct_text: "0.0".to_string(),
        netin: 2048,
        netout: 512,
        pid: Some(4242),
    };
    let expected = format!(
        "VM/CT {} ({}) on node {} (Proxmox host: {})\n\nName: {}\nType: {}\nStatus: {}{}\nUptime: {}\n\nCPU: {} cores, {}% usage\nMemory: {} / {} ({}% used)\nDisk: {} / {} ({}% used)\n\nNetwork In: {}\nNetwork Out: {}\nPID: {}",
        100, "qemu", "pve1", "pve", "web", "qemu", "running", " (QMP: running)", "1d 1h 1m",
        4, "12.5", "1.0 GB", "4.0 GB", "25.0", "0 B", "32.0 GB", "0.0", "2.0 KB", "512 B", 4242
    );
    assert_eq!(vm_status_report(100, "qemu", "pve1", "pve", &st), expected);
}

#[test]
fn node_pages() {
    let rows = vec![NodeRow {
        name: s("pve1"),
        status: s("online"),
        cpu_text: "3.2".to_string(),
        mem_text: "41.0".to_string(),
        uptime: 120,
        pve_version: None,
    }];
    let expected = format!(
        "Proxmox host: pve\n\n{:<16}  {:<10}  {:<8}  {:<8}  {:<12}  {}\n{:<16}  {:<10}  {:<8}%  {:<8}%  {:<12}  {}",
        "NODE", "STATUS", "CPU", "MEM %", "UPTIME", "PVE VERSION", "pve1", "online", "3.2", "41.0", "2m", "?"
    );
    assert_eq!(node_list_report("pve", &rows), expected);
    assert_eq!(node_list_report("pve", &vec![]), "No nodes found.");
    assert_eq!(format_loadavg(&None), "?");
    assert_eq!(format_loadavg(&Some(vec![])), "?");
    assert_eq!(format_loadavg(&Some(vec!["0.1".into(), "0.2".into(), "0.3".into()])), "0.1, 0.2, 0.3");
    let st = NodeStatus {
        cpu_model: s("Xeon"),
        cpu_cores: 8,
        cpu_sockets: 1,
        cpu_usage_text: "5.0".into(),
        loadavg: Some(vec!["1".into()]),
        mem_total: 1024,
        mem_used: 512,
        mem_free: 512,
        mem_pct_text: "50.0".into(),
        swap_total: 0,
        swap_used: 0,
        rootfs_total: 2048,
        rootfs_used: 1024,
        rootfs_pct_text: "50.0".into(),
        uptime: 59,
        pve_version: s("8.1"),
        kernel: None,
    };
    let expected = "Node: pve1 (Proxmox host: pve)\nPVE Version: 8.1\nKernel: ?\nUptime: 0m\n\nCPU: Xeon (1 sockets, 8 cores)\nCPU Usage: 5.0%\nLoad Average: 1\n\nMemory: 512 B / 1.0 KB (50.0% used)\nFree: 512 B\nSwap: 0 B / 0 B\n\nRoot FS: 1.0 KB / 2.0 KB (50.0% used)";
    assert_eq!(node_status_report("pve1", "pve", &st), expected);
}

#[test]
fn storage_and_snapshot_listings() {
    let rows = vec![StorageRow {
        name: s("local"),
        pool_type: s("dir"),
        active: 1,
        used: 1048576,
        total: 10485760,
        use_pct_text: "10.0".into(),
        content: s("iso,backup"),
    }];
    let expected = format!(
        "Storage on node 'n1' (Proxmox host: pve)\n\n{:<20}  {:<10}  {:<10}  {:<12}  {:<12}  {:<8}  {}\n{:<20}  {:<10}  {:<10}  {:<12}  {:<12}  {:<8}%  {}",
        "STORAGE", "TYPE", "STATUS", "USED", "TOTAL", "USE%", "CONTENT",
        "local", "dir", "active", "1.0 MB", "10.0 MB", "10.0", "iso,backup"
    );
    assert_eq!(storage_list_report("n1", "pve", &rows), expected);
    assert_eq!(storage_list_report("n1", "pve", &vec![]), "No storage pools found on node 'n1'.");

    assert_eq!(snapshot_time(Some(0)), "1970-01-01 00:00:00");
    assert_eq!(snapshot_time(Some(1700000000)), "2023-11-14 22:13:20");
    assert_eq!(snapshot_time(None), "?");

    let current = SnapshotRow { name: s("current"), description: None, snaptime: None, vmstate: 0, parent: s("s1") };
    assert_eq!(
        snapshot_list_report("qemu", 100, "n1", "pve", &vec![current]),
        "No snapshots found for qemu 100 on node 'n1'."
    );
    let rows = vec![
        SnapshotRow {
            name: s("s1"),
            description: s("a very long description that exceeds the cell"),
            snaptime: Some(0),
            vmstate: 1,
            parent: None,
        },
        SnapshotRow { name: s("current"), description: None, snaptime: None, vmstate: 0, parent: s("s1") },
    ];
    let expected = format!(
        "Snapshots for qemu 100 on node 'n1' (Proxmox host: pve)\n\n{:<24}  {:<24}  {:<10}  {}\n{:<24}  {:<24}  {:<10}  {}\n  Created: {}",
        "NAME", "DESCRIPTION", "RAM", "PARENT", "s1", "a very long description ", "yes", "-", "1970-01-01 00:00:00"
    );
    assert_eq!(snapshot_list_report("qemu", 100, "n1", "pve", &rows), expected);
    assert_eq!(
        snapshot_create_params("daily", &None, Some(true)),
        vec![("snapname".to_string(), "daily".to_string()), ("vmstate".to_string(), "1".to_string())]
    );
    assert_eq!(
        snapshot_rollback_params_json("pve", None, 100, "qemu", "s1"),
        r#"{"host":"pve","node":null,"snapname":"s1","vm_type":"qemu","vmid":100}"#
    );
}

#[test]
fn backup_rules_and_texts() {
    assert_eq!(backup_mode(None), Ok("snapshot".to_string()));
    assert_eq!(backup_mode(Some("stop")), Ok("stop".to_string()));
    assert_eq!(
        backup_mode(Some("fast")),
        Err("mode must be 'snapshot', 'suspend', or 'stop'. Got 'fast'".to_string())
    );
    assert!(check_backup_compress(None).is_ok());
    assert!(check_backup_compress(Some("0")).is_ok());
    assert_eq!(
        check_backup_compress(Some("xz")),
        Err("compress must be 'zstd', 'lzo', 'gzip', or '0'. Got 'xz'".to_string())
    );
    assert_eq!(
        backup_create_dry_run(100, "local", "pve", "snapshot", None),
        "DRY RUN: Would create vzdump backup of VM 100 to storage 'local' on Proxmox host 'pve'.\nMode: snapshot\nCompress: (default)"
    );
    assert_eq!(
        backup_create_params(100, "local", "stop", Some("zstd"), Some("{{guestname}}")),
        vec![
            ("vmid".to_string(), "100".to_string()),
            ("storage".to_string(), "local".to_string()),
            ("mode".to_string(), "stop".to_string()),
            ("compress".to_string(), "zstd".to_string()),
            ("notes-template".to_string(), "{{guestname}}".to_string()),
        ]
    );
    assert_eq!(
        backup_create_report(100, "local", "n1", Some("OK")),
        "Backup created for VM 100 on storage 'local' (node 'n1'). OK"
    );
    let rows = vec![
        BackupRow { volid: s("local:backup/a"), vmid: Some(100), size: 2048, format: s("vma.zst"), notes: None },
        BackupRow { volid: s("local:backup/b"), vmid: Some(101), size: 0, format: None, notes: s("n") },
    ];
    assert_eq!(
        backup_list_report("local", "n1", "pve", Some(102), &rows),
        "No backups found for VM 102 on storage 'local' (node 'n1')."
    );
    let expected = format!(
        "Backups on storage 'local' (node 'n1', Proxmox host: pve)\n\n{:<60}  {:<8}  {:<12}  {:<10}  {}\n{:<60}  {:<8}  {:<12}  {:<10}  {}",
        "VOLUME ID", "VMID", "SIZE", "FORMAT", "NOTES", "local:backup/b", 101, "0 B", "?", "n"
    );
    assert_eq!(backup_list_report("local", "n1", "pve", Some(101), &rows), expected);
    assert_eq!(
        backup_restore_params_json("pve", None, "a.vma", 5, Some("local"), "qemu"),
        r#"{"archive":"a.vma","host":"pve","node":null,"storage":"local","vm_type":"qemu","vmid":5}"#
    );
}

fn empty_settings() -> NetworkSettings {
    NetworkSettings {
        address: None,
        netmask: None,
        gateway: None,
        address6: None,
        netmask6: None,
        gateway6: None,
        bridge_ports: None,
        bond_mode: None,
        vlan_id: None,
        vlan_raw_device: None,
        autostart: None,
        comments: None,
    }
}

#[test]
fn network_forms_and_texts() {
    let mut st = empty_settings();
    st.address = s("10.0.0.2");
    st.vlan_id = Some(20);
    st.autostart = Some(false);
    let p = network_create_params("vmbr1", "bridge", &st);
    assert_eq!(
        p,
        vec![
            ("iface".to_string(), "vmbr1".to_string()),
            ("type".to_string(), "bridge".to_string()),
            ("address".to_string(), "10.0.0.2".to_string()),
            ("vlan-id".to_string(), "20".to_string()),
            ("autostart".to_string(), "0".to_string()),
        ]
    );
    assert_eq!(
        network_update_params(&Some("bridge".to_string()), &empty_settings()),
        vec![("type".to_string(), "bridge".to_string())]
    );
    assert_eq!(
        network_update_params_json("pve", None, "vmbr1", &st, None),
        r#"{"address":"10.0.0.2","address6":null,"autostart":false,"bond_mode":null,"bridge_ports":null,"comments":null,"gateway":null,"gateway6":null,"host":"pve","iface":"vmbr1","netmask":null,"netmask6":null,"node":null,"type":null,"vlan_id":20,"vlan_raw_device":null}"#
    );
    assert_eq!(
        network_create_dry_run("vmbr1", "bridge", "pve"),
        "DRY RUN: Would create network interface 'vmbr1' (type: bridge) on Proxmox host 'pve'.\nNote: Network changes are staged — call proxmox.network.apply to make them live."
    );
    assert_eq!(network_delete_params_json("pve", Some("n1"), "eth1"), r#"{"host":"pve","iface":"eth1","node":"n1"}"#);
    assert_eq!(network_apply_params_json("pve", None), r#"{"host":"pve","node":null}"#);
    assert_eq!(
        network_apply_report("n1", "pve"),
        "Applied pending network configuration changes on node 'n1' (host: 'pve').\nNetwork changes are now live."
    );
    let rows = vec![NetworkRow {
        iface: s("vmbr0"),
        iface_type: s("bridge"),
        address: s("10.0.0.1"),
        cidr: s("10.0.0.1/24"),
        active: 1,
        autostart: 0,
        bridge_ports: None,
    }];
    let expected = format!(
        "Network interfaces on node 'n1' (Proxmox host: pve)\n\n{:<16}  {:<10}  {:<18}  {:<10}  {:<8}  {}\n{:<16}  {:<10}  {:<18}  {:<10}  {:<8}  {}",
        "IFACE", "TYPE", "ADDRESS", "ACTIVE", "AUTO", "BRIDGE PORTS", "vmbr0", "bridge", "10.0.0.1/24", "yes", "no", "-"
    );
    assert_eq!(network_list_report("n1", "pve", &rows), expected);
}

#[test]
fn byte_and_uptime_formats() {
    assert_eq!(format_bytes(1536), format!("{:.1} KB", 1536f64 / 1024f64));
    assert_eq!(format_uptime(86400 + 7200 + 180), "1d 2h 3m");
}

#[test]
fn vm_config_page_names_type_in_capitals() {
    let c = VmConfig {
        strings: vec![("name".to_string(), "web".to_string())],
        numbers: vec![("cores".to_string(), 2), ("memory".to_string(), 2048)],
        cpulimit: None,
        has_cipassword: false,
    };
    let page = format_vm_config(&c, "qemu", 100);
    assert!(page.starts_with("\n=== VM 100 Configuration (QEMU) ===\n"), "{}", page);
    assert!(page.contains("  Cores:         2"), "{}", page);
    assert!(page.contains("  Memory:        2048 MB (2.0 GB)"), "{}", page);
}
