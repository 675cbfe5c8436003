//! The Proxmox operations beyond creation, cloning and configuration:
//! power actions, deletion, listings and status pages, snapshots, storage,
//! backups and network interfaces. Each tool's texts, API paths and
//! parameters are built here from plain values; the HTTP calls are made by
//! the caller.
use vstd::prelude::*;
use crate::confirmation::opt_view;
use crate::json::{object_text, render_object, JsonValue, JsonView};
use crate::text::{decimal, owned, push_str, u64_to_decimal};
use crate::tools::docker::{pad_right, push_padded};
use crate::tools::proxmox::{
    bytes_text, format_bytes, format_uptime, opt_str_json, truncate_cell, uptime_text,
};

verus! {

/// The most characters of output returned by the listing tools.
pub const OUTPUT_MAX_CHARS: usize = 10_000;

/// A guest named by type and id, as in `qemu 100`.
pub open spec fn subject(vm_type: Seq<char>, vmid: u64) -> Seq<char> {
    vm_type + " "@ + decimal(vmid as nat)
}

/// The report of an API call that may have started a task: the finished
/// text followed by the task's outcome, or the requested text alone when
/// no task was started.
pub open spec fn task_text(done: Seq<char>, requested: Seq<char>, task: Option<Seq<char>>) -> Seq<char> {
    match task {
        Some(t) => done + ". "@ + t,
        None => requested + "."@,
    }
}

fn subject_exec(vm_type: &str, vmid: u64) -> (r: String)
    ensures
        r@ == subject(vm_type@, vmid),
{
    let mut r = owned(vm_type);
    push_str(&mut r, " ");
    let d = u64_to_decimal(vmid);
    push_str(&mut r, d.as_str());
    r
}

fn finish_task(done: String, requested: String, task: Option<&str>) -> (r: String)
    ensures
        r@ == task_text(done@, requested@, opt_view(task)),
{
    match task {
        Some(t) => {
            let mut r = done;
            push_str(&mut r, ". ");
            push_str(&mut r, t);
            r
        },
        None => {
            let mut r = requested;
            push_str(&mut r, ".");
            r
        },
    }
}

fn on_node(prefix: &str, vm_type: &str, vmid: u64, node: &str) -> (r: String)
    ensures
        r@ == prefix@ + subject(vm_type@, vmid) + " on node '"@ + node@ + "'"@,
{
    let mut r = owned(prefix);
    let s = subject_exec(vm_type, vmid);
    push_str(&mut r, s.as_str());
    push_str(&mut r, " on node '");
    push_str(&mut r, node);
    push_str(&mut r, "'");
    r
}

fn on_host(prefix: &str, vm_type: &str, vmid: u64, host: &str, suffix: &str) -> (r: String)
    ensures
        r@ == prefix@ + subject(vm_type@, vmid) + " on Proxmox host '"@ + host@ + suffix@,
{
    let mut r = owned(prefix);
    let s = subject_exec(vm_type, vmid);
    push_str(&mut r, s.as_str());
    push_str(&mut r, " on Proxmox host '");
    push_str(&mut r, host);
    push_str(&mut r, suffix);
    r
}

fn node_json(node: Option<&str>) -> (j: JsonValue)
    ensures
        j@ == opt_str_json(opt_view(node)),
{
    match node {
        Some(n) => JsonValue::Str(owned(n)),
        None => JsonValue::Null,
    }
}

/// The path of a power action (`start`, `stop`) or of the current status.
pub fn vm_status_path(node: &str, vm_type: &str, vmid: u64, action: &str) -> (p: String)
    ensures
        p@ == "/nodes/"@ + node@ + "/"@ + vm_type@ + "/"@ + decimal(vmid as nat) + "/status/"@ + action@,
{
    let mut p = owned("/nodes/");
    push_str(&mut p, node);
    push_str(&mut p, "/");
    push_str(&mut p, vm_type);
    push_str(&mut p, "/");
    let d = u64_to_decimal(vmid);
    push_str(&mut p, d.as_str());
    push_str(&mut p, "/status/");
    push_str(&mut p, action);
    p
}

/// The dry-run text of a start.
pub fn vm_start_dry_run(vm_type: &str, vmid: u64, host: &str) -> (r: String)
    ensures
        r@ == "DRY RUN: Would start "@ + subject(vm_type@, vmid) + " on Proxmox host '"@ + host@ + "'."@,
{
    on_host("DRY RUN: Would start ", vm_type, vmid, host, "'.")
}

/// The report of a start.
pub fn vm_start_report(vm_type: &str, vmid: u64, node: &str, task: Option<&str>) -> (r: String)
    ensures
        r@ == task_text(
            "Started "@ + subject(vm_type@, vmid) + " on node '"@ + node@ + "'"@,
            "Started "@ + subject(vm_type@, vmid) + " on node '"@ + node@ + "'"@,
            opt_view(task),
        ),
{
    let done = on_node("Started ", vm_type, vmid, node);
    let requested = on_node("Started ", vm_type, vmid, node);
    finish_task(done, requested, task)
}

/// The dry-run text of a forced stop.
pub fn vm_stop_dry_run(vm_type: &str, vmid: u64, host: &str) -> (r: String)
    ensures
        r@ == "DRY RUN: Would force-stop "@ + subject(vm_type@, vmid) + " on Proxmox host '"@ + host@ + "'."@,
{
    on_host("DRY RUN: Would force-stop ", vm_type, vmid, host, "'.")
}

/// What a confirmation of a forced stop is asked with.
pub fn vm_stop_description(vm_type: &str, vmid: u64, host: &str) -> (r: String)
    ensures
        r@ == "About to FORCE-STOP "@ + subject(vm_type@, vmid) + " on Proxmox host '"@ + host@
            + "'. The VM/CT will be stopped immediately."@,
{
    on_host("About to FORCE-STOP ", vm_type, vmid, host, "'. The VM/CT will be stopped immediately.")
}

/// The parameters kept with a confirmation token of a forced stop.
pub fn vm_stop_params_json(host: &str, node: Option<&str>, vmid: u64, vm_type: &str) -> (r: String)
    ensures
        r@ == object_text(
            seq![
                ("host"@, JsonView::Str(host@)),
                ("node"@, opt_str_json(opt_view(node))),
                ("vm_type"@, JsonView::Str(vm_type@)),
                ("vmid"@, JsonView::Number(vmid)),
            ],
        ),
{
    let entries: Vec<(&str, JsonValue)> = vec![
        ("host", JsonValue::Str(owned(host))),
        ("node", node_json(node)),
        ("vm_type", JsonValue::Str(owned(vm_type))),
        ("vmid", JsonValue::Number(vmid)),
    ];
    proof {
        reveal_strlit("host");
        reveal_strlit("node");
        reveal_strlit("vm_type");
        reveal_strlit("vmid");
        reveal_with_fuel(crate::json::keys_ascending, 5);
        reveal_with_fuel(crate::json::text_less, 11);
        assert(crate::json::keys_ascending(crate::json::entries_view(entries@)));
    }
    let r = render_object(&entries);
    assert(crate::json::entries_view(entries@) =~= seq![
        ("host"@, JsonView::Str(host@)),
        ("node"@, opt_str_json(opt_view(node))),
        ("vm_type"@, JsonView::Str(vm_type@)),
        ("vmid"@, JsonView::Number(vmid)),
    ]);
    r
}

/// The report of a forced stop.
pub fn vm_stop_report(vm_type: &str, vmid: u64, node: &str, task: Option<&str>) -> (r: String)
    ensures
        r@ == task_text(
            "Force-stopped "@ + subject(vm_type@, vmid) + " on node '"@ + node@ + "'"@,
            "Force-stop requested for "@ + subject(vm_type@, vmid) + " on node '"@ + node@ + "'"@,
            opt_view(task),
        ),
{
    let done = on_node("Force-stopped ", vm_type, vmid, node);
    let requested = on_node("Force-stop requested for ", vm_type, vmid, node);
    finish_task(done, requested, task)
}

/// `true` or `false`, as `{}` writes a boolean.
pub open spec fn bool_text(b: bool) -> Seq<char> {
    if b {
        "true"@
    } else {
        "false"@
    }
}

fn bool_str(b: bool) -> (s: &'static str)
    ensures
        s@ == bool_text(b),
{
    if b {
        "true"
    } else {
        "false"
    }
}

/// The dry-run text of a deletion; purging is off unless asked for.
pub fn vm_delete_dry_run(vm_type: &str, vmid: u64, host: &str, purge: Option<bool>) -> (r: String)
    ensures
        r@ == "DRY RUN: Would DELETE "@ + subject(vm_type@, vmid) + " on Proxmox host '"@ + host@ + "'. Purge: "@
            + bool_text(purge == Some(true)),
{
    let p = match purge {
        Some(b) => b,
        None => false,
    };
    let mut r = on_host("DRY RUN: Would DELETE ", vm_type, vmid, host, "'. Purge: ");
    push_str(&mut r, bool_str(p));
    r
}

/// What a confirmation of a deletion is asked with.
pub fn vm_delete_description(vm_type: &str, vmid: u64, host: &str) -> (r: String)
    ensures
        r@ == "About to PERMANENTLY DELETE "@ + subject(vm_type@, vmid) + " on Proxmox host '"@ + host@
            + "'. This cannot be undone."@,
{
    on_host("About to PERMANENTLY DELETE ", vm_type, vmid, host, "'. This cannot be undone.")
}

/// An optional boolean as JSON (`null` when absent).
pub open spec fn opt_bool(v: Option<bool>) -> JsonView {
    match v {
        Some(b) => JsonView::Bool(b),
        None => JsonView::Null,
    }
}

fn bool_json(v: Option<bool>) -> (j: JsonValue)
    ensures
        j@ == opt_bool(v),
{
    match v {
        Some(b) => JsonValue::Bool(b),
        None => JsonValue::Null,
    }
}

/// The parameters kept with a confirmation token of a deletion.
pub fn vm_delete_params_json(host: &str, node: Option<&str>, vmid: u64, vm_type: &str, purge: Option<bool>) -> (r: String)
    ensures
        r@ == object_text(
            seq![
                ("host"@, JsonView::Str(host@)),
                ("node"@, opt_str_json(opt_view(node))),
                ("purge"@, opt_bool(purge)),
                ("vm_type"@, JsonView::Str(vm_type@)),
                ("vmid"@, JsonView::Number(vmid)),
            ],
        ),
{
    let entries: Vec<(&str, JsonValue)> = vec![
        ("host", JsonValue::Str(owned(host))),
        ("node", node_json(node)),
        ("purge", bool_json(purge)),
        ("vm_type", JsonValue::Str(owned(vm_type))),
        ("vmid", JsonValue::Number(vmid)),
    ];
    proof {
        reveal_strlit("host");
        reveal_strlit("node");
        reveal_strlit("purge");
        reveal_strlit("vm_type");
        reveal_strlit("vmid");
        reveal_with_fuel(crate::json::keys_ascending, 6);
        reveal_with_fuel(crate::json::text_less, 11);
        assert(crate::json::keys_ascending(crate::json::entries_view(entries@)));
    }
    let r = render_object(&entries);
    assert(crate::json::entries_view(entries@) =~= seq![
        ("host"@, JsonView::Str(host@)),
        ("node"@, opt_str_json(opt_view(node))),
        ("purge"@, opt_bool(purge)),
        ("vm_type"@, JsonView::Str(vm_type@)),
        ("vmid"@, JsonView::Number(vmid)),
    ]);
    r
}

/// The path of a deletion; a purge also removes unreferenced disks.
pub fn vm_delete_path(node: &str, vm_type: &str, vmid: u64, purge: Option<bool>) -> (p: String)
    ensures
        p@ == "/nodes/"@ + node@ + "/"@ + vm_type@ + "/"@ + decimal(vmid as nat) + (if purge == Some(true) {
            "?purge=1&destroy-unreferenced-disks=1"@
        } else {
            seq![]
        }),
{
    let mut p = owned("/nodes/");
    push_str(&mut p, node);
    push_str(&mut p, "/");
    push_str(&mut p, vm_type);
    push_str(&mut p, "/");
    let d = u64_to_decimal(vmid);
    push_str(&mut p, d.as_str());
    if purge == Some(true) {
        push_str(&mut p, "?purge=1&destroy-unreferenced-disks=1");
    } else {
        assert(p@ + Seq::<char>::empty() =~= p@);
    }
    p
}

/// The report of a deletion.
pub fn vm_delete_report(vm_type: &str, vmid: u64, node: &str, task: Option<&str>) -> (r: String)
    ensures
        r@ == task_text(
            "Deleted "@ + subject(vm_type@, vmid) + " on node '"@ + node@ + "'"@,
            "Delete requested for "@ + subject(vm_type@, vmid) + " on node '"@ + node@ + "'"@,
            opt_view(task),
        ),
{
    let done = on_node("Deleted ", vm_type, vmid, node);
    let requested = on_node("Delete requested for ", vm_type, vmid, node);
    finish_task(done, requested, task)
}

/// A text, or `?` when absent.
pub open spec fn or_unknown(v: Option<String>) -> Seq<char> {
    match v {
        Some(s) => s@,
        None => "?"@,
    }
}

fn or_unknown_exec(v: &Option<String>) -> (r: String)
    ensures
        r@ == or_unknown(*v),
{
    match v {
        Some(s) => s.clone(),
        None => owned("?"),
    }
}

/// The current status of a guest as the status page reads it; the
/// percentages are already written out with one decimal.
#[derive(Debug)]
pub struct VmStatus {
    pub name: Option<String>,
    pub status: Option<String>,
    pub qmpstatus: Option<String>,
    pub uptime: u64,
    pub cpus: u64,
    pub cpu_usage_text: String,
    pub mem: u64,
    pub maxmem: u64,
    pub mem_pct_text: String,
    pub disk: u64,
    pub maxdisk: u64,
    pub disk_pct_text: String,
    pub netin: u64,
    pub netout: u64,
    pub pid: Option<u64>,
}

/// The identity part of a guest's status page.
pub open spec fn vm_status_head(vmid: u64, vm_type: Seq<char>, node: Seq<char>, host: Seq<char>, s: VmStatus) -> Seq<char> {
    "VM/CT "@ + decimal(vmid as nat) + " ("@ + vm_type + ") on node "@ + node + " (Proxmox host: "@ + host + ")\n\n"@
        + "Name: "@ + or_unknown(s.name) + "\n"@ + "Type: "@ + vm_type + "\n"@ + "Status: "@ + or_unknown(s.status)
        + match s.qmpstatus {
        Some(q) => " (QMP: "@ + q@ + ")"@,
        None => seq![],
    } + "\n"@ + "Uptime: "@ + uptime_text(s.uptime) + "\n\n"@
}

/// The resource part of a guest's status page.
pub open spec fn vm_status_usage(s: VmStatus) -> Seq<char> {
    "CPU: "@ + decimal(s.cpus as nat) + " cores, "@ + s.cpu_usage_text@ + "% usage\n"@ + "Memory: "@ + bytes_text(s.mem)
        + " / "@ + bytes_text(s.maxmem) + " ("@ + s.mem_pct_text@ + "% used)\n"@ + "Disk: "@ + bytes_text(s.disk)
        + " / "@ + bytes_text(s.maxdisk) + " ("@ + s.disk_pct_text@ + "% used)\n\n"@
}

/// The network part of a guest's status page, with the process id when
/// there is one.
pub open spec fn vm_status_net(s: VmStatus) -> Seq<char> {
    "Network In: "@ + bytes_text(s.netin) + "\n"@ + "Network Out: "@ + bytes_text(s.netout) + match s.pid {
        Some(p) => "\nPID: "@ + decimal(p as nat),
        None => seq![],
    }
}

/// The status page of a guest.
pub open spec fn vm_status_text(vmid: u64, vm_type: Seq<char>, node: Seq<char>, host: Seq<char>, s: VmStatus) -> Seq<char> {
    vm_status_head(vmid, vm_type, node, host, s) + vm_status_usage(s) + vm_status_net(s)
}

fn push_num(r: &mut String, n: u64)
    ensures
        final(r)@ == old(r)@ + decimal(n as nat),
{
    let d = u64_to_decimal(n);
    push_str(r, d.as_str());
}

fn push_bytes(r: &mut String, n: u64)
    ensures
        final(r)@ == old(r)@ + bytes_text(n),
{
    let d = format_bytes(n);
    push_str(r, d.as_str());
}

fn status_head(vmid: u64, vm_type: &str, node: &str, host: &str, s: &VmStatus) -> (r: String)
    ensures
        r@ == vm_status_head(vmid, vm_type@, node@, host@, *s),
{
    let mut r = owned("VM/CT ");
    push_num(&mut r, vmid);
    push_str(&mut r, " (");
    push_str(&mut r, vm_type);
    push_str(&mut r, ") on node ");
    push_str(&mut r, node);
    push_str(&mut r, " (Proxmox host: ");
    push_str(&mut r, host);
    push_str(&mut r, ")\n\n");
    push_str(&mut r, "Name: ");
    let name = or_unknown_exec(&s.name);
    push_str(&mut r, name.as_str());
    push_str(&mut r, "\n");
    push_str(&mut r, "Type: ");
    push_str(&mut r, vm_type);
    push_str(&mut r, "\n");
    push_str(&mut r, "Status: ");
    let st = or_unknown_exec(&s.status);
    push_str(&mut r, st.as_str());
    match &s.qmpstatus {
        Some(q) => {
            push_str(&mut r, " (QMP: ");
            push_str(&mut r, q.as_str());
            push_str(&mut r, ")");
        },
        None => {
            assert(r@ + Seq::<char>::empty() =~= r@);
        },
    }
    push_str(&mut r, "\n");
    push_str(&mut r, "Uptime: ");
    let up = format_uptime(s.uptime);
    push_str(&mut r, up.as_str());
    push_str(&mut r, "\n\n");
    r
}

fn status_usage(s: &VmStatus) -> (r: String)
    ensures
        r@ == vm_status_usage(*s),
{
    let mut r = owned("CPU: ");
    push_num(&mut r, s.cpus);
    push_str(&mut r, " cores, ");
    push_str(&mut r, s.cpu_usage_text.as_str());
    push_str(&mut r, "% usage\n");
    push_str(&mut r, "Memory: ");
    push_bytes(&mut r, s.mem);
    push_str(&mut r, " / ");
    push_bytes(&mut r, s.maxmem);
    push_str(&mut r, " (");
    push_str(&mut r, s.mem_pct_text.as_str());
    push_str(&mut r, "% used)\n");
    push_str(&mut r, "Disk: ");
    push_bytes(&mut r, s.disk);
    push_str(&mut r, " / ");
    push_bytes(&mut r, s.maxdisk);
    push_str(&mut r, " (");
    push_str(&mut r, s.disk_pct_text.as_str());
    push_str(&mut r, "% used)\n\n");
    r
}

fn status_net(s: &VmStatus) -> (r: String)
    ensures
        r@ == vm_status_net(*s),
{
    let mut r = owned("Network In: ");
    push_bytes(&mut r, s.netin);
    push_str(&mut r, "\n");
    push_str(&mut r, "Network Out: ");
    push_bytes(&mut r, s.netout);
    match s.pid {
        Some(p) => {
            push_str(&mut r, "\nPID: ");
            push_num(&mut r, p);
        },
        None => {
            assert(r@ + Seq::<char>::empty() =~= r@);
        },
    }
    r
}

/// Writes the status page of a guest.
pub fn vm_status_report(vmid: u64, vm_type: &str, node: &str, host: &str, s: &VmStatus) -> (r: String)
    ensures
        r@ == vm_status_text(vmid, vm_type@, node@, host@, *s),
{
    let mut r = status_head(vmid, vm_type, node, host, s);
    let u = status_usage(s);
    push_str(&mut r, u.as_str());
    let n = status_net(s);
    push_str(&mut r, n.as_str());
    r
}

/// Which guest types a listing fetches: QEMU VMs, LXC containers, or both
/// when no type is given. Any other type is refused.
pub fn vm_list_types(filter: Option<&str>) -> (r: Result<(bool, bool), String>)
    ensures
        match filter {
            None => r == Ok::<(bool, bool), String>((true, true)),
            Some(t) => if crate::tools::proxmox::valid_vm_type(t@) {
                r == Ok::<(bool, bool), String>((t@ == "qemu"@, t@ == "lxc"@))
            } else {
                r matches Err(e) && e@ == crate::tools::proxmox::bad_vm_type_message(t@)
            },
        },
{
    match filter {
        None => Ok((true, true)),
        Some(t) => {
            match crate::tools::proxmox::ensure_vm_type(t) {
                Err(e) => Err(e),
                Ok(()) => {
                    let q = crate::text::str_eq(t, "qemu");
                    let l = crate::text::str_eq(t, "lxc");
                    Ok((q, l))
                },
            }
        },
    }
}

/// One listed guest as the table reads it.
#[derive(Debug)]
pub struct VmRow {
    pub vmid: u64,
    pub vm_type: String,
    pub name: Option<String>,
    pub status: Option<String>,
    pub cpus: u64,
    pub maxmem: u64,
    pub uptime: u64,
}

/// `order` with guest `i` placed after every guest whose id is not greater,
/// as a stable sort by id places it.
pub open spec fn insert_by_vmid(rows: Seq<VmRow>, order: Seq<int>, i: int) -> Seq<int>
    decreases order.len(),
{
    if order.len() == 0 {
        seq![i]
    } else if rows[order.last()].vmid <= rows[i].vmid {
        order.push(i)
    } else {
        insert_by_vmid(rows, order.drop_last(), i).push(order.last())
    }
}

/// The order in which the first `n` guests are listed: sorted by id, guests
/// with equal ids kept in the order they came (`sort_by_key`).
pub open spec fn vmid_order(rows: Seq<VmRow>, n: nat) -> Seq<int>
    decreases n,
{
    if n == 0 {
        seq![]
    } else {
        insert_by_vmid(rows, vmid_order(rows, (n - 1) as nat), n - 1)
    }
}

proof fn lemma_insert_at(rows: Seq<VmRow>, order: Seq<int>, i: int, j: int)
    requires
        0 <= j <= order.len(),
        forall|k: int| j <= k < order.len() ==> rows[#[trigger] order[k]].vmid > rows[i].vmid,
        j > 0 ==> rows[order[j - 1]].vmid <= rows[i].vmid,
    ensures
        insert_by_vmid(rows, order, i) == order.take(j) + seq![i] + order.skip(j),
    decreases order.len(),
{
    if order.len() == j {
        assert(order.skip(j) =~= Seq::<int>::empty());
        assert(order.take(j) =~= order);
        if j == 0 {
            assert(seq![i] =~= Seq::<int>::empty() + seq![i] + Seq::<int>::empty());
        } else {
            assert(order.push(i) =~= order + seq![i] + Seq::<int>::empty());
        }
    } else {
        let d = order.drop_last();
        assert(rows[order[order.len() - 1]].vmid > rows[i].vmid);
        assert forall|k: int| j <= k < d.len() implies rows[#[trigger] d[k]].vmid > rows[i].vmid by {
            assert(d[k] == order[k]);
        }
        if j > 0 {
            assert(d[j - 1] == order[j - 1]);
        }
        lemma_insert_at(rows, d, i, j);
        assert(d.take(j) + seq![i] + d.skip(j) + seq![order.last()] =~= order.take(j) + seq![i] + order.skip(j));
    }
}

/// The listing order of guests and, for each, that it indexes a guest.
pub open spec fn valid_order(order: Seq<int>, n: int) -> bool {
    forall|k: int| 0 <= k < order.len() ==> 0 <= #[trigger] order[k] < n
}

proof fn lemma_order_valid(rows: Seq<VmRow>, m: nat)
    requires
        m <= rows.len(),
    ensures
        valid_order(vmid_order(rows, m), m as int),
        vmid_order(rows, m).len() == m,
    decreases m,
{
    if m > 0 {
        lemma_order_valid(rows, (m - 1) as nat);
        lemma_insert_valid(rows, vmid_order(rows, (m - 1) as nat), m - 1);
    }
}

proof fn lemma_insert_valid(rows: Seq<VmRow>, order: Seq<int>, i: int)
    requires
        valid_order(order, i),
        0 <= i,
    ensures
        valid_order(insert_by_vmid(rows, order, i), i + 1),
        insert_by_vmid(rows, order, i).len() == order.len() + 1,
    decreases order.len(),
{
    if order.len() > 0 && rows[order.last()].vmid > rows[i].vmid {
        let d = order.drop_last();
        assert forall|k: int| 0 <= k < d.len() implies 0 <= #[trigger] d[k] < i by {
            assert(d[k] == order[k]);
        }
        lemma_insert_valid(rows, d, i);
        let r = insert_by_vmid(rows, d, i).push(order.last());
        assert forall|k: int| 0 <= k < r.len() implies 0 <= #[trigger] r[k] < i + 1 by {
            if k < r.len() - 1 {
                assert(r[k] == insert_by_vmid(rows, d, i)[k]);
            }
        }
    } else if order.len() > 0 {
        let r = order.push(i);
        assert forall|k: int| 0 <= k < r.len() implies 0 <= #[trigger] r[k] < i + 1 by {
            if k < r.len() - 1 {
                assert(r[k] == order[k]);
            }
        }
    }
}

/// Whether `o` lists guests by id, guests with equal ids in the order in
/// which they came.
pub open spec fn sorted_by_vmid(rows: Seq<VmRow>, o: Seq<int>) -> bool {
    forall|a: int, b: int|
        #![trigger o[a], o[b]]
        0 <= a < b < o.len() ==> rows[o[a]].vmid < rows[o[b]].vmid || (rows[o[a]].vmid == rows[o[b]].vmid
            && o[a] < o[b])
}

proof fn lemma_insert_sorted(rows: Seq<VmRow>, o: Seq<int>, i: int)
    requires
        sorted_by_vmid(rows, o),
        forall|k: int| 0 <= k < o.len() ==> #[trigger] o[k] < i,
    ensures
        sorted_by_vmid(rows, insert_by_vmid(rows, o, i)),
        insert_by_vmid(rows, o, i).len() == o.len() + 1,
        forall|x: int| #[trigger] insert_by_vmid(rows, o, i).contains(x) <==> (o.contains(x) || x == i),
    decreases o.len(),
{
    let r = insert_by_vmid(rows, o, i);
    if o.len() == 0 {
        assert forall|x: int| #[trigger] r.contains(x) <==> (o.contains(x) || x == i) by {
            if r.contains(x) {
                let k = choose|k: int| 0 <= k < r.len() && r[k] == x;
                assert(k == 0);
            }
            if x == i {
                assert(r[0] == i);
            }
        }
    } else if rows[o.last()].vmid <= rows[i].vmid {
        assert(r == o.push(i));
        assert forall|a: int, b: int| #![trigger r[a], r[b]] 0 <= a < b < r.len() implies rows[r[a]].vmid
            < rows[r[b]].vmid || (rows[r[a]].vmid == rows[r[b]].vmid && r[a] < r[b]) by {
            assert(r[a] == o[a]);
            if b < o.len() {
                assert(r[b] == o[b]);
            } else {
                assert(r[b] == i);
                if a < o.len() - 1 {
                    assert(o[o.len() - 1] == o.last());
                    assert(rows[o[a]].vmid <= rows[o[o.len() - 1]].vmid);
                }
                assert(o[a] < i);
            }
        }
        assert forall|x: int| #[trigger] r.contains(x) <==> (o.contains(x) || x == i) by {
            if r.contains(x) {
                let k = choose|k: int| 0 <= k < r.len() && r[k] == x;
                if k < o.len() {
                    assert(o[k] == x);
                }
            }
            if o.contains(x) {
                let k = choose|k: int| 0 <= k < o.len() && o[k] == x;
                assert(r[k] == x);
            }
            if x == i {
                assert(r[o.len() as int] == i);
            }
        }
    } else {
        let d = o.drop_last();
        let last = o.last();
        assert forall|a: int, b: int| #![trigger d[a], d[b]] 0 <= a < b < d.len() implies rows[d[a]].vmid
            < rows[d[b]].vmid || (rows[d[a]].vmid == rows[d[b]].vmid && d[a] < d[b]) by {
            assert(d[a] == o[a] && d[b] == o[b]);
        }
        assert forall|k: int| 0 <= k < d.len() implies #[trigger] d[k] < i by {
            assert(d[k] == o[k]);
        }
        lemma_insert_sorted(rows, d, i);
        let q = insert_by_vmid(rows, d, i);
        assert(r == q.push(last));
        assert forall|a: int, b: int| #![trigger r[a], r[b]] 0 <= a < b < r.len() implies rows[r[a]].vmid
            < rows[r[b]].vmid || (rows[r[a]].vmid == rows[r[b]].vmid && r[a] < r[b]) by {
            assert(r[a] == q[a]);
            if b < q.len() {
                assert(r[b] == q[b]);
            } else {
                assert(r[b] == last);
                assert(q.contains(q[a]));
                if q[a] != i {
                    assert(d.contains(q[a]));
                    let k = choose|k: int| 0 <= k < d.len() && d[k] == q[a];
                    assert(o[k] == d[k]);
                    assert(o[o.len() - 1] == last);
                    assert(rows[o[k]].vmid < rows[o[o.len() - 1]].vmid || (rows[o[k]].vmid
                        == rows[o[o.len() - 1]].vmid && o[k] < o[o.len() - 1]));
                }
            }
        }
        assert forall|x: int| #[trigger] r.contains(x) <==> (o.contains(x) || x == i) by {
            if r.contains(x) {
                let k = choose|k: int| 0 <= k < r.len() && r[k] == x;
                if k < q.len() {
                    assert(q[k] == x);
                    assert(q.contains(x));
                    if x != i {
                        assert(d.contains(x));
                        let m = choose|m: int| 0 <= m < d.len() && d[m] == x;
                        assert(o[m] == x);
                    }
                } else {
                    assert(o[o.len() - 1] == x);
                }
            }
            if o.contains(x) {
                let k = choose|k: int| 0 <= k < o.len() && o[k] == x;
                if k < d.len() {
                    assert(d[k] == x);
                    assert(d.contains(x));
                    assert(q.contains(x));
                    let m = choose|m: int| 0 <= m < q.len() && q[m] == x;
                    assert(r[m] == x);
                } else {
                    assert(r[q.len() as int] == x);
                }
            }
            if x == i {
                assert(q.contains(i));
                let m = choose|m: int| 0 <= m < q.len() && q[m] == i;
                assert(r[m] == i);
            }
        }
    }
}

proof fn lemma_order_sorted(rows: Seq<VmRow>, m: nat)
    ensures
        sorted_by_vmid(rows, vmid_order(rows, m)),
        vmid_order(rows, m).len() == m,
        forall|x: int| #[trigger] vmid_order(rows, m).contains(x) <==> 0 <= x < m,
    decreases m,
{
    if m > 0 {
        let o = vmid_order(rows, (m - 1) as nat);
        lemma_order_sorted(rows, (m - 1) as nat);
        assert forall|k: int| 0 <= k < o.len() implies #[trigger] o[k] < m - 1 by {
            assert(o.contains(o[k]));
        }
        lemma_insert_sorted(rows, o, m - 1);
    }
}

/// The guests are listed each exactly once, by id, and guests with equal
/// ids in the order in which they came.
pub proof fn law_vm_listing_sorted_by_vmid(rows: Seq<VmRow>)
    ensures
        vmid_order(rows, rows.len()).len() == rows.len(),
        forall|x: int| #[trigger] vmid_order(rows, rows.len()).contains(x) <==> 0 <= x < rows.len(),
        sorted_by_vmid(rows, vmid_order(rows, rows.len())),
{
    lemma_order_sorted(rows, rows.len());
}

fn insert_exec(rows: &Vec<VmRow>, order: Vec<usize>, i: usize) -> (r: Vec<usize>)
    requires
        i < rows@.len(),
        forall|k: int| 0 <= k < order@.len() ==> #[trigger] order@[k] < rows@.len(),
    ensures
        r@.map_values(|x: usize| x as int) == insert_by_vmid(rows@, order@.map_values(|x: usize| x as int), i as int),
        forall|k: int| 0 <= k < r@.len() ==> #[trigger] r@[k] < rows@.len(),
{
    let ghost ord = order@.map_values(|x: usize| x as int);
    let mut j: usize = order.len();
    while j > 0 && rows[order[j - 1]].vmid > rows[i].vmid
        invariant
            j <= order@.len(),
            i < rows@.len(),
            forall|k: int| 0 <= k < order@.len() ==> #[trigger] order@[k] < rows@.len(),
            ord == order@.map_values(|x: usize| x as int),
            forall|k: int| j <= k < order@.len() ==> rows@[#[trigger] ord[k]].vmid > rows@[i as int].vmid,
        decreases j,
    {
        assert(ord[j - 1] == order@[j - 1] as int);
        j = j - 1;
    }
    proof {
        if j > 0 {
            assert(ord[j - 1] == order@[j - 1] as int);
        }
        lemma_insert_at(rows@, ord, i as int, j as int);
    }
    let mut r: Vec<usize> = Vec::new();
    let mut k: usize = 0;
    while k < j
        invariant
            k <= j <= order@.len(),
            r@ == order@.take(k as int),
        decreases j - k,
    {
        r.push(order[k]);
        assert(order@.take(k + 1) =~= order@.take(k as int).push(order@[k as int]));
        k = k + 1;
    }
    r.push(i);
    let mut k: usize = j;
    while k < order.len()
        invariant
            j <= k <= order@.len(),
            r@ == order@.take(j as int) + seq![i] + order@.subrange(j as int, k as int),
        decreases order@.len() - k,
    {
        r.push(order[k]);
        assert(order@.subrange(j as int, k + 1) =~= order@.subrange(j as int, k as int).push(order@[k as int]));
        k = k + 1;
    }
    proof {
        assert(order@.subrange(j as int, order@.len() as int) =~= order@.skip(j as int));
        assert(r@.map_values(|x: usize| x as int) =~= ord.take(j as int) + seq![i as int] + ord.skip(j as int));
        assert forall|k: int| 0 <= k < r@.len() implies #[trigger] r@[k] < rows@.len() by {
            if k < j {
                assert(r@[k] == order@[k]);
            } else if k > j {
                assert(r@[k] == order@[k - 1]);
            }
        }
    }
    r
}

/// The positions of the guests in listing order.
pub fn vm_list_order(rows: &Vec<VmRow>) -> (order: Vec<usize>)
    ensures
        order@.map_values(|x: usize| x as int) == vmid_order(rows@, rows@.len()),
        forall|k: int| 0 <= k < order@.len() ==> #[trigger] order@[k] < rows@.len(),
{
    let mut order: Vec<usize> = Vec::new();
    let mut i: usize = 0;
    assert(order@.map_values(|x: usize| x as int) =~= Seq::<int>::empty());
    while i < rows.len()
        invariant
            i <= rows@.len(),
            order@.map_values(|x: usize| x as int) == vmid_order(rows@, i as nat),
            forall|k: int| 0 <= k < order@.len() ==> #[trigger] order@[k] < rows@.len(),
        decreases rows@.len() - i,
    {
        order = insert_exec(rows, order, i);
        i = i + 1;
    }
    order
}

/// One table line for a guest.
pub open spec fn vm_row_text(r: VmRow) -> Seq<char> {
    pad_right(decimal(r.vmid as nat), 8) + "  "@ + pad_right(r.vm_type@, 6) + "  "@ + pad_right(or_unknown(r.name), 24)
        + "  "@ + pad_right(or_unknown(r.status), 10) + "  "@ + pad_right(decimal(r.cpus as nat), 6) + "  "@ + pad_right(
        bytes_text(r.maxmem),
        10,
    ) + "  "@ + if r.uptime > 0 {
        uptime_text(r.uptime)
    } else {
        "-"@
    }
}

/// The guest table: its heading, then one line per guest in `order`.
pub open spec fn vm_table(node: Seq<char>, host: Seq<char>, rows: Seq<VmRow>, order: Seq<int>) -> Seq<char>
    decreases order.len(),
{
    if order.len() == 0 {
        "Node: "@ + node + " (Proxmox host: "@ + host + ")\n\n"@ + pad_right("VMID"@, 8) + "  "@ + pad_right("TYPE"@, 6)
            + "  "@ + pad_right("NAME"@, 24) + "  "@ + pad_right("STATUS"@, 10) + "  "@ + pad_right("CPU"@, 6) + "  "@
            + pad_right("MEM"@, 10) + "  "@ + "UPTIME"@
    } else {
        vm_table(node, host, rows, order.drop_last()) + "\n"@ + vm_row_text(rows[order.last()])
    }
}

fn vm_row_string(r: &VmRow) -> (s: String)
    ensures
        s@ == vm_row_text(*r),
{
    let mut s = String::new();
    let id = u64_to_decimal(r.vmid);
    push_padded(&mut s, id.as_str(), 8);
    push_str(&mut s, "  ");
    push_padded(&mut s, r.vm_type.as_str(), 6);
    push_str(&mut s, "  ");
    let name = or_unknown_exec(&r.name);
    push_padded(&mut s, name.as_str(), 24);
    push_str(&mut s, "  ");
    let status = or_unknown_exec(&r.status);
    push_padded(&mut s, status.as_str(), 10);
    push_str(&mut s, "  ");
    let cpus = u64_to_decimal(r.cpus);
    push_padded(&mut s, cpus.as_str(), 6);
    push_str(&mut s, "  ");
    let mem = format_bytes(r.maxmem);
    push_padded(&mut s, mem.as_str(), 10);
    push_str(&mut s, "  ");
    if r.uptime > 0 {
        let up = format_uptime(r.uptime);
        push_str(&mut s, up.as_str());
    } else {
        push_str(&mut s, "-");
    }
    assert(Seq::<char>::empty() + vm_row_text(*r) =~= vm_row_text(*r));
    s
}

/// The listing of guests on a node, sorted by id: "No VMs/CTs found" for
/// none, else the table, kept within the output limit.
pub fn vm_list_report(node: &str, host: &str, rows: &Vec<VmRow>) -> (r: String)
    ensures
        rows@.len() == 0 ==> r@ == "No VMs/CTs found on node '"@ + node@ + "'."@,
        rows@.len() > 0 ==> r@ == crate::tools::truncated(
            vm_table(node@, host@, rows@, vmid_order(rows@, rows@.len())),
            OUTPUT_MAX_CHARS,
        ),
{
    if rows.len() == 0 {
        let mut r = owned("No VMs/CTs found on node '");
        push_str(&mut r, node);
        push_str(&mut r, "'.");
        return r;
    }
    let order = vm_list_order(rows);
    let ghost ord = order@.map_values(|x: usize| x as int);
    let mut t = owned("Node: ");
    push_str(&mut t, node);
    push_str(&mut t, " (Proxmox host: ");
    push_str(&mut t, host);
    push_str(&mut t, ")\n\n");
    push_padded(&mut t, "VMID", 8);
    push_str(&mut t, "  ");
    push_padded(&mut t, "TYPE", 6);
    push_str(&mut t, "  ");
    push_padded(&mut t, "NAME", 24);
    push_str(&mut t, "  ");
    push_padded(&mut t, "STATUS", 10);
    push_str(&mut t, "  ");
    push_padded(&mut t, "CPU", 6);
    push_str(&mut t, "  ");
    push_padded(&mut t, "MEM", 10);
    push_str(&mut t, "  ");
    push_str(&mut t, "UPTIME");
    assert(ord.take(0) =~= Seq::<int>::empty());
    let mut i: usize = 0;
    while i < order.len()
        invariant
            i <= order@.len(),
            ord == order@.map_values(|x: usize| x as int),
            forall|k: int| 0 <= k < order@.len() ==> #[trigger] order@[k] < rows@.len(),
            t@ == vm_table(node@, host@, rows@, ord.take(i as int)),
        decreases order@.len() - i,
    {
        assert(ord.take(i + 1).drop_last() =~= ord.take(i as int));
        assert(ord.take(i + 1).last() == order@[i as int] as int);
        let line = vm_row_string(&rows[order[i]]);
        push_str(&mut t, "\n");
        push_str(&mut t, line.as_str());
        i = i + 1;
    }
    assert(ord.take(i as int) =~= ord);
    crate::tools::truncate_output(t.as_str(), OUTPUT_MAX_CHARS)
}

/// A table cell that is a text or `?` when absent, padded to `w`.
fn push_cell(out: &mut String, v: &Option<String>, w: usize)
    ensures
        final(out)@ == old(out)@ + pad_right(or_unknown(*v), w as nat),
{
    let t = or_unknown_exec(v);
    push_padded(out, t.as_str(), w);
}

/// One listed node as the table reads it; the CPU and memory percentages
/// are already written out with one decimal.
#[derive(Debug)]
pub struct NodeRow {
    pub name: Option<String>,
    pub status: Option<String>,
    pub cpu_text: String,
    pub mem_text: String,
    pub uptime: u64,
    pub pve_version: Option<String>,
}

/// One table line for a node.
pub open spec fn node_row_text(r: NodeRow) -> Seq<char> {
    pad_right(or_unknown(r.name), 16) + "  "@ + pad_right(or_unknown(r.status), 10) + "  "@ + pad_right(r.cpu_text@, 8)
        + "%  "@ + pad_right(r.mem_text@, 8) + "%  "@ + pad_right(uptime_text(r.uptime), 12) + "  "@ + or_unknown(
        r.pve_version,
    )
}

/// The node table: the host, the column titles, then one line per node.
pub open spec fn node_table(host: Seq<char>, rows: Seq<NodeRow>) -> Seq<char>
    decreases rows.len(),
{
    if rows.len() == 0 {
        "Proxmox host: "@ + host + "\n\n"@ + pad_right("NODE"@, 16) + "  "@ + pad_right("STATUS"@, 10) + "  "@
            + pad_right("CPU"@, 8) + "  "@ + pad_right("MEM %"@, 8) + "  "@ + pad_right("UPTIME"@, 12) + "  "@
            + "PVE VERSION"@
    } else {
        node_table(host, rows.drop_last()) + "\n"@ + node_row_text(rows.last())
    }
}

fn node_row_string(r: &NodeRow) -> (s: String)
    ensures
        s@ == node_row_text(*r),
{
    let mut s = String::new();
    push_cell(&mut s, &r.name, 16);
    push_str(&mut s, "  ");
    push_cell(&mut s, &r.status, 10);
    push_str(&mut s, "  ");
    push_padded(&mut s, r.cpu_text.as_str(), 8);
    push_str(&mut s, "%  ");
    push_padded(&mut s, r.mem_text.as_str(), 8);
    push_str(&mut s, "%  ");
    let up = format_uptime(r.uptime);
    push_padded(&mut s, up.as_str(), 12);
    push_str(&mut s, "  ");
    let v = or_unknown_exec(&r.pve_version);
    push_str(&mut s, v.as_str());
    assert(Seq::<char>::empty() + node_row_text(*r) =~= node_row_text(*r));
    s
}

/// The listing of the cluster's nodes: "No nodes found." for none, else
/// the table, kept within the output limit.
pub fn node_list_report(host: &str, rows: &Vec<NodeRow>) -> (r: String)
    ensures
        rows@.len() == 0 ==> r@ == "No nodes found."@,
        rows@.len() > 0 ==> r@ == crate::tools::truncated(node_table(host@, rows@), OUTPUT_MAX_CHARS),
{
    if rows.len() == 0 {
        return owned("No nodes found.");
    }
    let mut t = owned("Proxmox host: ");
    push_str(&mut t, host);
    push_str(&mut t, "\n\n");
    push_padded(&mut t, "NODE", 16);
    push_str(&mut t, "  ");
    push_padded(&mut t, "STATUS", 10);
    push_str(&mut t, "  ");
    push_padded(&mut t, "CPU", 8);
    push_str(&mut t, "  ");
    push_padded(&mut t, "MEM %", 8);
    push_str(&mut t, "  ");
    push_padded(&mut t, "UPTIME", 12);
    push_str(&mut t, "  ");
    push_str(&mut t, "PVE VERSION");
    assert(rows@.take(0) =~= Seq::<NodeRow>::empty());
    let mut i: usize = 0;
    while i < rows.len()
        invariant
            i <= rows@.len(),
            t@ == node_table(host@, rows@.take(i as int)),
        decreases rows@.len() - i,
    {
        assert(rows@.take(i + 1).drop_last() =~= rows@.take(i as int));
        let line = node_row_string(&rows[i]);
        push_str(&mut t, "\n");
        push_str(&mut t, line.as_str());
        i = i + 1;
    }
    assert(rows@.take(i as int) =~= rows@);
    crate::tools::truncate_output(t.as_str(), OUTPUT_MAX_CHARS)
}

/// Texts joined by `", "`.
pub open spec fn joined_comma(items: Seq<String>) -> Seq<char>
    decreases items.len(),
{
    if items.len() == 0 {
        seq![]
    } else if items.len() == 1 {
        items[0]@
    } else {
        joined_comma(items.drop_last()) + ", "@ + items.last()@
    }
}

/// The load averages joined by `", "`, or `?` when there are none.
pub open spec fn loadavg_text(loadavg: Option<Vec<String>>) -> Seq<char> {
    match loadavg {
        Some(v) => if v@.len() > 0 {
            joined_comma(v@)
        } else {
            "?"@
        },
        None => "?"@,
    }
}

/// Writes the load averages of a node, each already written out.
pub fn format_loadavg(loadavg: &Option<Vec<String>>) -> (r: String)
    ensures
        r@ == loadavg_text(*loadavg),
{
    match loadavg {
        Some(v) => {
            if v.len() == 0 {
                return owned("?");
            }
            let mut r = String::new();
            let mut i: usize = 0;
            while i < v.len()
                invariant
                    i <= v@.len(),
                    r@ == joined_comma(v@.take(i as int)),
                decreases v@.len() - i,
            {
                assert(v@.take(i + 1).drop_last() =~= v@.take(i as int));
                if i > 0 {
                    push_str(&mut r, ", ");
                }
                push_str(&mut r, v[i].as_str());
                i = i + 1;
            }
            assert(v@.take(i as int) =~= v@);
            r
        },
        None => owned("?"),
    }
}

/// The status of a node as its status page reads it; the percentages are
/// already written out with one decimal and the load averages as texts.
#[derive(Debug)]
pub struct NodeStatus {
    pub cpu_model: Option<String>,
    pub cpu_cores: u64,
    pub cpu_sockets: u64,
    pub cpu_usage_text: String,
    pub loadavg: Option<Vec<String>>,
    pub mem_total: u64,
    pub mem_used: u64,
    pub mem_free: u64,
    pub mem_pct_text: String,
    pub swap_total: u64,
    pub swap_used: u64,
    pub rootfs_total: u64,
    pub rootfs_used: u64,
    pub rootfs_pct_text: String,
    pub uptime: u64,
    pub pve_version: Option<String>,
    pub kernel: Option<String>,
}

/// The identity and CPU part of a node's status page.
pub open spec fn node_status_head(node: Seq<char>, host: Seq<char>, s: NodeStatus) -> Seq<char> {
    "Node: "@ + node + " (Proxmox host: "@ + host + ")\n"@ + "PVE Version: "@ + or_unknown(s.pve_version) + "\n"@
        + "Kernel: "@ + or_unknown(s.kernel) + "\n"@ + "Uptime: "@ + uptime_text(s.uptime) + "\n\n"@ + "CPU: "@
        + or_unknown(s.cpu_model) + " ("@ + decimal(s.cpu_sockets as nat) + " sockets, "@ + decimal(s.cpu_cores as nat)
        + " cores)\n"@ + "CPU Usage: "@ + s.cpu_usage_text@ + "%\n"@ + "Load Average: "@ + loadavg_text(s.loadavg)
        + "\n\n"@
}

/// The memory and disk part of a node's status page.
pub open spec fn node_status_usage(s: NodeStatus) -> Seq<char> {
    "Memory: "@ + bytes_text(s.mem_used) + " / "@ + bytes_text(s.mem_total) + " ("@ + s.mem_pct_text@ + "% used)\n"@
        + "Free: "@ + bytes_text(s.mem_free) + "\n"@ + "Swap: "@ + bytes_text(s.swap_used) + " / "@ + bytes_text(
        s.swap_total,
    ) + "\n\n"@ + "Root FS: "@ + bytes_text(s.rootfs_used) + " / "@ + bytes_text(s.rootfs_total) + " ("@
        + s.rootfs_pct_text@ + "% used)"@
}

fn node_head(node: &str, host: &str, s: &NodeStatus) -> (r: String)
    ensures
        r@ == node_status_head(node@, host@, *s),
{
    let mut r = owned("Node: ");
    push_str(&mut r, node);
    push_str(&mut r, " (Proxmox host: ");
    push_str(&mut r, host);
    push_str(&mut r, ")\n");
    push_str(&mut r, "PVE Version: ");
    let v = or_unknown_exec(&s.pve_version);
    push_str(&mut r, v.as_str());
    push_str(&mut r, "\n");
    push_str(&mut r, "Kernel: ");
    let k = or_unknown_exec(&s.kernel);
    push_str(&mut r, k.as_str());
    push_str(&mut r, "\n");
    push_str(&mut r, "Uptime: ");
    let up = format_uptime(s.uptime);
    push_str(&mut r, up.as_str());
    push_str(&mut r, "\n\n");
    push_str(&mut r, "CPU: ");
    let m = or_unknown_exec(&s.cpu_model);
    push_str(&mut r, m.as_str());
    push_str(&mut r, " (");
    push_num(&mut r, s.cpu_sockets);
    push_str(&mut r, " sockets, ");
    push_num(&mut r, s.cpu_cores);
    push_str(&mut r, " cores)\n");
    push_str(&mut r, "CPU Usage: ");
    push_str(&mut r, s.cpu_usage_text.as_str());
    push_str(&mut r, "%\n");
    push_str(&mut r, "Load Average: ");
    let l = format_loadavg(&s.loadavg);
    push_str(&mut r, l.as_str());
    push_str(&mut r, "\n\n");
    r
}

fn node_usage(s: &NodeStatus) -> (r: String)
    ensures
        r@ == node_status_usage(*s),
{
    let mut r = owned("Memory: ");
    push_bytes(&mut r, s.mem_used);
    push_str(&mut r, " / ");
    push_bytes(&mut r, s.mem_total);
    push_str(&mut r, " (");
    push_str(&mut r, s.mem_pct_text.as_str());
    push_str(&mut r, "% used)\n");
    push_str(&mut r, "Free: ");
    push_bytes(&mut r, s.mem_free);
    push_str(&mut r, "\n");
    push_str(&mut r, "Swap: ");
    push_bytes(&mut r, s.swap_used);
    push_str(&mut r, " / ");
    push_bytes(&mut r, s.swap_total);
    push_str(&mut r, "\n\n");
    push_str(&mut r, "Root FS: ");
    push_bytes(&mut r, s.rootfs_used);
    push_str(&mut r, " / ");
    push_bytes(&mut r, s.rootfs_total);
    push_str(&mut r, " (");
    push_str(&mut r, s.rootfs_pct_text.as_str());
    push_str(&mut r, "% used)");
    r
}

/// Writes the status page of a node.
pub fn node_status_report(node: &str, host: &str, s: &NodeStatus) -> (r: String)
    ensures
        r@ == node_status_head(node@, host@, *s) + node_status_usage(*s),
{
    let mut r = node_head(node, host, s);
    let u = node_usage(s);
    push_str(&mut r, u.as_str());
    r
}

/// The path of a node's status.
pub fn node_status_path(node: &str) -> (p: String)
    ensures
        p@ == "/nodes/"@ + node@ + "/status"@,
{
    let mut p = owned("/nodes/");
    push_str(&mut p, node);
    push_str(&mut p, "/status");
    p
}

/// The path of a node's listing of guests of one type.
pub fn vm_type_list_path(node: &str, vm_type: &str) -> (p: String)
    ensures
        p@ == "/nodes/"@ + node@ + "/"@ + vm_type@,
{
    let mut p = owned("/nodes/");
    push_str(&mut p, node);
    push_str(&mut p, "/");
    push_str(&mut p, vm_type);
    p
}

/// One storage pool as the table reads it; the use percentage is already
/// written out with one decimal.
#[derive(Debug)]
pub struct StorageRow {
    pub name: Option<String>,
    pub pool_type: Option<String>,
    pub active: u64,
    pub used: u64,
    pub total: u64,
    pub use_pct_text: String,
    pub content: Option<String>,
}

/// One table line for a storage pool.
pub open spec fn storage_row_text(r: StorageRow) -> Seq<char> {
    pad_right(or_unknown(r.name), 20) + "  "@ + pad_right(or_unknown(r.pool_type), 10) + "  "@ + pad_right(
        if r.active == 1 {
            "active"@
        } else {
            "inactive"@
        },
        10,
    ) + "  "@ + pad_right(bytes_text(r.used), 12) + "  "@ + pad_right(bytes_text(r.total), 12) + "  "@ + pad_right(
        r.use_pct_text@,
        8,
    ) + "%  "@ + or_unknown(r.content)
}

/// The storage table: its heading, then one line per pool.
pub open spec fn storage_table(node: Seq<char>, host: Seq<char>, rows: Seq<StorageRow>) -> Seq<char>
    decreases rows.len(),
{
    if rows.len() == 0 {
        "Storage on node '"@ + node + "' (Proxmox host: "@ + host + ")\n\n"@ + pad_right("STORAGE"@, 20) + "  "@
            + pad_right("TYPE"@, 10) + "  "@ + pad_right("STATUS"@, 10) + "  "@ + pad_right("USED"@, 12) + "  "@
            + pad_right("TOTAL"@, 12) + "  "@ + pad_right("USE%"@, 8) + "  "@ + "CONTENT"@
    } else {
        storage_table(node, host, rows.drop_last()) + "\n"@ + storage_row_text(rows.last())
    }
}

fn storage_row_string(r: &StorageRow) -> (s: String)
    ensures
        s@ == storage_row_text(*r),
{
    let mut s = String::new();
    push_cell(&mut s, &r.name, 20);
    push_str(&mut s, "  ");
    push_cell(&mut s, &r.pool_type, 10);
    push_str(&mut s, "  ");
    push_padded(&mut s, if r.active == 1 { "active" } else { "inactive" }, 10);
    push_str(&mut s, "  ");
    let u = format_bytes(r.used);
    push_padded(&mut s, u.as_str(), 12);
    push_str(&mut s, "  ");
    let t = format_bytes(r.total);
    push_padded(&mut s, t.as_str(), 12);
    push_str(&mut s, "  ");
    push_padded(&mut s, r.use_pct_text.as_str(), 8);
    push_str(&mut s, "%  ");
    let c = or_unknown_exec(&r.content);
    push_str(&mut s, c.as_str());
    assert(Seq::<char>::empty() + storage_row_text(*r) =~= storage_row_text(*r));
    s
}

/// The listing of a node's storage pools: "No storage pools found" for
/// none, else the table, kept within the output limit.
pub fn storage_list_report(node: &str, host: &str, rows: &Vec<StorageRow>) -> (r: String)
    ensures
        rows@.len() == 0 ==> r@ == "No storage pools found on node '"@ + node@ + "'."@,
        rows@.len() > 0 ==> r@ == crate::tools::truncated(storage_table(node@, host@, rows@), OUTPUT_MAX_CHARS),
{
    if rows.len() == 0 {
        let mut r = owned("No storage pools found on node '");
        push_str(&mut r, node);
        push_str(&mut r, "'.");
        return r;
    }
    let mut t = owned("Storage on node '");
    push_str(&mut t, node);
    push_str(&mut t, "' (Proxmox host: ");
    push_str(&mut t, host);
    push_str(&mut t, ")\n\n");
    push_padded(&mut t, "STORAGE", 20);
    push_str(&mut t, "  ");
    push_padded(&mut t, "TYPE", 10);
    push_str(&mut t, "  ");
    push_padded(&mut t, "STATUS", 10);
    push_str(&mut t, "  ");
    push_padded(&mut t, "USED", 12);
    push_str(&mut t, "  ");
    push_padded(&mut t, "TOTAL", 12);
    push_str(&mut t, "  ");
    push_padded(&mut t, "USE%", 8);
    push_str(&mut t, "  ");
    push_str(&mut t, "CONTENT");
    assert(rows@.take(0) =~= Seq::<StorageRow>::empty());
    let mut i: usize = 0;
    while i < rows.len()
        invariant
            i <= rows@.len(),
            t@ == storage_table(node@, host@, rows@.take(i as int)),
        decreases rows@.len() - i,
    {
        assert(rows@.take(i + 1).drop_last() =~= rows@.take(i as int));
        let line = storage_row_string(&rows[i]);
        push_str(&mut t, "\n");
        push_str(&mut t, line.as_str());
        i = i + 1;
    }
    assert(rows@.take(i as int) =~= rows@);
    crate::tools::truncate_output(t.as_str(), OUTPUT_MAX_CHARS)
}

/// A time in seconds since the epoch written as `%Y-%m-%d %H:%M:%S` in UTC,
/// or `None` when it is outside the calendar's range.
pub uninterp spec fn utc_datetime_text(secs: i64) -> Option<Seq<char>>;

/// `chrono::DateTime::<Utc>::from_timestamp(secs, 0)` written with
/// `format("%Y-%m-%d %H:%M:%S")`.
#[verifier::external_body]
fn utc_datetime(secs: i64) -> (r: Option<String>)
    ensures
        match r {
            Some(t) => utc_datetime_text(secs) == Some(t@),
            None => utc_datetime_text(secs) is None,
        },
{
    match chrono::DateTime::<chrono::Utc>::from_timestamp(secs, 0) {
        Some(time) => Some(time.format("%Y-%m-%d %H:%M:%S").to_string()),
        None => None,
    }
}

/// The creation time of a snapshot, or `?` when unknown or out of range.
pub open spec fn snapshot_time_text(snaptime: Option<u64>) -> Seq<char> {
    match snaptime {
        Some(t) => match utc_datetime_text(t as i64) {
            Some(x) => x,
            None => "?"@,
        },
        None => "?"@,
    }
}

/// Writes the creation time of a snapshot.
pub fn snapshot_time(snaptime: Option<u64>) -> (r: String)
    ensures
        r@ == snapshot_time_text(snaptime),
{
    match snaptime {
        Some(t) => {
            let secs: i64 = #[verifier::truncate] (t as i64);
            match utc_datetime(secs) {
                Some(x) => x,
                None => owned("?"),
            }
        },
        None => owned("?"),
    }
}

/// One snapshot of a guest as the listing reads it.
#[derive(Debug)]
pub struct SnapshotRow {
    pub name: Option<String>,
    pub description: Option<String>,
    pub snaptime: Option<u64>,
    pub vmstate: u64,
    pub parent: Option<String>,
}

/// Whether a snapshot entry is the `current` state, not a snapshot.
pub open spec fn is_current(r: SnapshotRow) -> bool {
    r.name matches Some(n) && n@ == "current"@
}

/// The description of a snapshot cut to a table cell.
pub open spec fn description_cell(d: Option<String>) -> Seq<char> {
    let t = match d {
        Some(x) => x@,
        None => seq![],
    };
    if t.len() <= 24 {
        t
    } else {
        t.take(24)
    }
}

/// The lines of a snapshot: its table line, then when it was made.
pub open spec fn snapshot_row_text(r: SnapshotRow) -> Seq<char> {
    pad_right(or_unknown(r.name), 24) + "  "@ + pad_right(description_cell(r.description), 24) + "  "@ + pad_right(
        if r.vmstate > 0 {
            "yes"@
        } else {
            "no"@
        },
        10,
    ) + "  "@ + match r.parent {
        Some(p) => p@,
        None => "-"@,
    } + "\n  Created: "@ + snapshot_time_text(r.snaptime)
}

/// The snapshot table: its heading, then the entries that are snapshots.
pub open spec fn snapshot_table(
    vm_type: Seq<char>,
    vmid: u64,
    node: Seq<char>,
    host: Seq<char>,
    rows: Seq<SnapshotRow>,
) -> Seq<char>
    decreases rows.len(),
{
    if rows.len() == 0 {
        "Snapshots for "@ + subject(vm_type, vmid) + " on node '"@ + node + "' (Proxmox host: "@ + host + ")\n\n"@
            + pad_right("NAME"@, 24) + "  "@ + pad_right("DESCRIPTION"@, 24) + "  "@ + pad_right("RAM"@, 10) + "  "@
            + "PARENT"@
    } else if is_current(rows.last()) {
        snapshot_table(vm_type, vmid, node, host, rows.drop_last())
    } else {
        snapshot_table(vm_type, vmid, node, host, rows.drop_last()) + "\n"@ + snapshot_row_text(rows.last())
    }
}

fn is_current_exec(r: &SnapshotRow) -> (b: bool)
    ensures
        b == is_current(*r),
{
    match &r.name {
        Some(n) => crate::text::str_eq(n.as_str(), "current"),
        None => false,
    }
}

fn snapshot_row_string(r: &SnapshotRow) -> (s: String)
    ensures
        s@ == snapshot_row_text(*r),
{
    let mut s = String::new();
    push_cell(&mut s, &r.name, 24);
    push_str(&mut s, "  ");
    let d = match &r.description {
        Some(x) => truncate_cell(x.as_str(), 24),
        None => String::new(),
    };
    push_padded(&mut s, d.as_str(), 24);
    push_str(&mut s, "  ");
    push_padded(&mut s, if r.vmstate > 0 { "yes" } else { "no" }, 10);
    push_str(&mut s, "  ");
    match &r.parent {
        Some(p) => push_str(&mut s, p.as_str()),
        None => push_str(&mut s, "-"),
    }
    push_str(&mut s, "\n  Created: ");
    let t = snapshot_time(r.snaptime);
    push_str(&mut s, t.as_str());
    assert(Seq::<char>::empty() + snapshot_row_text(*r) =~= snapshot_row_text(*r));
    s
}

/// The listing of a guest's snapshots: "No snapshots found" when there are
/// none besides the current state, else the table, kept within the output
/// limit.
pub fn snapshot_list_report(vm_type: &str, vmid: u64, node: &str, host: &str, rows: &Vec<SnapshotRow>) -> (r: String)
    ensures
        (rows@.len() == 0 || (rows@.len() == 1 && is_current(rows@[0]))) ==> r@ == "No snapshots found for "@
            + subject(vm_type@, vmid) + " on node '"@ + node@ + "'."@,
        !(rows@.len() == 0 || (rows@.len() == 1 && is_current(rows@[0]))) ==> r@ == crate::tools::truncated(
            snapshot_table(vm_type@, vmid, node@, host@, rows@),
            OUTPUT_MAX_CHARS,
        ),
{
    if rows.len() == 0 || (rows.len() == 1 && is_current_exec(&rows[0])) {
        let mut r = owned("No snapshots found for ");
        let sub = subject_exec(vm_type, vmid);
        push_str(&mut r, sub.as_str());
        push_str(&mut r, " on node '");
        push_str(&mut r, node);
        push_str(&mut r, "'.");
        return r;
    }
    let mut t = owned("Snapshots for ");
    let sub = subject_exec(vm_type, vmid);
    push_str(&mut t, sub.as_str());
    push_str(&mut t, " on node '");
    push_str(&mut t, node);
    push_str(&mut t, "' (Proxmox host: ");
    push_str(&mut t, host);
    push_str(&mut t, ")\n\n");
    push_padded(&mut t, "NAME", 24);
    push_str(&mut t, "  ");
    push_padded(&mut t, "DESCRIPTION", 24);
    push_str(&mut t, "  ");
    push_padded(&mut t, "RAM", 10);
    push_str(&mut t, "  ");
    push_str(&mut t, "PARENT");
    assert(rows@.take(0) =~= Seq::<SnapshotRow>::empty());
    let mut i: usize = 0;
    while i < rows.len()
        invariant
            i <= rows@.len(),
            t@ == snapshot_table(vm_type@, vmid, node@, host@, rows@.take(i as int)),
        decreases rows@.len() - i,
    {
        assert(rows@.take(i + 1).drop_last() =~= rows@.take(i as int));
        if !is_current_exec(&rows[i]) {
            let line = snapshot_row_string(&rows[i]);
            push_str(&mut t, "\n");
            push_str(&mut t, line.as_str());
        }
        i = i + 1;
    }
    assert(rows@.take(i as int) =~= rows@);
    crate::tools::truncate_output(t.as_str(), OUTPUT_MAX_CHARS)
}

/// The path of a guest's snapshots.
pub fn snapshot_path(node: &str, vm_type: &str, vmid: u64) -> (p: String)
    ensures
        p@ == "/nodes/"@ + node@ + "/"@ + vm_type@ + "/"@ + decimal(vmid as nat) + "/snapshot"@,
{
    let mut p = owned("/nodes/");
    push_str(&mut p, node);
    push_str(&mut p, "/");
    push_str(&mut p, vm_type);
    push_str(&mut p, "/");
    push_num(&mut p, vmid);
    push_str(&mut p, "/snapshot");
    p
}

/// The dry-run text of a snapshot.
pub fn snapshot_create_dry_run(snapname: &str, vm_type: &str, vmid: u64, host: &str) -> (r: String)
    ensures
        r@ == "DRY RUN: Would create snapshot '"@ + snapname@ + "' for "@ + subject(vm_type@, vmid)
            + " on Proxmox host '"@ + host@ + "'."@,
{
    let mut p = owned("DRY RUN: Would create snapshot '");
    push_str(&mut p, snapname);
    push_str(&mut p, "' for ");
    let r = on_host(p.as_str(), vm_type, vmid, host, "'.");
    r
}

/// The form of a snapshot request: the name, then the description and
/// whether RAM is saved when given.
pub fn snapshot_create_params(snapname: &str, description: &Option<String>, vmstate: Option<bool>) -> (params: Vec<(String, String)>)
    ensures
        crate::tools::proxmox::pairs_view(params@) == seq![("snapname"@, snapname@)]
            + crate::tools::proxmox::opt_pair("description"@, crate::tools::proxmox::opt_text(*description))
            + crate::tools::proxmox::opt_pair(
            "vmstate"@,
            match vmstate {
                Some(b) => Some(if b {
                    "1"@
                } else {
                    "0"@
                }),
                None => None,
            },
        ),
{
    let mut params: Vec<(String, String)> = Vec::new();
    params.push((owned("snapname"), owned(snapname)));
    assert(crate::tools::proxmox::pairs_view(params@) =~= seq![("snapname"@, snapname@)]);
    crate::tools::proxmox::push_pair(&mut params, "description", crate::tools::proxmox::clone_opt(description));
    let flag = match vmstate {
        Some(b) => Some(owned(crate::tools::proxmox::bool_to_proxmox(b))),
        None => None,
    };
    crate::tools::proxmox::push_pair(&mut params, "vmstate", flag);
    params
}

/// The report of a snapshot.
pub fn snapshot_create_report(snapname: &str, vm_type: &str, vmid: u64, node: &str, task: Option<&str>) -> (r: String)
    ensures
        r@ == task_text(
            "Created snapshot '"@ + snapname@ + "' for "@ + subject(vm_type@, vmid) + " on node '"@ + node@ + "'"@,
            "Snapshot '"@ + snapname@ + "' created for "@ + subject(vm_type@, vmid) + " on node '"@ + node@ + "'"@,
            opt_view(task),
        ),
{
    let mut p = owned("Created snapshot '");
    push_str(&mut p, snapname);
    push_str(&mut p, "' for ");
    let done = on_node(p.as_str(), vm_type, vmid, node);
    let mut q = owned("Snapshot '");
    push_str(&mut q, snapname);
    push_str(&mut q, "' created for ");
    let requested = on_node(q.as_str(), vm_type, vmid, node);
    finish_task(done, requested, task)
}

/// The dry-run text of a rollback.
pub fn snapshot_rollback_dry_run(vm_type: &str, vmid: u64, snapname: &str, host: &str) -> (r: String)
    ensures
        r@ == "DRY RUN: Would rollback "@ + subject(vm_type@, vmid) + " to snapshot '"@ + snapname@
            + "' on Proxmox host '"@ + host@ + "'."@,
{
    let mut r = owned("DRY RUN: Would rollback ");
    let s = subject_exec(vm_type, vmid);
    push_str(&mut r, s.as_str());
    push_str(&mut r, " to snapshot '");
    push_str(&mut r, snapname);
    push_str(&mut r, "' on Proxmox host '");
    push_str(&mut r, host);
    push_str(&mut r, "'.");
    r
}

/// What a confirmation of a rollback is asked with.
pub fn snapshot_rollback_description(vm_type: &str, vmid: u64, snapname: &str, host: &str) -> (r: String)
    ensures
        r@ == "About to ROLLBACK "@ + subject(vm_type@, vmid) + " to snapshot '"@ + snapname@ + "' on Proxmox host '"@
            + host@ + "'. Current state will be lost."@,
{
    let mut r = owned("About to ROLLBACK ");
    let s = subject_exec(vm_type, vmid);
    push_str(&mut r, s.as_str());
    push_str(&mut r, " to snapshot '");
    push_str(&mut r, snapname);
    push_str(&mut r, "' on Proxmox host '");
    push_str(&mut r, host);
    push_str(&mut r, "'. Current state will be lost.");
    r
}

/// The parameters kept with a confirmation token of a rollback.
pub fn snapshot_rollback_params_json(host: &str, node: Option<&str>, vmid: u64, vm_type: &str, snapname: &str) -> (r: String)
    ensures
        r@ == object_text(
            seq![
                ("host"@, JsonView::Str(host@)),
                ("node"@, opt_str_json(opt_view(node))),
                ("snapname"@, JsonView::Str(snapname@)),
                ("vm_type"@, JsonView::Str(vm_type@)),
                ("vmid"@, JsonView::Number(vmid)),
            ],
        ),
{
    let entries: Vec<(&str, JsonValue)> = vec![
        ("host", JsonValue::Str(owned(host))),
        ("node", node_json(node)),
        ("snapname", JsonValue::Str(owned(snapname))),
        ("vm_type", JsonValue::Str(owned(vm_type))),
        ("vmid", JsonValue::Number(vmid)),
    ];
    proof {
        reveal_strlit("host");
        reveal_strlit("node");
        reveal_strlit("snapname");
        reveal_strlit("vm_type");
        reveal_strlit("vmid");
        reveal_with_fuel(crate::json::keys_ascending, 6);
        reveal_with_fuel(crate::json::text_less, 11);
        assert(crate::json::keys_ascending(crate::json::entries_view(entries@)));
    }
    let r = render_object(&entries);
    assert(crate::json::entries_view(entries@) =~= seq![
        ("host"@, JsonView::Str(host@)),
        ("node"@, opt_str_json(opt_view(node))),
        ("snapname"@, JsonView::Str(snapname@)),
        ("vm_type"@, JsonView::Str(vm_type@)),
        ("vmid"@, JsonView::Number(vmid)),
    ]);
    r
}

/// The path of a rollback.
pub fn snapshot_rollback_path(node: &str, vm_type: &str, vmid: u64, snapname: &str) -> (p: String)
    ensures
        p@ == "/nodes/"@ + node@ + "/"@ + vm_type@ + "/"@ + decimal(vmid as nat) + "/snapshot/"@ + snapname@
            + "/rollback"@,
{
    let mut p = owned("/nodes/");
    push_str(&mut p, node);
    push_str(&mut p, "/");
    push_str(&mut p, vm_type);
    push_str(&mut p, "/");
    push_num(&mut p, vmid);
    push_str(&mut p, "/snapshot/");
    push_str(&mut p, snapname);
    push_str(&mut p, "/rollback");
    p
}

/// The report of a rollback.
pub fn snapshot_rollback_report(vm_type: &str, vmid: u64, snapname: &str, node: &str, task: Option<&str>) -> (r: String)
    ensures
        r@ == task_text(
            "Rolled back "@ + subject(vm_type@, vmid) + " to snapshot '"@ + snapname@ + "' on node '"@ + node@ + "'"@,
            "Rollback requested for "@ + subject(vm_type@, vmid) + " to snapshot '"@ + snapname@ + "' on node '"@ + node@
                + "'"@,
            opt_view(task),
        ),
{
    let s = subject_exec(vm_type, vmid);
    let mut done = owned("Rolled back ");
    push_str(&mut done, s.as_str());
    push_str(&mut done, " to snapshot '");
    push_str(&mut done, snapname);
    push_str(&mut done, "' on node '");
    push_str(&mut done, node);
    push_str(&mut done, "'");
    let mut requested = owned("Rollback requested for ");
    push_str(&mut requested, s.as_str());
    push_str(&mut requested, " to snapshot '");
    push_str(&mut requested, snapname);
    push_str(&mut requested, "' on node '");
    push_str(&mut requested, node);
    push_str(&mut requested, "'");
    finish_task(done, requested, task)
}

/// The backup modes vzdump knows.
pub open spec fn valid_backup_mode(m: Seq<char>) -> bool {
    m == "snapshot"@ || m == "suspend"@ || m == "stop"@
}

/// The backup mode to use: `snapshot` unless another valid one is given;
/// any other is refused.
pub fn backup_mode(mode: Option<&str>) -> (r: Result<String, String>)
    ensures
        match mode {
            None => r matches Ok(m) && m@ == "snapshot"@,
            Some(m) => if valid_backup_mode(m@) {
                r matches Ok(x) && x@ == m@
            } else {
                r matches Err(e) && e@ == "mode must be 'snapshot', 'suspend', or 'stop'. Got '"@ + m@ + "'"@
            },
        },
{
    match mode {
        None => Ok(owned("snapshot")),
        Some(m) => {
            if crate::text::str_eq(m, "snapshot") || crate::text::str_eq(m, "suspend") || crate::text::str_eq(m, "stop") {
                Ok(owned(m))
            } else {
                let mut e = owned("mode must be 'snapshot', 'suspend', or 'stop'. Got '");
                push_str(&mut e, m);
                push_str(&mut e, "'");
                Err(e)
            }
        },
    }
}

/// The compressions vzdump knows.
pub open spec fn valid_compress(c: Seq<char>) -> bool {
    c == "zstd"@ || c == "lzo"@ || c == "gzip"@ || c == "0"@
}

/// Refuses an unknown compression; none given is fine.
pub fn check_backup_compress(compress: Option<&str>) -> (r: Result<(), String>)
    ensures
        match compress {
            None => r is Ok,
            Some(c) => if valid_compress(c@) {
                r is Ok
            } else {
                r matches Err(e) && e@ == "compress must be 'zstd', 'lzo', 'gzip', or '0'. Got '"@ + c@ + "'"@
            },
        },
{
    match compress {
        None => Ok(()),
        Some(c) => {
            if crate::text::str_eq(c, "zstd") || crate::text::str_eq(c, "lzo") || crate::text::str_eq(c, "gzip")
                || crate::text::str_eq(c, "0") {
                Ok(())
            } else {
                let mut e = owned("compress must be 'zstd', 'lzo', 'gzip', or '0'. Got '");
                push_str(&mut e, c);
                push_str(&mut e, "'");
                Err(e)
            }
        },
    }
}

/// A text, or `(default)` when absent.
pub open spec fn or_default(v: Option<Seq<char>>) -> Seq<char> {
    match v {
        Some(x) => x,
        None => "(default)"@,
    }
}

/// The dry-run text of a backup.
pub fn backup_create_dry_run(vmid: u64, storage: &str, host: &str, mode: &str, compress: Option<&str>) -> (r: String)
    ensures
        r@ == "DRY RUN: Would create vzdump backup of VM "@ + decimal(vmid as nat) + " to storage '"@ + storage@
            + "' on Proxmox host '"@ + host@ + "'.\nMode: "@ + mode@ + "\nCompress: "@ + or_default(opt_view(compress)),
{
    let mut r = owned("DRY RUN: Would create vzdump backup of VM ");
    push_num(&mut r, vmid);
    push_str(&mut r, " to storage '");
    push_str(&mut r, storage);
    push_str(&mut r, "' on Proxmox host '");
    push_str(&mut r, host);
    push_str(&mut r, "'.\nMode: ");
    push_str(&mut r, mode);
    push_str(&mut r, "\nCompress: ");
    match compress {
        Some(c) => push_str(&mut r, c),
        None => push_str(&mut r, "(default)"),
    }
    r
}

/// The form of a backup request.
pub fn backup_create_params(vmid: u64, storage: &str, mode: &str, compress: Option<&str>, notes: Option<&str>) -> (params: Vec<(String, String)>)
    ensures
        crate::tools::proxmox::pairs_view(params@) == seq![
            ("vmid"@, decimal(vmid as nat)),
            ("storage"@, storage@),
            ("mode"@, mode@),
        ] + crate::tools::proxmox::opt_pair("compress"@, opt_view(compress)) + crate::tools::proxmox::opt_pair(
            "notes-template"@,
            opt_view(notes),
        ),
{
    let mut params: Vec<(String, String)> = Vec::new();
    params.push((owned("vmid"), u64_to_decimal(vmid)));
    params.push((owned("storage"), owned(storage)));
    params.push((owned("mode"), owned(mode)));
    assert(crate::tools::proxmox::pairs_view(params@) =~= seq![
        ("vmid"@, decimal(vmid as nat)),
        ("storage"@, storage@),
        ("mode"@, mode@),
    ]);
    let c = match compress {
        Some(x) => Some(owned(x)),
        None => None,
    };
    crate::tools::proxmox::push_pair(&mut params, "compress", c);
    let n = match notes {
        Some(x) => Some(owned(x)),
        None => None,
    };
    crate::tools::proxmox::push_pair(&mut params, "notes-template", n);
    params
}

/// The path of a backup request.
pub fn backup_path(node: &str) -> (p: String)
    ensures
        p@ == "/nodes/"@ + node@ + "/vzdump"@,
{
    let mut p = owned("/nodes/");
    push_str(&mut p, node);
    push_str(&mut p, "/vzdump");
    p
}

/// The report of a backup.
pub fn backup_create_report(vmid: u64, storage: &str, node: &str, task: Option<&str>) -> (r: String)
    ensures
        r@ == task_text(
            "Backup created for VM "@ + decimal(vmid as nat) + " on storage '"@ + storage@ + "' (node '"@ + node@ + "')"@,
            "Backup requested for VM "@ + decimal(vmid as nat) + " on storage '"@ + storage@ + "' (node '"@ + node@
                + "')"@,
            opt_view(task),
        ),
{
    let mut done = owned("Backup created for VM ");
    push_num(&mut done, vmid);
    push_str(&mut done, " on storage '");
    push_str(&mut done, storage);
    push_str(&mut done, "' (node '");
    push_str(&mut done, node);
    push_str(&mut done, "')");
    let mut requested = owned("Backup requested for VM ");
    push_num(&mut requested, vmid);
    push_str(&mut requested, " on storage '");
    push_str(&mut requested, storage);
    push_str(&mut requested, "' (node '");
    push_str(&mut requested, node);
    push_str(&mut requested, "')");
    finish_task(done, requested, task)
}

/// The path of the backups kept on a storage.
pub fn backup_content_path(node: &str, storage: &str) -> (p: String)
    ensures
        p@ == "/nodes/"@ + node@ + "/storage/"@ + storage@ + "/content?content=backup"@,
{
    let mut p = owned("/nodes/");
    push_str(&mut p, node);
    push_str(&mut p, "/storage/");
    push_str(&mut p, storage);
    push_str(&mut p, "/content?content=backup");
    p
}

/// One backup on a storage as the listing reads it.
#[derive(Debug)]
pub struct BackupRow {
    pub volid: Option<String>,
    pub vmid: Option<u64>,
    pub size: u64,
    pub format: Option<String>,
    pub notes: Option<String>,
}

/// Whether a backup is listed: all are without a filter, else those of
/// the filtered guest.
pub open spec fn backup_selected(r: BackupRow, filter: Option<u64>) -> bool {
    match filter {
        Some(f) => r.vmid == Some(f),
        None => true,
    }
}

/// The notes of a backup cut to a table cell.
pub open spec fn notes_cell(n: Option<String>) -> Seq<char> {
    let t = match n {
        Some(x) => x@,
        None => seq![],
    };
    if t.len() <= 40 {
        t
    } else {
        t.take(40)
    }
}

/// One table line for a backup.
pub open spec fn backup_row_text(r: BackupRow) -> Seq<char> {
    pad_right(or_unknown(r.volid), 60) + "  "@ + pad_right(
        decimal(
            match r.vmid {
                Some(v) => v as nat,
                None => 0nat,
            },
        ),
        8,
    ) + "  "@ + pad_right(bytes_text(r.size), 12) + "  "@ + pad_right(or_unknown(r.format), 10) + "  "@ + notes_cell(
        r.notes,
    )
}

/// The backup table: its heading, then one line per listed backup.
pub open spec fn backup_table(
    storage: Seq<char>,
    node: Seq<char>,
    host: Seq<char>,
    filter: Option<u64>,
    rows: Seq<BackupRow>,
) -> Seq<char>
    decreases rows.len(),
{
    if rows.len() == 0 {
        "Backups on storage '"@ + storage + "' (node '"@ + node + "', Proxmox host: "@ + host + ")\n\n"@ + pad_right(
            "VOLUME ID"@,
            60,
        ) + "  "@ + pad_right("VMID"@, 8) + "  "@ + pad_right("SIZE"@, 12) + "  "@ + pad_right("FORMAT"@, 10) + "  "@
            + "NOTES"@
    } else if backup_selected(rows.last(), filter) {
        backup_table(storage, node, host, filter, rows.drop_last()) + "\n"@ + backup_row_text(rows.last())
    } else {
        backup_table(storage, node, host, filter, rows.drop_last())
    }
}

fn backup_row_string(r: &BackupRow) -> (s: String)
    ensures
        s@ == backup_row_text(*r),
{
    let mut s = String::new();
    push_cell(&mut s, &r.volid, 60);
    push_str(&mut s, "  ");
    let id = match r.vmid {
        Some(v) => u64_to_decimal(v),
        None => u64_to_decimal(0),
    };
    push_padded(&mut s, id.as_str(), 8);
    push_str(&mut s, "  ");
    let size = format_bytes(r.size);
    push_padded(&mut s, size.as_str(), 12);
    push_str(&mut s, "  ");
    push_cell(&mut s, &r.format, 10);
    push_str(&mut s, "  ");
    let n = match &r.notes {
        Some(x) => truncate_cell(x.as_str(), 40),
        None => String::new(),
    };
    push_str(&mut s, n.as_str());
    assert(Seq::<char>::empty() + backup_row_text(*r) =~= backup_row_text(*r));
    s
}

fn backup_selected_exec(r: &BackupRow, filter: Option<u64>) -> (b: bool)
    ensures
        b == backup_selected(*r, filter),
{
    match filter {
        Some(f) => r.vmid == Some(f),
        None => true,
    }
}

/// The listing of the backups on a storage, of one guest when a filter is
/// given: "No backups found" when none is listed, else the table, kept
/// within the output limit.
pub fn backup_list_report(storage: &str, node: &str, host: &str, filter: Option<u64>, rows: &Vec<BackupRow>) -> (r: String)
    ensures
        !(exists|i: int| 0 <= i < rows@.len() && backup_selected(#[trigger] rows@[i], filter)) ==> r@
            == "No backups found"@ + match filter {
            Some(f) => " for VM "@ + decimal(f as nat),
            None => seq![],
        } + " on storage '"@ + storage@ + "' (node '"@ + node@ + "')."@,
        (exists|i: int| 0 <= i < rows@.len() && backup_selected(#[trigger] rows@[i], filter)) ==> r@
            == crate::tools::truncated(backup_table(storage@, node@, host@, filter, rows@), OUTPUT_MAX_CHARS),
{
    let mut any = false;
    let mut i: usize = 0;
    while i < rows.len()
        invariant
            i <= rows@.len(),
            any == exists|k: int| 0 <= k < i && backup_selected(#[trigger] rows@[k], filter),
        decreases rows@.len() - i,
    {
        if backup_selected_exec(&rows[i], filter) {
            any = true;
        }
        i = i + 1;
    }
    if !any {
        let mut r = owned("No backups found");
        match filter {
            Some(f) => {
                push_str(&mut r, " for VM ");
                push_num(&mut r, f);
            },
            None => {
                assert(r@ + Seq::<char>::empty() =~= r@);
            },
        }
        push_str(&mut r, " on storage '");
        push_str(&mut r, storage);
        push_str(&mut r, "' (node '");
        push_str(&mut r, node);
        push_str(&mut r, "').");
        return r;
    }
    let mut t = owned("Backups on storage '");
    push_str(&mut t, storage);
    push_str(&mut t, "' (node '");
    push_str(&mut t, node);
    push_str(&mut t, "', Proxmox host: ");
    push_str(&mut t, host);
    push_str(&mut t, ")\n\n");
    push_padded(&mut t, "VOLUME ID", 60);
    push_str(&mut t, "  ");
    push_padded(&mut t, "VMID", 8);
    push_str(&mut t, "  ");
    push_padded(&mut t, "SIZE", 12);
    push_str(&mut t, "  ");
    push_padded(&mut t, "FORMAT", 10);
    push_str(&mut t, "  ");
    push_str(&mut t, "NOTES");
    assert(rows@.take(0) =~= Seq::<BackupRow>::empty());
    let mut i: usize = 0;
    while i < rows.len()
        invariant
            i <= rows@.len(),
            t@ == backup_table(storage@, node@, host@, filter, rows@.take(i as int)),
        decreases rows@.len() - i,
    {
        assert(rows@.take(i + 1).drop_last() =~= rows@.take(i as int));
        if backup_selected_exec(&rows[i], filter) {
            let line = backup_row_string(&rows[i]);
            push_str(&mut t, "\n");
            push_str(&mut t, line.as_str());
        }
        i = i + 1;
    }
    assert(rows@.take(i as int) =~= rows@);
    crate::tools::truncate_output(t.as_str(), OUTPUT_MAX_CHARS)
}

/// The dry-run text of a restore.
pub fn backup_restore_dry_run(vm_type: &str, vmid: u64, archive: &str, host: &str, storage: Option<&str>) -> (r: String)
    ensures
        r@ == "DRY RUN: Would restore "@ + subject(vm_type@, vmid) + " from archive '"@ + archive@
            + "' on Proxmox host '"@ + host@ + "'.\nTarget storage: "@ + or_default(opt_view(storage)),
{
    let mut r = owned("DRY RUN: Would restore ");
    let s = subject_exec(vm_type, vmid);
    push_str(&mut r, s.as_str());
    push_str(&mut r, " from archive '");
    push_str(&mut r, archive);
    push_str(&mut r, "' on Proxmox host '");
    push_str(&mut r, host);
    push_str(&mut r, "'.\nTarget storage: ");
    match storage {
        Some(x) => push_str(&mut r, x),
        None => push_str(&mut r, "(default)"),
    }
    r
}

/// What a confirmation of a restore is asked with.
pub fn backup_restore_description(vm_type: &str, vmid: u64, archive: &str, host: &str) -> (r: String)
    ensures
        r@ == "About to RESTORE "@ + subject(vm_type@, vmid) + " from archive '"@ + archive@ + "' on Proxmox host '"@
            + host@ + "'. If VMID "@ + decimal(vmid as nat) + " already exists, the operation will fail."@,
{
    let mut r = owned("About to RESTORE ");
    let s = subject_exec(vm_type, vmid);
    push_str(&mut r, s.as_str());
    push_str(&mut r, " from archive '");
    push_str(&mut r, archive);
    push_str(&mut r, "' on Proxmox host '");
    push_str(&mut r, host);
    push_str(&mut r, "'. If VMID ");
    push_num(&mut r, vmid);
    push_str(&mut r, " already exists, the operation will fail.");
    r
}

/// The parameters kept with a confirmation token of a restore.
pub fn backup_restore_params_json(
    host: &str,
    node: Option<&str>,
    archive: &str,
    vmid: u64,
    storage: Option<&str>,
    vm_type: &str,
) -> (r: String)
    ensures
        r@ == object_text(
            seq![
                ("archive"@, JsonView::Str(archive@)),
                ("host"@, JsonView::Str(host@)),
                ("node"@, opt_str_json(opt_view(node))),
                ("storage"@, opt_str_json(opt_view(storage))),
                ("vm_type"@, JsonView::Str(vm_type@)),
                ("vmid"@, JsonView::Number(vmid)),
            ],
        ),
{
    let entries: Vec<(&str, JsonValue)> = vec![
        ("archive", JsonValue::Str(owned(archive))),
        ("host", JsonValue::Str(owned(host))),
        ("node", node_json(node)),
        ("storage", node_json(storage)),
        ("vm_type", JsonValue::Str(owned(vm_type))),
        ("vmid", JsonValue::Number(vmid)),
    ];
    proof {
        reveal_strlit("archive");
        reveal_strlit("host");
        reveal_strlit("node");
        reveal_strlit("storage");
        reveal_strlit("vm_type");
        reveal_strlit("vmid");
        reveal_with_fuel(crate::json::keys_ascending, 7);
        reveal_with_fuel(crate::json::text_less, 11);
        assert(crate::json::keys_ascending(crate::json::entries_view(entries@)));
    }
    let r = render_object(&entries);
    assert(crate::json::entries_view(entries@) =~= seq![
        ("archive"@, JsonView::Str(archive@)),
        ("host"@, JsonView::Str(host@)),
        ("node"@, opt_str_json(opt_view(node))),
        ("storage"@, opt_str_json(opt_view(storage))),
        ("vm_type"@, JsonView::Str(vm_type@)),
        ("vmid"@, JsonView::Number(vmid)),
    ]);
    r
}

/// The form of a restore request.
pub fn backup_restore_params(vmid: u64, archive: &str, storage: Option<&str>) -> (params: Vec<(String, String)>)
    ensures
        crate::tools::proxmox::pairs_view(params@) == seq![("vmid"@, decimal(vmid as nat)), ("archive"@, archive@)]
            + crate::tools::proxmox::opt_pair("storage"@, opt_view(storage)),
{
    let mut params: Vec<(String, String)> = Vec::new();
    params.push((owned("vmid"), u64_to_decimal(vmid)));
    params.push((owned("archive"), owned(archive)));
    assert(crate::tools::proxmox::pairs_view(params@) =~= seq![("vmid"@, decimal(vmid as nat)), ("archive"@, archive@)]);
    let s = match storage {
        Some(x) => Some(owned(x)),
        None => None,
    };
    crate::tools::proxmox::push_pair(&mut params, "storage", s);
    params
}

/// The report of a restore.
pub fn backup_restore_report(vm_type: &str, vmid: u64, archive: &str, node: &str, task: Option<&str>) -> (r: String)
    ensures
        r@ == task_text(
            "Restored "@ + subject(vm_type@, vmid) + " from '"@ + archive@ + "' on node '"@ + node@ + "'"@,
            "Restore requested for "@ + subject(vm_type@, vmid) + " from '"@ + archive@ + "' on node '"@ + node@ + "'"@,
            opt_view(task),
        ),
{
    let s = subject_exec(vm_type, vmid);
    let mut done = owned("Restored ");
    push_str(&mut done, s.as_str());
    push_str(&mut done, " from '");
    push_str(&mut done, archive);
    push_str(&mut done, "' on node '");
    push_str(&mut done, node);
    push_str(&mut done, "'");
    let mut requested = owned("Restore requested for ");
    push_str(&mut requested, s.as_str());
    push_str(&mut requested, " from '");
    push_str(&mut requested, archive);
    push_str(&mut requested, "' on node '");
    push_str(&mut requested, node);
    push_str(&mut requested, "'");
    finish_task(done, requested, task)
}

} // verus!
