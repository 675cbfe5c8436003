//! Proxmox VE tools: input checks, the auto-VMID retry policy, the
//! parameters sent to the API and the texts reported back.
use vstd::prelude::*;
use crate::config::Config;
use crate::connection::{find_named, named_index};
use crate::json::{object_text, render_object, JsonValue, JsonView};
use crate::text::{contains_seq, decimal, owned, push_char, push_str, str_contains, str_eq, u64_to_decimal};

verus! {

broadcast use vstd::seq_lib::group_seq_properties;

/// Characters kept of a tool's output.
pub const OUTPUT_MAX_CHARS: usize = 10_000;

/// Seconds to wait for a task when the host sets no limit.
pub const DEFAULT_TASK_WAIT_TIMEOUT_SECS: u64 = 600;

/// The kinds of guest: `qemu` (virtual machine) and `lxc` (container).
pub open spec fn valid_vm_type(t: Seq<char>) -> bool {
    t == "qemu"@ || t == "lxc"@
}

/// The refusal of another guest kind.
pub open spec fn bad_vm_type_message(t: Seq<char>) -> Seq<char> {
    "vm_type must be 'qemu' or 'lxc'. Got '"@ + t + "'"@
}

/// Accepts `qemu` and `lxc` only.
pub fn ensure_vm_type(vm_type: &str) -> (r: Result<(), String>)
    ensures
        r is Ok <==> valid_vm_type(vm_type@),
        r matches Err(m) ==> m@ == bad_vm_type_message(vm_type@),
{
    if str_eq(vm_type, "qemu") || str_eq(vm_type, "lxc") {
        Ok(())
    } else {
        let mut m = owned("vm_type must be 'qemu' or 'lxc'. Got '");
        push_str(&mut m, vm_type);
        push_str(&mut m, "'");
        Err(m)
    }
}

/// The guest kind, `qemu` when not given, checked.
pub fn resolved_vm_type<'a>(vm_type: Option<&'a str>) -> (r: Result<&'a str, String>)
    ensures
        ({
            let t = match vm_type {
                Some(t) => t@,
                None => "qemu"@,
            };
            &&& r is Ok <==> valid_vm_type(t)
            &&& r matches Ok(x) ==> x@ == t
            &&& r matches Err(m) ==> m@ == bad_vm_type_message(t)
        }),
{
    let t = match vm_type {
        Some(t) => t,
        None => "qemu",
    };
    ensure_vm_type(t)?;
    Ok(t)
}

/// The refusal of inputs that belong to the other guest kind.
pub open spec fn platform_problem(vm_type: Seq<char>, has_os_type: bool, has_template: bool) -> Option<Seq<char>> {
    if vm_type == "qemu"@ && has_template {
        Some("template is only valid when vm_type is 'lxc'"@)
    } else if vm_type == "lxc"@ && has_os_type {
        Some("os_type is only valid when vm_type is 'qemu'"@)
    } else {
        None
    }
}

/// A template only for containers, an OS type only for virtual machines.
pub fn validate_vm_create_platform_inputs(
    vm_type: &str,
    os_type: Option<&str>,
    template: Option<&str>,
) -> (r: Result<(), String>)
    ensures
        match platform_problem(vm_type@, os_type is Some, template is Some) {
            Some(m) => r matches Err(e) && e@ == m,
            None => r is Ok,
        },
{
    if str_eq(vm_type, "qemu") && template.is_some() {
        return Err(owned("template is only valid when vm_type is 'lxc'"));
    }
    if str_eq(vm_type, "lxc") && os_type.is_some() {
        return Err(owned("os_type is only valid when vm_type is 'qemu'"));
    }
    Ok(())
}

/// ASCII lower case of one character, as `char::to_ascii_lowercase`.
pub open spec fn ascii_lower(c: char) -> char {
    if 'A' <= c && c <= 'Z' {
        ((c as u32) + 32) as char
    } else {
        c
    }
}

/// ASCII lower case of a text, as `str::to_ascii_lowercase`.
pub open spec fn ascii_lower_text(s: Seq<char>) -> Seq<char> {
    s.map_values(|c: char| ascii_lower(c))
}

/// `s.to_ascii_lowercase()`.
pub fn to_ascii_lowercase(s: &str) -> (r: String)
    ensures
        r@ == ascii_lower_text(s@),
{
    let v = crate::text::chars_of(s);
    let mut r = String::new();
    let mut i: usize = 0;
    while i < v.len()
        invariant
            i <= v@.len(),
            v@ == s@,
            r@ == ascii_lower_text(s@.take(i as int)),
        decreases v@.len() - i,
    {
        let c = v[i];
        let l = if 'A' <= c && c <= 'Z' {
            ((c as u8) + 32) as char
        } else {
            c
        };
        assert(l == ascii_lower(c));
        push_char(&mut r, l);
        assert(ascii_lower_text(s@.take(i + 1)) =~= ascii_lower_text(s@.take(i as int)).push(l));
        i = i + 1;
    }
    assert(s@.take(i as int) =~= s@);
    r
}

/// Whether an API error says that the VMID is already taken: it speaks of
/// a conflict and names the VMID, ignoring ASCII case.
pub open spec fn vmid_conflict(error_text: Seq<char>, vmid: u64) -> bool {
    let m = ascii_lower_text(error_text);
    let id = decimal(vmid as nat);
    let conflict = contains_seq(m, "already exists"@) || contains_seq(m, "already used"@) || contains_seq(
        m,
        "already in use"@,
    ) || contains_seq(m, "duplicate"@);
    let names_vmid = contains_seq(m, "vm "@ + id) || contains_seq(m, "ct "@ + id) || (contains_seq(
        m,
        "vmid"@,
    ) && contains_seq(m, id));
    conflict && names_vmid
}

/// Whether the error text reports a duplicate VMID `vmid`.
pub fn is_duplicate_vmid_conflict(error_text: &str, vmid: u64) -> (b: bool)
    ensures
        b == vmid_conflict(error_text@, vmid),
{
    let m = to_ascii_lowercase(error_text);
    let id = u64_to_decimal(vmid);
    let ms = m.as_str();
    let conflict = str_contains(ms, "already exists") || str_contains(ms, "already used")
        || str_contains(ms, "already in use") || str_contains(ms, "duplicate");
    let mut vm = owned("vm ");
    push_str(&mut vm, id.as_str());
    let mut ct = owned("ct ");
    push_str(&mut ct, id.as_str());
    let names_vmid = str_contains(ms, vm.as_str()) || str_contains(ms, ct.as_str()) || (str_contains(
        ms,
        "vmid",
    ) && str_contains(ms, id.as_str()));
    conflict && names_vmid
}

/// How often, and how far apart, creation is retried with a fresh VMID.
#[derive(Debug, Clone, Copy)]
pub struct AutoVmidRetryPolicy {
    pub attempts: usize,
    pub backoff_ms: u64,
}

/// The error once every retry with a fresh VMID hit a conflict.
pub open spec fn exhausted_message(
    tool_name: Seq<char>,
    field_name: Seq<char>,
    policy: AutoVmidRetryPolicy,
    last_error: Seq<char>,
) -> Seq<char> {
    tool_name + " failed after "@ + decimal(policy.attempts as nat) + " auto-VMID conflict retries ("@
        + decimal(policy.backoff_ms as nat) + "ms backoff). Pass an explicit "@ + field_name
        + " or increase next_vmid_retry_attempts/next_vmid_retry_backoff_ms. Last error: "@ + last_error
}

/// The error once every retry with a fresh VMID hit a conflict.
pub fn exhausted_auto_vmid_error(
    tool_name: &str,
    field_name: &str,
    retry_policy: AutoVmidRetryPolicy,
    last_error: &str,
) -> (m: String)
    ensures
        m@ == exhausted_message(tool_name@, field_name@, retry_policy, last_error@),
{
    let mut m = owned(tool_name);
    push_str(&mut m, " failed after ");
    let a = u64_to_decimal(retry_policy.attempts as u64);
    push_str(&mut m, a.as_str());
    push_str(&mut m, " auto-VMID conflict retries (");
    let b = u64_to_decimal(retry_policy.backoff_ms);
    push_str(&mut m, b.as_str());
    push_str(&mut m, "ms backoff). Pass an explicit ");
    push_str(&mut m, field_name);
    push_str(&mut m, " or increase next_vmid_retry_attempts/next_vmid_retry_backoff_ms. Last error: ");
    push_str(&mut m, last_error);
    m
}

/// What to do after the API refused a creation.
#[derive(Debug)]
pub enum RetryDecision {
    /// Fetch a fresh VMID, wait the backoff and try again.
    Retry,
    /// Give up with this error.
    Fail(String),
}

/// The decision after a refused creation: retry with a fresh VMID when the
/// VMID was chosen automatically, the error is a VMID conflict and retries
/// remain; report exhaustion when none remain; pass other errors on.
pub open spec fn retry_verdict(
    auto: bool,
    conflict: bool,
    retries: usize,
    policy: AutoVmidRetryPolicy,
    tool_name: Seq<char>,
    field_name: Seq<char>,
    error_text: Seq<char>,
) -> Option<Seq<char>> {
    if auto && conflict && retries < policy.attempts {
        None
    } else if auto && conflict {
        Some(exhausted_message(tool_name, field_name, policy, error_text))
    } else {
        Some(error_text)
    }
}

/// Decides after the API refused a creation with `error_text` for `vmid`,
/// `retries` conflicts having been retried already.
pub fn vmid_retry_decision(
    auto: bool,
    error_text: &str,
    vmid: u64,
    retries: usize,
    policy: AutoVmidRetryPolicy,
    tool_name: &str,
    field_name: &str,
) -> (r: RetryDecision)
    ensures
        match retry_verdict(auto, vmid_conflict(error_text@, vmid), retries, policy, tool_name@, field_name@, error_text@) {
            None => r is Retry,
            Some(m) => r matches RetryDecision::Fail(e) && e@ == m,
        },
{
    let conflict = auto && is_duplicate_vmid_conflict(error_text, vmid);
    if conflict && retries < policy.attempts {
        RetryDecision::Retry
    } else if conflict {
        RetryDecision::Fail(exhausted_auto_vmid_error(tool_name, field_name, policy, error_text))
    } else {
        RetryDecision::Fail(owned(error_text))
    }
}

/// A run of decisions never retries more often than the policy allows: the
/// count of retries before a failure is at most `attempts`.
pub proof fn law_retries_bounded(
    conflicts: Seq<bool>,
    policy: AutoVmidRetryPolicy,
    tool_name: Seq<char>,
    field_name: Seq<char>,
    error_text: Seq<char>,
)
    requires
        conflicts.len() <= usize::MAX,
        forall|k: int|
            0 <= k < conflicts.len() ==> retry_verdict(
                true,
                #[trigger] conflicts[k],
                k as usize,
                policy,
                tool_name,
                field_name,
                error_text,
            ) is None,
    ensures
        conflicts.len() <= policy.attempts,
{
    if conflicts.len() > policy.attempts {
        let k = policy.attempts as int;
        assert(retry_verdict(true, conflicts[k], k as usize, policy, tool_name, field_name, error_text)
            is None);
    }
}

/// `"1"` for true and `"0"` for false, as the API writes booleans.
pub fn bool_to_proxmox(value: bool) -> (s: &'static str)
    ensures
        s@ == (if value {
            "1"@
        } else {
            "0"@
        }),
{
    proof {
        reveal_strlit("1");
        reveal_strlit("0");
    }
    if value {
        "1"
    } else {
        "0"
    }
}

/// The first `max_chars` characters of a cell, all of it when shorter.
pub fn truncate_cell(value: &str, max_chars: usize) -> (r: String)
    ensures
        r@ == (if value@.len() <= max_chars {
            value@
        } else {
            value@.take(max_chars as int)
        }),
{
    let v = crate::text::chars_of(value);
    if v.len() <= max_chars {
        return owned(value);
    }
    crate::text::string_of_range(v.as_slice(), 0, max_chars)
}

/// An uptime as days, hours and minutes, leaving out leading zero units.
pub open spec fn uptime_text(seconds: u64) -> Seq<char> {
    let days = seconds / 86_400;
    let hours = (seconds % 86_400) / 3_600;
    let minutes = (seconds % 3_600) / 60;
    if days > 0 {
        decimal(days as nat) + "d "@ + decimal(hours as nat) + "h "@ + decimal(minutes as nat) + "m"@
    } else if hours > 0 {
        decimal(hours as nat) + "h "@ + decimal(minutes as nat) + "m"@
    } else {
        decimal(minutes as nat) + "m"@
    }
}

/// Formats an uptime in seconds.
pub fn format_uptime(seconds: u64) -> (r: String)
    ensures
        r@ == uptime_text(seconds),
{
    let days = seconds / 86_400;
    let hours = (seconds % 86_400) / 3_600;
    let minutes = (seconds % 3_600) / 60;
    let mut r = String::new();
    if days > 0 {
        let d = u64_to_decimal(days);
        push_str(&mut r, d.as_str());
        push_str(&mut r, "d ");
    }
    if days > 0 || hours > 0 {
        let h = u64_to_decimal(hours);
        push_str(&mut r, h.as_str());
        push_str(&mut r, "h ");
    }
    let m = u64_to_decimal(minutes);
    push_str(&mut r, m.as_str());
    push_str(&mut r, "m");
    r
}

/// `n / d` rounded to the nearest integer, ties to even.
pub open spec fn div_round_even(n: nat, d: nat) -> nat {
    let q = n / d;
    let r = n % d;
    if r * 2 > d || (r * 2 == d && q % 2 == 1) {
        q + 1
    } else {
        q
    }
}

/// The spacing of `f64` values around `b`: one below 2^53, doubling with
/// each further bit of `b`.
pub open spec fn f64_unit(b: nat) -> nat {
    if b < 0x20_0000_0000_0000 {
        1
    } else if b < 0x40_0000_0000_0000 {
        2
    } else if b < 0x80_0000_0000_0000 {
        4
    } else if b < 0x100_0000_0000_0000 {
        8
    } else if b < 0x200_0000_0000_0000 {
        16
    } else if b < 0x400_0000_0000_0000 {
        32
    } else if b < 0x800_0000_0000_0000 {
        64
    } else if b < 0x1000_0000_0000_0000 {
        128
    } else if b < 0x2000_0000_0000_0000 {
        256
    } else if b < 0x4000_0000_0000_0000 {
        512
    } else if b < 0x8000_0000_0000_0000 {
        1024
    } else {
        2048
    }
}

/// The value of `b as f64` for a `u64`: `b` rounded to the nearest multiple
/// of the spacing, ties to an even multiple.
pub open spec fn f64_of(b: nat) -> nat {
    div_round_even(b, f64_unit(b)) * f64_unit(b)
}

/// `format!("{:.1}", x)` for `x = n / d`, `d` a power of two: the value
/// rounded to tenths (ties to even) with one decimal.
pub open spec fn one_decimal(n: nat, d: nat) -> Seq<char> {
    let q = div_round_even(n * 10, d);
    decimal(q / 10) + "."@ + seq![crate::text::digit_char(q % 10)]
}

/// A byte count in the largest binary unit it reaches, with one decimal.
pub open spec fn bytes_text(bytes: u64) -> Seq<char> {
    if bytes >= 0x100_0000_0000 {
        one_decimal(f64_of(bytes as nat), 0x100_0000_0000) + " TB"@
    } else if bytes >= 0x4000_0000 {
        one_decimal(bytes as nat, 0x4000_0000) + " GB"@
    } else if bytes >= 0x10_0000 {
        one_decimal(bytes as nat, 0x10_0000) + " MB"@
    } else if bytes >= 0x400 {
        one_decimal(bytes as nat, 0x400) + " KB"@
    } else {
        decimal(bytes as nat) + " B"@
    }
}

fn div_round_even_exec(n: u128, d: u128) -> (q: u128)
    requires
        d > 0,
        d <= 0x1_0000_0000_0000_0000,
        n < 0x1_0000_0000_0000_0000_0000_0000,
    ensures
        q == div_round_even(n as nat, d as nat),
        q <= n / d + 1,
{
    let q = n / d;
    let r = n % d;
    if r * 2 > d || (r * 2 == d && q % 2 == 1) {
        q + 1
    } else {
        q
    }
}

fn f64_unit_exec(b: u64) -> (u: u128)
    ensures
        u == f64_unit(b as nat),
        1 <= u <= 2048,
{
    if b < 0x20_0000_0000_0000 {
        1
    } else if b < 0x40_0000_0000_0000 {
        2
    } else if b < 0x80_0000_0000_0000 {
        4
    } else if b < 0x100_0000_0000_0000 {
        8
    } else if b < 0x200_0000_0000_0000 {
        16
    } else if b < 0x400_0000_0000_0000 {
        32
    } else if b < 0x800_0000_0000_0000 {
        64
    } else if b < 0x1000_0000_0000_0000 {
        128
    } else if b < 0x2000_0000_0000_0000 {
        256
    } else if b < 0x4000_0000_0000_0000 {
        512
    } else if b < 0x8000_0000_0000_0000 {
        1024
    } else {
        2048
    }
}

fn one_decimal_exec(n: u128, d: u128) -> (s: String)
    requires
        0x400 <= d <= 0x100_0000_0000,
        n <= 0x2_0000_0000_0000_0000,
    ensures
        s@ == one_decimal(n as nat, d as nat),
{
    let q = div_round_even_exec(n * 10, d);
    proof {
        let m: int = n as int * 10;
        vstd::arithmetic::div_mod::lemma_div_is_ordered_by_denominator(m, 0x400, d as int);
        assert(m / (d as int) <= m / 0x400);
    }
    let whole = q / 10;
    assert(whole < 0x1_0000_0000_0000_0000);
    let mut s = u64_to_decimal(whole as u64);
    push_str(&mut s, ".");
    push_char(&mut s, crate::text::digit((q % 10) as u64));
    s
}

/// Formats a byte count with binary units (`B`, `KB`, `MB`, `GB`, `TB`).
pub fn format_bytes(bytes: u64) -> (r: String)
    ensures
        r@ == bytes_text(bytes),
{
    let (n, d, unit): (u128, u128, &str) = if bytes >= 0x100_0000_0000 {
        let u = f64_unit_exec(bytes);
        let q = div_round_even_exec(bytes as u128, u);
        assert(q * u <= (bytes as u128) + u) by (nonlinear_arith)
            requires
                q <= (bytes as u128) / u + 1,
                u >= 1,
        {
            assert(((bytes as u128) / u) * u <= bytes as u128) by (nonlinear_arith)
                requires
                    u >= 1,
            ;
        }
        let rounded = q * u;
        (rounded, 0x100_0000_0000, " TB")
    } else if bytes >= 0x4000_0000 {
        (bytes as u128, 0x4000_0000, " GB")
    } else if bytes >= 0x10_0000 {
        (bytes as u128, 0x10_0000, " MB")
    } else if bytes >= 0x400 {
        (bytes as u128, 0x400, " KB")
    } else {
        let mut r = u64_to_decimal(bytes);
        push_str(&mut r, " B");
        return r;
    };
    let mut r = one_decimal_exec(n, d);
    push_str(&mut r, unit);
    r
}

/// The names of the configured Proxmox hosts.
pub open spec fn host_names(c: Config) -> Seq<String> {
    c.proxmox.hosts@.map_values(|e: (String, crate::config::ProxmoxHost)| e.0)
}

/// The host used when none is named: the only configured one; with none or
/// several configured, the caller must name one.
pub fn default_proxmox_host(config: &Config) -> (r: Result<String, String>)
    ensures
        config.proxmox.hosts@.len() == 0 ==> (r matches Err(m) && m@ == "No Proxmox hosts are configured."@),
        config.proxmox.hosts@.len() == 1 ==> (r matches Ok(n) && n@ == config.proxmox.hosts@[0].0@),
        config.proxmox.hosts@.len() > 1 ==> (r matches Err(m) && exists|names: Seq<String>|
            crate::text::sorted_texts(crate::json::texts(names)) && crate::json::texts(names).to_multiset()
                == crate::json::texts(host_names(*config)).to_multiset() && m@
                == "Multiple Proxmox hosts are configured ("@ + crate::tools::ssh::joined(names, ", "@)
                + "). Pass 'host' explicitly."@),
{
    let hosts = &config.proxmox.hosts;
    if hosts.len() == 0 {
        return Err(owned("No Proxmox hosts are configured."));
    }
    if hosts.len() == 1 {
        return Ok(hosts[0].0.clone());
    }
    let mut names: Vec<String> = Vec::new();
    let mut i: usize = 0;
    while i < hosts.len()
        invariant
            i <= hosts@.len(),
            names@ == host_names(*config).take(i as int),
            hosts@ == config.proxmox.hosts@,
        decreases hosts@.len() - i,
    {
        names.push(hosts[i].0.clone());
        assert(names@ =~= host_names(*config).take(i + 1));
        i = i + 1;
    }
    assert(names@ =~= host_names(*config));
    let sorted = crate::text::sort_strings(&names);
    let mut m = owned("Multiple Proxmox hosts are configured (");
    let j = crate::tools::ssh::join(&sorted, ", ");
    push_str(&mut m, j.as_str());
    push_str(&mut m, "). Pass 'host' explicitly.");
    Err(m)
}

/// Seconds to wait for tasks on `host`: its configured limit, 600 when the
/// host is unknown.
pub fn task_wait_timeout_secs(config: &Config, host: &str) -> (t: u64)
    ensures
        t == match named_index(config.proxmox.hosts@, host@) {
            Some(i) => config.proxmox.hosts@[i].1.task_wait_timeout_secs,
            None => DEFAULT_TASK_WAIT_TIMEOUT_SECS,
        },
{
    match find_named(&config.proxmox.hosts, host) {
        Some(i) => config.proxmox.hosts[i].1.task_wait_timeout_secs,
        None => DEFAULT_TASK_WAIT_TIMEOUT_SECS,
    }
}

/// The auto-VMID retry policy of `host`: its configured attempts and
/// backoff, three attempts 250 ms apart when the host is unknown.
pub fn auto_vmid_retry_policy(config: &Config, host: &str) -> (p: AutoVmidRetryPolicy)
    ensures
        match named_index(config.proxmox.hosts@, host@) {
            Some(i) => p.attempts == config.proxmox.hosts@[i].1.next_vmid_retry_attempts && p.backoff_ms
                == config.proxmox.hosts@[i].1.next_vmid_retry_backoff_ms,
            None => p.attempts == 3 && p.backoff_ms == 250,
        },
{
    match find_named(&config.proxmox.hosts, host) {
        Some(i) => AutoVmidRetryPolicy {
            attempts: config.proxmox.hosts[i].1.next_vmid_retry_attempts,
            backoff_ms: config.proxmox.hosts[i].1.next_vmid_retry_backoff_ms,
        },
        None => AutoVmidRetryPolicy { attempts: 3, backoff_ms: 250 },
    }
}

/// Key/value pairs as texts.
pub open spec fn pairs_view(v: Seq<(String, String)>) -> Seq<(Seq<char>, Seq<char>)> {
    v.map_values(|e: (String, String)| (e.0@, e.1@))
}

/// One pair when the value is present.
pub open spec fn opt_pair(key: Seq<char>, v: Option<Seq<char>>) -> Seq<(Seq<char>, Seq<char>)> {
    match v {
        Some(x) => seq![(key, x)],
        None => seq![],
    }
}

/// The text of an optional string.
pub open spec fn opt_text(v: Option<String>) -> Option<Seq<char>> {
    match v {
        Some(x) => Some(x@),
        None => None,
    }
}

/// The decimal text of an optional number.
pub open spec fn opt_num(v: Option<u64>) -> Option<Seq<char>> {
    match v {
        Some(x) => Some(decimal(x as nat)),
        None => None,
    }
}

pub(crate) fn push_pair(params: &mut Vec<(String, String)>, key: &str, v: Option<String>)
    ensures
        pairs_view(final(params)@) == pairs_view(old(params)@) + opt_pair(key@, opt_text(v)),
{
    let ghost v0 = opt_text(v);
    match v {
        Some(x) => {
            params.push((owned(key), x));
        },
        None => {},
    }
    assert(pairs_view(params@) =~= pairs_view(old(params)@) + opt_pair(key@, v0));
}

pub(crate) fn num_text(v: Option<u64>) -> (r: Option<String>)
    ensures
        opt_text(r) == opt_num(v),
{
    match v {
        Some(x) => Some(u64_to_decimal(x)),
        None => None,
    }
}

pub(crate) fn clone_opt(v: &Option<String>) -> (r: Option<String>)
    ensures
        r == *v,
{
    match v {
        Some(x) => Some(x.clone()),
        None => None,
    }
}

/// A request to create a guest.
#[derive(Debug)]
pub struct VmCreateRequest {
    pub vmid: Option<u64>,
    pub vm_type: String,
    pub name: Option<String>,
    pub cores: Option<u64>,
    pub memory: Option<u64>,
    pub os_type: Option<String>,
    pub template: Option<String>,
    pub iso: Option<String>,
    pub storage: Option<String>,
    pub disk_size: Option<String>,
    pub net: Option<String>,
}

/// One line when the value is present.
pub open spec fn opt_line(prefix: Seq<char>, v: Option<Seq<char>>, suffix: Seq<char>) -> Seq<Seq<char>> {
    match v {
        Some(x) => seq![prefix + x + suffix],
        None => seq![],
    }
}

/// The summary lines of a creation request.
pub open spec fn create_summary(r: VmCreateRequest) -> Seq<Seq<char>> {
    seq!["Type: "@ + r.vm_type@] + opt_line("VMID: "@, opt_num(r.vmid), seq![]) + opt_line(
        "Name: "@,
        opt_text(r.name),
        seq![],
    ) + opt_line("Cores: "@, opt_num(r.cores), seq![]) + opt_line(
        "Memory: "@,
        opt_num(r.memory),
        " MB"@,
    ) + (if r.vm_type@ == "qemu"@ {
        opt_line("OS Type: "@, opt_text(r.os_type), seq![])
    } else {
        opt_line("Template: "@, opt_text(r.template), seq![])
    }) + opt_line("ISO: "@, opt_text(r.iso), seq![]) + opt_line("Storage: "@, opt_text(r.storage), seq![])
        + opt_line("Disk: "@, opt_text(r.disk_size), seq![]) + opt_line(
        "Network: "@,
        opt_text(r.net),
        seq![],
    )
}

fn push_line(lines: &mut Vec<String>, prefix: &str, v: Option<String>, suffix: &str)
    ensures
        crate::json::texts(final(lines)@) == crate::json::texts(old(lines)@) + opt_line(
            prefix@,
            opt_text(v),
            suffix@,
        ),
{
    let ghost v0 = opt_text(v);
    match v {
        Some(x) => {
            let mut l = owned(prefix);
            push_str(&mut l, x.as_str());
            push_str(&mut l, suffix);
            lines.push(l);
        },
        None => {},
    }
    assert(crate::json::texts(lines@) =~= crate::json::texts(old(lines)@) + opt_line(prefix@, v0, suffix@));
}

/// Lines joined by newlines.
pub open spec fn lines_text(lines: Seq<Seq<char>>) -> Seq<char>
    decreases lines.len(),
{
    if lines.len() == 0 {
        seq![]
    } else if lines.len() == 1 {
        lines[0]
    } else {
        lines_text(lines.drop_last()) + "\n"@ + lines.last()
    }
}

/// Lines joined by newlines.
pub fn join_lines(lines: &Vec<String>) -> (r: String)
    ensures
        r@ == lines_text(crate::json::texts(lines@)),
{
    let mut r = String::new();
    let mut i: usize = 0;
    while i < lines.len()
        invariant
            i <= lines@.len(),
            r@ == lines_text(crate::json::texts(lines@.take(i as int))),
        decreases lines@.len() - i,
    {
        assert(crate::json::texts(lines@.take(i + 1)).drop_last() =~= crate::json::texts(lines@.take(i as int)));
        if i > 0 {
            push_str(&mut r, "\n");
        }
        push_str(&mut r, lines[i].as_str());
        i = i + 1;
    }
    assert(lines@.take(i as int) =~= lines@);
    r
}

/// The summary lines of a creation request.
pub fn vm_create_summary(req: &VmCreateRequest) -> (lines: Vec<String>)
    ensures
        crate::json::texts(lines@) == create_summary(*req),
{
    let mut lines: Vec<String> = Vec::new();
    let mut first = owned("Type: ");
    push_str(&mut first, req.vm_type.as_str());
    lines.push(first);
    assert(crate::json::texts(lines@) =~= seq!["Type: "@ + req.vm_type@]);
    push_line(&mut lines, "VMID: ", num_text(req.vmid), "");
    push_line(&mut lines, "Name: ", clone_opt(&req.name), "");
    push_line(&mut lines, "Cores: ", num_text(req.cores), "");
    push_line(&mut lines, "Memory: ", num_text(req.memory), " MB");
    if str_eq(req.vm_type.as_str(), "qemu") {
        push_line(&mut lines, "OS Type: ", clone_opt(&req.os_type), "");
    } else {
        push_line(&mut lines, "Template: ", clone_opt(&req.template), "");
    }
    push_line(&mut lines, "ISO: ", clone_opt(&req.iso), "");
    push_line(&mut lines, "Storage: ", clone_opt(&req.storage), "");
    push_line(&mut lines, "Disk: ", clone_opt(&req.disk_size), "");
    push_line(&mut lines, "Network: ", clone_opt(&req.net), "");
    proof {
        reveal_strlit("");
    }
    assert(crate::json::texts(lines@) =~= create_summary(*req));
    lines
}

/// The dry-run report of a creation request.
pub fn vm_create_dry_run(req: &VmCreateRequest, host: &str) -> (r: String)
    ensures
        r@ == "DRY RUN: Would create "@ + req.vm_type@ + " on Proxmox host '"@ + host@ + "':\n"@
            + lines_text(create_summary(*req)),
{
    let lines = vm_create_summary(req);
    let mut r = owned("DRY RUN: Would create ");
    push_str(&mut r, req.vm_type.as_str());
    push_str(&mut r, " on Proxmox host '");
    push_str(&mut r, host);
    push_str(&mut r, "':\n");
    let j = join_lines(&lines);
    push_str(&mut r, j.as_str());
    r
}

/// What the confirmation prompt says of a creation request.
pub fn vm_create_description(req: &VmCreateRequest, host: &str) -> (r: String)
    ensures
        r@ == "About to CREATE a new "@ + req.vm_type@ + " on Proxmox host '"@ + host@ + "':\n"@
            + lines_text(create_summary(*req)),
{
    let lines = vm_create_summary(req);
    let mut r = owned("About to CREATE a new ");
    push_str(&mut r, req.vm_type.as_str());
    push_str(&mut r, " on Proxmox host '");
    push_str(&mut r, host);
    push_str(&mut r, "':\n");
    let j = join_lines(&lines);
    push_str(&mut r, j.as_str());
    r
}

/// The parameters sent to create a guest with `vmid`: the creation
/// settings of a virtual machine (OS type, ISO, disk of 32G by default) or
/// of a container (template, root disk of 8 by default).
pub open spec fn create_params(r: VmCreateRequest, vmid: u64) -> Seq<(Seq<char>, Seq<char>)> {
    let common = seq![("vmid"@, decimal(vmid as nat))] + opt_pair("name"@, opt_text(r.name)) + opt_pair(
        "cores"@,
        opt_num(r.cores),
    ) + opt_pair("memory"@, opt_num(r.memory));
    if r.vm_type@ == "qemu"@ {
        common + opt_pair("ostype"@, opt_text(r.os_type)) + opt_pair(
            "ide2"@,
            match r.iso {
                Some(i) => Some(i@ + ",media=cdrom"@),
                None => None,
            },
        ) + opt_pair(
            "scsi0"@,
            match r.storage {
                Some(s) => Some(
                    s@ + ":"@ + match r.disk_size {
                        Some(d) => d@,
                        None => "32G"@,
                    },
                ),
                None => None,
            },
        ) + opt_pair("net0"@, opt_text(r.net))
    } else {
        common + opt_pair("ostemplate"@, opt_text(r.template)) + opt_pair(
            "rootfs"@,
            match r.storage {
                Some(s) => Some(
                    s@ + ":"@ + match r.disk_size {
                        Some(d) => d@,
                        None => "8"@,
                    },
                ),
                None => None,
            },
        ) + opt_pair("net0"@, opt_text(r.net))
    }
}

fn storage_spec(storage: &Option<String>, disk_size: &Option<String>, default_size: &str) -> (r: Option<String>)
    ensures
        opt_text(r) == match *storage {
            Some(s) => Some(
                s@ + ":"@ + match *disk_size {
                    Some(d) => d@,
                    None => default_size@,
                },
            ),
            None => None,
        },
{
    match storage {
        Some(s) => {
            let mut x = owned(s.as_str());
            push_str(&mut x, ":");
            match disk_size {
                Some(d) => push_str(&mut x, d.as_str()),
                None => push_str(&mut x, default_size),
            }
            Some(x)
        },
        None => None,
    }
}

/// The API parameters to create the requested guest with `vmid`.
pub fn vm_create_params(req: &VmCreateRequest, vmid: u64) -> (params: Vec<(String, String)>)
    ensures
        pairs_view(params@) == create_params(*req, vmid),
{
    let mut params: Vec<(String, String)> = Vec::new();
    push_pair(&mut params, "vmid", Some(u64_to_decimal(vmid)));
    push_pair(&mut params, "name", clone_opt(&req.name));
    push_pair(&mut params, "cores", num_text(req.cores));
    push_pair(&mut params, "memory", num_text(req.memory));
    if str_eq(req.vm_type.as_str(), "qemu") {
        push_pair(&mut params, "ostype", clone_opt(&req.os_type));
        let iso = match &req.iso {
            Some(i) => {
                let mut x = owned(i.as_str());
                push_str(&mut x, ",media=cdrom");
                Some(x)
            },
            None => None,
        };
        push_pair(&mut params, "ide2", iso);
        push_pair(&mut params, "scsi0", storage_spec(&req.storage, &req.disk_size, "32G"));
        push_pair(&mut params, "net0", clone_opt(&req.net));
    } else {
        push_pair(&mut params, "ostemplate", clone_opt(&req.template));
        push_pair(&mut params, "rootfs", storage_spec(&req.storage, &req.disk_size, "8"));
        push_pair(&mut params, "net0", clone_opt(&req.net));
    }
    assert(pairs_view(params@) =~= create_params(*req, vmid));
    params
}

/// The API path of guest creation on a node.
pub fn vm_create_path(node: &str, vm_type: &str) -> (p: String)
    ensures
        p@ == "/nodes/"@ + node@ + "/"@ + vm_type@,
{
    let mut p = owned("/nodes/");
    push_str(&mut p, node);
    push_str(&mut p, "/");
    push_str(&mut p, vm_type);
    p
}

/// The report of a creation; `task_result` is the outcome of the creation
/// task when the API started one.
pub fn vm_create_report(vm_type: &str, vmid: u64, node: &str, task_result: Option<&str>) -> (r: String)
    ensures
        r@ == "Created "@ + vm_type@ + " "@ + decimal(vmid as nat) + " on node '"@ + node@ + "'."@
            + match task_result {
            Some(t) => " "@ + t@,
            None => seq![],
        },
{
    let mut r = owned("Created ");
    push_str(&mut r, vm_type);
    push_str(&mut r, " ");
    let d = u64_to_decimal(vmid);
    push_str(&mut r, d.as_str());
    push_str(&mut r, " on node '");
    push_str(&mut r, node);
    push_str(&mut r, "'.");
    match task_result {
        Some(t) => {
            push_str(&mut r, " ");
            push_str(&mut r, t);
        },
        None => {},
    }
    r
}

/// The parameters kept with a confirmation token of a creation request.
pub open spec fn create_params_json(host: Seq<char>, node: Option<Seq<char>>, r: VmCreateRequest) -> Seq<char> {
    object_text(
        seq![
            ("cores"@, opt_num_json(r.cores)),
            ("disk_size"@, opt_str_json(opt_text(r.disk_size))),
            ("host"@, JsonView::Str(host)),
            ("iso"@, opt_str_json(opt_text(r.iso))),
            ("memory"@, opt_num_json(r.memory)),
            ("name"@, opt_str_json(opt_text(r.name))),
            ("net"@, opt_str_json(opt_text(r.net))),
            ("node"@, opt_str_json(node)),
            ("os_type"@, opt_str_json(opt_text(r.os_type))),
            ("storage"@, opt_str_json(opt_text(r.storage))),
            ("template"@, opt_str_json(opt_text(r.template))),
            ("vm_type"@, JsonView::Str(r.vm_type@)),
            ("vmid"@, opt_num_json(r.vmid)),
        ],
    )
}

/// An optional text as JSON (`null` when absent).
pub open spec fn opt_str_json(v: Option<Seq<char>>) -> JsonView {
    match v {
        Some(x) => JsonView::Str(x),
        None => JsonView::Null,
    }
}

/// An optional number as JSON (`null` when absent).
pub open spec fn opt_num_json(v: Option<u64>) -> JsonView {
    match v {
        Some(x) => JsonView::Number(x),
        None => JsonView::Null,
    }
}

pub(crate) fn str_json(v: &Option<String>) -> (j: JsonValue)
    ensures
        j@ == opt_str_json(opt_text(*v)),
{
    match v {
        Some(x) => JsonValue::Str(x.clone()),
        None => JsonValue::Null,
    }
}

pub(crate) fn num_json(v: Option<u64>) -> (j: JsonValue)
    ensures
        j@ == opt_num_json(v),
{
    match v {
        Some(x) => JsonValue::Number(x),
        None => JsonValue::Null,
    }
}

/// The parameters kept with a confirmation token of a creation request.
pub fn vm_create_params_json(host: &str, node: Option<&str>, req: &VmCreateRequest) -> (r: String)
    ensures
        r@ == create_params_json(host@, crate::confirmation::opt_view(node), *req),
{
    let node_json = match node {
        Some(n) => JsonValue::Str(owned(n)),
        None => JsonValue::Null,
    };
    let entries: Vec<(&str, JsonValue)> = vec![
        ("cores", num_json(req.cores)),
        ("disk_size", str_json(&req.disk_size)),
        ("host", JsonValue::Str(owned(host))),
        ("iso", str_json(&req.iso)),
        ("memory", num_json(req.memory)),
        ("name", str_json(&req.name)),
        ("net", str_json(&req.net)),
        ("node", node_json),
        ("os_type", str_json(&req.os_type)),
        ("storage", str_json(&req.storage)),
        ("template", str_json(&req.template)),
        ("vm_type", JsonValue::Str(req.vm_type.clone())),
        ("vmid", num_json(req.vmid)),
    ];
    proof {
        reveal_strlit("cores");
        reveal_strlit("disk_size");
        reveal_strlit("host");
        reveal_strlit("iso");
        reveal_strlit("memory");
        reveal_strlit("name");
        reveal_strlit("net");
        reveal_strlit("node");
        reveal_strlit("os_type");
        reveal_strlit("storage");
        reveal_strlit("template");
        reveal_strlit("vm_type");
        reveal_strlit("vmid");
        reveal_with_fuel(crate::json::keys_ascending, 14);
        reveal_with_fuel(crate::json::text_less, 11);
        assert(crate::json::keys_ascending(crate::json::entries_view(entries@)));
    }
    let r = render_object(&entries);
    assert(entries@[7].1@ == opt_str_json(crate::confirmation::opt_view(node)));
    assert(crate::json::entries_view(entries@) =~= seq![
        ("cores"@, opt_num_json(req.cores)),
        ("disk_size"@, opt_str_json(opt_text(req.disk_size))),
        ("host"@, JsonView::Str(host@)),
        ("iso"@, opt_str_json(opt_text(req.iso))),
        ("memory"@, opt_num_json(req.memory)),
        ("name"@, opt_str_json(opt_text(req.name))),
        ("net"@, opt_str_json(opt_text(req.net))),
        ("node"@, opt_str_json(crate::confirmation::opt_view(node))),
        ("os_type"@, opt_str_json(opt_text(req.os_type))),
        ("storage"@, opt_str_json(opt_text(req.storage))),
        ("template"@, opt_str_json(opt_text(req.template))),
        ("vm_type"@, JsonView::Str(req.vm_type@)),
        ("vmid"@, opt_num_json(req.vmid)),
    ]);
    r
}

/// The dry-run report of a clone: the new VMID when given, whether the
/// clone is full (the default) and the name when given.
pub open spec fn clone_dry_run_text(
    vmid: u64,
    newid: Option<u64>,
    host: Seq<char>,
    full: Option<bool>,
    name: Option<Seq<char>>,
) -> Seq<char> {
    "DRY RUN: Would clone VM "@ + decimal(vmid as nat) + " to new VM"@ + match newid {
        Some(id) => " "@ + decimal(id as nat),
        None => seq![],
    } + " on Proxmox host '"@ + host + "'.\nFull clone: "@ + (if match full {
        Some(f) => f,
        None => true,
    } {
        "true"@
    } else {
        "false"@
    }) + "\n"@ + match name {
        Some(n) => "Name: "@ + n,
        None => seq![],
    }
}

/// The dry-run report of a clone.
pub fn vm_clone_dry_run(vmid: u64, newid: Option<u64>, host: &str, full: Option<bool>, name: Option<&str>) -> (r: String)
    ensures
        r@ == clone_dry_run_text(vmid, newid, host@, full, crate::confirmation::opt_view(name)),
{
    let mut r = owned("DRY RUN: Would clone VM ");
    let d = u64_to_decimal(vmid);
    push_str(&mut r, d.as_str());
    push_str(&mut r, " to new VM");
    match newid {
        Some(id) => {
            push_str(&mut r, " ");
            let x = u64_to_decimal(id);
            push_str(&mut r, x.as_str());
        },
        None => {},
    }
    push_str(&mut r, " on Proxmox host '");
    push_str(&mut r, host);
    push_str(&mut r, "'.\nFull clone: ");
    let f = match full {
        Some(f) => f,
        None => true,
    };
    if f {
        push_str(&mut r, "true");
    } else {
        push_str(&mut r, "false");
    }
    push_str(&mut r, "\n");
    match name {
        Some(n) => {
            push_str(&mut r, "Name: ");
            push_str(&mut r, n);
        },
        None => {},
    }
    r
}

/// The parameters sent to clone into `newid`.
pub open spec fn clone_params(newid: u64, name: Option<Seq<char>>, full: Option<bool>, target_storage: Option<Seq<char>>) -> Seq<
    (Seq<char>, Seq<char>),
> {
    seq![("newid"@, decimal(newid as nat))] + opt_pair("name"@, name) + opt_pair(
        "full"@,
        match full {
            Some(f) => Some(
                if f {
                    "1"@
                } else {
                    "0"@
                },
            ),
            None => None,
        },
    ) + opt_pair("storage"@, target_storage)
}

/// The API parameters of a clone into `newid`.
pub fn vm_clone_params(newid: u64, name: Option<&str>, full: Option<bool>, target_storage: Option<&str>) -> (params: Vec<
    (String, String),
>)
    ensures
        pairs_view(params@) == clone_params(
            newid,
            crate::confirmation::opt_view(name),
            full,
            crate::confirmation::opt_view(target_storage),
        ),
{
    let mut params: Vec<(String, String)> = Vec::new();
    push_pair(&mut params, "newid", Some(u64_to_decimal(newid)));
    push_pair(
        &mut params,
        "name",
        match name {
            Some(n) => Some(owned(n)),
            None => None,
        },
    );
    push_pair(
        &mut params,
        "full",
        match full {
            Some(f) => Some(owned(bool_to_proxmox(f))),
            None => None,
        },
    );
    push_pair(
        &mut params,
        "storage",
        match target_storage {
            Some(t) => Some(owned(t)),
            None => None,
        },
    );
    assert(pairs_view(params@) =~= clone_params(
        newid,
        crate::confirmation::opt_view(name),
        full,
        crate::confirmation::opt_view(target_storage),
    ));
    params
}

/// The API path of a clone of `vmid` on a node.
pub fn vm_clone_path(node: &str, vmid: u64) -> (p: String)
    ensures
        p@ == "/nodes/"@ + node@ + "/qemu/"@ + decimal(vmid as nat) + "/clone"@,
{
    let mut p = owned("/nodes/");
    push_str(&mut p, node);
    push_str(&mut p, "/qemu/");
    let d = u64_to_decimal(vmid);
    push_str(&mut p, d.as_str());
    push_str(&mut p, "/clone");
    p
}

/// The report of a clone: with the task's outcome (and the name line) when
/// the API started a task, a plain acknowledgement otherwise.
pub open spec fn clone_report_text(
    vmid: u64,
    newid: u64,
    node: Seq<char>,
    task_result: Option<Seq<char>>,
    name: Option<Seq<char>>,
) -> Seq<char> {
    match task_result {
        Some(t) => "Cloned VM "@ + decimal(vmid as nat) + " to "@ + decimal(newid as nat) + " on node '"@
            + node + "'. "@ + t + "\n"@ + match name {
            Some(n) => "Name: "@ + n,
            None => seq![],
        },
        None => "Clone requested for VM "@ + decimal(vmid as nat) + " to "@ + decimal(newid as nat)
            + " on node '"@ + node + "'."@,
    }
}

/// The report of a clone.
pub fn vm_clone_report(vmid: u64, newid: u64, node: &str, task_result: Option<&str>, name: Option<&str>) -> (r: String)
    ensures
        r@ == clone_report_text(
            vmid,
            newid,
            node@,
            crate::confirmation::opt_view(task_result),
            crate::confirmation::opt_view(name),
        ),
{
    let a = u64_to_decimal(vmid);
    let b = u64_to_decimal(newid);
    match task_result {
        Some(t) => {
            let mut r = owned("Cloned VM ");
            push_str(&mut r, a.as_str());
            push_str(&mut r, " to ");
            push_str(&mut r, b.as_str());
            push_str(&mut r, " on node '");
            push_str(&mut r, node);
            push_str(&mut r, "'. ");
            push_str(&mut r, t);
            push_str(&mut r, "\n");
            match name {
                Some(n) => {
                    push_str(&mut r, "Name: ");
                    push_str(&mut r, n);
                },
                None => {},
            }
            r
        },
        None => {
            let mut r = owned("Clone requested for VM ");
            push_str(&mut r, a.as_str());
            push_str(&mut r, " to ");
            push_str(&mut r, b.as_str());
            push_str(&mut r, " on node '");
            push_str(&mut r, node);
            push_str(&mut r, "'.");
            r
        },
    }
}

/// A floating-point setting as the texts Rust writes for it: `display` as
/// `to_string` gives it, `json` as `serde_json` writes it.
#[derive(Debug)]
pub struct FloatText {
    pub display: String,
    pub json: String,
}

/// Changes to a guest's configuration; absent fields stay as they are.
#[derive(Debug)]
pub struct VmConfigUpdate {
    pub cores: Option<u32>,
    pub sockets: Option<u32>,
    pub memory: Option<u32>,
    pub balloon: Option<u32>,
    pub cpu_type: Option<String>,
    pub name: Option<String>,
    pub description: Option<String>,
    pub onboot: Option<bool>,
    pub ciuser: Option<String>,
    pub cipassword: Option<String>,
    pub sshkeys: Option<String>,
    pub ipconfig0: Option<String>,
    pub ipconfig1: Option<String>,
    pub nameserver: Option<String>,
    pub searchdomain: Option<String>,
    pub swap: Option<u32>,
    pub cpulimit: Option<FloatText>,
    pub unprivileged: Option<bool>,
    pub boot: Option<String>,
    pub ostype: Option<String>,
    pub machine: Option<String>,
    pub bios: Option<String>,
    pub net0: Option<String>,
    pub net1: Option<String>,
    pub scsi0: Option<String>,
    pub virtio0: Option<String>,
    pub delete_keys: Option<String>,
}

/// Whether the update changes anything.
pub open spec fn update_has_changes(u: VmConfigUpdate) -> bool {
    u.cores is Some || u.sockets is Some || u.memory is Some || u.balloon is Some || u.cpu_type is Some || u.name is Some || u.description is Some || u.onboot is Some || u.ciuser is Some || u.cipassword is Some || u.sshkeys is Some || u.ipconfig0 is Some || u.ipconfig1 is Some || u.nameserver is Some || u.searchdomain is Some || u.swap is Some || u.cpulimit is Some || u.unprivileged is Some || u.boot is Some || u.ostype is Some || u.machine is Some || u.bios is Some || u.net0 is Some || u.net1 is Some || u.scsi0 is Some || u.virtio0 is Some || u.delete_keys is Some
}

/// Whether the update changes anything.
pub fn vm_config_update_has_changes(u: &VmConfigUpdate) -> (b: bool)
    ensures
        b == update_has_changes(*u),
{
    u.cores.is_some() || u.sockets.is_some() || u.memory.is_some() || u.balloon.is_some() || u.cpu_type.is_some() || u.name.is_some() || u.description.is_some() || u.onboot.is_some() || u.ciuser.is_some() || u.cipassword.is_some() || u.sshkeys.is_some() || u.ipconfig0.is_some() || u.ipconfig1.is_some() || u.nameserver.is_some() || u.searchdomain.is_some() || u.swap.is_some() || u.cpulimit.is_some() || u.unprivileged.is_some() || u.boot.is_some() || u.ostype.is_some() || u.machine.is_some() || u.bios.is_some() || u.net0.is_some() || u.net1.is_some() || u.scsi0.is_some() || u.virtio0.is_some() || u.delete_keys.is_some()
}

/// The decimal text of an optional number.
pub open spec fn opt_num32(v: Option<u32>) -> Option<Seq<char>> {
    match v {
        Some(x) => Some(decimal(x as nat)),
        None => None,
    }
}

fn num32_text(v: Option<u32>) -> (r: Option<String>)
    ensures
        opt_text(r) == opt_num32(v),
{
    match v {
        Some(x) => Some(u64_to_decimal(x as u64)),
        None => None,
    }
}

/// The changes listed by a dry run.
pub open spec fn update_changes(u: VmConfigUpdate) -> Seq<Seq<char>> {
    opt_line("cores → "@, opt_num32(u.cores), seq![]) + opt_line("memory → "@, opt_num32(u.memory), " MB"@)
        + opt_line("sockets → "@, opt_num32(u.sockets), seq![]) + opt_line("name → "@, opt_text(u.name), seq![])
        + opt_line("ciuser → "@, opt_text(u.ciuser), seq![]) + opt_line(
        "ipconfig0 → "@,
        opt_text(u.ipconfig0),
        seq![],
    )
}

/// Lines joined by a separator.
pub open spec fn joined_texts(lines: Seq<Seq<char>>, sep: Seq<char>) -> Seq<char>
    decreases lines.len(),
{
    if lines.len() == 0 {
        seq![]
    } else if lines.len() == 1 {
        lines[0]
    } else {
        joined_texts(lines.drop_last(), sep) + sep + lines.last()
    }
}

/// The dry-run report of a configuration update.
pub fn vm_config_update_dry_run(u: &VmConfigUpdate, vm_type: &str, vmid: u64, host: &str) -> (r: String)
    ensures
        r@ == "DRY RUN: Would UPDATE "@ + vm_type@ + " "@ + decimal(vmid as nat) + " on Proxmox host '"@ + host@
            + "' with:\n  "@ + joined_texts(update_changes(*u), "\n  "@),
{
    let mut changes: Vec<String> = Vec::new();
    push_line(&mut changes, "cores → ", num32_text(u.cores), "");
    push_line(&mut changes, "memory → ", num32_text(u.memory), " MB");
    push_line(&mut changes, "sockets → ", num32_text(u.sockets), "");
    push_line(&mut changes, "name → ", clone_opt(&u.name), "");
    push_line(&mut changes, "ciuser → ", clone_opt(&u.ciuser), "");
    push_line(&mut changes, "ipconfig0 → ", clone_opt(&u.ipconfig0), "");
    proof {
        reveal_strlit("");
    }
    assert(crate::json::texts(changes@) =~= update_changes(*u));
    let mut r = owned("DRY RUN: Would UPDATE ");
    push_str(&mut r, vm_type);
    push_str(&mut r, " ");
    let d = u64_to_decimal(vmid);
    push_str(&mut r, d.as_str());
    push_str(&mut r, " on Proxmox host '");
    push_str(&mut r, host);
    push_str(&mut r, "' with:\n  ");
    let j = crate::tools::ssh::join(&changes, "\n  ");
    proof {
        lemma_joined_texts(changes@, "\n  "@);
    }
    push_str(&mut r, j.as_str());
    r
}

proof fn lemma_joined_texts(v: Seq<String>, sep: Seq<char>)
    ensures
        crate::tools::ssh::joined(v, sep) == joined_texts(crate::json::texts(v), sep),
    decreases v.len(),
{
    if v.len() > 1 {
        lemma_joined_texts(v.drop_last(), sep);
        assert(crate::json::texts(v).drop_last() =~= crate::json::texts(v.drop_last()));
    }
}

/// The confirmation prompt of a configuration update.
pub open spec fn update_preview(u: VmConfigUpdate, vm_type: Seq<char>, vmid: u64) -> Seq<Seq<char>> {
    seq!["\n⚠ Confirm: Update "@ + vm_type + " "@ + decimal(vmid as nat) + " configuration\n"@, "Changes:"@]
        + opt_line("  cores:       → "@, opt_num32(u.cores), seq![]) + opt_line(
        "  sockets:     → "@,
        opt_num32(u.sockets),
        seq![],
    ) + opt_line("  memory:      → "@, opt_num32(u.memory), " MB"@) + opt_line(
        "  balloon:     → "@,
        opt_num32(u.balloon),
        " MB"@,
    ) + opt_line("  name:        → "@, opt_text(u.name), seq![]) + opt_line(
        "  ciuser:      → "@,
        opt_text(u.ciuser),
        seq![],
    ) + opt_line("  ipconfig0:   → "@, opt_text(u.ipconfig0), seq![]) + opt_line(
        "  ipconfig1:   → "@,
        opt_text(u.ipconfig1),
        seq![],
    ) + seq!["\nUse confirm_operation to apply."@]
}

/// The confirmation prompt of a configuration update.
pub fn vm_config_update_preview(u: &VmConfigUpdate, vm_type: &str, vmid: u64) -> (r: String)
    ensures
        r@ == lines_text(update_preview(*u, vm_type@, vmid)),
{
    let mut lines: Vec<String> = Vec::new();
    let mut head = owned("\n⚠ Confirm: Update ");
    push_str(&mut head, vm_type);
    push_str(&mut head, " ");
    let d = u64_to_decimal(vmid);
    push_str(&mut head, d.as_str());
    push_str(&mut head, " configuration\n");
    let ghost h = head@;
    lines.push(head);
    lines.push(owned("Changes:"));
    assert(crate::json::texts(lines@) =~= seq![h, "Changes:"@]);
    push_line(&mut lines, "  cores:       → ", num32_text(u.cores), "");
    push_line(&mut lines, "  sockets:     → ", num32_text(u.sockets), "");
    push_line(&mut lines, "  memory:      → ", num32_text(u.memory), " MB");
    push_line(&mut lines, "  balloon:     → ", num32_text(u.balloon), " MB");
    push_line(&mut lines, "  name:        → ", clone_opt(&u.name), "");
    push_line(&mut lines, "  ciuser:      → ", clone_opt(&u.ciuser), "");
    push_line(&mut lines, "  ipconfig0:   → ", clone_opt(&u.ipconfig0), "");
    push_line(&mut lines, "  ipconfig1:   → ", clone_opt(&u.ipconfig1), "");
    let ghost before = crate::json::texts(lines@);
    lines.push(owned("\nUse confirm_operation to apply."));
    assert(crate::json::texts(lines@) =~= before + seq!["\nUse confirm_operation to apply."@]);
    proof {
        reveal_strlit("");
    }
    assert(crate::json::texts(lines@) =~= update_preview(*u, vm_type@, vmid));
    join_lines(&lines)
}

/// `"1"`/`"0"` for an optional boolean.
pub open spec fn opt_flag(v: Option<bool>) -> Option<Seq<char>> {
    match v {
        Some(b) => Some(
            if b {
                "1"@
            } else {
                "0"@
            },
        ),
        None => None,
    }
}

fn flag_text(v: Option<bool>) -> (r: Option<String>)
    ensures
        opt_text(r) == opt_flag(v),
{
    match v {
        Some(b) => Some(owned(bool_to_proxmox(b))),
        None => None,
    }
}

/// The API parameters of a configuration update, in the order they are sent.
pub open spec fn update_form(u: VmConfigUpdate) -> Seq<(Seq<char>, Seq<char>)> {
    opt_pair("cores"@, opt_num32(u.cores)) + opt_pair("sockets"@, opt_num32(u.sockets)) + opt_pair("memory"@, opt_num32(u.memory)) + opt_pair("balloon"@, opt_num32(u.balloon)) + opt_pair("cpu"@, opt_text(u.cpu_type)) + opt_pair("name"@, opt_text(u.name)) + opt_pair("description"@, opt_text(u.description)) + opt_pair("onboot"@, opt_flag(u.onboot)) + opt_pair("ciuser"@, opt_text(u.ciuser)) + opt_pair("cipassword"@, opt_text(u.cipassword)) + opt_pair("sshkeys"@, opt_text(u.sshkeys)) + opt_pair("ipconfig0"@, opt_text(u.ipconfig0)) + opt_pair("ipconfig1"@, opt_text(u.ipconfig1)) + opt_pair("nameserver"@, opt_text(u.nameserver)) + opt_pair("searchdomain"@, opt_text(u.searchdomain)) + opt_pair("swap"@, opt_num32(u.swap)) + opt_pair("cpulimit"@, match u.cpulimit { Some(c) => Some(c.display@), None => None }) + opt_pair("unprivileged"@, opt_flag(u.unprivileged)) + opt_pair("boot"@, opt_text(u.boot)) + opt_pair("ostype"@, opt_text(u.ostype)) + opt_pair("machine"@, opt_text(u.machine)) + opt_pair("bios"@, opt_text(u.bios)) + opt_pair("net0"@, opt_text(u.net0)) + opt_pair("net1"@, opt_text(u.net1)) + opt_pair("scsi0"@, opt_text(u.scsi0)) + opt_pair("virtio0"@, opt_text(u.virtio0)) + opt_pair("delete"@, opt_text(u.delete_keys))
}

/// The API parameters of a configuration update.
pub fn vm_config_update_params(u: &VmConfigUpdate) -> (params: Vec<(String, String)>)
    ensures
        pairs_view(params@) == update_form(*u),
{
    let mut params: Vec<(String, String)> = Vec::new();
    assert(pairs_view(params@) =~= Seq::<(Seq<char>, Seq<char>)>::empty());
    push_pair(&mut params, "cores", num32_text(u.cores));
    push_pair(&mut params, "sockets", num32_text(u.sockets));
    push_pair(&mut params, "memory", num32_text(u.memory));
    push_pair(&mut params, "balloon", num32_text(u.balloon));
    push_pair(&mut params, "cpu", clone_opt(&u.cpu_type));
    push_pair(&mut params, "name", clone_opt(&u.name));
    push_pair(&mut params, "description", clone_opt(&u.description));
    push_pair(&mut params, "onboot", flag_text(u.onboot));
    push_pair(&mut params, "ciuser", clone_opt(&u.ciuser));
    push_pair(&mut params, "cipassword", clone_opt(&u.cipassword));
    push_pair(&mut params, "sshkeys", clone_opt(&u.sshkeys));
    push_pair(&mut params, "ipconfig0", clone_opt(&u.ipconfig0));
    push_pair(&mut params, "ipconfig1", clone_opt(&u.ipconfig1));
    push_pair(&mut params, "nameserver", clone_opt(&u.nameserver));
    push_pair(&mut params, "searchdomain", clone_opt(&u.searchdomain));
    push_pair(&mut params, "swap", num32_text(u.swap));
    push_pair(&mut params, "cpulimit", match &u.cpulimit { Some(c) => Some(c.display.clone()), None => None });
    push_pair(&mut params, "unprivileged", flag_text(u.unprivileged));
    push_pair(&mut params, "boot", clone_opt(&u.boot));
    push_pair(&mut params, "ostype", clone_opt(&u.ostype));
    push_pair(&mut params, "machine", clone_opt(&u.machine));
    push_pair(&mut params, "bios", clone_opt(&u.bios));
    push_pair(&mut params, "net0", clone_opt(&u.net0));
    push_pair(&mut params, "net1", clone_opt(&u.net1));
    push_pair(&mut params, "scsi0", clone_opt(&u.scsi0));
    push_pair(&mut params, "virtio0", clone_opt(&u.virtio0));
    push_pair(&mut params, "delete", clone_opt(&u.delete_keys));
    assert(pairs_view(params@) =~= update_form(*u));
    params
}

/// An optional number as JSON.
pub open spec fn opt_num32_json(v: Option<u32>) -> JsonView {
    match v {
        Some(x) => JsonView::Number(x as u64),
        None => JsonView::Null,
    }
}

/// An optional boolean as JSON.
pub open spec fn opt_bool_json(v: Option<bool>) -> JsonView {
    match v {
        Some(b) => JsonView::Bool(b),
        None => JsonView::Null,
    }
}

/// The parameters kept with a confirmation token of a configuration update.
pub open spec fn update_params_json(host: Seq<char>, node: Option<Seq<char>>, vmid: u64, vm_type: Seq<char>, u: VmConfigUpdate) -> Seq<char> {
    object_text(
        seq![
            ("balloon"@, opt_num32_json(u.balloon)),
            ("bios"@, opt_str_json(opt_text(u.bios))),
            ("boot"@, opt_str_json(opt_text(u.boot))),
            ("cipassword"@, opt_str_json(opt_text(u.cipassword))),
            ("ciuser"@, opt_str_json(opt_text(u.ciuser))),
            ("cores"@, opt_num32_json(u.cores)),
            ("cpu_type"@, opt_str_json(opt_text(u.cpu_type))),
            ("cpulimit"@, match u.cpulimit { Some(c) => JsonView::Raw(c.json@), None => JsonView::Null }),
            ("delete_keys"@, opt_str_json(opt_text(u.delete_keys))),
            ("description"@, opt_str_json(opt_text(u.description))),
            ("host"@, JsonView::Str(host)),
            ("ipconfig0"@, opt_str_json(opt_text(u.ipconfig0))),
            ("ipconfig1"@, opt_str_json(opt_text(u.ipconfig1))),
            ("machine"@, opt_str_json(opt_text(u.machine))),
            ("memory"@, opt_num32_json(u.memory)),
            ("name"@, opt_str_json(opt_text(u.name))),
            ("nameserver"@, opt_str_json(opt_text(u.nameserver))),
            ("net0"@, opt_str_json(opt_text(u.net0))),
            ("net1"@, opt_str_json(opt_text(u.net1))),
            ("node"@, opt_str_json(node)),
            ("onboot"@, opt_bool_json(u.onboot)),
            ("ostype"@, opt_str_json(opt_text(u.ostype))),
            ("scsi0"@, opt_str_json(opt_text(u.scsi0))),
            ("searchdomain"@, opt_str_json(opt_text(u.searchdomain))),
            ("sockets"@, opt_num32_json(u.sockets)),
            ("sshkeys"@, opt_str_json(opt_text(u.sshkeys))),
            ("swap"@, opt_num32_json(u.swap)),
            ("unprivileged"@, opt_bool_json(u.unprivileged)),
            ("virtio0"@, opt_str_json(opt_text(u.virtio0))),
            ("vm_type"@, JsonView::Str(vm_type)),
            ("vmid"@, JsonView::Number(vmid)),
        ],
    )
}

/// The parameters kept with a confirmation token of a configuration update.
#[verifier::rlimit(100)]
pub fn vm_config_update_params_json(host: &str, node: Option<&str>, vmid: u64, vm_type: &str, u: &VmConfigUpdate) -> (r: String)
    ensures
        r@ == update_params_json(host@, crate::confirmation::opt_view(node), vmid, vm_type@, *u),
{
    let entries: Vec<(&str, JsonValue)> = vec![
        ("balloon", match u.balloon { Some(x) => JsonValue::Number(x as u64), None => JsonValue::Null }),
        ("bios", str_json(&u.bios)),
        ("boot", str_json(&u.boot)),
        ("cipassword", str_json(&u.cipassword)),
        ("ciuser", str_json(&u.ciuser)),
        ("cores", match u.cores { Some(x) => JsonValue::Number(x as u64), None => JsonValue::Null }),
        ("cpu_type", str_json(&u.cpu_type)),
        ("cpulimit", match &u.cpulimit { Some(c) => JsonValue::Raw(c.json.clone()), None => JsonValue::Null }),
        ("delete_keys", str_json(&u.delete_keys)),
        ("description", str_json(&u.description)),
        ("host", JsonValue::Str(owned(host))),
        ("ipconfig0", str_json(&u.ipconfig0)),
        ("ipconfig1", str_json(&u.ipconfig1)),
        ("machine", str_json(&u.machine)),
        ("memory", match u.memory { Some(x) => JsonValue::Number(x as u64), None => JsonValue::Null }),
        ("name", str_json(&u.name)),
        ("nameserver", str_json(&u.nameserver)),
        ("net0", str_json(&u.net0)),
        ("net1", str_json(&u.net1)),
        ("node", match node { Some(n) => JsonValue::Str(owned(n)), None => JsonValue::Null }),
        ("onboot", match u.onboot { Some(x) => JsonValue::Bool(x), None => JsonValue::Null }),
        ("ostype", str_json(&u.ostype)),
        ("scsi0", str_json(&u.scsi0)),
        ("searchdomain", str_json(&u.searchdomain)),
        ("sockets", match u.sockets { Some(x) => JsonValue::Number(x as u64), None => JsonValue::Null }),
        ("sshkeys", str_json(&u.sshkeys)),
        ("swap", match u.swap { Some(x) => JsonValue::Number(x as u64), None => JsonValue::Null }),
        ("unprivileged", match u.unprivileged { Some(x) => JsonValue::Bool(x), None => JsonValue::Null }),
        ("virtio0", str_json(&u.virtio0)),
        ("vm_type", JsonValue::Str(owned(vm_type))),
        ("vmid", JsonValue::Number(vmid)),
    ];
    assert(crate::json::keys_ascending(crate::json::entries_view(entries@))) by {
        reveal_strlit("balloon");
        reveal_strlit("bios");
        reveal_strlit("boot");
        reveal_strlit("cipassword");
        reveal_strlit("ciuser");
        reveal_strlit("cores");
        reveal_strlit("cpu_type");
        reveal_strlit("cpulimit");
        reveal_strlit("delete_keys");
        reveal_strlit("description");
        reveal_strlit("host");
        reveal_strlit("ipconfig0");
        reveal_strlit("ipconfig1");
        reveal_strlit("machine");
        reveal_strlit("memory");
        reveal_strlit("name");
        reveal_strlit("nameserver");
        reveal_strlit("net0");
        reveal_strlit("net1");
        reveal_strlit("node");
        reveal_strlit("onboot");
        reveal_strlit("ostype");
        reveal_strlit("scsi0");
        reveal_strlit("searchdomain");
        reveal_strlit("sockets");
        reveal_strlit("sshkeys");
        reveal_strlit("swap");
        reveal_strlit("unprivileged");
        reveal_strlit("virtio0");
        reveal_strlit("vm_type");
        reveal_strlit("vmid");
        reveal_with_fuel(crate::json::keys_ascending, 32);
        reveal_with_fuel(crate::json::text_less, 11);
    }
    let r = render_object(&entries);
    assert(crate::json::entries_view(entries@) =~= seq![
        ("balloon"@, opt_num32_json(u.balloon)),
        ("bios"@, opt_str_json(opt_text(u.bios))),
        ("boot"@, opt_str_json(opt_text(u.boot))),
        ("cipassword"@, opt_str_json(opt_text(u.cipassword))),
        ("ciuser"@, opt_str_json(opt_text(u.ciuser))),
        ("cores"@, opt_num32_json(u.cores)),
        ("cpu_type"@, opt_str_json(opt_text(u.cpu_type))),
        ("cpulimit"@, match u.cpulimit { Some(c) => JsonView::Raw(c.json@), None => JsonView::Null }),
        ("delete_keys"@, opt_str_json(opt_text(u.delete_keys))),
        ("description"@, opt_str_json(opt_text(u.description))),
        ("host"@, JsonView::Str(host@)),
        ("ipconfig0"@, opt_str_json(opt_text(u.ipconfig0))),
        ("ipconfig1"@, opt_str_json(opt_text(u.ipconfig1))),
        ("machine"@, opt_str_json(opt_text(u.machine))),
        ("memory"@, opt_num32_json(u.memory)),
        ("name"@, opt_str_json(opt_text(u.name))),
        ("nameserver"@, opt_str_json(opt_text(u.nameserver))),
        ("net0"@, opt_str_json(opt_text(u.net0))),
        ("net1"@, opt_str_json(opt_text(u.net1))),
        ("node"@, opt_str_json(crate::confirmation::opt_view(node))),
        ("onboot"@, opt_bool_json(u.onboot)),
        ("ostype"@, opt_str_json(opt_text(u.ostype))),
        ("scsi0"@, opt_str_json(opt_text(u.scsi0))),
        ("searchdomain"@, opt_str_json(opt_text(u.searchdomain))),
        ("sockets"@, opt_num32_json(u.sockets)),
        ("sshkeys"@, opt_str_json(opt_text(u.sshkeys))),
        ("swap"@, opt_num32_json(u.swap)),
        ("unprivileged"@, opt_bool_json(u.unprivileged)),
        ("virtio0"@, opt_str_json(opt_text(u.virtio0))),
        ("vm_type"@, JsonView::Str(vm_type@)),
        ("vmid"@, JsonView::Number(vmid)),
    ]);
    r
}

/// The error when an update names no change.
pub open spec fn no_changes_message() -> Seq<char> {
    "No configuration parameters provided. Specify at least one parameter to change."@
}

/// Refuses an update that changes nothing.
pub fn check_update_has_changes(u: &VmConfigUpdate) -> (r: Result<(), String>)
    ensures
        r is Ok <==> update_has_changes(*u),
        r matches Err(m) ==> m@ == no_changes_message(),
{
    if vm_config_update_has_changes(u) {
        Ok(())
    } else {
        Err(owned("No configuration parameters provided. Specify at least one parameter to change."))
    }
}

/// The API path of a guest's configuration.
pub fn vm_config_path(node: &str, vm_type: &str, vmid: u64) -> (p: String)
    ensures
        p@ == "/nodes/"@ + node@ + "/"@ + vm_type@ + "/"@ + decimal(vmid as nat) + "/config"@,
{
    let mut p = owned("/nodes/");
    push_str(&mut p, node);
    push_str(&mut p, "/");
    push_str(&mut p, vm_type);
    push_str(&mut p, "/");
    let d = u64_to_decimal(vmid);
    push_str(&mut p, d.as_str());
    push_str(&mut p, "/config");
    p
}

/// The report of an applied configuration update.
pub fn vm_config_update_report(vm_type: &str, vmid: u64, node: &str) -> (r: String)
    ensures
        r@ == "Configuration updated successfully for "@ + vm_type@ + " "@ + decimal(vmid as nat)
            + " on node '"@ + node@ + "'."@,
{
    let mut r = owned("Configuration updated successfully for ");
    push_str(&mut r, vm_type);
    push_str(&mut r, " ");
    let d = u64_to_decimal(vmid);
    push_str(&mut r, d.as_str());
    push_str(&mut r, " on node '");
    push_str(&mut r, node);
    push_str(&mut r, "'.");
    r
}

/// A guest configuration as the logic reads it: the string-valued and the
/// unsigned-integer-valued entries, `cpulimit` as Rust displays the number,
/// and whether `cipassword` is present.
#[derive(Debug)]
pub struct VmConfig {
    pub strings: Vec<(String, String)>,
    pub numbers: Vec<(String, u64)>,
    pub cpulimit: Option<String>,
    pub has_cipassword: bool,
}

/// The string value of a configuration entry.
pub open spec fn cfg_str(c: VmConfig, key: Seq<char>) -> Option<Seq<char>> {
    match named_index(c.strings@, key) {
        Some(i) => Some(c.strings@[i].1@),
        None => None,
    }
}

/// The number value of a configuration entry.
pub open spec fn cfg_num(c: VmConfig, key: Seq<char>) -> Option<u64> {
    match named_index(c.numbers@, key) {
        Some(i) => Some(c.numbers@[i].1),
        None => None,
    }
}

fn config_text(c: &VmConfig, key: &str) -> (r: Option<String>)
    ensures
        opt_text(r) == cfg_str(*c, key@),
{
    match find_named(&c.strings, key) {
        Some(i) => Some(c.strings[i].1.clone()),
        None => None,
    }
}

fn config_number(c: &VmConfig, key: &str) -> (r: Option<u64>)
    ensures
        r == cfg_num(*c, key@),
{
    match find_named(&c.numbers, key) {
        Some(i) => Some(c.numbers[i].1),
        None => None,
    }
}

/// Megabytes with their size in gigabytes: `{} MB ({:.1} GB)` of an `f64`
/// division by 1024.
pub open spec fn gb_text(mb: Option<u64>) -> Option<Seq<char>> {
    match mb {
        Some(m) => Some(decimal(m as nat) + " MB ("@ + one_decimal(f64_of(m as nat), 1024) + " GB)"@),
        None => None,
    }
}

fn gb_text_exec(mb: Option<u64>) -> (r: Option<String>)
    ensures
        opt_text(r) == gb_text(mb),
{
    match mb {
        Some(m) => {
            let mut s = u64_to_decimal(m);
            push_str(&mut s, " MB (");
            let u = f64_unit_exec(m);
            let q = div_round_even_exec(m as u128, u);
            assert(q * u <= (m as u128) + u) by (nonlinear_arith)
                requires
                    q <= (m as u128) / u + 1,
                    u >= 1,
            {
                assert(((m as u128) / u) * u <= m as u128) by (nonlinear_arith)
                    requires
                        u >= 1,
                ;
            }
            let g = one_decimal_exec(q * u, 1024);
            push_str(&mut s, g.as_str());
            push_str(&mut s, " GB)");
            Some(s)
        },
        None => None,
    }
}

/// The number of non-overlapping occurrences of `p` in `s`, scanning from
/// the left, as `str::matches(p).count()`.
pub open spec fn count_matches(s: Seq<char>, p: Seq<char>) -> nat
    decreases s.len(),
{
    if p.len() == 0 || s.len() < p.len() {
        0
    } else if s.take(p.len() as int) == p {
        1 + count_matches(s.skip(p.len() as int), p)
    } else {
        count_matches(s.skip(1), p)
    }
}

fn count_matches_exec(s: &str, p: &str) -> (n: u64)
    requires
        p@.len() > 0,
    ensures
        n == count_matches(s@, p@),
        n * p@.len() <= s@.len(),
        n * p@.len() <= usize::MAX,
{
    let v = crate::text::chars_of(s);
    let pv = crate::text::chars_of(p);
    let mut i: usize = 0;
    let mut n: u64 = 0;
    assert(s@.skip(0) =~= s@);
    while pv.len() <= v.len() - i
        invariant
            i <= v@.len(),
            v@ == s@,
            pv@ == p@,
            pv@.len() > 0,
            n * pv@.len() <= i,
            n <= i,
            n + count_matches(s@.skip(i as int), p@) == count_matches(s@, p@),
        decreases v@.len() - i,
    {
        let hit = crate::text::occurs_at_exec(v.as_slice(), pv.as_slice(), i);
        assert(s@.skip(i as int).take(p@.len() as int) =~= s@.subrange(i as int, i + p@.len()));
        if hit {
            assert(s@.skip(i as int).skip(p@.len() as int) =~= s@.skip(i + pv.len()));
            assert((n + 1) * pv@.len() <= i + pv@.len()) by (nonlinear_arith)
                requires
                    n * pv@.len() <= i,
            ;
            assert(i < v@.len());
            n = n + 1;
            i = i + pv.len();
        } else {
            assert(s@.skip(i as int).skip(1) =~= s@.skip(i + 1));
            i = i + 1;
        }
    }
    n
}

/// A section's text: each line after a newline, then an empty line; nothing
/// when the section has only its title.
pub open spec fn section_text(lines: Seq<Seq<char>>) -> Seq<char> {
    if lines.len() <= 1 {
        seq![]
    } else {
        newline_lines(lines) + "\n"@
    }
}

/// Each line preceded by a newline.
pub open spec fn newline_lines(lines: Seq<Seq<char>>) -> Seq<char>
    decreases lines.len(),
{
    if lines.len() == 0 {
        seq![]
    } else {
        newline_lines(lines.drop_last()) + "\n"@ + lines.last()
    }
}

fn append_section(out: &mut String, lines: &Vec<String>)
    ensures
        final(out)@ == old(out)@ + section_text(crate::json::texts(lines@)),
{
    if lines.len() <= 1 {
        assert(final(out)@ =~= old(out)@ + section_text(crate::json::texts(lines@)));
        return;
    }
    let ghost start = out@;
    let mut i: usize = 0;
    while i < lines.len()
        invariant
            i <= lines@.len(),
            out@ == start + newline_lines(crate::json::texts(lines@.take(i as int))),
        decreases lines@.len() - i,
    {
        assert(crate::json::texts(lines@.take(i + 1)).drop_last() =~= crate::json::texts(lines@.take(i as int)));
        push_str(out, "\n");
        push_str(out, lines[i].as_str());
        i = i + 1;
    }
    assert(lines@.take(i as int) =~= lines@);
    push_str(out, "\n");
}

/// What `str::to_uppercase` gives for a text (Unicode upper-case mapping).
pub uninterp spec fn upper_text(s: Seq<char>) -> Seq<char>;

/// `s.to_uppercase()`.
#[verifier::external_body]
pub(crate) fn to_uppercase(s: &str) -> (r: String)
    ensures
        r@ == upper_text(s@),
{
    s.to_uppercase()
}

/// The lines of the CPU section.
pub open spec fn cpu_section(c: VmConfig) -> Seq<Seq<char>> {
    seq!["── CPU ──"@] + opt_line("  Cores:         "@, opt_num(cfg_num(c, "cores"@)), ""@) + opt_line("  Sockets:       "@, opt_num(cfg_num(c, "sockets"@)), ""@) + opt_line("  CPU type:      "@, cfg_str(c, "cpu"@), ""@) + opt_line("  CPU limit:     "@, opt_text(c.cpulimit), ""@)
}

fn cpu_section_lines(c: &VmConfig) -> (lines: Vec<String>)
    ensures
        crate::json::texts(lines@) == cpu_section(*c),
{
    let mut lines: Vec<String> = Vec::new();
    lines.push(owned("── CPU ──"));
    assert(crate::json::texts(lines@) =~= seq!["── CPU ──"@]);
    push_line(&mut lines, "  Cores:         ", num_text(config_number(c, "cores")), "");
    push_line(&mut lines, "  Sockets:       ", num_text(config_number(c, "sockets")), "");
    push_line(&mut lines, "  CPU type:      ", config_text(c, "cpu"), "");
    push_line(&mut lines, "  CPU limit:     ", clone_opt(&c.cpulimit), "");
    proof {
        reveal_strlit("");
    }
    assert(crate::json::texts(lines@) =~= cpu_section(*c));
    lines
}

/// The lines of the Memory section.
pub open spec fn mem_section(c: VmConfig) -> Seq<Seq<char>> {
    seq!["── Memory ──"@] + opt_line("  Memory:        "@, gb_text(cfg_num(c, "memory"@)), seq![]) + opt_line("  Balloon (min):  "@, match cfg_num(c, "balloon"@) { Some(b) => if b > 0 { gb_text(Some(b)) } else { None }, None => None }, seq![]) + opt_line("  Swap:          "@, opt_num(cfg_num(c, "swap"@)), " MB"@)
}

fn mem_section_lines(c: &VmConfig) -> (lines: Vec<String>)
    ensures
        crate::json::texts(lines@) == mem_section(*c),
{
    let mut lines: Vec<String> = Vec::new();
    lines.push(owned("── Memory ──"));
    assert(crate::json::texts(lines@) =~= seq!["── Memory ──"@]);
    push_line(&mut lines, "  Memory:        ", gb_text_exec(config_number(c, "memory")), "");
    let b = match config_number(c, "balloon") {
        Some(b) => if b > 0 {
            gb_text_exec(Some(b))
        } else {
            None
        },
        None => None,
    };
    push_line(&mut lines, "  Balloon (min):  ", b, "");
    push_line(&mut lines, "  Swap:          ", num_text(config_number(c, "swap")), " MB");
    proof {
        reveal_strlit("");
    }
    assert(crate::json::texts(lines@) =~= mem_section(*c));
    lines
}

/// The lines of the Disks section.
pub open spec fn disk_section(c: VmConfig) -> Seq<Seq<char>> {
    seq!["── Disks ──"@] + opt_line("  scsi0:  "@, cfg_str(c, "scsi0"@), ""@) + opt_line("  scsi1:  "@, cfg_str(c, "scsi1"@), ""@) + opt_line("  scsi2:  "@, cfg_str(c, "scsi2"@), ""@) + opt_line("  scsi3:  "@, cfg_str(c, "scsi3"@), ""@) + opt_line("  virtio0:  "@, cfg_str(c, "virtio0"@), ""@) + opt_line("  virtio1:  "@, cfg_str(c, "virtio1"@), ""@) + opt_line("  ide0:  "@, cfg_str(c, "ide0"@), ""@) + opt_line("  ide1:  "@, cfg_str(c, "ide1"@), ""@) + opt_line("  sata0:  "@, cfg_str(c, "sata0"@), ""@) + opt_line("  sata1:  "@, cfg_str(c, "sata1"@), ""@) + opt_line("  rootfs:  "@, cfg_str(c, "rootfs"@), ""@) + opt_line("  mp0:  "@, cfg_str(c, "mp0"@), ""@) + opt_line("  mp1:  "@, cfg_str(c, "mp1"@), ""@) + opt_line("  mp2:  "@, cfg_str(c, "mp2"@), ""@)
}

fn disk_section_lines(c: &VmConfig) -> (lines: Vec<String>)
    ensures
        crate::json::texts(lines@) == disk_section(*c),
{
    let mut lines: Vec<String> = Vec::new();
    lines.push(owned("── Disks ──"));
    assert(crate::json::texts(lines@) =~= seq!["── Disks ──"@]);
    push_line(&mut lines, "  scsi0:  ", config_text(c, "scsi0"), "");
    push_line(&mut lines, "  scsi1:  ", config_text(c, "scsi1"), "");
    push_line(&mut lines, "  scsi2:  ", config_text(c, "scsi2"), "");
    push_line(&mut lines, "  scsi3:  ", config_text(c, "scsi3"), "");
    push_line(&mut lines, "  virtio0:  ", config_text(c, "virtio0"), "");
    push_line(&mut lines, "  virtio1:  ", config_text(c, "virtio1"), "");
    push_line(&mut lines, "  ide0:  ", config_text(c, "ide0"), "");
    push_line(&mut lines, "  ide1:  ", config_text(c, "ide1"), "");
    push_line(&mut lines, "  sata0:  ", config_text(c, "sata0"), "");
    push_line(&mut lines, "  sata1:  ", config_text(c, "sata1"), "");
    push_line(&mut lines, "  rootfs:  ", config_text(c, "rootfs"), "");
    push_line(&mut lines, "  mp0:  ", config_text(c, "mp0"), "");
    push_line(&mut lines, "  mp1:  ", config_text(c, "mp1"), "");
    push_line(&mut lines, "  mp2:  ", config_text(c, "mp2"), "");
    proof {
        reveal_strlit("");
    }
    assert(crate::json::texts(lines@) =~= disk_section(*c));
    lines
}

/// The lines of the Network section.
pub open spec fn net_section(c: VmConfig) -> Seq<Seq<char>> {
    seq!["── Network ──"@] + opt_line("  net0:   "@, cfg_str(c, "net0"@), ""@) + opt_line("  net1:   "@, cfg_str(c, "net1"@), ""@) + opt_line("  net2:   "@, cfg_str(c, "net2"@), ""@) + opt_line("  net3:   "@, cfg_str(c, "net3"@), ""@)
}

fn net_section_lines(c: &VmConfig) -> (lines: Vec<String>)
    ensures
        crate::json::texts(lines@) == net_section(*c),
{
    let mut lines: Vec<String> = Vec::new();
    lines.push(owned("── Network ──"));
    assert(crate::json::texts(lines@) =~= seq!["── Network ──"@]);
    push_line(&mut lines, "  net0:   ", config_text(c, "net0"), "");
    push_line(&mut lines, "  net1:   ", config_text(c, "net1"), "");
    push_line(&mut lines, "  net2:   ", config_text(c, "net2"), "");
    push_line(&mut lines, "  net3:   ", config_text(c, "net3"), "");
    proof {
        reveal_strlit("");
    }
    assert(crate::json::texts(lines@) =~= net_section(*c));
    lines
}

/// The lines of the Cloud-Init section.
pub open spec fn cloud_section(c: VmConfig) -> Seq<Seq<char>> {
    seq!["── Cloud-Init ──"@] + opt_line("  User:          "@, cfg_str(c, "ciuser"@), ""@) + (if c.has_cipassword { seq!["  Password:      (set)"@] } else { seq![] }) + opt_line("  SSH keys:      ("@, match cfg_str(c, "sshkeys"@) { Some(k) => Some(decimal(count_matches(k, "%0A"@) + 1)), None => None }, " keys configured)"@) + opt_line("  IP config 0:   "@, cfg_str(c, "ipconfig0"@), ""@) + opt_line("  IP config 1:   "@, cfg_str(c, "ipconfig1"@), ""@) + opt_line("  Nameserver:    "@, cfg_str(c, "nameserver"@), ""@) + opt_line("  Search domain: "@, cfg_str(c, "searchdomain"@), ""@)
}

fn cloud_section_lines(c: &VmConfig) -> (lines: Vec<String>)
    ensures
        crate::json::texts(lines@) == cloud_section(*c),
{
    let mut lines: Vec<String> = Vec::new();
    lines.push(owned("── Cloud-Init ──"));
    assert(crate::json::texts(lines@) =~= seq!["── Cloud-Init ──"@]);
    push_line(&mut lines, "  User:          ", config_text(c, "ciuser"), "");
    if c.has_cipassword {
        let ghost before = crate::json::texts(lines@);
        lines.push(owned("  Password:      (set)"));
        assert(crate::json::texts(lines@) =~= before + seq!["  Password:      (set)"@]);
    }
    let keys = match config_text(c, "sshkeys") {
        Some(k) => {
            proof {
                reveal_strlit("%0A");
            }
            let n = count_matches_exec(k.as_str(), "%0A");
            Some(u64_to_decimal(n + 1))
        },
        None => None,
    };
    push_line(&mut lines, "  SSH keys:      (", keys, " keys configured)");
    push_line(&mut lines, "  IP config 0:   ", config_text(c, "ipconfig0"), "");
    push_line(&mut lines, "  IP config 1:   ", config_text(c, "ipconfig1"), "");
    push_line(&mut lines, "  Nameserver:    ", config_text(c, "nameserver"), "");
    push_line(&mut lines, "  Search domain: ", config_text(c, "searchdomain"), "");
    proof {
        reveal_strlit("");
    }
    assert(crate::json::texts(lines@) =~= cloud_section(*c));
    lines
}

/// The lines of the Boot section.
pub open spec fn boot_section(c: VmConfig) -> Seq<Seq<char>> {
    seq!["── Boot ──"@] + opt_line("  Boot order:    "@, cfg_str(c, "boot"@), ""@) + opt_line("  Boot disk:     "@, cfg_str(c, "bootdisk"@), ""@) + opt_line("  OS type:       "@, cfg_str(c, "ostype"@), ""@) + opt_line("  Machine:       "@, cfg_str(c, "machine"@), ""@) + opt_line("  BIOS:          "@, cfg_str(c, "bios"@), ""@)
}

fn boot_section_lines(c: &VmConfig) -> (lines: Vec<String>)
    ensures
        crate::json::texts(lines@) == boot_section(*c),
{
    let mut lines: Vec<String> = Vec::new();
    lines.push(owned("── Boot ──"));
    assert(crate::json::texts(lines@) =~= seq!["── Boot ──"@]);
    push_line(&mut lines, "  Boot order:    ", config_text(c, "boot"), "");
    push_line(&mut lines, "  Boot disk:     ", config_text(c, "bootdisk"), "");
    push_line(&mut lines, "  OS type:       ", config_text(c, "ostype"), "");
    push_line(&mut lines, "  Machine:       ", config_text(c, "machine"), "");
    push_line(&mut lines, "  BIOS:          ", config_text(c, "bios"), "");
    proof {
        reveal_strlit("");
    }
    assert(crate::json::texts(lines@) =~= boot_section(*c));
    lines
}

/// The lines of the Other section.
pub open spec fn other_section(c: VmConfig) -> Seq<Seq<char>> {
    seq!["── Other ──"@] + opt_line("  Name:          "@, cfg_str(c, "name"@), ""@) + opt_line("  Description:   "@, cfg_str(c, "description"@), ""@) + opt_line("  Start on boot: "@, match cfg_num(c, "onboot"@) { Some(v) => Some(if v == 1 { "yes"@ } else { "no"@ }), None => None }, seq![]) + opt_line("  Startup order: "@, cfg_str(c, "startup"@), ""@)
}

fn other_section_lines(c: &VmConfig) -> (lines: Vec<String>)
    ensures
        crate::json::texts(lines@) == other_section(*c),
{
    let mut lines: Vec<String> = Vec::new();
    lines.push(owned("── Other ──"));
    assert(crate::json::texts(lines@) =~= seq!["── Other ──"@]);
    push_line(&mut lines, "  Name:          ", config_text(c, "name"), "");
    push_line(&mut lines, "  Description:   ", config_text(c, "description"), "");
    let yn = match config_number(c, "onboot") {
        Some(v) => Some(owned(if v == 1 {
            "yes"
        } else {
            "no"
        })),
        None => None,
    };
    push_line(&mut lines, "  Start on boot: ", yn, "");
    push_line(&mut lines, "  Startup order: ", config_text(c, "startup"), "");
    proof {
        reveal_strlit("");
    }
    assert(crate::json::texts(lines@) =~= other_section(*c));
    lines
}

/// The readable report of a guest configuration.
pub open spec fn vm_config_text(c: VmConfig, vm_type: Seq<char>, vmid: u64) -> Seq<char> {
    "\n=== VM "@ + decimal(vmid as nat) + " Configuration ("@ + upper_text(vm_type) + ") ===\n"@
        + section_text(cpu_section(c)) + section_text(mem_section(c)) + section_text(disk_section(c))
        + section_text(net_section(c)) + (if vm_type == "qemu"@ {
        section_text(cloud_section(c))
    } else {
        seq![]
    }) + section_text(boot_section(c)) + section_text(other_section(c))
}

/// Formats a guest configuration section by section; sections with nothing
/// to show are left out, and cloud-init is shown for virtual machines only.
pub fn format_vm_config(c: &VmConfig, vm_type: &str, vmid: u64) -> (r: String)
    ensures
        r@ == vm_config_text(*c, vm_type@, vmid),
{
    let mut out = owned("\n=== VM ");
    let d = u64_to_decimal(vmid);
    push_str(&mut out, d.as_str());
    push_str(&mut out, " Configuration (");
    let up = to_uppercase(vm_type);
    push_str(&mut out, up.as_str());
    push_str(&mut out, ") ===\n");
    let s = cpu_section_lines(c);
    append_section(&mut out, &s);
    let s = mem_section_lines(c);
    append_section(&mut out, &s);
    let s = disk_section_lines(c);
    append_section(&mut out, &s);
    let s = net_section_lines(c);
    append_section(&mut out, &s);
    if str_eq(vm_type, "qemu") {
        let s = cloud_section_lines(c);
        append_section(&mut out, &s);
    }
    let s = boot_section_lines(c);
    append_section(&mut out, &s);
    let s = other_section_lines(c);
    append_section(&mut out, &s);
    out
}

} // verus!
