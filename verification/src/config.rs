//! The configuration model, its defaults and its validation.
//!
//! Maps of the configuration file are kept as vectors of `(name, value)`
//! pairs in file order; paths are kept as text.
use vstd::prelude::*;
use crate::confirmation::{invalid_rule_message, ConfirmRule};
pub use crate::rate_limit::{RateLimit, RateLimitMode};
use crate::text::{
    chars_of, digit, digit_char, owned, push_char, push_str, starts_with_seq, str_eq, string_of_range, trim, trim_str,
};

verus! {

broadcast use vstd::seq_lib::group_seq_properties;

/// The views of a sequence of strings.
pub open spec fn strings_view(v: Seq<String>) -> Seq<Seq<char>> {
    v.map_values(|s: String| s@)
}

/// Docker hosts by name.
#[derive(Debug)]
pub struct DockerConfig {
    pub hosts: Vec<(String, DockerHost)>,
}

impl DockerConfig {
    /// The number of configured Docker hosts.
    pub fn len(&self) -> (n: usize)
        ensures
            n == self.hosts@.len(),
    {
        self.hosts.len()
    }
}

/// One Docker daemon: its connection string and optional TLS files.
#[derive(Debug)]
pub struct DockerHost {
    pub host: String,
    pub cert_path: Option<String>,
    pub key_path: Option<String>,
    pub ca_path: Option<String>,
}

/// SSH hosts, the session pool settings and the command allowlist.
#[derive(Debug)]
pub struct SshConfig {
    pub hosts: Vec<(String, SshHost)>,
    pub pool: SshPoolConfig,
    pub command_allowlist: CommandAllowlist,
}

/// One SSH host.
#[derive(Debug)]
pub struct SshHost {
    pub host: String,
    pub port: Option<u16>,
    pub user: String,
    pub private_key_path: String,
    pub private_key_passphrase: Option<String>,
}

/// SSH session pool settings.
#[derive(Debug)]
pub struct SshPoolConfig {
    pub max_sessions_per_host: usize,
    pub max_lifetime_secs: u64,
    pub max_idle_time_secs: u64,
    pub connect_timeout_secs: u64,
    pub checkout_timeout_secs: u64,
    pub keepalive_interval_secs: u64,
    /// Maximum concurrent channels per SSH session (1 disables multiplexing).
    pub max_channels_per_session: usize,
}

/// Default number of sessions per host.
pub fn default_max_sessions() -> (n: usize)
    ensures
        n == 3,
{
    3
}

/// Default session lifetime: half an hour.
pub fn default_max_lifetime() -> (n: u64)
    ensures
        n == 1800,
{
    1800
}

/// Default idle time before a session is closed: five minutes.
pub fn default_max_idle() -> (n: u64)
    ensures
        n == 300,
{
    300
}

/// Default connect timeout in seconds.
pub fn default_connect_timeout() -> (n: u64)
    ensures
        n == 10,
{
    10
}

/// Default time to wait for a free channel, in seconds.
pub fn default_checkout_timeout() -> (n: u64)
    ensures
        n == 5,
{
    5
}

/// Default keepalive interval in seconds.
pub fn default_keepalive_interval() -> (n: u64)
    ensures
        n == 60,
{
    60
}

/// Default number of channels multiplexed over one session.
pub fn default_max_channels() -> (n: usize)
    ensures
        n == 10,
{
    10
}

impl Default for SshPoolConfig {
    fn default() -> (c: Self)
        ensures
            c.max_sessions_per_host == 3,
            c.max_lifetime_secs == 1800,
            c.max_idle_time_secs == 300,
            c.connect_timeout_secs == 10,
            c.checkout_timeout_secs == 5,
            c.keepalive_interval_secs == 60,
            c.max_channels_per_session == 10,
    {
        SshPoolConfig {
            max_sessions_per_host: default_max_sessions(),
            max_lifetime_secs: default_max_lifetime(),
            max_idle_time_secs: default_max_idle(),
            connect_timeout_secs: default_connect_timeout(),
            checkout_timeout_secs: default_checkout_timeout(),
            keepalive_interval_secs: default_keepalive_interval(),
            max_channels_per_session: default_max_channels(),
        }
    }
}

/// Which SSH commands may run: allowed prefixes and blocked substrings.
#[derive(Debug)]
pub struct CommandAllowlist {
    pub allowed_prefixes: Vec<String>,
    pub blocked_patterns: Vec<String>,
}

/// The prefixes allowed when the configuration names none.
pub open spec fn default_allowed_prefixes() -> Seq<Seq<char>> {
    seq![
        "docker"@,
        "zpool"@,
        "zfs"@,
        "df"@,
        "free"@,
        "uptime"@,
        "systemctl status"@,
        "systemctl is-active"@,
        "systemctl list-units"@,
        "journalctl"@,
        "sudo systemctl status"@,
        "sudo systemctl restart"@,
        "sudo zpool"@,
        "sudo zfs"@,
    ]
}

/// The patterns blocked when the configuration names no allowed prefix.
pub open spec fn default_blocked_patterns() -> Seq<Seq<char>> {
    seq![
        "rm -rf"@,
        "dd if="@,
        "mkfs"@,
        "fdisk"@,
        "parted"@,
        "> /dev/"@,
        "| bash"@,
        "| sh"@,
        "; "@,
        "&& "@,
        "$("@,
        "`"@,
    ]
}

/// A vector of owned copies of the given literals.
fn owned_all(items: &[&str]) -> (v: Vec<String>)
    ensures
        v@.len() == items@.len(),
        forall|i: int| 0 <= i < items@.len() ==> #[trigger] v@[i]@ == items@[i]@,
{
    let mut v: Vec<String> = Vec::new();
    let mut i: usize = 0;
    while i < items.len()
        invariant
            i <= items@.len(),
            v@.len() == i,
            forall|k: int| 0 <= k < i ==> #[trigger] v@[k]@ == items@[k]@,
        decreases items@.len() - i,
    {
        v.push(owned(items[i]));
        i = i + 1;
    }
    v
}

impl Default for CommandAllowlist {
    fn default() -> (a: Self)
        ensures
            strings_view(a.allowed_prefixes@) == default_allowed_prefixes(),
            strings_view(a.blocked_patterns@) == default_blocked_patterns(),
    {
        let prefixes = [
            "docker",
            "zpool",
            "zfs",
            "df",
            "free",
            "uptime",
            "systemctl status",
            "systemctl is-active",
            "systemctl list-units",
            "journalctl",
            "sudo systemctl status",
            "sudo systemctl restart",
            "sudo zpool",
            "sudo zfs",
        ];
        let patterns = [
            "rm -rf",
            "dd if=",
            "mkfs",
            "fdisk",
            "parted",
            "> /dev/",
            "| bash",
            "| sh",
            "; ",
            "&& ",
            "$(",
            "`",
        ];
        let a = CommandAllowlist {
            allowed_prefixes: owned_all(&prefixes),
            blocked_patterns: owned_all(&patterns),
        };
        assert(strings_view(a.allowed_prefixes@) =~= default_allowed_prefixes());
        assert(strings_view(a.blocked_patterns@) =~= default_blocked_patterns());
        a
    }
}

/// Where tool invocations are logged.
#[derive(Debug)]
pub struct AuditConfig {
    pub file: Option<String>,
    pub syslog: Option<SyslogConfig>,
}

/// Syslog target of the audit log.
#[derive(Debug)]
pub struct SyslogConfig {
    pub facility: String,
    pub tag: String,
}

/// Rate limits by tool pattern.
#[derive(Debug)]
pub struct RateLimitConfig {
    pub mode: RateLimitMode,
    pub limits: Vec<(String, RateLimit)>,
}

/// Which tools are exposed.
#[derive(Debug)]
pub struct ToolsConfig {
    pub enabled: Option<Vec<String>>,
}

/// Whether a tool is enabled: every tool when the list is omitted, only the
/// listed ones otherwise (none for an empty list).
pub open spec fn tool_enabled(enabled: Option<Seq<Seq<char>>>, name: Seq<char>) -> bool {
    match enabled {
        None => true,
        Some(list) => list.contains(name),
    }
}

impl ToolsConfig {
    /// Whether the tool `name` is enabled by configuration.
    #[verifier::loop_isolation(false)]
    pub fn is_enabled(&self, name: &str) -> (b: bool)
        ensures
            b == tool_enabled(
                match self.enabled {
                    Some(v) => Some(strings_view(v@)),
                    None => None,
                },
                name@,
            ),
    {
        match &self.enabled {
            None => true,
            Some(list) => {
                let mut i: usize = 0;
                while i < list.len()
                    invariant
                        i <= list@.len(),
                        forall|k: int| 0 <= k < i ==> list@[k]@ != name@,
                    decreases list@.len() - i,
                {
                    if str_eq(list[i].as_str(), name) {
                        assert(strings_view(list@)[i as int] == name@);
                        assert(strings_view(list@).contains(name@));
                        return true;
                    }
                    i = i + 1;
                }
                assert(!strings_view(list@).contains(name@));
                false
            },
        }
    }
}

/// The Prometheus endpoint.
#[derive(Debug)]
pub struct MetricsConfig {
    pub enabled: bool,
    pub listen: String,
}

/// Default listen address of the metrics endpoint.
pub fn default_metrics_listen() -> (s: String)
    ensures
        s@ == "127.0.0.1:9090"@,
{
    owned("127.0.0.1:9090")
}

/// Proxmox VE hosts by name.
#[derive(Debug)]
pub struct ProxmoxConfig {
    pub hosts: Vec<(String, ProxmoxHost)>,
}

/// One Proxmox VE API endpoint with its token.
#[derive(Debug)]
pub struct ProxmoxHost {
    pub url: String,
    pub token_id: String,
    pub token_secret: String,
    pub node: Option<String>,
    pub verify_tls: bool,
    pub task_wait_timeout_secs: u64,
    pub next_vmid_retry_attempts: usize,
    pub next_vmid_retry_backoff_ms: u64,
}

/// The whole configuration.
#[derive(Debug)]
pub struct Config {
    pub docker: DockerConfig,
    pub ssh: SshConfig,
    pub proxmox: ProxmoxConfig,
    pub audit: AuditConfig,
    pub rate_limits: RateLimitConfig,
    pub tools: ToolsConfig,
    pub confirm: Option<Vec<(String, ConfirmRule)>>,
    pub metrics: MetricsConfig,
}

/// What `format!("{:?}", s)` gives for a text: the text quoted, with
/// characters escaped as Rust's `Debug` does.
pub uninterp spec fn debug_text(s: Seq<char>) -> Seq<char>;

/// `format!("{:?}", s)`: the text in double quotes, escaped as Rust source.
#[verifier::external_body]
pub(crate) fn debug_quote(s: &str) -> (r: String)
    ensures
        r@ == debug_text(s@),
{
    format!("{:?}", s)
}

/// What `format!("{:?}", Path::new(s))` gives for a path: the text in double
/// quotes, escaped as std's `Debug` for paths (through `OsStr`) does.
pub uninterp spec fn path_debug_text(s: Seq<char>) -> Seq<char>;

/// `format!("{:?}", Path::new(s))`.
#[verifier::external_body]
pub(crate) fn path_debug_quote(s: &str) -> (r: String)
    ensures
        r@ == path_debug_text(s@),
{
    format!("{:?}", std::path::Path::new(s))
}

/// The error for a configured file that is missing.
pub open spec fn missing_file_message(path: Seq<char>, description: Seq<char>) -> Seq<char> {
    description + " not found at "@ + path_debug_text(path)
}

/// Fails when the file at `path` does not exist (`exists` says whether it
/// does), naming it by `description`.
pub fn ensure_exists(path: &str, description: &str, exists: bool) -> (r: Result<(), String>)
    ensures
        r is Ok <==> exists,
        r matches Err(m) ==> m@ == missing_file_message(path@, description@),
{
    if !exists {
        let mut m = owned(description);
        push_str(&mut m, " not found at ");
        let q = path_debug_quote(path);
        push_str(&mut m, q.as_str());
        return Err(m);
    }
    Ok(())
}

/// `base` joined with a relative or absolute path, as `PathBuf::join` does
/// for text paths: an absolute `rest` replaces `base`, otherwise a
/// separator is put between them unless `base` is empty or ends in one.
pub open spec fn join_path(base: Seq<char>, rest: Seq<char>) -> Seq<char> {
    if rest.len() > 0 && rest[0] == '/' {
        rest
    } else if base.len() == 0 || base.last() == '/' {
        base + rest
    } else {
        base + "/"@ + rest
    }
}

/// A path with a leading `~` replaced by the home directory, when known.
pub open spec fn expanded_home(path: Seq<char>, home: Option<Seq<char>>) -> Seq<char> {
    if path == "~"@ {
        match home {
            Some(h) => h,
            None => path,
        }
    } else if starts_with_seq(path, "~/"@) && home is Some {
        join_path(home->0, path.skip(2))
    } else {
        path
    }
}

/// Replaces a leading `~` (the whole path, or `~/` before the rest) by the
/// home directory `home`; the path is kept as it is when `home` is `None`.
pub fn expand_home(path: &str, home: Option<&str>) -> (r: String)
    ensures
        r@ == expanded_home(
            path@,
            match home {
                Some(h) => Some(h@),
                None => None,
            },
        ),
{
    proof {
        reveal_strlit("~");
        reveal_strlit("~/");
        reveal_strlit("/");
    }
    let chars = chars_of(path);
    let n = chars.len();
    if n == 1 && chars[0] == '~' {
        assert(path@ =~= "~"@);
        return match home {
            Some(h) => owned(h),
            None => owned(path),
        };
    }
    assert(path@ != "~"@ ==> !(n == 1 && path@[0] == '~'));
    let tilde_slash = n >= 2 && chars[0] == '~' && chars[1] == '/';
    assert(tilde_slash == starts_with_seq(path@, "~/"@)) by {
        if tilde_slash {
            assert(path@.subrange(0, 2) =~= "~/"@);
        }
        if starts_with_seq(path@, "~/"@) {
            assert(path@.subrange(0, 2)[0] == path@[0]);
            assert(path@.subrange(0, 2)[1] == path@[1]);
        }
    }
    if tilde_slash {
        match home {
            Some(h) => {
                let rest = string_of_range(chars.as_slice(), 2, n);
                assert(rest@ =~= path@.skip(2));
                let rest_chars = chars_of(rest.as_str());
                let base_chars = chars_of(h);
                if rest_chars.len() > 0 && rest_chars[0] == '/' {
                    return rest;
                }
                let mut r = owned(h);
                if !(base_chars.len() == 0 || base_chars[base_chars.len() - 1] == '/') {
                    push_char(&mut r, '/');
                    assert(r@ =~= h@ + "/"@);
                }
                push_str(&mut r, rest.as_str());
                return r;
            },
            None => {
                return owned(path);
            },
        }
    }
    owned(path)
}

/// The variable named by a whole-text environment reference: `${NAME}`, or
/// `$NAME` with a nonempty name of ASCII letters, digits and underscores.
/// Surrounding whitespace is ignored.
pub open spec fn env_reference(trimmed: Seq<char>) -> Option<Seq<char>> {
    if trimmed.len() >= 3 && trimmed[0] == '$' && trimmed[1] == '{' && trimmed.last() == '}' {
        Some(trimmed.subrange(2, trimmed.len() - 1))
    } else if trimmed.len() >= 2 && trimmed[0] == '$' && trimmed[1] != '{' && forall|i: int|
        1 <= i < trimmed.len() ==> #[trigger] name_char(trimmed[i]) {
        Some(trimmed.skip(1))
    } else {
        None
    }
}

/// An ASCII letter, digit or underscore.
pub open spec fn name_char(c: char) -> bool {
    ('a' <= c && c <= 'z') || ('A' <= c && c <= 'Z') || ('0' <= c && c <= '9') || c == '_'
}

/// The environment variable that `value` refers to as a whole, if any:
/// `${NAME}` or `$NAME`, ignoring surrounding whitespace.
#[verifier::loop_isolation(false)]
pub fn env_var_reference(value: &str) -> (r: Option<String>)
    ensures
        match r {
            Some(n) => env_reference(trim(value@)) == Some(n@),
            None => env_reference(trim(value@)) is None,
        },
{
    let t = trim_str(value);
    let c = chars_of(t.as_str());
    let n = c.len();
    if n >= 3 && c[0] == '$' && c[1] == '{' && c[n - 1] == '}' {
        return Some(string_of_range(c.as_slice(), 2, n - 1));
    }
    if n >= 2 && c[0] == '$' && c[1] != '{' {
        let mut i: usize = 1;
        while i < n
            invariant
                1 <= i <= n,
                n == c@.len(),
                forall|k: int| 1 <= k < i ==> #[trigger] name_char(c@[k]),
            decreases n - i,
        {
            let ch = c[i];
            let ok = ('a' <= ch && ch <= 'z') || ('A' <= ch && ch <= 'Z') || ('0' <= ch && ch <= '9')
                || ch == '_';
            if !ok {
                assert(!name_char(c@[i as int]));
                return None;
            }
            i = i + 1;
        }
        let name = string_of_range(c.as_slice(), 1, n);
        assert(name@ =~= c@.skip(1));
        return Some(name);
    }
    None
}

/// The value of a secret that may refer to an environment variable: the
/// variable's value when `value` refers to one and `resolved` holds its value,
/// `value` itself otherwise.
pub open spec fn resolved_secret(value: Seq<char>, resolved: Option<Seq<char>>) -> Seq<char> {
    if env_reference(trim(value)) is Some && resolved is Some {
        resolved->0
    } else {
        value
    }
}

/// Resolves `value` against the environment: `resolved` is what the
/// environment holds for the variable that `env_var_reference` names
/// (`None` when unset or when there is no reference).
pub fn resolve_env_var(value: &str, resolved: Option<&str>) -> (r: String)
    ensures
        r@ == resolved_secret(
            value@,
            match resolved {
                Some(v) => Some(v@),
                None => None,
            },
        ),
{
    let reference = env_var_reference(value);
    match (reference, resolved) {
        (Some(_), Some(v)) => owned(v),
        _ => owned(value),
    }
}

/// `{:04o}` of a permission mode below `0o1000`.
pub open spec fn octal4(m: nat) -> Seq<char> {
    seq!['0', digit_char(m / 64), digit_char((m / 8) % 8), digit_char(m % 8)]
}

/// The error for a configuration file whose permission bits are too open:
/// any bit for others, or group write or execute. `0600` and `0640` pass.
pub open spec fn permission_problem(path: Seq<char>, mode: u32) -> Option<Seq<char>> {
    let m = (mode % 512) as nat;
    if m % 8 != 0 {
        Some(
            "Configuration file "@ + path_debug_text(path) + " has mode "@ + octal4(m)
                + " — world-accessible. Config may contain sensitive paths and credentials. Fix with: chmod 600 "@
                + path_debug_text(path),
        )
    } else if (m / 8) % 4 != 0 {
        Some(
            "Configuration file "@ + path_debug_text(path) + " has mode "@ + octal4(m)
                + " — group write/execute is allowed. Fix with: chmod 640 "@ + path_debug_text(path),
        )
    } else {
        None
    }
}

/// Checks the permission bits `mode` of the configuration file at `path`.
pub fn check_config_permissions(path: &str, mode: u32) -> (r: Result<(), String>)
    ensures
        match permission_problem(path@, mode) {
            Some(msg) => r matches Err(e) && e@ == msg,
            None => r is Ok,
        },
{
    let m = mode % 512;
    let other_bits = m % 8;
    let group_write_exec = (m / 8) % 4;
    if other_bits == 0 && group_write_exec == 0 {
        return Ok(());
    }
    let q = path_debug_quote(path);
    let mut e = owned("Configuration file ");
    push_str(&mut e, q.as_str());
    push_str(&mut e, " has mode 0");
    push_char(&mut e, digit((m / 64) as u64));
    push_char(&mut e, digit(((m / 8) % 8) as u64));
    push_char(&mut e, digit((m % 8) as u64));
    proof {
        reveal_strlit(" has mode 0");
        reveal_strlit(" has mode ");
    }
    assert(e@ =~= "Configuration file "@ + path_debug_text(path@) + " has mode "@ + octal4(m as nat));
    if other_bits != 0 {
        push_str(
            &mut e,
            " — world-accessible. Config may contain sensitive paths and credentials. Fix with: chmod 600 ",
        );
    } else {
        push_str(&mut e, " — group write/execute is allowed. Fix with: chmod 640 ");
    }
    push_str(&mut e, q.as_str());
    Err(e)
}

/// `(path, description)` for an optional file.
pub open spec fn opt_file(p: Option<String>, description: Seq<char>) -> Seq<(Seq<char>, Seq<char>)> {
    match p {
        Some(x) => seq![(x@, description)],
        None => seq![],
    }
}

/// The TLS files of one Docker host, in the order they are checked.
pub open spec fn docker_host_files(h: DockerHost) -> Seq<(Seq<char>, Seq<char>)> {
    opt_file(h.cert_path, "Docker certificate"@) + opt_file(h.key_path, "Docker private key"@)
        + opt_file(h.ca_path, "Docker CA certificate"@)
}

/// The files named by Docker hosts, host by host.
pub open spec fn docker_files(hosts: Seq<(String, DockerHost)>) -> Seq<(Seq<char>, Seq<char>)>
    decreases hosts.len(),
{
    if hosts.len() == 0 {
        seq![]
    } else {
        docker_files(hosts.drop_last()) + docker_host_files(hosts.last().1)
    }
}

/// How a missing SSH key is named.
pub open spec fn ssh_key_description(name: Seq<char>) -> Seq<char> {
    "SSH private key for host '"@ + name + "'"@
}

/// The private keys named by SSH hosts, host by host.
pub open spec fn ssh_files(hosts: Seq<(String, SshHost)>) -> Seq<(Seq<char>, Seq<char>)>
    decreases hosts.len(),
{
    if hosts.len() == 0 {
        seq![]
    } else {
        ssh_files(hosts.drop_last()) + seq![
            (hosts.last().1.private_key_path@, ssh_key_description(hosts.last().0@)),
        ]
    }
}

/// Every file that the configuration requires to exist, in check order.
pub open spec fn required_files(c: Config) -> Seq<(Seq<char>, Seq<char>)> {
    docker_files(c.docker.hosts@) + ssh_files(c.ssh.hosts@)
}

/// Whether `path` is one of `existing`.
pub open spec fn listed(existing: Seq<String>, path: Seq<char>) -> bool {
    exists|i: int| 0 <= i < existing.len() && existing[i]@ == path
}

/// The first required file that is not listed as existing.
pub open spec fn first_missing(files: Seq<(Seq<char>, Seq<char>)>, existing: Seq<String>) -> Option<int> {
    if exists|i: int| 0 <= i < files.len() && !listed(existing, #[trigger] files[i].0) {
        Some(
            choose|i: int|
                0 <= i < files.len() && !listed(existing, #[trigger] files[i].0) && forall|j: int|
                    0 <= j < i ==> listed(existing, #[trigger] files[j].0),
        )
    } else {
        None
    }
}

/// The first confirmation rule that does not validate.
pub open spec fn first_bad_rule(rules: Seq<(String, ConfirmRule)>) -> Option<int> {
    if exists|i: int| 0 <= i < rules.len() && bad_rule(#[trigger] rules[i].1) {
        Some(
            choose|i: int|
                0 <= i < rules.len() && bad_rule(#[trigger] rules[i].1) && forall|j: int|
                    0 <= j < i ==> !bad_rule(#[trigger] rules[j].1),
        )
    } else {
        None
    }
}

/// An `Always` rule whose text is not `"always"`.
pub open spec fn bad_rule(r: ConfirmRule) -> bool {
    r matches ConfirmRule::Always(v) && v@ != "always"@
}

/// A Docker host with its TLS paths expanded.
pub open spec fn docker_host_expanded(old: DockerHost, new: DockerHost, home: Option<Seq<char>>) -> bool {
    &&& new.host == old.host
    &&& opt_expanded(old.cert_path, new.cert_path, home)
    &&& opt_expanded(old.key_path, new.key_path, home)
    &&& opt_expanded(old.ca_path, new.ca_path, home)
}

/// An optional path with `~` expanded.
pub open spec fn opt_expanded(old: Option<String>, new: Option<String>, home: Option<Seq<char>>) -> bool {
    match old {
        Some(p) => new matches Some(q) && q@ == expanded_home(p@, home),
        None => new is None,
    }
}

fn expand_opt(p: &Option<String>, home: Option<&str>) -> (r: Option<String>)
    ensures
        opt_expanded(
            *p,
            r,
            match home {
                Some(h) => Some(h@),
                None => None,
            },
        ),
{
    match p {
        Some(x) => Some(expand_home(x.as_str(), home)),
        None => None,
    }
}

/// The home directory as a view.
pub open spec fn home_view(home: Option<&str>) -> Option<Seq<char>> {
    match home {
        Some(h) => Some(h@),
        None => None,
    }
}

proof fn lemma_first_missing(files: Seq<(Seq<char>, Seq<char>)>, existing: Seq<String>, i: int)
    requires
        0 <= i < files.len(),
        !listed(existing, files[i].0),
        forall|j: int| 0 <= j < i ==> listed(existing, #[trigger] files[j].0),
    ensures
        first_missing(files, existing) == Some(i),
{
    let c = choose|c: int|
        0 <= c < files.len() && !listed(existing, #[trigger] files[c].0) && forall|j: int|
            0 <= j < c ==> listed(existing, #[trigger] files[j].0);
    assert(!listed(existing, files[i].0));
    if c < i {
        assert(listed(existing, files[c].0));
    } else if c > i {
        assert(listed(existing, files[i].0));
    }
}

proof fn lemma_first_bad_rule(rules: Seq<(String, ConfirmRule)>, i: int)
    requires
        0 <= i < rules.len(),
        bad_rule(rules[i].1),
        forall|j: int| 0 <= j < i ==> !bad_rule(#[trigger] rules[j].1),
    ensures
        first_bad_rule(rules) == Some(i),
{
    let c = choose|c: int|
        0 <= c < rules.len() && bad_rule(#[trigger] rules[c].1) && forall|j: int|
            0 <= j < c ==> !bad_rule(#[trigger] rules[j].1);
    assert(bad_rule(rules[i].1));
    if c < i {
        assert(!bad_rule(rules[c].1));
    } else if c > i {
        assert(!bad_rule(rules[i].1));
    }
}

fn is_listed(existing: &Vec<String>, path: &str) -> (b: bool)
    ensures
        b == listed(existing@, path@),
{
    let mut i: usize = 0;
    while i < existing.len()
        invariant
            i <= existing@.len(),
            forall|k: int| 0 <= k < i ==> existing@[k]@ != path@,
        decreases existing@.len() - i,
    {
        if str_eq(existing[i].as_str(), path) {
            return true;
        }
        i = i + 1;
    }
    false
}

impl Config {
    /// Expands `~` in every configured path: Docker TLS files, SSH keys and
    /// the audit log file.
    pub fn expand_paths(&mut self, home: Option<&str>)
        ensures
            final(self).docker.hosts@.len() == old(self).docker.hosts@.len(),
            forall|i: int|
                0 <= i < old(self).docker.hosts@.len() ==> {
                    &&& (#[trigger] final(self).docker.hosts@[i]).0 == old(self).docker.hosts@[i].0
                    &&& docker_host_expanded(
                        old(self).docker.hosts@[i].1,
                        final(self).docker.hosts@[i].1,
                        home_view(home),
                    )
                },
            final(self).ssh.hosts@.len() == old(self).ssh.hosts@.len(),
            forall|i: int|
                0 <= i < old(self).ssh.hosts@.len() ==> {
                    let (n0, h0) = old(self).ssh.hosts@[i];
                    let (n1, h1) = #[trigger] final(self).ssh.hosts@[i];
                    &&& n1 == n0
                    &&& h1 == SshHost { private_key_path: h1.private_key_path, ..h0 }
                    &&& h1.private_key_path@ == expanded_home(h0.private_key_path@, home_view(home))
                },
            opt_expanded(old(self).audit.file, final(self).audit.file, home_view(home)),
            final(self).ssh.pool == old(self).ssh.pool,
            final(self).ssh.command_allowlist == old(self).ssh.command_allowlist,
            final(self).proxmox == old(self).proxmox,
            final(self).audit.syslog == old(self).audit.syslog,
            final(self).rate_limits == old(self).rate_limits,
            final(self).tools == old(self).tools,
            final(self).confirm == old(self).confirm,
            final(self).metrics == old(self).metrics,
    {
        let ghost d0 = self.docker.hosts@;
        let mut docker: Vec<(String, DockerHost)> = Vec::new();
        std::mem::swap(&mut docker, &mut self.docker.hosts);
        let mut out: Vec<(String, DockerHost)> = Vec::new();
        let mut k: usize = 0;
        let total = docker.len();
        while docker.len() > 0
            invariant
                d0.len() == total,
                k + docker@.len() == d0.len(),
                docker@ == d0.skip(k as int),
                out@.len() == k,
                forall|i: int|
                    0 <= i < k ==> {
                        &&& (#[trigger] out@[i]).0 == d0[i].0
                        &&& docker_host_expanded(d0[i].1, out@[i].1, home_view(home))
                    },
            decreases docker@.len(),
        {
            let (name, h) = docker.remove(0);
            assert(d0.skip(k as int)[0] == d0[k as int]);
            assert(docker@ =~= d0.skip(k + 1));
            let nh = DockerHost {
                host: h.host,
                cert_path: expand_opt(&h.cert_path, home),
                key_path: expand_opt(&h.key_path, home),
                ca_path: expand_opt(&h.ca_path, home),
            };
            out.push((name, nh));
            k = k + 1;
        }
        self.docker.hosts = out;
        let ghost s0 = self.ssh.hosts@;
        let mut ssh: Vec<(String, SshHost)> = Vec::new();
        std::mem::swap(&mut ssh, &mut self.ssh.hosts);
        let mut sout: Vec<(String, SshHost)> = Vec::new();
        let mut k: usize = 0;
        let total = ssh.len();
        while ssh.len() > 0
            invariant
                s0.len() == total,
                k + ssh@.len() == s0.len(),
                ssh@ == s0.skip(k as int),
                sout@.len() == k,
                forall|i: int|
                    0 <= i < k ==> {
                        let (n0, h0) = s0[i];
                        let (n1, h1) = #[trigger] sout@[i];
                        &&& n1 == n0
                        &&& h1 == SshHost { private_key_path: h1.private_key_path, ..h0 }
                        &&& h1.private_key_path@ == expanded_home(h0.private_key_path@, home_view(home))
                    },
            decreases ssh@.len(),
        {
            let (name, mut h) = ssh.remove(0);
            assert(s0.skip(k as int)[0] == s0[k as int]);
            assert(ssh@ =~= s0.skip(k + 1));
            h.private_key_path = expand_home(h.private_key_path.as_str(), home);
            sout.push((name, h));
            k = k + 1;
        }
        self.ssh.hosts = sout;
        let audit_file = expand_opt(&self.audit.file, home);
        self.audit.file = audit_file;
    }
}

/// The views of `(path, description)` pairs.
pub open spec fn files_view(v: Seq<(String, String)>) -> Seq<(Seq<char>, Seq<char>)> {
    v.map_values(|e: (String, String)| (e.0@, e.1@))
}

fn push_opt_file(files: &mut Vec<(String, String)>, p: &Option<String>, description: &str)
    ensures
        files_view(final(files)@) == files_view(old(files)@) + opt_file(*p, description@),
{
    match p {
        Some(x) => {
            files.push((x.clone(), owned(description)));
            assert(files_view(files@) =~= files_view(old(files)@) + opt_file(*p, description@));
        },
        None => {
            assert(files_view(files@) =~= files_view(old(files)@) + opt_file(*p, description@));
        },
    }
}

/// The value that `env` gives to the variable `name` (its first entry).
pub open spec fn env_lookup(env: Seq<(String, String)>, name: Seq<char>) -> Option<Seq<char>> {
    if exists|i: int| 0 <= i < env.len() && (#[trigger] env[i]).0@ == name {
        Some(
            env[choose|i: int|
                0 <= i < env.len() && (#[trigger] env[i]).0@ == name && forall|j: int|
                    0 <= j < i ==> (#[trigger] env[j]).0@ != name].1@,
        )
    } else {
        None
    }
}

fn find_env<'a>(env: &'a Vec<(String, String)>, name: &str) -> (r: Option<&'a str>)
    ensures
        match r {
            Some(v) => env_lookup(env@, name@) == Some(v@),
            None => env_lookup(env@, name@) is None,
        },
{
    let mut i: usize = 0;
    while i < env.len()
        invariant
            i <= env@.len(),
            forall|k: int| 0 <= k < i ==> (#[trigger] env@[k]).0@ != name@,
        decreases env@.len() - i,
    {
        if str_eq(env[i].0.as_str(), name) {
            proof {
                let c = choose|c: int|
                    0 <= c < env@.len() && (#[trigger] env@[c]).0@ == name@ && forall|j: int|
                        0 <= j < c ==> (#[trigger] env@[j]).0@ != name@;
                assert(env@[i as int].0@ == name@);
                if c < i {
                    assert(env@[c].0@ != name@);
                } else if c > i {
                    assert(env@[i as int].0@ != name@);
                }
            }
            return Some(env[i].1.as_str());
        }
        i = i + 1;
    }
    None
}

/// A passphrase after environment resolution.
pub open spec fn passphrase_resolved(old: Option<String>, new: Option<String>, env: Seq<(String, String)>) -> bool {
    match old {
        Some(p) => new matches Some(q) && q@ == resolved_secret(
            p@,
            match env_reference(trim(p@)) {
                Some(n) => env_lookup(env, n),
                None => None,
            },
        ),
        None => new is None,
    }
}

/// The problem that `check` reports for a configuration, if any.
pub open spec fn config_problem(c: Config, existing: Seq<String>) -> Option<Seq<char>> {
    let files = required_files(c);
    match first_missing(files, existing) {
        Some(i) => Some(missing_file_message(files[i].0, files[i].1)),
        None => match c.confirm {
            Some(rules) => match first_bad_rule(rules@) {
                Some(i) => match rules@[i].1 {
                    ConfirmRule::Always(v) => Some(invalid_rule_message(rules@[i].0@, v@)),
                    _ => None,
                },
                None => None,
            },
            None => None,
        },
    }
}

impl Config {
    /// The files that must exist, as `(path, description)` in check order.
    pub fn required_files(&self) -> (files: Vec<(String, String)>)
        ensures
            files_view(files@) == required_files(*self),
    {
        let mut files: Vec<(String, String)> = Vec::new();
        let hosts = &self.docker.hosts;
        let mut k: usize = 0;
        assert(hosts@.take(0) =~= Seq::<(String, DockerHost)>::empty());
        assert(files_view(files@) =~= Seq::<(Seq<char>, Seq<char>)>::empty());
        while k < hosts.len()
            invariant
                k <= hosts@.len(),
                files_view(files@) == docker_files(hosts@.take(k as int)),
            decreases hosts@.len() - k,
        {
            let h = &hosts[k].1;
            assert(hosts@.take(k + 1).drop_last() =~= hosts@.take(k as int));
            push_opt_file(&mut files, &h.cert_path, "Docker certificate");
            push_opt_file(&mut files, &h.key_path, "Docker private key");
            push_opt_file(&mut files, &h.ca_path, "Docker CA certificate");
            k = k + 1;
        }
        assert(hosts@.take(hosts@.len() as int) =~= hosts@);
        let ghost dfiles = files_view(files@);
        let shosts = &self.ssh.hosts;
        let mut k: usize = 0;
        assert(shosts@.take(0) =~= Seq::<(String, SshHost)>::empty());
        assert(dfiles + ssh_files(shosts@.take(0)) =~= dfiles);
        while k < shosts.len()
            invariant
                k <= shosts@.len(),
                dfiles == docker_files(self.docker.hosts@),
                files_view(files@) == dfiles + ssh_files(shosts@.take(k as int)),
            decreases shosts@.len() - k,
        {
            assert(shosts@.take(k + 1).drop_last() =~= shosts@.take(k as int));
            let mut d = owned("SSH private key for host '");
            push_str(&mut d, shosts[k].0.as_str());
            push_str(&mut d, "'");
            let ghost before = files_view(files@);
            files.push((shosts[k].1.private_key_path.clone(), d));
            assert(files_view(files@) =~= before + seq![
                (shosts@[k as int].1.private_key_path@, ssh_key_description(shosts@[k as int].0@)),
            ]);
            k = k + 1;
        }
        assert(shosts@.take(shosts@.len() as int) =~= shosts@);
        files
    }

    /// Checks that every required file exists (`existing` lists the paths
    /// that do) and that every confirmation rule is valid; the first problem
    /// found is the error.
    #[verifier::loop_isolation(false)]
    pub fn check(&self, existing: &Vec<String>) -> (r: Result<(), String>)
        ensures
            match config_problem(*self, existing@) {
                Some(m) => r matches Err(e) && e@ == m,
                None => r is Ok,
            },
    {
        let files = self.required_files();
        let ghost fv = files_view(files@);
        let mut i: usize = 0;
        while i < files.len()
            invariant
                i <= files@.len(),
                fv == files_view(files@),
                fv == required_files(*self),
                forall|j: int| 0 <= j < i ==> listed(existing@, #[trigger] fv[j].0),
            decreases files@.len() - i,
        {
            if !is_listed(existing, files[i].0.as_str()) {
                proof {
                    lemma_first_missing(fv, existing@, i as int);
                }
                return ensure_exists(files[i].0.as_str(), files[i].1.as_str(), false);
            }
            i = i + 1;
        }
        assert(first_missing(fv, existing@) is None);
        match &self.confirm {
            None => Ok(()),
            Some(rules) => {
                let mut i: usize = 0;
                while i < rules.len()
                    invariant
                        i <= rules@.len(),
                        forall|j: int| 0 <= j < i ==> !bad_rule(#[trigger] rules@[j].1),
                    decreases rules@.len() - i,
                {
                    let r = rules[i].1.validate(rules[i].0.as_str());
                    if r.is_err() {
                        proof {
                            lemma_first_bad_rule(rules@, i as int);
                        }
                        return r;
                    }
                    i = i + 1;
                }
                assert(first_bad_rule(rules@) is None);
                Ok(())
            },
        }
    }

    /// Resolves environment references in SSH key passphrases; `env` holds
    /// the environment's `(name, value)` pairs.
    pub fn resolve_passphrases(&mut self, env: &Vec<(String, String)>)
        ensures
            final(self).ssh.hosts@.len() == old(self).ssh.hosts@.len(),
            forall|i: int|
                0 <= i < old(self).ssh.hosts@.len() ==> {
                    let (n0, h0) = old(self).ssh.hosts@[i];
                    let (n1, h1) = #[trigger] final(self).ssh.hosts@[i];
                    &&& n1 == n0
                    &&& h1 == SshHost { private_key_passphrase: h1.private_key_passphrase, ..h0 }
                    &&& passphrase_resolved(h0.private_key_passphrase, h1.private_key_passphrase, env@)
                },
            final(self).docker == old(self).docker,
            final(self).ssh.pool == old(self).ssh.pool,
            final(self).ssh.command_allowlist == old(self).ssh.command_allowlist,
            final(self).proxmox == old(self).proxmox,
            final(self).audit == old(self).audit,
            final(self).rate_limits == old(self).rate_limits,
            final(self).tools == old(self).tools,
            final(self).confirm == old(self).confirm,
            final(self).metrics == old(self).metrics,
    {
        let ghost s0 = self.ssh.hosts@;
        let mut ssh: Vec<(String, SshHost)> = Vec::new();
        std::mem::swap(&mut ssh, &mut self.ssh.hosts);
        let mut sout: Vec<(String, SshHost)> = Vec::new();
        let mut k: usize = 0;
        let total = ssh.len();
        while ssh.len() > 0
            invariant
                s0.len() == total,
                k + ssh@.len() == s0.len(),
                ssh@ == s0.skip(k as int),
                sout@.len() == k,
                forall|i: int|
                    0 <= i < k ==> {
                        let (n0, h0) = s0[i];
                        let (n1, h1) = #[trigger] sout@[i];
                        &&& n1 == n0
                        &&& h1 == SshHost { private_key_passphrase: h1.private_key_passphrase, ..h0 }
                        &&& passphrase_resolved(h0.private_key_passphrase, h1.private_key_passphrase, env@)
                    },
            decreases ssh@.len(),
        {
            let (name, mut h) = ssh.remove(0);
            assert(s0.skip(k as int)[0] == s0[k as int]);
            assert(ssh@ =~= s0.skip(k + 1));
            let resolved = match &h.private_key_passphrase {
                Some(p) => {
                    let value = match env_var_reference(p.as_str()) {
                        Some(n) => find_env(env, n.as_str()),
                        None => None,
                    };
                    Some(resolve_env_var(p.as_str(), value))
                },
                None => None,
            };
            h.private_key_passphrase = resolved;
            sout.push((name, h));
            k = k + 1;
        }
        self.ssh.hosts = sout;
    }

    /// Validates a freshly loaded configuration: expands `~` in paths (with
    /// `home` the home directory), checks that required files exist
    /// (`existing` lists the expanded paths that do) and that confirmation
    /// rules are valid, resolves passphrase references against `env`, and
    /// installs the default command allowlist when no prefix is configured.
    pub fn validate(
        &mut self,
        home: Option<&str>,
        env: &Vec<(String, String)>,
        existing: &Vec<String>,
    ) -> (r: Result<(), String>)
        ensures
            final(self).docker.hosts@.len() == old(self).docker.hosts@.len(),
            forall|i: int|
                0 <= i < old(self).docker.hosts@.len() ==> {
                    &&& (#[trigger] final(self).docker.hosts@[i]).0 == old(self).docker.hosts@[i].0
                    &&& docker_host_expanded(
                        old(self).docker.hosts@[i].1,
                        final(self).docker.hosts@[i].1,
                        home_view(home),
                    )
                },
            final(self).ssh.hosts@.len() == old(self).ssh.hosts@.len(),
            forall|i: int|
                0 <= i < old(self).ssh.hosts@.len() ==> {
                    let (n0, h0) = old(self).ssh.hosts@[i];
                    let (n1, h1) = #[trigger] final(self).ssh.hosts@[i];
                    &&& n1 == n0
                    &&& h1.host == h0.host
                    &&& h1.port == h0.port
                    &&& h1.user == h0.user
                    &&& h1.private_key_path@ == expanded_home(h0.private_key_path@, home_view(home))
                    &&& r is Ok ==> passphrase_resolved(
                        h0.private_key_passphrase,
                        h1.private_key_passphrase,
                        env@,
                    )
                },
            opt_expanded(old(self).audit.file, final(self).audit.file, home_view(home)),
            match config_problem(*final(self), existing@) {
                Some(m) => r matches Err(e) && e@ == m,
                None => r is Ok,
            },
            r is Ok && old(self).ssh.command_allowlist.allowed_prefixes@.len() == 0 ==> {
                &&& strings_view(final(self).ssh.command_allowlist.allowed_prefixes@)
                    == default_allowed_prefixes()
                &&& strings_view(final(self).ssh.command_allowlist.blocked_patterns@)
                    == default_blocked_patterns()
            },
            r is Ok && old(self).ssh.command_allowlist.allowed_prefixes@.len() > 0
                ==> final(self).ssh.command_allowlist == old(self).ssh.command_allowlist,
            final(self).ssh.pool == old(self).ssh.pool,
            final(self).proxmox == old(self).proxmox,
            final(self).rate_limits == old(self).rate_limits,
            final(self).tools == old(self).tools,
            final(self).confirm == old(self).confirm,
            final(self).metrics == old(self).metrics,
    {
        self.expand_paths(home);
        let r = self.check(existing);
        if r.is_err() {
            return r;
        }
        let ghost before = *self;
        self.resolve_passphrases(env);
        assert(required_files(*self) == required_files(before)) by {
            assert(self.ssh.hosts@.len() == before.ssh.hosts@.len());
            lemma_ssh_files_keys(before.ssh.hosts@, self.ssh.hosts@);
        }
        if self.ssh.command_allowlist.allowed_prefixes.len() == 0 {
            self.ssh.command_allowlist = CommandAllowlist::default();
        }
        Ok(())
    }
}

proof fn lemma_ssh_files_keys(a: Seq<(String, SshHost)>, b: Seq<(String, SshHost)>)
    requires
        a.len() == b.len(),
        forall|i: int|
            0 <= i < a.len() ==> (#[trigger] a[i]).0 == b[i].0 && a[i].1.private_key_path
                == b[i].1.private_key_path,
    ensures
        ssh_files(a) == ssh_files(b),
    decreases a.len(),
{
    if a.len() > 0 {
        lemma_ssh_files_keys(a.drop_last(), b.drop_last());
        assert(a.last() == a[a.len() - 1]);
    }
}

proof fn lemma_earliest_missing(files: Seq<(Seq<char>, Seq<char>)>, existing: Seq<String>, i: int)
    requires
        0 <= i < files.len(),
        !listed(existing, files[i].0),
    ensures
        exists|c: int|
            0 <= c <= i && !listed(existing, #[trigger] files[c].0) && forall|j: int|
                0 <= j < c ==> listed(existing, #[trigger] files[j].0),
    decreases i,
{
    if exists|k: int| 0 <= k < i && !listed(existing, #[trigger] files[k].0) {
        let k = choose|k: int| 0 <= k < i && !listed(existing, #[trigger] files[k].0);
        lemma_earliest_missing(files, existing, k);
    } else {
        assert(forall|j: int| 0 <= j < i ==> listed(existing, #[trigger] files[j].0));
    }
}

/// A required file that is missing makes the configuration refused, with
/// the message of a missing required file.
proof fn lemma_missing_required_file(c: Config, existing: Seq<String>, k: int)
    requires
        0 <= k < required_files(c).len(),
        !listed(existing, required_files(c)[k].0),
    ensures
        config_problem(c, existing) matches Some(m) && exists|p: Seq<char>, d: Seq<char>|
            !listed(existing, p) && m == missing_file_message(p, d),
{
    let files = required_files(c);
    lemma_earliest_missing(files, existing, k);
    let f = choose|f: int|
        0 <= f <= k && !listed(existing, #[trigger] files[f].0) && forall|j: int|
            0 <= j < f ==> listed(existing, #[trigger] files[j].0);
    lemma_first_missing(files, existing, f);
    assert(config_problem(c, existing) == Some(missing_file_message(files[f].0, files[f].1)));
}

proof fn lemma_ssh_files_at(hosts: Seq<(String, SshHost)>, i: int)
    requires
        0 <= i < hosts.len(),
    ensures
        ssh_files(hosts).len() == hosts.len(),
        ssh_files(hosts)[i] == (hosts[i].1.private_key_path@, ssh_key_description(hosts[i].0@)),
    decreases hosts.len(),
{
    let d = hosts.drop_last();
    assert(ssh_files(hosts) == ssh_files(d) + seq![
        (hosts.last().1.private_key_path@, ssh_key_description(hosts.last().0@)),
    ]);
    if d.len() > 0 {
        lemma_ssh_files_at(d, 0);
    } else {
        assert(ssh_files(d).len() == 0);
    }
    if i < hosts.len() - 1 {
        lemma_ssh_files_at(d, i);
        assert(d[i] == hosts[i]);
    }
}

/// Every configured SSH host's private key must exist: when the key of
/// some SSH host is not among the existing files, the configuration is
/// refused, naming a file that is missing.
pub proof fn law_missing_ssh_key_refused(c: Config, existing: Seq<String>, i: int)
    requires
        0 <= i < c.ssh.hosts@.len(),
        !listed(existing, c.ssh.hosts@[i].1.private_key_path@),
    ensures
        config_problem(c, existing) matches Some(m) && exists|p: Seq<char>, d: Seq<char>|
            !listed(existing, p) && m == missing_file_message(p, d),
{
    let dfiles = docker_files(c.docker.hosts@);
    lemma_ssh_files_at(c.ssh.hosts@, i);
    let k = dfiles.len() + i;
    assert(required_files(c)[k] == ssh_files(c.ssh.hosts@)[i]);
    lemma_missing_required_file(c, existing, k);
}

proof fn lemma_docker_files_include(hosts: Seq<(String, DockerHost)>, i: int) -> (r: (int, int))
    requires
        0 <= i < hosts.len(),
    ensures
        0 <= r.0 && 0 <= r.1 && r.0 + r.1 <= docker_files(hosts).len(),
        docker_host_files(hosts[i].1) =~= docker_files(hosts).subrange(r.0, r.0 + r.1),
    decreases hosts.len(),
{
    let d = hosts.drop_last();
    let n = hosts.len() - 1;
    assert(docker_files(hosts) == docker_files(d) + docker_host_files(hosts.last().1));
    if i < n {
        let r = lemma_docker_files_include(d, i);
        let a = r.0;
        let b = r.1;
        assert(d[i] == hosts[i]);
        assert(docker_files(d).subrange(a, a + b) =~= docker_files(hosts).subrange(a, a + b));
        (a, b)
    } else {
        let a = docker_files(d).len() as int;
        let b = docker_host_files(hosts[i].1).len() as int;
        assert(hosts.last() == hosts[i]);
        assert(docker_host_files(hosts[i].1) =~= docker_files(hosts).subrange(a, a + b));
        (a, b)
    }
}

/// Every certificate, key and CA file named by a Docker host must exist:
/// when one of them is not among the existing files, the configuration is
/// refused, naming a file that is missing.
pub proof fn law_missing_docker_file_refused(c: Config, existing: Seq<String>, i: int, path: String)
    requires
        0 <= i < c.docker.hosts@.len(),
        c.docker.hosts@[i].1.cert_path == Some(path) || c.docker.hosts@[i].1.key_path == Some(path)
            || c.docker.hosts@[i].1.ca_path == Some(path),
        !listed(existing, path@),
    ensures
        config_problem(c, existing) matches Some(m) && exists|p: Seq<char>, d: Seq<char>|
            !listed(existing, p) && m == missing_file_message(p, d),
{
    let h = c.docker.hosts@[i].1;
    let r = lemma_docker_files_include(c.docker.hosts@, i);
    let a = r.0;
    let b = r.1;
    let dfiles = docker_files(c.docker.hosts@);
    assert(docker_host_files(h).len() == b);
    let hf = docker_host_files(h);
    let x = opt_file(h.cert_path, "Docker certificate"@);
    let y = opt_file(h.key_path, "Docker private key"@);
    let z = opt_file(h.ca_path, "Docker CA certificate"@);
    let j: int = if h.cert_path == Some(path) {
        0
    } else if h.key_path == Some(path) {
        x.len() as int
    } else {
        (x.len() + y.len()) as int
    };
    assert(hf == x + y + z);
    if h.cert_path == Some(path) {
        assert(x[0] == (path@, "Docker certificate"@));
        assert(hf[0] == x[0]);
    } else if h.key_path == Some(path) {
        assert(y[0] == (path@, "Docker private key"@));
        assert(hf[j] == y[0]);
    } else {
        assert(z[0] == (path@, "Docker CA certificate"@));
        assert(hf[j] == z[0]);
    }
    assert(hf[j].0 == path@);
    assert(required_files(c)[a + j] == dfiles[a + j]);
    assert(dfiles[a + j] == hf[j]);
    lemma_missing_required_file(c, existing, a + j);
}

} // verus!
