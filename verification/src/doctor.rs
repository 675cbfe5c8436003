//! The `doctor` report: what each connection check found, the security
//! warnings a configuration raises, and the summary of the settings.
use vstd::prelude::*;
use crate::config::{debug_quote, debug_text, Config};
use crate::confirmation::ConfirmRule;
use crate::text::{decimal, owned, push_str, u64_to_decimal};
use crate::tools::docker::{debug_list, debug_list_exec};

verus! {

/// The lines reporting the check of one Docker host.
pub fn docker_check_lines(name: &str, host: &str, result: &Result<(), String>) -> (lines: Vec<String>)
    ensures
        crate::json::texts(lines@) == match result {
            Ok(()) => seq!["  ✓ Docker '"@ + name@ + "': "@ + host@ + " -> accessible"@],
            Err(e) => seq![
                "  ✗ Docker '"@ + name@ + "': "@ + host@ + " -> "@ + e@,
                "    -> Check that Docker daemon is running"@,
                "    -> Verify connection string is correct"@,
            ],
        },
{
    match result {
        Ok(()) => {
            let mut first = owned("  ✓ Docker '");
            push_str(&mut first, name);
            push_str(&mut first, "': ");
            push_str(&mut first, host);
            push_str(&mut first, " -> accessible");
            let lines = vec![first];
            assert(crate::json::texts(lines@) =~= seq![
                "  ✓ Docker '"@ + name@ + "': "@ + host@ + " -> accessible"@,
            ]);
            lines
        },
        Err(e) => {
            let mut first = owned("  ✗ Docker '");
            push_str(&mut first, name);
            push_str(&mut first, "': ");
            push_str(&mut first, host);
            push_str(&mut first, " -> ");
            push_str(&mut first, e.as_str());
            let lines = vec![
                first,
                owned("    -> Check that Docker daemon is running"),
                owned("    -> Verify connection string is correct"),
            ];
            assert(crate::json::texts(lines@) =~= seq![
                "  ✗ Docker '"@ + name@ + "': "@ + host@ + " -> "@ + e@,
                "    -> Check that Docker daemon is running"@,
                "    -> Verify connection string is correct"@,
            ]);
            lines
        },
    }
}

/// The check of an SSH host that needs no connection: its key file must
/// exist.
pub fn ssh_key_check(key_exists: bool) -> (r: Result<(), String>)
    ensures
        key_exists ==> r is Ok,
        !key_exists ==> (r matches Err(e) && e@ == "Private key file not found"@),
{
    if key_exists {
        Ok(())
    } else {
        Err(owned("Private key file not found"))
    }
}

/// The lines reporting the check of one SSH host.
pub fn ssh_check_lines(name: &str, user: &str, host: &str, result: &Result<(), String>) -> (lines: Vec<String>)
    ensures
        crate::json::texts(lines@) == match result {
            Ok(()) => seq!["  ✓ SSH '"@ + name@ + "': "@ + user@ + "@"@ + host@ + " -> OK"@],
            Err(e) => seq![
                "  ✗ SSH '"@ + name@ + "': "@ + user@ + "@"@ + host@ + " -> "@ + e@,
                "    -> Check that SSH server is running"@,
                "    -> Verify host and port are correct"@,
                "    -> Verify private_key_path is correct"@,
                "    -> Verify SSH user has permissions"@,
            ],
        },
{
    match result {
        Ok(()) => {
            let mut first = owned("  ✓ SSH '");
            push_str(&mut first, name);
            push_str(&mut first, "': ");
            push_str(&mut first, user);
            push_str(&mut first, "@");
            push_str(&mut first, host);
            push_str(&mut first, " -> OK");
            let lines = vec![first];
            assert(crate::json::texts(lines@) =~= seq![
                "  ✓ SSH '"@ + name@ + "': "@ + user@ + "@"@ + host@ + " -> OK"@,
            ]);
            lines
        },
        Err(e) => {
            let mut first = owned("  ✗ SSH '");
            push_str(&mut first, name);
            push_str(&mut first, "': ");
            push_str(&mut first, user);
            push_str(&mut first, "@");
            push_str(&mut first, host);
            push_str(&mut first, " -> ");
            push_str(&mut first, e.as_str());
            let lines = vec![
                first,
                owned("    -> Check that SSH server is running"),
                owned("    -> Verify host and port are correct"),
                owned("    -> Verify private_key_path is correct"),
                owned("    -> Verify SSH user has permissions"),
            ];
            assert(crate::json::texts(lines@) =~= seq![
                "  ✗ SSH '"@ + name@ + "': "@ + user@ + "@"@ + host@ + " -> "@ + e@,
                "    -> Check that SSH server is running"@,
                "    -> Verify host and port are correct"@,
                "    -> Verify private_key_path is correct"@,
                "    -> Verify SSH user has permissions"@,
            ]);
            lines
        },
    }
}

/// The warnings about the SSH hosts that log in as root, in order.
pub open spec fn root_warnings(hosts: Seq<(String, crate::config::SshHost)>) -> Seq<Seq<char>>
    decreases hosts.len(),
{
    if hosts.len() == 0 {
        seq![]
    } else if hosts.last().1.user@ == "root"@ {
        root_warnings(hosts.drop_last()).push(
            "SSH host '"@ + hosts.last().0@ + "' uses root user - this is a security risk"@,
        )
    } else {
        root_warnings(hosts.drop_last())
    }
}

/// The security warnings a configuration raises: SSH hosts logging in as
/// root, no audit log, and no allowed command prefixes.
pub open spec fn security_warning_texts(c: Config) -> Seq<Seq<char>> {
    root_warnings(c.ssh.hosts@) + (if c.audit.file is None && c.audit.syslog is None {
        seq!["Audit logging is not configured - tool invocations will not be logged"@]
    } else {
        seq![]
    }) + (if c.ssh.command_allowlist.allowed_prefixes@.len() == 0 {
        seq!["No SSH command allowlist configured - all commands will be blocked"@]
    } else {
        seq![]
    })
}

/// Lists the security warnings of a configuration.
pub fn security_warnings(config: &Config) -> (w: Vec<String>)
    ensures
        crate::json::texts(w@) == security_warning_texts(*config),
{
    let hosts = &config.ssh.hosts;
    let mut w: Vec<String> = Vec::new();
    let mut i: usize = 0;
    while i < hosts.len()
        invariant
            i <= hosts@.len(),
            hosts@ == config.ssh.hosts@,
            crate::json::texts(w@) == root_warnings(hosts@.take(i as int)),
        decreases hosts@.len() - i,
    {
        assert(hosts@.take(i + 1).drop_last() =~= hosts@.take(i as int));
        if crate::text::str_eq(hosts[i].1.user.as_str(), "root") {
            let mut m = owned("SSH host '");
            push_str(&mut m, hosts[i].0.as_str());
            push_str(&mut m, "' uses root user - this is a security risk");
            w.push(m);
            assert(crate::json::texts(w@) =~= root_warnings(hosts@.take(i as int)).push(
                "SSH host '"@ + hosts@[i as int].0@ + "' uses root user - this is a security risk"@,
            ));
        }
        i = i + 1;
    }
    assert(hosts@.take(i as int) =~= hosts@);
    let ghost base = crate::json::texts(w@);
    if config.audit.file.is_none() && config.audit.syslog.is_none() {
        w.push(owned("Audit logging is not configured - tool invocations will not be logged"));
    }
    let ghost mid = crate::json::texts(w@);
    assert(mid =~= base + (if config.audit.file is None && config.audit.syslog is None {
        seq!["Audit logging is not configured - tool invocations will not be logged"@]
    } else {
        seq![]
    }));
    if config.ssh.command_allowlist.allowed_prefixes.len() == 0 {
        w.push(owned("No SSH command allowlist configured - all commands will be blocked"));
    }
    assert(crate::json::texts(w@) =~= mid + (if config.ssh.command_allowlist.allowed_prefixes@.len() == 0 {
        seq!["No SSH command allowlist configured - all commands will be blocked"@]
    } else {
        seq![]
    }));
    w
}

/// The line closing the security checks.
pub fn security_summary(warning_count: usize) -> (r: String)
    ensures
        warning_count > 0 ==> r@ == "  "@ + decimal(warning_count as nat) + " security warnings (see logs)"@,
        warning_count == 0 ==> r@ == "  ✓ Security checks passed"@,
{
    if warning_count > 0 {
        let mut r = owned("  ");
        let n = u64_to_decimal(warning_count as u64);
        push_str(&mut r, n.as_str());
        push_str(&mut r, " security warnings (see logs)");
        r
    } else {
        owned("  ✓ Security checks passed")
    }
}

/// A confirmation rule as `{:?}` writes it.
pub open spec fn rule_debug(rule: ConfirmRule) -> Seq<char> {
    match rule {
        ConfirmRule::Always(s) => "Always("@ + debug_text(s@) + ")"@,
        ConfirmRule::WhenPattern { when_pattern } => "WhenPattern { when_pattern: "@ + debug_list(when_pattern@)
            + " }"@,
    }
}

fn rule_debug_exec(rule: &ConfirmRule) -> (r: String)
    ensures
        r@ == rule_debug(*rule),
{
    match rule {
        ConfirmRule::Always(s) => {
            let mut r = owned("Always(");
            let q = debug_quote(s.as_str());
            push_str(&mut r, q.as_str());
            push_str(&mut r, ")");
            r
        },
        ConfirmRule::WhenPattern { when_pattern } => {
            let mut r = owned("WhenPattern { when_pattern: ");
            let l = debug_list_exec(when_pattern);
            push_str(&mut r, l.as_str());
            push_str(&mut r, " }");
            r
        },
    }
}

/// The line describing the audit log.
pub open spec fn audit_line(c: Config) -> Seq<char> {
    if c.audit.file is Some {
        "  Audit logging: enabled (file)"@
    } else if c.audit.syslog is Some {
        "  Audit logging: enabled (syslog)"@
    } else {
        "  Audit logging: disabled"@
    }
}

/// The line describing the SSH pool.
pub open spec fn pool_line(c: Config) -> Seq<char> {
    "  SSH pool: max "@ + decimal(c.ssh.pool.max_sessions_per_host as nat) + " sessions, "@ + decimal(
        (c.ssh.pool.max_lifetime_secs / 60) as nat,
    ) + " min lifetime, "@ + decimal((c.ssh.pool.max_idle_time_secs / 60) as nat) + " min idle, "@ + decimal(
        c.ssh.pool.keepalive_interval_secs as nat,
    ) + "s keepalive"@
}

/// The summary of the settings: host counts, the pool and the audit log.
pub fn settings_summary(config: &Config) -> (lines: Vec<String>)
    ensures
        crate::json::texts(lines@) == seq![
            "  "@ + decimal(config.docker.hosts@.len()) + " Docker hosts, "@ + decimal(config.ssh.hosts@.len())
                + " SSH hosts"@,
            pool_line(*config),
            audit_line(*config),
        ],
{
    let mut a = owned("  ");
    let n = u64_to_decimal(config.docker.hosts.len() as u64);
    push_str(&mut a, n.as_str());
    push_str(&mut a, " Docker hosts, ");
    let n = u64_to_decimal(config.ssh.hosts.len() as u64);
    push_str(&mut a, n.as_str());
    push_str(&mut a, " SSH hosts");
    let p = &config.ssh.pool;
    let mut b = owned("  SSH pool: max ");
    let n = u64_to_decimal(p.max_sessions_per_host as u64);
    push_str(&mut b, n.as_str());
    push_str(&mut b, " sessions, ");
    let n = u64_to_decimal(p.max_lifetime_secs / 60);
    push_str(&mut b, n.as_str());
    push_str(&mut b, " min lifetime, ");
    let n = u64_to_decimal(p.max_idle_time_secs / 60);
    push_str(&mut b, n.as_str());
    push_str(&mut b, " min idle, ");
    let n = u64_to_decimal(p.keepalive_interval_secs);
    push_str(&mut b, n.as_str());
    push_str(&mut b, "s keepalive");
    let c = if config.audit.file.is_some() {
        owned("  Audit logging: enabled (file)")
    } else if config.audit.syslog.is_some() {
        owned("  Audit logging: enabled (syslog)")
    } else {
        owned("  Audit logging: disabled")
    };
    let lines = vec![a, b, c];
    assert(crate::json::texts(lines@) =~= seq![
        "  "@ + decimal(config.docker.hosts@.len()) + " Docker hosts, "@ + decimal(config.ssh.hosts@.len())
            + " SSH hosts"@,
        pool_line(*config),
        audit_line(*config),
    ]);
    lines
}

/// One line per rate limit, or a note that there are none.
pub open spec fn limit_lines(limits: Seq<(String, crate::config::RateLimit)>) -> Seq<Seq<char>>
    decreases limits.len(),
{
    if limits.len() == 0 {
        seq![]
    } else {
        limit_lines(limits.drop_last()).push(
            "  "@ + limits.last().0@ + ": "@ + decimal(limits.last().1.per_minute as nat) + " req/min"@,
        )
    }
}

/// The rate limit section of the report.
pub fn rate_limit_lines(config: &Config) -> (lines: Vec<String>)
    ensures
        config.rate_limits.limits@.len() == 0 ==> crate::json::texts(lines@) == seq![
            "  No rate limits configured (all tools unrestricted)"@,
        ],
        config.rate_limits.limits@.len() > 0 ==> crate::json::texts(lines@) == limit_lines(config.rate_limits.limits@),
{
    let limits = &config.rate_limits.limits;
    if limits.len() == 0 {
        let lines = vec![owned("  No rate limits configured (all tools unrestricted)")];
        assert(crate::json::texts(lines@) =~= seq!["  No rate limits configured (all tools unrestricted)"@]);
        return lines;
    }
    let mut lines: Vec<String> = Vec::new();
    let mut i: usize = 0;
    while i < limits.len()
        invariant
            i <= limits@.len(),
            limits@ == config.rate_limits.limits@,
            crate::json::texts(lines@) == limit_lines(limits@.take(i as int)),
        decreases limits@.len() - i,
    {
        assert(limits@.take(i + 1).drop_last() =~= limits@.take(i as int));
        let mut l = owned("  ");
        push_str(&mut l, limits[i].0.as_str());
        push_str(&mut l, ": ");
        let n = u64_to_decimal(limits[i].1.per_minute as u64);
        push_str(&mut l, n.as_str());
        push_str(&mut l, " req/min");
        lines.push(l);
        assert(crate::json::texts(lines@) =~= limit_lines(limits@.take(i as int)).push(
            "  "@ + limits@[i as int].0@ + ": "@ + decimal(limits@[i as int].1.per_minute as nat) + " req/min"@,
        ));
        i = i + 1;
    }
    assert(limits@.take(i as int) =~= limits@);
    lines
}

/// One line per confirmation rule.
pub open spec fn rule_lines(rules: Seq<(String, ConfirmRule)>) -> Seq<Seq<char>>
    decreases rules.len(),
{
    if rules.len() == 0 {
        seq![]
    } else {
        rule_lines(rules.drop_last()).push("  "@ + rules.last().0@ + ": "@ + rule_debug(rules.last().1))
    }
}

/// The confirmation section of the report.
pub fn confirm_rule_lines(config: &Config) -> (lines: Vec<String>)
    ensures
        match config.confirm {
            Some(r) => if r@.len() == 0 {
                crate::json::texts(lines@) == seq!["  None configured"@]
            } else {
                crate::json::texts(lines@) == rule_lines(r@)
            },
            None => crate::json::texts(lines@) == seq!["  None configured"@],
        },
{
    match &config.confirm {
        Some(rules) => {
            if rules.len() == 0 {
                let lines = vec![owned("  None configured")];
                assert(crate::json::texts(lines@) =~= seq!["  None configured"@]);
                return lines;
            }
            let mut lines: Vec<String> = Vec::new();
            let mut i: usize = 0;
            while i < rules.len()
                invariant
                    i <= rules@.len(),
                    crate::json::texts(lines@) == rule_lines(rules@.take(i as int)),
                decreases rules@.len() - i,
            {
                assert(rules@.take(i + 1).drop_last() =~= rules@.take(i as int));
                let mut l = owned("  ");
                push_str(&mut l, rules[i].0.as_str());
                push_str(&mut l, ": ");
                let d = rule_debug_exec(&rules[i].1);
                push_str(&mut l, d.as_str());
                lines.push(l);
                assert(crate::json::texts(lines@) =~= rule_lines(rules@.take(i as int)).push(
                    "  "@ + rules@[i as int].0@ + ": "@ + rule_debug(rules@[i as int].1),
                ));
                i = i + 1;
            }
            assert(rules@.take(i as int) =~= rules@);
            lines
        },
        None => {
            let lines = vec![owned("  None configured")];
            assert(crate::json::texts(lines@) =~= seq!["  None configured"@]);
            lines
        },
    }
}

} // verus!
