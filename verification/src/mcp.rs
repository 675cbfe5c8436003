//! The server's tool catalogue and the checks made before each tool runs:
//! whether it is enabled, whether the rate limit admits it, and which
//! operation a confirmation token completes.
use vstd::prelude::*;
use crate::config::{tool_enabled, strings_view, Config, ToolsConfig};
use crate::confirmation::{
    other_token_pred, refusal_text, token_index, verdict, ConfirmError, ConfirmVerdict, ConfirmationManager,
};
use crate::rate_limit::{recent, resolved, retry_after, window_key, window_of, RateLimitError, RateLimiter};
use crate::text::{decimal, owned, push_str, str_eq, u64_to_decimal};

verus! {

/// Every tool of the server with its category, in registration order.
pub open spec fn tool_catalog() -> Seq<(Seq<char>, Seq<char>)> {
    seq![
        ("docker.container.list"@, "Docker"@),
        ("docker.container.start"@, "Docker"@),
        ("docker.container.stop"@, "Docker"@),
        ("docker.container.logs"@, "Docker"@),
        ("docker.container.inspect"@, "Docker"@),
        ("docker.container.delete"@, "Docker"@),
        ("docker.container.create"@, "Docker"@),
        ("docker.image.list"@, "Docker"@),
        ("docker.image.pull"@, "Docker"@),
        ("docker.image.inspect"@, "Docker"@),
        ("docker.image.delete"@, "Docker"@),
        ("docker.image.prune"@, "Docker"@),
        ("proxmox.node.list"@, "Proxmox"@),
        ("proxmox.node.status"@, "Proxmox"@),
        ("proxmox.vm.list"@, "Proxmox"@),
        ("proxmox.vm.status"@, "Proxmox"@),
        ("proxmox.vm.start"@, "Proxmox"@),
        ("proxmox.vm.stop"@, "Proxmox"@),
        ("proxmox.vm.create"@, "Proxmox"@),
        ("proxmox.vm.clone"@, "Proxmox"@),
        ("proxmox.vm.delete"@, "Proxmox"@),
        ("proxmox.vm.config.get"@, "Proxmox"@),
        ("proxmox.vm.config.update"@, "Proxmox"@),
        ("proxmox.vm.snapshot.list"@, "Proxmox"@),
        ("proxmox.vm.snapshot.create"@, "Proxmox"@),
        ("proxmox.vm.snapshot.rollback"@, "Proxmox"@),
        ("proxmox.storage.list"@, "Proxmox"@),
        ("proxmox.network.list"@, "Proxmox"@),
        ("ssh.exec"@, "SSH"@),
        ("ssh.upload"@, "SSH"@),
        ("ssh.download"@, "SSH"@),
        ("confirm_operation"@, "Confirm"@),
        ("audit.verify_operation"@, "Audit"@),
        ("audit.verify_container_state"@, "Audit"@),
    ]
}

/// Every tool of the server with its category, in registration order.
pub fn all_tools() -> (v: Vec<(&'static str, &'static str)>)
    ensures
        v@.map_values(|e: (&str, &str)| (e.0@, e.1@)) == tool_catalog(),
{
    let v = vec![
        ("docker.container.list", "Docker"),
        ("docker.container.start", "Docker"),
        ("docker.container.stop", "Docker"),
        ("docker.container.logs", "Docker"),
        ("docker.container.inspect", "Docker"),
        ("docker.container.delete", "Docker"),
        ("docker.container.create", "Docker"),
        ("docker.image.list", "Docker"),
        ("docker.image.pull", "Docker"),
        ("docker.image.inspect", "Docker"),
        ("docker.image.delete", "Docker"),
        ("docker.image.prune", "Docker"),
        ("proxmox.node.list", "Proxmox"),
        ("proxmox.node.status", "Proxmox"),
        ("proxmox.vm.list", "Proxmox"),
        ("proxmox.vm.status", "Proxmox"),
        ("proxmox.vm.start", "Proxmox"),
        ("proxmox.vm.stop", "Proxmox"),
        ("proxmox.vm.create", "Proxmox"),
        ("proxmox.vm.clone", "Proxmox"),
        ("proxmox.vm.delete", "Proxmox"),
        ("proxmox.vm.config.get", "Proxmox"),
        ("proxmox.vm.config.update", "Proxmox"),
        ("proxmox.vm.snapshot.list", "Proxmox"),
        ("proxmox.vm.snapshot.create", "Proxmox"),
        ("proxmox.vm.snapshot.rollback", "Proxmox"),
        ("proxmox.storage.list", "Proxmox"),
        ("proxmox.network.list", "Proxmox"),
        ("ssh.exec", "SSH"),
        ("ssh.upload", "SSH"),
        ("ssh.download", "SSH"),
        ("confirm_operation", "Confirm"),
        ("audit.verify_operation", "Audit"),
        ("audit.verify_container_state", "Audit"),
    ];
    assert(v@.map_values(|e: (&str, &str)| (e.0@, e.1@)) =~= tool_catalog());
    v
}

/// The enabled-list of the configuration as texts.
pub open spec fn enabled_view(tools: ToolsConfig) -> Option<Seq<Seq<char>>> {
    match tools.enabled {
        Some(v) => Some(strings_view(v@)),
        None => None,
    }
}

/// Whether a tool is offered: `confirm_operation` always (it is exempt from
/// the enabled list), every other tool when the configuration enables it.
pub open spec fn tool_available(tools: ToolsConfig, name: Seq<char>) -> bool {
    name == "confirm_operation"@ || tool_enabled(enabled_view(tools), name)
}

/// Whether a tool is offered.
pub fn is_tool_available(tools: &ToolsConfig, name: &str) -> (b: bool)
    ensures
        b == tool_available(*tools, name@),
{
    str_eq(name, "confirm_operation") || tools.is_enabled(name)
}

/// The number of offered tools among the first `n` of the catalogue.
pub open spec fn available_count(tools: ToolsConfig, n: int) -> nat
    decreases n,
{
    if n <= 0 {
        0
    } else {
        available_count(tools, n - 1) + if tool_available(tools, tool_catalog()[n - 1].0) {
            1nat
        } else {
            0nat
        }
    }
}

/// The number of offered tools of a category among the first `n` of the
/// catalogue.
pub open spec fn category_count(tools: ToolsConfig, category: Seq<char>, n: int) -> nat
    decreases n,
{
    if n <= 0 {
        0
    } else {
        category_count(tools, category, n - 1) + if tool_catalog()[n - 1].1 == category && tool_available(
            tools,
            tool_catalog()[n - 1].0,
        ) {
            1nat
        } else {
            0nat
        }
    }
}

/// The number of tools offered: those the configuration enables, plus
/// `confirm_operation`, which is always on.
pub fn tool_count(tools: &ToolsConfig) -> (n: usize)
    ensures
        n == available_count(*tools, tool_catalog().len() as int),
{
    let all = all_tools();
    let ghost cat = tool_catalog();
    let mut n: usize = 0;
    let mut i: usize = 0;
    while i < all.len()
        invariant
            i <= all@.len(),
            all@.len() == cat.len(),
            cat == tool_catalog(),
            all@.map_values(|e: (&str, &str)| (e.0@, e.1@)) == cat,
            n == available_count(*tools, i as int),
            n <= i,
        decreases all@.len() - i,
    {
        assert(all@[i as int].0@ == cat[i as int].0);
        if is_tool_available(tools, all[i].0) {
            n = n + 1;
        }
        i = i + 1;
    }
    n
}

/// One category of the summary, `Name (count)`, when it has tools.
pub open spec fn category_part(tools: ToolsConfig, category: Seq<char>) -> Seq<Seq<char>> {
    let c = category_count(tools, category, tool_catalog().len() as int);
    if c > 0 {
        seq![category + " ("@ + decimal(c) + ")"@]
    } else {
        seq![]
    }
}

/// The tool summary: categories with offered tools, in the order Docker,
/// SSH, Proxmox, Confirm, Audit, joined by ` | `.
pub open spec fn summary_text(tools: ToolsConfig) -> Seq<char> {
    crate::tools::proxmox::joined_texts(
        category_part(tools, "Docker"@) + category_part(tools, "SSH"@) + category_part(tools, "Proxmox"@)
            + category_part(tools, "Confirm"@) + category_part(tools, "Audit"@),
        " | "@,
    )
}

fn count_category(tools: &ToolsConfig, category: &str) -> (n: usize)
    ensures
        n == category_count(*tools, category@, tool_catalog().len() as int),
{
    let all = all_tools();
    let ghost cat = tool_catalog();
    let mut n: usize = 0;
    let mut i: usize = 0;
    while i < all.len()
        invariant
            i <= all@.len(),
            all@.len() == cat.len(),
            cat == tool_catalog(),
            all@.map_values(|e: (&str, &str)| (e.0@, e.1@)) == cat,
            n == category_count(*tools, category@, i as int),
            n <= i,
        decreases all@.len() - i,
    {
        assert(all@[i as int].0@ == cat[i as int].0);
        assert(all@[i as int].1@ == cat[i as int].1);
        if str_eq(all[i].1, category) && is_tool_available(tools, all[i].0) {
            n = n + 1;
        }
        i = i + 1;
    }
    n
}

fn push_category(parts: &mut Vec<String>, tools: &ToolsConfig, category: &str)
    ensures
        crate::json::texts(final(parts)@) == crate::json::texts(old(parts)@) + category_part(*tools, category@),
{
    let n = count_category(tools, category);
    if n > 0 {
        let mut p = owned(category);
        push_str(&mut p, " (");
        let d = u64_to_decimal(n as u64);
        push_str(&mut p, d.as_str());
        push_str(&mut p, ")");
        parts.push(p);
    }
    assert(crate::json::texts(parts@) =~= crate::json::texts(old(parts)@) + category_part(*tools, category@));
}

/// A readable breakdown of the offered tools, such as
/// `Docker (12) | SSH (3) | Confirm (1)`.
pub fn tool_summary(tools: &ToolsConfig) -> (s: String)
    ensures
        s@ == summary_text(*tools),
{
    let mut parts: Vec<String> = Vec::new();
    assert(crate::json::texts(parts@) =~= Seq::<Seq<char>>::empty());
    push_category(&mut parts, tools, "Docker");
    push_category(&mut parts, tools, "SSH");
    push_category(&mut parts, tools, "Proxmox");
    push_category(&mut parts, tools, "Confirm");
    push_category(&mut parts, tools, "Audit");
    assert(crate::json::texts(parts@) =~= category_part(*tools, "Docker"@) + category_part(*tools, "SSH"@)
        + category_part(*tools, "Proxmox"@) + category_part(*tools, "Confirm"@) + category_part(
        *tools,
        "Audit"@,
    ));
    let j = crate::tools::ssh::join(&parts, " | ");
    proof {
        lemma_joined(parts@, " | "@);
    }
    j
}

proof fn lemma_joined(v: Seq<String>, sep: Seq<char>)
    ensures
        crate::tools::ssh::joined(v, sep) == crate::tools::proxmox::joined_texts(crate::json::texts(v), sep),
    decreases v.len(),
{
    if v.len() > 1 {
        lemma_joined(v.drop_last(), sep);
        assert(crate::json::texts(v).drop_last() =~= crate::json::texts(v.drop_last()));
    }
}

/// Whether the limiter admits a call of `tool` at `now` from the shared
/// caller.
pub open spec fn rate_admits(limiter: RateLimiter, tool: Seq<char>, now: u64) -> bool {
    match resolved(limiter.exact_view(), limiter.wildcard_view(), tool) {
        None => true,
        Some((rate_key, limit)) => recent(
            window_of(limiter.windows_view(), window_key(limiter.per_caller_view(), None, rate_key)),
            now as int,
        ).len() < limit,
    }
}

/// The refusal of a call of `tool` at `now` that the limiter does not admit.
pub open spec fn rate_refusal(limiter: RateLimiter, tool: Seq<char>, now: u64) -> Seq<char> {
    match resolved(limiter.exact_view(), limiter.wildcard_view(), tool) {
        None => Seq::empty(),
        Some((rate_key, limit)) => {
            let counted = recent(
                window_of(limiter.windows_view(), window_key(limiter.per_caller_view(), None, rate_key)),
                now as int,
            );
            "Rate limit exceeded for "@ + tool + ". Limit: "@ + decimal(limit as nat) + "/min. Retry after "@
                + decimal(retry_after(counted, now as int)) + "s."@
        },
    }
}

/// The limiter after it was asked to admit a call of `tool` at `now` from
/// the shared caller: the call is counted in its window when admitted, and
/// nothing else changes.
pub open spec fn rate_counted(before: RateLimiter, after: RateLimiter, tool: Seq<char>, now: u64) -> bool {
    &&& after.exact_view() == before.exact_view()
    &&& after.wildcard_view() == before.wildcard_view()
    &&& after.per_caller_view() == before.per_caller_view()
    &&& match resolved(before.exact_view(), before.wildcard_view(), tool) {
        None => after.windows_view() == before.windows_view(),
        Some((rate_key, limit)) => {
            let key = window_key(before.per_caller_view(), None, rate_key);
            let counted = recent(window_of(before.windows_view(), key), now as int);
            &&& window_of(after.windows_view(), key) == if counted.len() < limit {
                counted.push(now)
            } else {
                counted
            }
            &&& forall|k: Seq<char>|
                k != key ==> #[trigger] window_of(after.windows_view(), k) == window_of(
                    before.windows_view(),
                    k,
                )
        },
    }
}

/// The refusal of a disabled tool.
pub open spec fn disabled_message(tool: Seq<char>) -> Seq<char> {
    "Tool '"@ + tool + "' is disabled by configuration."@
}

/// Admits a call of `tool_name` at `now`: refused when the configuration
/// does not enable it, then when the rate limit is reached (the call is
/// counted when admitted).
pub fn ensure_tool_available(tools: &ToolsConfig, limiter: &mut RateLimiter, tool_name: &str, now: u64) -> (r: Result<
    (),
    String,
>)
    ensures
        !tool_enabled(enabled_view(*tools), tool_name@) ==> (r matches Err(m) && m@ == disabled_message(
            tool_name@,
        ) && *final(limiter) == *old(limiter)),
        tool_enabled(enabled_view(*tools), tool_name@) ==> {
            &&& (r is Ok <==> rate_admits(*old(limiter), tool_name@, now))
            &&& (r matches Err(m) ==> m@ == rate_refusal(*old(limiter), tool_name@, now))
            &&& rate_counted(*old(limiter), *final(limiter), tool_name@, now)
        },
        final(limiter).exact_view() == old(limiter).exact_view(),
        final(limiter).wildcard_view() == old(limiter).wildcard_view(),
        final(limiter).per_caller_view() == old(limiter).per_caller_view(),
{
    if !tools.is_enabled(tool_name) {
        let mut m = owned("Tool '");
        push_str(&mut m, tool_name);
        push_str(&mut m, "' is disabled by configuration.");
        return Err(m);
    }
    match limiter.check(tool_name, None, now) {
        Ok(()) => Ok(()),
        Err(e) => Err(e.message()),
    }
}

/// The operations that a confirmation token can complete.
#[derive(Debug, PartialEq, Eq, Structural, Clone, Copy)]
pub enum ConfirmTarget {
    SshExec,
    DockerContainerStart,
    DockerContainerStop,
    DockerContainerDelete,
    DockerImageDelete,
    DockerImagePrune,
    ProxmoxVmStop,
    ProxmoxVmCreate,
    ProxmoxVmDelete,
    ProxmoxVmConfigUpdate,
    ProxmoxSnapshotRollback,
}

/// The operation a tool name stands for, if it can be confirmed.
pub open spec fn target_of(tool: Seq<char>) -> Option<ConfirmTarget> {
    if tool == "ssh.exec"@ {
        Some(ConfirmTarget::SshExec)
    } else if tool == "docker.container.start"@ {
        Some(ConfirmTarget::DockerContainerStart)
    } else if tool == "docker.container.stop"@ {
        Some(ConfirmTarget::DockerContainerStop)
    } else if tool == "docker.container.delete"@ {
        Some(ConfirmTarget::DockerContainerDelete)
    } else if tool == "docker.image.delete"@ {
        Some(ConfirmTarget::DockerImageDelete)
    } else if tool == "docker.image.prune"@ {
        Some(ConfirmTarget::DockerImagePrune)
    } else if tool == "proxmox.vm.stop"@ {
        Some(ConfirmTarget::ProxmoxVmStop)
    } else if tool == "proxmox.vm.create"@ {
        Some(ConfirmTarget::ProxmoxVmCreate)
    } else if tool == "proxmox.vm.delete"@ {
        Some(ConfirmTarget::ProxmoxVmDelete)
    } else if tool == "proxmox.vm.config.update"@ {
        Some(ConfirmTarget::ProxmoxVmConfigUpdate)
    } else if tool == "proxmox.vm.snapshot.rollback"@ {
        Some(ConfirmTarget::ProxmoxSnapshotRollback)
    } else {
        None
    }
}

/// The operation a confirmed tool name stands for, or the refusal of a tool
/// that has no confirmed form.
pub fn confirm_target(tool_name: &str) -> (r: Result<ConfirmTarget, String>)
    ensures
        match target_of(tool_name@) {
            Some(t) => r == Ok::<ConfirmTarget, String>(t),
            None => r matches Err(m) && m@ == "Confirmation not supported for tool '"@ + tool_name@ + "'."@,
        },
{
    if str_eq(tool_name, "ssh.exec") {
        Ok(ConfirmTarget::SshExec)
    } else if str_eq(tool_name, "docker.container.start") {
        Ok(ConfirmTarget::DockerContainerStart)
    } else if str_eq(tool_name, "docker.container.stop") {
        Ok(ConfirmTarget::DockerContainerStop)
    } else if str_eq(tool_name, "docker.container.delete") {
        Ok(ConfirmTarget::DockerContainerDelete)
    } else if str_eq(tool_name, "docker.image.delete") {
        Ok(ConfirmTarget::DockerImageDelete)
    } else if str_eq(tool_name, "docker.image.prune") {
        Ok(ConfirmTarget::DockerImagePrune)
    } else if str_eq(tool_name, "proxmox.vm.stop") {
        Ok(ConfirmTarget::ProxmoxVmStop)
    } else if str_eq(tool_name, "proxmox.vm.create") {
        Ok(ConfirmTarget::ProxmoxVmCreate)
    } else if str_eq(tool_name, "proxmox.vm.delete") {
        Ok(ConfirmTarget::ProxmoxVmDelete)
    } else if str_eq(tool_name, "proxmox.vm.config.update") {
        Ok(ConfirmTarget::ProxmoxVmConfigUpdate)
    } else if str_eq(tool_name, "proxmox.vm.snapshot.rollback") {
        Ok(ConfirmTarget::ProxmoxSnapshotRollback)
    } else {
        let mut m = owned("Confirmation not supported for tool '");
        push_str(&mut m, tool_name);
        push_str(&mut m, "'.");
        Err(m)
    }
}

/// The audit detail of a redeemed token.
pub fn confirm_audit_detail(tool_name: &str, token: &str) -> (d: String)
    ensures
        d@ == "tool="@ + tool_name@ + " token="@ + token@,
{
    let mut d = owned("tool=");
    push_str(&mut d, tool_name);
    push_str(&mut d, " token=");
    push_str(&mut d, token);
    d
}

/// The policy state of the server: its configuration, the rate limiter and
/// the pending confirmations.
#[derive(Debug)]
pub struct HomelabMcpServer {
    pub config: Config,
    pub rate_limiter: RateLimiter,
    pub confirmation: ConfirmationManager,
}

impl HomelabMcpServer {
    /// The server state for a configuration: its rate limits and its
    /// confirmation rules (none when the section is absent).
    pub fn new(config: Config) -> (s: Self)
        ensures
            s.rate_limiter.windows_view().len() == 0,
            crate::rate_limit::entries_view(s.rate_limiter.exact_view()) == crate::rate_limit::exact_of(
                config.rate_limits.limits@,
            ),
            crate::rate_limit::entries_view(s.rate_limiter.wildcard_view()) == crate::rate_limit::wildcards_of(
                config.rate_limits.limits@,
            ),
            s.rate_limiter.per_caller_view() == (config.rate_limits.mode is PerCaller),
            s.confirmation.pending_view().len() == 0,
            s.confirmation.rules_view() == match config.confirm {
                Some(r) => r@,
                None => Seq::empty(),
            },
            s.config == (Config { confirm: None, ..config }),
    {
        let mode = match config.rate_limits.mode {
            crate::rate_limit::RateLimitMode::Global => crate::rate_limit::RateLimitMode::Global,
            crate::rate_limit::RateLimitMode::PerCaller => crate::rate_limit::RateLimitMode::PerCaller,
        };
        let rate_limiter = RateLimiter::from_config(&config.rate_limits.limits, mode);
        let mut config = config;
        let rules = match config.confirm.take() {
            Some(r) => r,
            None => Vec::new(),
        };
        let confirmation = ConfirmationManager::new(rules);
        HomelabMcpServer { config, rate_limiter, confirmation }
    }
}

/// A redeemed token: the parameters kept with it, the audit detail and the
/// operation to complete (or the refusal of an unsupported tool).
#[derive(Debug)]
pub struct ConfirmedCall {
    pub params_json: String,
    pub audit_detail: String,
    pub target: Result<ConfirmTarget, String>,
}

impl HomelabMcpServer {
    /// Admits a call of `tool_name` at `now` (see `ensure_tool_available`).
    pub fn ensure_tool_available(&mut self, tool_name: &str, now: u64) -> (r: Result<(), String>)
        ensures
            !tool_enabled(enabled_view(old(self).config.tools), tool_name@) ==> (r matches Err(m) && m@
                == disabled_message(tool_name@)),
            tool_enabled(enabled_view(old(self).config.tools), tool_name@) ==> {
                &&& (r is Ok <==> rate_admits(old(self).rate_limiter, tool_name@, now))
                &&& (r matches Err(m) ==> m@ == rate_refusal(old(self).rate_limiter, tool_name@, now))
                &&& rate_counted(old(self).rate_limiter, final(self).rate_limiter, tool_name@, now)
            },
            !tool_enabled(enabled_view(old(self).config.tools), tool_name@) ==> final(self).rate_limiter
                == old(self).rate_limiter,
            final(self).config == old(self).config,
            final(self).confirmation == old(self).confirmation,
    {
        ensure_tool_available(&self.config.tools, &mut self.rate_limiter, tool_name, now)
    }

    /// Redeems `token` for `tool_name` at `now`: the call of
    /// `confirm_operation` itself is rate limited (the enabled list does not
    /// apply to it), then the token must be live, unused and issued for this
    /// tool.
    pub fn confirm_operation(&mut self, token: &str, tool_name: &str, now: u64) -> (r: Result<ConfirmedCall, String>)
        ensures
            !rate_admits(old(self).rate_limiter, "confirm_operation"@, now) ==> (r matches Err(m) && m@
                == rate_refusal(old(self).rate_limiter, "confirm_operation"@, now) && final(self).confirmation
                == old(self).confirmation),
            rate_counted(old(self).rate_limiter, final(self).rate_limiter, "confirm_operation"@, now),
            rate_admits(old(self).rate_limiter, "confirm_operation"@, now) ==> ({
                let v = verdict(
                    old(self).confirmation.pending_view(),
                    token@,
                    tool_name@,
                    now as int,
                    old(self).confirmation.ttl(),
                );
                &&& (r matches Err(m) ==> m@ == refusal_text(old(self).confirmation.pending_view(), token@, tool_name@, v))
                &&& final(self).confirmation.pending_view() == if v == ConfirmVerdict::Granted || v
                    == ConfirmVerdict::Expired {
                    old(self).confirmation.pending_view().filter(other_token_pred(token@))
                } else {
                    old(self).confirmation.pending_view()
                }
                &&& final(self).confirmation.rules_view() == old(self).confirmation.rules_view()
                &&& final(self).confirmation.ttl() == old(self).confirmation.ttl()
            }),
            rate_admits(old(self).rate_limiter, "confirm_operation"@, now) ==> (r is Ok <==> verdict(
                old(self).confirmation.pending_view(),
                token@,
                tool_name@,
                now as int,
                old(self).confirmation.ttl(),
            ) == ConfirmVerdict::Granted),
            r matches Ok(c) ==> {
                &&& c.params_json@ == old(self).confirmation.pending_view()[token_index(
                    old(self).confirmation.pending_view(),
                    token@,
                )].params_json@
                &&& c.audit_detail@ == "tool="@ + tool_name@ + " token="@ + token@
                &&& match target_of(tool_name@) {
                    Some(t) => c.target == Ok::<ConfirmTarget, String>(t),
                    None => c.target matches Err(m) && m@ == "Confirmation not supported for tool '"@
                        + tool_name@ + "'."@,
                }
            },
            final(self).config == old(self).config,
    {
        proof {
            reveal_strlit("confirm_operation");
        }
        match self.rate_limiter.check("confirm_operation", None, now) {
            Err(e) => {
                return Err(e.message());
            },
            Ok(()) => {},
        }
        let params_json = match self.confirmation.confirm(token, tool_name, now) {
            Err(e) => {
                return Err(e.message());
            },
            Ok(p) => p,
        };
        Ok(
            ConfirmedCall {
                params_json,
                audit_detail: confirm_audit_detail(tool_name, token),
                target: confirm_target(tool_name),
            },
        )
    }
}

} // verus!
