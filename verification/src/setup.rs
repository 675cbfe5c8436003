//! The setup wizard's configuration model and its security defaults.
use vstd::prelude::*;
use crate::text::{decimal, owned, push_char, push_str, starts_with_seq, trim, u64_to_decimal};

verus! {

/// Docker hosts chosen in the wizard.
#[derive(Debug)]
pub struct WizardDockerSection {
    pub hosts: Vec<(String, WizardDockerHost)>,
}

/// A Docker host chosen in the wizard.
#[derive(Debug)]
pub struct WizardDockerHost {
    pub host: String,
}

impl WizardDockerSection {
    /// Whether no Docker host was chosen.
    pub fn is_empty(&self) -> (b: bool)
        ensures
            b == (self.hosts@.len() == 0),
    {
        self.hosts.len() == 0
    }
}

/// SSH hosts chosen in the wizard.
#[derive(Debug)]
pub struct WizardSshSection {
    pub hosts: Vec<(String, WizardSshHost)>,
}

/// An SSH host chosen in the wizard.
#[derive(Debug)]
pub struct WizardSshHost {
    pub host: String,
    pub port: Option<u16>,
    pub user: String,
    pub private_key_path: String,
    pub private_key_passphrase: Option<String>,
}

impl WizardSshSection {
    /// Whether no SSH host was chosen.
    pub fn is_empty(&self) -> (b: bool)
        ensures
            b == (self.hosts@.len() == 0),
    {
        self.hosts.len() == 0
    }
}

/// Rate limits chosen in the wizard.
#[derive(Debug)]
pub struct WizardRateLimitSection {
    pub limits: Vec<(String, WizardRateLimit)>,
}

/// A rate limit chosen in the wizard.
#[derive(Debug)]
pub struct WizardRateLimit {
    pub per_minute: u32,
}

impl WizardRateLimitSection {
    /// Whether no rate limit was chosen.
    pub fn is_empty(&self) -> (b: bool)
        ensures
            b == (self.limits@.len() == 0),
    {
        self.limits.len() == 0
    }
}

/// A confirmation rule written by the wizard.
#[derive(Debug)]
pub enum WizardConfirmRule {
    Always(String),
    WhenPattern { when_pattern: Vec<String> },
}

/// Commands that the default rule asks to confirm.
pub open spec fn default_confirm_patterns() -> Seq<Seq<char>> {
    seq![
        "rm -rf"@,
        "systemctl restart"@,
        "systemctl stop"@,
        "reboot"@,
        "shutdown"@,
        "mkfs"@,
        "dd if="@,
        "fdisk"@,
    ]
}

/// The confirmation rules proposed by default: `ssh.exec` commands that
/// contain a destructive pattern need confirmation.
pub fn default_confirm_rules() -> (rules: Vec<(String, WizardConfirmRule)>)
    ensures
        rules@.len() == 1,
        rules@[0].0@ == "ssh.exec"@,
        rules@[0].1 matches WizardConfirmRule::WhenPattern { when_pattern } && crate::json::texts(
            when_pattern@,
        ) == default_confirm_patterns(),
{
    let patterns = vec![
        owned("rm -rf"),
        owned("systemctl restart"),
        owned("systemctl stop"),
        owned("reboot"),
        owned("shutdown"),
        owned("mkfs"),
        owned("dd if="),
        owned("fdisk"),
    ];
    assert(crate::json::texts(patterns@) =~= default_confirm_patterns());
    let mut rules: Vec<(String, WizardConfirmRule)> = Vec::new();
    rules.push((owned("ssh.exec"), WizardConfirmRule::WhenPattern { when_pattern: patterns }));
    rules
}

/// The wizard's expansion of a leading `~`: the home directory for `~`
/// itself (`~` when unknown), `home/rest` for `~/rest` when the home
/// directory is known.
pub open spec fn wizard_expanded(path: Seq<char>, home: Option<Seq<char>>) -> Seq<char> {
    if path == "~"@ {
        match home {
            Some(h) => h,
            None => "~"@,
        }
    } else if starts_with_seq(path, "~/"@) && home is Some {
        home->0 + "/"@ + path.skip(2)
    } else {
        path
    }
}

/// Expands a leading `~` in a path typed into the wizard.
pub fn expand_home(path: &str, home: Option<&str>) -> (r: String)
    ensures
        r@ == wizard_expanded(path@, crate::confirmation::opt_view(home)),
{
    proof {
        reveal_strlit("~");
        reveal_strlit("~/");
    }
    if crate::text::str_eq(path, "~") {
        return match home {
            Some(h) => owned(h),
            None => owned("~"),
        };
    }
    if crate::text::str_starts_with(path, "~/") {
        match home {
            Some(h) => {
                let c = crate::text::chars_of(path);
                let rest = crate::text::string_of_range(c.as_slice(), 2, c.len());
                assert(rest@ =~= path@.skip(2));
                let mut r = owned(h);
                push_str(&mut r, "/");
                push_str(&mut r, rest.as_str());
                return r;
            },
            None => {},
        }
    }
    owned(path)
}

/// Whether no two entries share a key.
pub open spec fn keys_unique<V>(e: Seq<(String, V)>) -> bool {
    forall|i: int, j: int| 0 <= i < j < e.len() ==> (#[trigger] e[i]).0@ != (#[trigger] e[j]).0@
}

/// The value kept under a key, if any.
pub open spec fn lookup<V>(e: Seq<(String, V)>, k: Seq<char>) -> Option<V> {
    if exists|i: int| 0 <= i < e.len() && (#[trigger] e[i]).0@ == k {
        Some(e[choose|i: int| 0 <= i < e.len() && (#[trigger] e[i]).0@ == k].1)
    } else {
        None
    }
}

/// Puts a value under a key, as a map's `insert` does: an existing entry
/// with that key is replaced in place, otherwise the entry is added last.
pub fn insert_entry<V>(entries: &mut Vec<(String, V)>, key: String, value: V)
    ensures
        (exists|i: int| 0 <= i < old(entries)@.len() && (#[trigger] old(entries)@[i]).0@ == key@) ==> exists|i: int|
            0 <= i < old(entries)@.len() && (#[trigger] old(entries)@[i]).0@ == key@ && final(entries)@ == old(entries)@.update(i, (key, value)),
        !(exists|i: int| 0 <= i < old(entries)@.len() && (#[trigger] old(entries)@[i]).0@ == key@) ==> final(entries)@ == old(entries)@.push((key, value)),
{
    let mut i: usize = 0;
    while i < entries.len()
        invariant
            i <= entries@.len(),
            entries@ == old(entries)@,
            forall|j: int| 0 <= j < i ==> (#[trigger] entries@[j]).0@ != key@,
        decreases entries@.len() - i,
    {
        if crate::text::str_eq(entries[i].0.as_str(), key.as_str()) {
            let ghost k = i as int;
            entries.set(i, (key, value));
            assert(old(entries)@[k].0@ == key@);
            return;
        }
        i = i + 1;
    }
    entries.push((key, value));
}

/// Inserting keeps keys unique and puts the value under its key, leaving
/// every other key's value as it was.
pub proof fn law_insert_entry_is_map_insert<V>(before: Seq<(String, V)>, after: Seq<(String, V)>, key: String, value: V)
    requires
        keys_unique(before),
        (exists|i: int| 0 <= i < before.len() && (#[trigger] before[i]).0@ == key@) ==> exists|i: int|
            0 <= i < before.len() && (#[trigger] before[i]).0@ == key@ && after == before.update(i, (key, value)),
        !(exists|i: int| 0 <= i < before.len() && (#[trigger] before[i]).0@ == key@) ==> after == before.push(
            (key, value),
        ),
    ensures
        keys_unique(after),
        lookup(after, key@) == Some(value),
        forall|k: Seq<char>| k != key@ ==> lookup(after, k) == lookup(before, k),
{
    if exists|i: int| 0 <= i < before.len() && (#[trigger] before[i]).0@ == key@ {
        let i = choose|i: int| 0 <= i < before.len() && (#[trigger] before[i]).0@ == key@ && after == before.update(
            i,
            (key, value),
        );
        assert(after[i].0@ == key@);
        assert forall|a: int, b: int| 0 <= a < b < after.len() implies (#[trigger] after[a]).0@ != (#[trigger] after[b]).0@ by {
            if a == i {
                assert(before[b].0@ != before[i].0@);
            } else if b == i {
                assert(before[a].0@ != before[i].0@);
            } else {
                assert(before[a].0@ != before[b].0@);
            }
        }
        let c = choose|c: int| 0 <= c < after.len() && (#[trigger] after[c]).0@ == key@;
        if c != i {
            assert(after[c].0@ != after[i].0@ || c == i);
        }
        assert forall|k: Seq<char>| k != key@ implies lookup(after, k) == lookup(before, k) by {
            if exists|j: int| 0 <= j < before.len() && (#[trigger] before[j]).0@ == k {
                let j = choose|j: int| 0 <= j < before.len() && (#[trigger] before[j]).0@ == k;
                assert(j != i);
                assert(after[j] == before[j]);
                let ja = choose|j: int| 0 <= j < after.len() && (#[trigger] after[j]).0@ == k;
                if ja != j {
                    if ja < j {
                        assert(after[ja].0@ != after[j].0@);
                    } else {
                        assert(after[j].0@ != after[ja].0@);
                    }
                }
                assert(ja != i);
                assert(before[ja].0@ == k);
                if ja != j {
                    if ja < j {
                        assert(before[ja].0@ != before[j].0@);
                    } else {
                        assert(before[j].0@ != before[ja].0@);
                    }
                }
            } else {
                assert forall|j: int| 0 <= j < after.len() implies (#[trigger] after[j]).0@ != k by {
                    if j != i {
                        assert(after[j] == before[j]);
                    }
                }
            }
        }
    } else {
        let n = before.len() as int;
        assert(after[n].0@ == key@);
        assert forall|a: int, b: int| 0 <= a < b < after.len() implies (#[trigger] after[a]).0@ != (#[trigger] after[b]).0@ by {
            if b == n {
                assert(after[a] == before[a]);
            } else {
                assert(after[a] == before[a] && after[b] == before[b]);
            }
        }
        let c = choose|c: int| 0 <= c < after.len() && (#[trigger] after[c]).0@ == key@;
        if c < n {
            assert(after[c] == before[c]);
        }
        assert forall|k: Seq<char>| k != key@ implies lookup(after, k) == lookup(before, k) by {
            if exists|j: int| 0 <= j < before.len() && (#[trigger] before[j]).0@ == k {
                let j = choose|j: int| 0 <= j < before.len() && (#[trigger] before[j]).0@ == k;
                assert(after[j] == before[j]);
                let ja = choose|j: int| 0 <= j < after.len() && (#[trigger] after[j]).0@ == k;
                assert(ja != n);
                assert(after[ja] == before[ja]);
                if ja != j {
                    if ja < j {
                        assert(before[ja].0@ != before[j].0@);
                    } else {
                        assert(before[j].0@ != before[ja].0@);
                    }
                }
            } else {
                assert forall|j: int| 0 <= j < after.len() implies (#[trigger] after[j]).0@ != k by {
                    if j < n {
                        assert(after[j] == before[j]);
                    }
                }
            }
        }
    }
}

/// Everything the wizard writes to the configuration file.
#[derive(Debug)]
pub struct WizardConfig {
    pub docker: WizardDockerSection,
    pub ssh: WizardSshSection,
    pub confirm: Option<Vec<(String, WizardConfirmRule)>>,
    pub rate_limits: WizardRateLimitSection,
}

/// The Docker endpoint the wizard records for a host that runs Docker.
pub const DEFAULT_DOCKER_SOCKET: &'static str = "unix:///var/run/docker.sock";

impl WizardConfig {
    /// A configuration with nothing chosen yet.
    pub fn new() -> (c: WizardConfig)
        ensures
            c.docker.hosts@.len() == 0,
            c.ssh.hosts@.len() == 0,
            c.confirm is None,
            c.rate_limits.limits@.len() == 0,
    {
        WizardConfig {
            docker: WizardDockerSection { hosts: Vec::new() },
            ssh: WizardSshSection { hosts: Vec::new() },
            confirm: None,
            rate_limits: WizardRateLimitSection { limits: Vec::new() },
        }
    }

    /// Records an SSH host under its alias, and the default Docker socket
    /// under the same alias when the host runs Docker.
    pub fn add_ssh_host(&mut self, alias: &str, host: WizardSshHost, has_docker: bool)
        ensures
            has_docker ==> (exists|i: int| 0 <= i < old(self).docker.hosts@.len()
                && (#[trigger] old(self).docker.hosts@[i]).0@ == alias@) ==> exists|i: int|
                0 <= i < old(self).docker.hosts@.len() && (#[trigger] old(self).docker.hosts@[i]).0@ == alias@ && final(self).docker.hosts@.len() == old(self).docker.hosts@.len() && final(self).docker.hosts@[i].0@ == alias@
                    && final(self).docker.hosts@[i].1.host@ == DEFAULT_DOCKER_SOCKET@,
            has_docker ==> !(exists|i: int| 0 <= i < old(self).docker.hosts@.len()
                && (#[trigger] old(self).docker.hosts@[i]).0@ == alias@) ==> final(self).docker.hosts@.len() == old(self).docker.hosts@.len() + 1 && final(self).docker.hosts@.last().0@ == alias@ && final(self).docker.hosts@.last().1.host@ == DEFAULT_DOCKER_SOCKET@,
            !has_docker ==> final(self).docker.hosts@ == old(self).docker.hosts@,
            (exists|i: int| 0 <= i < old(self).ssh.hosts@.len() && (#[trigger] old(self).ssh.hosts@[i]).0@ == alias@)
                ==> exists|i: int|
                0 <= i < old(self).ssh.hosts@.len() && (#[trigger] old(self).ssh.hosts@[i]).0@ == alias@ && final(self).ssh.hosts@ == old(self).ssh.hosts@.update(i, (final(self).ssh.hosts@[i].0, host)),
            !(exists|i: int| 0 <= i < old(self).ssh.hosts@.len() && (#[trigger] old(self).ssh.hosts@[i]).0@ == alias@)
                ==> final(self).ssh.hosts@.len() == old(self).ssh.hosts@.len() + 1 && final(self).ssh.hosts@.last().0@
                == alias@ && final(self).ssh.hosts@.last().1 == host && final(self).ssh.hosts@.drop_last() == old(self).ssh.hosts@,
            final(self).confirm == old(self).confirm,
            final(self).rate_limits == old(self).rate_limits,
    {
        if has_docker {
            insert_entry(&mut self.docker.hosts, owned(alias), WizardDockerHost { host: owned(DEFAULT_DOCKER_SOCKET) });
        }
        insert_entry(&mut self.ssh.hosts, owned(alias), host);
    }

    /// Applies the default rate limit: 30 calls a minute for all tools.
    pub fn use_default_rate_limit(&mut self)
        ensures
            (exists|i: int| 0 <= i < old(self).rate_limits.limits@.len()
                && (#[trigger] old(self).rate_limits.limits@[i]).0@ == "*"@) ==> exists|i: int|
                0 <= i < old(self).rate_limits.limits@.len() && (#[trigger] old(self).rate_limits.limits@[i]).0@
                == "*"@ && final(self).rate_limits.limits@.len() == old(self).rate_limits.limits@.len() && final(self).rate_limits.limits@[i].1.per_minute == 30,
            !(exists|i: int| 0 <= i < old(self).rate_limits.limits@.len()
                && (#[trigger] old(self).rate_limits.limits@[i]).0@ == "*"@) ==> final(self).rate_limits.limits@.len()
                == old(self).rate_limits.limits@.len() + 1 && final(self).rate_limits.limits@.last().0@ == "*"@ && final(self).rate_limits.limits@.last().1.per_minute == 30,
            final(self).ssh == old(self).ssh,
            final(self).docker == old(self).docker,
            final(self).confirm == old(self).confirm,
    {
        insert_entry(&mut self.rate_limits.limits, owned("*"), WizardRateLimit { per_minute: 30 });
    }
}

/// Refuses an empty alias or one with a space.
pub fn validate_alias(input: &str) -> (r: Result<(), String>)
    ensures
        trim(input@).len() == 0 ==> (r matches Err(e) && e@ == "Alias cannot be empty"@),
        trim(input@).len() > 0 && trim(input@).contains(' ') ==> (r matches Err(e) && e@
            == "Alias cannot contain spaces"@),
        trim(input@).len() > 0 && !trim(input@).contains(' ') ==> r is Ok,
{
    let t = crate::text::trim_str(input);
    let v = crate::text::chars_of(t.as_str());
    if v.len() == 0 {
        return Err(owned("Alias cannot be empty"));
    }
    let mut i: usize = 0;
    while i < v.len()
        invariant
            i <= v@.len(),
            v@ == trim(input@),
            forall|j: int| 0 <= j < i ==> v@[j] != ' ',
        decreases v@.len() - i,
    {
        if v[i] == ' ' {
            assert(trim(input@)[i as int] == ' ');
            return Err(owned("Alias cannot contain spaces"));
        }
        i = i + 1;
    }
    Ok(())
}

/// Refuses a blank answer with the given message.
pub fn validate_required(input: &str, message: &str) -> (r: Result<(), String>)
    ensures
        trim(input@).len() == 0 ==> (r matches Err(e) && e@ == message@),
        trim(input@).len() > 0 ==> r is Ok,
{
    let t = crate::text::trim_str(input);
    if crate::text::chars_of(t.as_str()).len() == 0 {
        Err(owned(message))
    } else {
        Ok(())
    }
}

/// The SSH port typed in: its number, `None` for the default port 22; a
/// text that is not a port is refused.
pub fn parse_ssh_port(input: &str) -> (r: Result<Option<u16>, String>)
    ensures
        match crate::notifications::parsed_u64(trim(input@)) {
            Some(v) => if v <= 0xffff {
                r == Ok::<Option<u16>, String>(if v == 22 {
                    None
                } else {
                    Some(v as u16)
                })
            } else {
                r matches Err(e) && e@ == "Invalid port number: '"@ + trim(input@) + "'"@
            },
            None => r matches Err(e) && e@ == "Invalid port number: '"@ + trim(input@) + "'"@,
        },
{
    let t = crate::text::trim_str(input);
    match crate::notifications::parse_u64(t.as_str()) {
        Some(v) => {
            if v <= 0xffff {
                if v == 22 {
                    Ok(None)
                } else {
                    Ok(Some(v as u16))
                }
            } else {
                let mut e = owned("Invalid port number: '");
                push_str(&mut e, t.as_str());
                push_str(&mut e, "'");
                Err(e)
            }
        },
        None => {
            let mut e = owned("Invalid port number: '");
            push_str(&mut e, t.as_str());
            push_str(&mut e, "'");
            Err(e)
        },
    }
}

/// The calls per minute typed in; a text that is not a `u32` is refused.
pub fn parse_per_minute(input: &str) -> (r: Result<u32, String>)
    ensures
        match crate::notifications::parsed_u64(trim(input@)) {
            Some(v) => if v <= u32::MAX {
                r == Ok::<u32, String>(v as u32)
            } else {
                r matches Err(e) && e@ == "Invalid number: '"@ + trim(input@) + "'"@
            },
            None => r matches Err(e) && e@ == "Invalid number: '"@ + trim(input@) + "'"@,
        },
{
    let t = crate::text::trim_str(input);
    match crate::notifications::parse_u64(t.as_str()) {
        Some(v) => {
            if v <= 0xffff_ffff {
                Ok(v as u32)
            } else {
                let mut e = owned("Invalid number: '");
                push_str(&mut e, t.as_str());
                push_str(&mut e, "'");
                Err(e)
            }
        },
        None => {
            let mut e = owned("Invalid number: '");
            push_str(&mut e, t.as_str());
            push_str(&mut e, "'");
            Err(e)
        },
    }
}

/// The pieces of a text between commas, as `str::split(',')` yields them.
pub open spec fn comma_pieces(s: Seq<char>) -> Seq<Seq<char>>
    decreases s.len(),
{
    if s.len() == 0 {
        seq![seq![]]
    } else {
        let prev = comma_pieces(s.drop_last());
        if s.last() == ',' {
            prev.push(seq![])
        } else {
            prev.update(prev.len() - 1, prev.last().push(s.last()))
        }
    }
}

proof fn lemma_pieces_nonempty(s: Seq<char>)
    ensures
        comma_pieces(s).len() >= 1,
    decreases s.len(),
{
    if s.len() > 0 {
        lemma_pieces_nonempty(s.drop_last());
    }
}

/// The trimmed pieces that are not blank, in order.
pub open spec fn kept_patterns(pieces: Seq<Seq<char>>) -> Seq<Seq<char>>
    decreases pieces.len(),
{
    if pieces.len() == 0 {
        seq![]
    } else if trim(pieces.last()).len() > 0 {
        kept_patterns(pieces.drop_last()).push(trim(pieces.last()))
    } else {
        kept_patterns(pieces.drop_last())
    }
}

fn keep_piece(out: &mut Vec<String>, piece: &Vec<char>)
    ensures
        crate::json::texts(final(out)@) == crate::json::texts(old(out)@) + (if trim(piece@).len() > 0 {
            seq![trim(piece@)]
        } else {
            seq![]
        }),
{
    let s = crate::text::string_of(piece.as_slice());
    let t = crate::text::trim_str(s.as_str());
    if crate::text::chars_of(t.as_str()).len() > 0 {
        out.push(t);
        assert(crate::json::texts(out@) =~= crate::json::texts(old(out)@) + seq![trim(piece@)]);
    } else {
        assert(crate::json::texts(out@) =~= crate::json::texts(old(out)@) + Seq::<Seq<char>>::empty());
    }
}

/// The patterns typed as a comma-separated list: each piece trimmed, blank
/// ones left out.
pub fn split_patterns(input: &str) -> (patterns: Vec<String>)
    ensures
        crate::json::texts(patterns@) == kept_patterns(comma_pieces(input@)),
{
    let v = crate::text::chars_of(input);
    let mut out: Vec<String> = Vec::new();
    let mut cur: Vec<char> = Vec::new();
    let mut i: usize = 0;
    assert(input@.take(0) =~= Seq::<char>::empty());
    assert(comma_pieces(Seq::<char>::empty()).drop_last() =~= Seq::<Seq<char>>::empty());
    while i < v.len()
        invariant
            i <= v@.len(),
            v@ == input@,
            comma_pieces(input@.take(i as int)).len() >= 1,
            cur@ == comma_pieces(input@.take(i as int)).last(),
            crate::json::texts(out@) == kept_patterns(comma_pieces(input@.take(i as int)).drop_last()),
        decreases v@.len() - i,
    {
        let ghost prev = comma_pieces(input@.take(i as int));
        assert(input@.take(i + 1).drop_last() =~= input@.take(i as int));
        if v[i] == ',' {
            keep_piece(&mut out, &cur);
            cur = Vec::new();
            proof {
                let next = prev.push(seq![]);
                assert(comma_pieces(input@.take(i + 1)) == next);
                assert(next.drop_last() =~= prev);
                assert(prev =~= prev.drop_last().push(prev.last()));
                assert(kept_patterns(prev) == kept_patterns(prev.drop_last()) + (if trim(prev.last()).len() > 0 {
                    seq![trim(prev.last())]
                } else {
                    seq![]
                }));
                assert(cur@ =~= Seq::<char>::empty());
            }
        } else {
            cur.push(v[i]);
            proof {
                let next = prev.update(prev.len() - 1, prev.last().push(input@[i as int]));
                assert(comma_pieces(input@.take(i + 1)) == next);
                assert(next.drop_last() =~= prev.drop_last());
            }
        }
        i = i + 1;
    }
    assert(input@.take(i as int) =~= input@);
    let ghost all = comma_pieces(input@);
    keep_piece(&mut out, &cur);
    proof {
        assert(all =~= all.drop_last().push(all.last()));
    }
    out
}

/// The default location of the configuration file.
pub fn default_config_path(home: &str) -> (p: String)
    ensures
        p@ == home@ + "/.config/spacebot-homelab-mcp/config.toml"@,
{
    let mut p = owned(home);
    push_str(&mut p, "/.config/spacebot-homelab-mcp/config.toml");
    p
}

/// Where an existing key is looked for by default.
pub fn default_key_path(home: &str) -> (p: String)
    ensures
        p@ == home@ + "/.ssh/id_ed25519"@,
{
    let mut p = owned(home);
    push_str(&mut p, "/.ssh/id_ed25519");
    p
}

/// Where a generated key is saved by default.
pub fn generated_key_path(home: &str) -> (p: String)
    ensures
        p@ == home@ + "/.ssh/spacebot-homelab"@,
{
    let mut p = owned(home);
    push_str(&mut p, "/.ssh/spacebot-homelab");
    p
}

/// The arguments of `ssh-keygen` that make an Ed25519 key without a
/// passphrase at `path`.
pub fn keygen_args(path: &str) -> (args: Vec<String>)
    ensures
        crate::json::texts(args@) == seq![
            "-t"@,
            "ed25519"@,
            "-f"@,
            path@,
            "-N"@,
            ""@,
            "-C"@,
            "spacebot-homelab"@,
        ],
{
    let args = vec![
        owned("-t"),
        owned("ed25519"),
        owned("-f"),
        owned(path),
        owned("-N"),
        owned(""),
        owned("-C"),
        owned("spacebot-homelab"),
    ];
    assert(crate::json::texts(args@) =~= seq![
        "-t"@,
        "ed25519"@,
        "-f"@,
        path@,
        "-N"@,
        ""@,
        "-C"@,
        "spacebot-homelab"@,
    ]);
    args
}

/// The public key that goes with a private key.
pub fn public_key_path(private_key: &str) -> (p: String)
    ensures
        p@ == private_key@ + ".pub"@,
{
    let mut p = owned(private_key);
    push_str(&mut p, ".pub");
    p
}

/// The `user@host` that `ssh-copy-id` authorizes the key for.
pub fn ssh_copy_target(user: &str, hostname: &str) -> (t: String)
    ensures
        t@ == user@ + "@"@ + hostname@,
{
    let mut t = owned(user);
    push_str(&mut t, "@");
    push_str(&mut t, hostname);
    t
}

/// The command that checks a configuration with `doctor`.
pub fn doctor_command(binary: &str, config_path: &str) -> (c: String)
    ensures
        c@ == binary@ + " doctor --config "@ + config_path@,
{
    let mut c = owned(binary);
    push_str(&mut c, " doctor --config ");
    push_str(&mut c, config_path);
    c
}

/// The entry to add to an MCP client's configuration to run this server.
pub fn mcp_client_snippet(binary: &str, config_path: &str) -> (s: String)
    ensures
        s@ == "  {\n    \"spacebot-homelab-mcp\": {\n      \"command\": \""@ + binary@
            + "\",\n      \"args\": [\"server\", \"--config\", \""@ + config_path@ + "\"]\n    }\n  }"@,
{
    let mut s = owned("  {\n    \"spacebot-homelab-mcp\": {\n      \"command\": \"");
    push_str(&mut s, binary);
    push_str(&mut s, "\",\n      \"args\": [\"server\", \"--config\", \"");
    push_str(&mut s, config_path);
    push_str(&mut s, "\"]\n    }\n  }");
    s
}

/// The count lines of the summary: hosts, Docker hosts, rules and limits.
pub fn summary_counts(c: &WizardConfig) -> (lines: Vec<String>)
    ensures
        crate::json::texts(lines@) == seq![
            "  SSH hosts    : "@ + decimal(c.ssh.hosts@.len()),
            "  Docker hosts : "@ + decimal(c.docker.hosts@.len()),
            "  Confirm rules: "@ + decimal(
                match c.confirm {
                    Some(r) => r@.len(),
                    None => 0,
                },
            ),
            "  Rate limits  : "@ + decimal(c.rate_limits.limits@.len()),
        ],
{
    let mut a = owned("  SSH hosts    : ");
    let n = u64_to_decimal(c.ssh.hosts.len() as u64);
    push_str(&mut a, n.as_str());
    let mut b = owned("  Docker hosts : ");
    let n = u64_to_decimal(c.docker.hosts.len() as u64);
    push_str(&mut b, n.as_str());
    let mut d = owned("  Confirm rules: ");
    let rules: usize = match &c.confirm {
        Some(r) => r.len(),
        None => 0,
    };
    let n = u64_to_decimal(rules as u64);
    push_str(&mut d, n.as_str());
    let mut e = owned("  Rate limits  : ");
    let n = u64_to_decimal(c.rate_limits.limits.len() as u64);
    push_str(&mut e, n.as_str());
    let lines = vec![a, b, d, e];
    assert(crate::json::texts(lines@) =~= seq![
        "  SSH hosts    : "@ + decimal(c.ssh.hosts@.len()),
        "  Docker hosts : "@ + decimal(c.docker.hosts@.len()),
        "  Confirm rules: "@ + decimal(
            match c.confirm {
                Some(r) => r@.len(),
                None => 0,
            },
        ),
        "  Rate limits  : "@ + decimal(c.rate_limits.limits@.len()),
    ]);
    lines
}

} // verus!
