//! Docker tools: checks before creating or deleting a container, the
//! settings derived from the request, and the texts reported back.
use vstd::prelude::*;
use crate::config::debug_text;
use crate::json::{object_text, render_object, JsonValue, JsonView};
use crate::text::{decimal, owned, push_char, push_str, str_contains, str_eq, u64_to_decimal};

verus! {

broadcast use vstd::seq_lib::group_seq_properties;

/// Characters kept of a tool's output.
pub const OUTPUT_MAX_CHARS: usize = 10_000;

/// A character allowed in a container name.
pub open spec fn name_char_ok(c: char) -> bool {
    ('a' <= c && c <= 'z') || ('A' <= c && c <= 'Z') || ('0' <= c && c <= '9') || c == '_' || c == '.'
        || c == '-'
}

/// A container name: nonempty, of ASCII letters, digits, `_`, `.` and `-`.
pub open spec fn valid_container_name(name: Seq<char>) -> bool {
    name.len() > 0 && forall|i: int| 0 <= i < name.len() ==> #[trigger] name_char_ok(name[i])
}

/// The refusal of an invalid container name.
pub open spec fn bad_name_message(name: Seq<char>) -> Seq<char> {
    "Invalid container name '"@ + name
        + "'. Must contain only alphanumeric characters, underscores, dots, or hyphens."@
}

/// Checks a container name.
pub fn validate_container_name(name: &str) -> (r: Result<(), String>)
    ensures
        r is Ok <==> valid_container_name(name@),
        r matches Err(m) ==> m@ == bad_name_message(name@),
{
    let v = crate::text::chars_of(name);
    let mut i: usize = 0;
    let mut bad = v.len() == 0;
    while i < v.len() && !bad
        invariant
            i <= v@.len(),
            v@ == name@,
            bad ==> !valid_container_name(name@),
            !bad ==> v@.len() > 0 && forall|k: int| 0 <= k < i ==> #[trigger] name_char_ok(v@[k]),
        decreases v@.len() - i,
    {
        let c = v[i];
        let good = ('a' <= c && c <= 'z') || ('A' <= c && c <= 'Z') || ('0' <= c && c <= '9') || c == '_'
            || c == '.' || c == '-';
        if !good {
            assert(!name_char_ok(name@[i as int]));
            bad = true;
        }
        i = i + 1;
    }
    if !bad {
        Ok(())
    } else {
        let mut m = owned("Invalid container name '");
        push_str(&mut m, name);
        push_str(&mut m, "'. Must contain only alphanumeric characters, underscores, dots, or hyphens.");
        Err(m)
    }
}

/// The host used when none is named.
pub fn host_or_local(host: Option<&str>) -> (h: String)
    ensures
        h@ == match host {
            Some(x) => x@,
            None => "local"@,
        },
{
    match host {
        Some(x) => owned(x),
        None => owned("local"),
    }
}

/// `format!("{:?}", v)` of a list of strings: each quoted, in brackets.
pub open spec fn debug_list(v: Seq<String>) -> Seq<char> {
    "["@ + debug_items(v) + "]"@
}

/// The quoted items of a list, separated by `", "`.
pub open spec fn debug_items(v: Seq<String>) -> Seq<char>
    decreases v.len(),
{
    if v.len() == 0 {
        seq![]
    } else if v.len() == 1 {
        debug_text(v[0]@)
    } else {
        debug_items(v.drop_last()) + ", "@ + debug_text(v.last()@)
    }
}

/// `format!("{:?}", map)` of port pairs in the given order: `{"k": "v", ...}`.
pub open spec fn debug_map(v: Seq<(String, String)>) -> Seq<char> {
    "{"@ + debug_pairs(v) + "}"@
}

/// The quoted pairs of a map, separated by `", "`.
pub open spec fn debug_pairs(v: Seq<(String, String)>) -> Seq<char>
    decreases v.len(),
{
    if v.len() == 0 {
        seq![]
    } else if v.len() == 1 {
        debug_text(v[0].0@) + ": "@ + debug_text(v[0].1@)
    } else {
        debug_pairs(v.drop_last()) + ", "@ + debug_text(v.last().0@) + ": "@ + debug_text(v.last().1@)
    }
}

pub(crate) fn debug_list_exec(v: &Vec<String>) -> (r: String)
    ensures
        r@ == debug_list(v@),
{
    let mut body = String::new();
    let mut i: usize = 0;
    while i < v.len()
        invariant
            i <= v@.len(),
            body@ == debug_items(v@.take(i as int)),
        decreases v@.len() - i,
    {
        assert(v@.take(i + 1).drop_last() =~= v@.take(i as int));
        if i > 0 {
            push_str(&mut body, ", ");
        }
        let q = crate::config::debug_quote(v[i].as_str());
        push_str(&mut body, q.as_str());
        i = i + 1;
    }
    assert(v@.take(i as int) =~= v@);
    let mut r = owned("[");
    push_str(&mut r, body.as_str());
    push_str(&mut r, "]");
    r
}

fn debug_map_exec(v: &Vec<(String, String)>) -> (r: String)
    ensures
        r@ == debug_map(v@),
{
    let mut body = String::new();
    let mut i: usize = 0;
    while i < v.len()
        invariant
            i <= v@.len(),
            body@ == debug_pairs(v@.take(i as int)),
        decreases v@.len() - i,
    {
        assert(v@.take(i + 1).drop_last() =~= v@.take(i as int));
        if i > 0 {
            push_str(&mut body, ", ");
        }
        let k = crate::config::debug_quote(v[i].0.as_str());
        push_str(&mut body, k.as_str());
        push_str(&mut body, ": ");
        let x = crate::config::debug_quote(v[i].1.as_str());
        push_str(&mut body, x.as_str());
        i = i + 1;
    }
    assert(v@.take(i as int) =~= v@);
    let mut r = owned("{");
    push_str(&mut r, body.as_str());
    push_str(&mut r, "}");
    r
}

/// A request to create a container.
#[derive(Debug)]
pub struct ContainerCreateRequest {
    pub image: String,
    pub name: String,
    /// Host port to container port, in the order given.
    pub ports: Option<Vec<(String, String)>>,
    pub env: Option<Vec<String>>,
    pub volumes: Option<Vec<String>>,
    pub restart_policy: Option<String>,
}

/// The dry-run report of a container creation.
pub open spec fn create_dry_run_text(r: ContainerCreateRequest, host: Seq<char>) -> Seq<char> {
    "DRY RUN: Would create container '"@ + r.name@ + "' from image '"@ + r.image@ + "' on Docker host '"@
        + host + "'.\nPorts: "@ + match r.ports {
        Some(p) => debug_map(p@),
        None => "none"@,
    } + "\nEnv vars: "@ + decimal(
        match r.env {
            Some(e) => e@.len(),
            None => 0,
        },
    ) + " configured\nVolumes: "@ + match r.volumes {
        Some(v) => debug_list(v@),
        None => "none"@,
    } + "\nRestart policy: "@ + match r.restart_policy {
        Some(p) => p@,
        None => "no"@,
    }
}

/// The dry-run report of a container creation.
pub fn container_create_dry_run(req: &ContainerCreateRequest, host: &str) -> (r: String)
    ensures
        r@ == create_dry_run_text(*req, host@),
{
    let mut r = owned("DRY RUN: Would create container '");
    push_str(&mut r, req.name.as_str());
    push_str(&mut r, "' from image '");
    push_str(&mut r, req.image.as_str());
    push_str(&mut r, "' on Docker host '");
    push_str(&mut r, host);
    push_str(&mut r, "'.\nPorts: ");
    match &req.ports {
        Some(p) => {
            let d = debug_map_exec(p);
            push_str(&mut r, d.as_str());
        },
        None => push_str(&mut r, "none"),
    }
    push_str(&mut r, "\nEnv vars: ");
    let n = match &req.env {
        Some(e) => e.len(),
        None => 0,
    };
    let d = u64_to_decimal(n as u64);
    push_str(&mut r, d.as_str());
    push_str(&mut r, " configured\nVolumes: ");
    match &req.volumes {
        Some(v) => {
            let d = debug_list_exec(v);
            push_str(&mut r, d.as_str());
        },
        None => push_str(&mut r, "none"),
    }
    push_str(&mut r, "\nRestart policy: ");
    match &req.restart_policy {
        Some(p) => push_str(&mut r, p.as_str()),
        None => push_str(&mut r, "no"),
    }
    r
}

/// The container side of a port mapping: the port as given when it names a
/// protocol, otherwise TCP.
pub open spec fn port_key(container_port: Seq<char>) -> Seq<char> {
    if container_port.contains('/') {
        container_port
    } else {
        container_port + "/tcp"@
    }
}

/// The exposed-port key of a container port.
pub fn container_port_key(container_port: &str) -> (k: String)
    ensures
        k@ == port_key(container_port@),
{
    let v = crate::text::chars_of(container_port);
    let mut i: usize = 0;
    while i < v.len()
        invariant
            i <= v@.len(),
            v@ == container_port@,
            forall|j: int| 0 <= j < i ==> v@[j] != '/',
        decreases v@.len() - i,
    {
        if v[i] == '/' {
            assert(container_port@.contains('/')) by {
                assert(container_port@[i as int] == '/');
            }
            return owned(container_port);
        }
        i = i + 1;
    }
    let mut k = owned(container_port);
    push_str(&mut k, "/tcp");
    k
}

/// The restart policies a container may get.
#[derive(Debug)]
pub enum RestartKind {
    Always,
    UnlessStopped,
    /// Restart on failure, at most this many times.
    OnFailure(i64),
    No,
}

/// The restart policy named by the request; unknown names mean no restart.
pub open spec fn restart_kind_of(policy: Seq<char>) -> RestartKind {
    if policy == "always"@ {
        RestartKind::Always
    } else if policy == "unless-stopped"@ {
        RestartKind::UnlessStopped
    } else if policy == "on-failure"@ {
        RestartKind::OnFailure(3)
    } else {
        RestartKind::No
    }
}

/// The restart policy named by the request.
pub fn restart_kind(policy: &str) -> (k: RestartKind)
    ensures
        k == restart_kind_of(policy@),
{
    if str_eq(policy, "always") {
        RestartKind::Always
    } else if str_eq(policy, "unless-stopped") {
        RestartKind::UnlessStopped
    } else if str_eq(policy, "on-failure") {
        RestartKind::OnFailure(3)
    } else {
        RestartKind::No
    }
}

/// Each documented policy name gets its own policy and no other name gets
/// it: `always` restarts always, `unless-stopped` unless stopped,
/// `on-failure` on failure at most three times, and every other name
/// (including none given, `no`) means no restart.
pub proof fn law_restart_policies_distinct(policy: Seq<char>)
    ensures
        restart_kind_of(policy) is Always <==> policy == "always"@,
        restart_kind_of(policy) is UnlessStopped <==> policy == "unless-stopped"@,
        restart_kind_of(policy) is OnFailure <==> policy == "on-failure"@,
        restart_kind_of(policy) matches RestartKind::OnFailure(n) ==> n == 3,
        restart_kind_of(policy) is No <==> (policy != "always"@ && policy != "unless-stopped"@ && policy
            != "on-failure"@),
{
    reveal_strlit("always");
    reveal_strlit("unless-stopped");
    reveal_strlit("on-failure");
    assert("always"@.len() != "unless-stopped"@.len());
    assert("always"@.len() != "on-failure"@.len());
    assert("unless-stopped"@.len() != "on-failure"@.len());
}

/// The report of a created container: its ID shortened to 12 characters,
/// any warnings, and the reminder that it was not started.
pub open spec fn create_report_text(
    name: Seq<char>,
    id: Seq<char>,
    image: Seq<char>,
    host: Seq<char>,
    warnings: Seq<String>,
) -> Seq<char> {
    "Created container '"@ + name + "' (ID: "@ + (if id.len() <= 12 {
        id
    } else {
        id.take(12)
    }) + ") from image '"@ + image + "' on Docker host '"@ + host + "'."@ + (if warnings.len() > 0 {
        "\nWarnings:"@ + warning_lines(warnings)
    } else {
        seq![]
    }) + "\n\nContainer created but NOT started. Use docker.container.start to start it."@
}

/// Each warning on a line of its own.
pub open spec fn warning_lines(w: Seq<String>) -> Seq<char>
    decreases w.len(),
{
    if w.len() == 0 {
        seq![]
    } else {
        warning_lines(w.drop_last()) + "\n  - "@ + w.last()@
    }
}

/// The report of a created container.
pub fn container_create_report(name: &str, id: &str, image: &str, host: &str, warnings: &Vec<String>) -> (r: String)
    ensures
        r@ == create_report_text(name@, id@, image@, host@, warnings@),
{
    let mut r = owned("Created container '");
    push_str(&mut r, name);
    push_str(&mut r, "' (ID: ");
    let short = crate::tools::proxmox::truncate_cell(id, 12);
    push_str(&mut r, short.as_str());
    push_str(&mut r, ") from image '");
    push_str(&mut r, image);
    push_str(&mut r, "' on Docker host '");
    push_str(&mut r, host);
    push_str(&mut r, "'.");
    if warnings.len() > 0 {
        push_str(&mut r, "\nWarnings:");
        let ghost start = r@;
        let mut i: usize = 0;
        while i < warnings.len()
            invariant
                i <= warnings@.len(),
                r@ == start + warning_lines(warnings@.take(i as int)),
            decreases warnings@.len() - i,
        {
            assert(warnings@.take(i + 1).drop_last() =~= warnings@.take(i as int));
            push_str(&mut r, "\n  - ");
            push_str(&mut r, warnings[i].as_str());
            i = i + 1;
        }
        assert(warnings@.take(i as int) =~= warnings@);
    }
    push_str(&mut r, "\n\nContainer created but NOT started. Use docker.container.start to start it.");
    r
}

/// The refusal before deleting a container, if any: a running container
/// or one with volumes needs `force`.
pub open spec fn delete_problem(container: Seq<char>, is_running: bool, volume_count: usize, force: bool) -> Option<
    Seq<char>,
> {
    if is_running && !force {
        Some(
            "Container '"@ + container
                + "' is currently running. Stop it first, or set force=true to force-remove."@,
        )
    } else if volume_count > 0 && !force {
        Some(
            "Container '"@ + container + "' has "@ + decimal(volume_count as nat)
                + " volume(s) attached. Data may be lost. Set force=true to override."@,
        )
    } else {
        None
    }
}

/// Checks a container before deletion.
pub fn container_delete_preflight(container: &str, is_running: bool, volume_count: usize, force: bool) -> (r: Result<(), String>)
    ensures
        match delete_problem(container@, is_running, volume_count, force) {
            Some(m) => r matches Err(e) && e@ == m,
            None => r is Ok,
        },
{
    if is_running && !force {
        let mut m = owned("Container '");
        push_str(&mut m, container);
        push_str(&mut m, "' is currently running. Stop it first, or set force=true to force-remove.");
        return Err(m);
    }
    if volume_count > 0 && !force {
        let mut m = owned("Container '");
        push_str(&mut m, container);
        push_str(&mut m, "' has ");
        let d = u64_to_decimal(volume_count as u64);
        push_str(&mut m, d.as_str());
        push_str(&mut m, " volume(s) attached. Data may be lost. Set force=true to override.");
        return Err(m);
    }
    Ok(())
}

/// The report of a deleted container, noting attached volumes.
pub fn container_delete_report(container: &str, host: &str, volume_count: usize) -> (r: String)
    ensures
        r@ == "Deleted container '"@ + container@ + "' on Docker host '"@ + host@ + "'."@ + (if volume_count
            > 0 {
            " Note: "@ + decimal(volume_count as nat)
                + " volume(s) were attached. Anonymous volumes were NOT removed."@
        } else {
            seq![]
        }),
{
    let mut r = owned("Deleted container '");
    push_str(&mut r, container);
    push_str(&mut r, "' on Docker host '");
    push_str(&mut r, host);
    push_str(&mut r, "'.");
    if volume_count > 0 {
        push_str(&mut r, " Note: ");
        let d = u64_to_decimal(volume_count as u64);
        push_str(&mut r, d.as_str());
        push_str(&mut r, " volume(s) were attached. Anonymous volumes were NOT removed.");
    }
    r
}

/// The dry-run report of a container deletion.
pub fn container_delete_dry_run(container: &str, host: &str, force: bool) -> (r: String)
    ensures
        r@ == "DRY RUN: Would delete container '"@ + container@ + "' on Docker host '"@ + host@
            + "'. force="@ + (if force {
            "true"@
        } else {
            "false"@
        }) + ". Set dry_run=false to execute."@,
{
    let mut r = owned("DRY RUN: Would delete container '");
    push_str(&mut r, container);
    push_str(&mut r, "' on Docker host '");
    push_str(&mut r, host);
    push_str(&mut r, "'. force=");
    if force {
        push_str(&mut r, "true");
    } else {
        push_str(&mut r, "false");
    }
    push_str(&mut r, ". Set dry_run=false to execute.");
    r
}

/// What the confirmation prompt says of a container deletion.
pub fn container_delete_description(container: &str, host: &str) -> (r: String)
    ensures
        r@ == "About to DELETE container '"@ + container@ + "' on Docker host '"@ + host@
            + "'. This is irreversible."@,
{
    let mut r = owned("About to DELETE container '");
    push_str(&mut r, container);
    push_str(&mut r, "' on Docker host '");
    push_str(&mut r, host);
    push_str(&mut r, "'. This is irreversible.");
    r
}

/// The parameters kept with a confirmation token of a container deletion.
pub fn container_delete_params_json(host: &str, container: &str, force: bool) -> (r: String)
    ensures
        r@ == object_text(
            seq![
                ("container"@, JsonView::Str(container@)),
                ("force"@, JsonView::Bool(force)),
                ("host"@, JsonView::Str(host@)),
            ],
        ),
{
    let entries: Vec<(&str, JsonValue)> = vec![
        ("container", JsonValue::Str(owned(container))),
        ("force", JsonValue::Bool(force)),
        ("host", JsonValue::Str(owned(host))),
    ];
    proof {
        reveal_strlit("container");
        reveal_strlit("force");
        reveal_strlit("host");
        reveal_with_fuel(crate::json::keys_ascending, 4);
        reveal_with_fuel(crate::json::text_less, 11);
        assert(crate::json::keys_ascending(crate::json::entries_view(entries@)));
    }
    let r = render_object(&entries);
    assert(crate::json::entries_view(entries@) =~= seq![
        ("container"@, JsonView::Str(container@)),
        ("force"@, JsonView::Bool(force)),
        ("host"@, JsonView::Str(host@)),
    ]);
    r
}

/// An environment entry with its value hidden: `KEY=<redacted>` for
/// `KEY=value`, unchanged without `=`.
pub open spec fn redacted_entry(entry: Seq<char>) -> Seq<char> {
    if entry.contains('=') {
        entry.take(first_eq(entry)) + "=<redacted>"@
    } else {
        entry
    }
}

/// The position of the first `=`.
pub open spec fn first_eq(s: Seq<char>) -> int {
    choose|i: int| 0 <= i < s.len() && s[i] == '=' && forall|j: int| 0 <= j < i ==> s[j] != '='
}

/// Hides the value of an environment entry.
pub fn redact_env_entry(entry: &str) -> (r: String)
    ensures
        r@ == redacted_entry(entry@),
{
    let v = crate::text::chars_of(entry);
    let mut i: usize = 0;
    while i < v.len()
        invariant
            i <= v@.len(),
            v@ == entry@,
            forall|j: int| 0 <= j < i ==> v@[j] != '=',
        decreases v@.len() - i,
    {
        if v[i] == '=' {
            proof {
                assert(entry@[i as int] == '=');
                assert(entry@.contains('='));
                let c = first_eq(entry@);
                if c < i {
                    assert(entry@[c] != '=');
                } else if c > i {
                    assert(entry@[i as int] != '=');
                }
            }
            let mut r = crate::text::string_of_range(v.as_slice(), 0, i);
            assert(r@ =~= entry@.take(i as int));
            push_str(&mut r, "=<redacted>");
            return r;
        }
        i = i + 1;
    }
    owned(entry)
}

/// Hides the values of all environment entries.
pub fn redact_env_values(env: &Vec<String>) -> (r: Vec<String>)
    ensures
        r@.len() == env@.len(),
        forall|i: int| 0 <= i < env@.len() ==> #[trigger] r@[i]@ == redacted_entry(env@[i]@),
{
    let mut r: Vec<String> = Vec::new();
    let mut i: usize = 0;
    while i < env.len()
        invariant
            i <= env@.len(),
            r@.len() == i,
            forall|k: int| 0 <= k < i ==> #[trigger] r@[k]@ == redacted_entry(env@[k]@),
        decreases env@.len() - i,
    {
        r.push(redact_env_entry(env[i].as_str()));
        i = i + 1;
    }
    r
}

/// `format!("{:<w}", s)`: the text padded with spaces to `w` characters.
pub open spec fn pad_right(s: Seq<char>, w: nat) -> Seq<char> {
    if s.len() >= w {
        s
    } else {
        s + Seq::new((w - s.len()) as nat, |i: int| ' ')
    }
}

pub(crate) fn push_padded(out: &mut String, s: &str, w: usize)
    ensures
        final(out)@ == old(out)@ + pad_right(s@, w as nat),
{
    push_str(out, s);
    let n = crate::text::chars_of(s).len();
    if n < w {
        let ghost base = out@;
        let mut k: usize = n;
        assert(Seq::new(0nat, |i: int| ' ') =~= Seq::<char>::empty());
        assert(base == base + Seq::new(0nat, |i: int| ' '));
        while k < w
            invariant
                n <= k <= w,
                out@ == base + Seq::new((k - n) as nat, |i: int| ' '),
            decreases w - k,
        {
            push_char(out, ' ');
            assert(Seq::new((k + 1 - n) as nat, |i: int| ' ') =~= Seq::new((k - n) as nat, |i: int| ' ').push(' '));
            k = k + 1;
        }
    }
}

/// One listed container as the logic reads it.
#[derive(Debug)]
pub struct ContainerRow {
    pub id: Option<String>,
    pub names: Vec<String>,
    pub image: Option<String>,
    pub state: Option<String>,
    pub status: Option<String>,
}

/// A name without its leading slashes.
pub open spec fn trim_slashes(s: Seq<char>) -> Seq<char>
    decreases s.len(),
{
    if s.len() > 0 && s[0] == '/' {
        trim_slashes(s.skip(1))
    } else {
        s
    }
}

/// The names of a container, without leading slashes, joined by `", "`.
pub open spec fn names_text(names: Seq<String>) -> Seq<char>
    decreases names.len(),
{
    if names.len() == 0 {
        seq![]
    } else if names.len() == 1 {
        trim_slashes(names[0]@)
    } else {
        names_text(names.drop_last()) + ", "@ + trim_slashes(names.last()@)
    }
}

/// One table line for a container.
pub open spec fn row_text(r: ContainerRow) -> Seq<char> {
    pad_right(
        match r.id {
            Some(id) => if id@.len() <= 12 {
                id@
            } else {
                id@.take(12)
            },
            None => "<unknown>"@,
        },
        12,
    ) + "  "@ + pad_right(names_text(r.names@), 24) + "  "@ + pad_right(
        match r.image {
            Some(i) => i@,
            None => "<unknown>"@,
        },
        24,
    ) + "  "@ + pad_right(
        match r.state {
            Some(s) => s@,
            None => "unknown"@,
        },
        10,
    ) + "  "@ + match r.status {
        Some(s) => s@,
        None => seq![],
    }
}

/// The container table: the host, the column titles, then one line per
/// container.
pub open spec fn container_table(host: Seq<char>, rows: Seq<ContainerRow>) -> Seq<char>
    decreases rows.len(),
{
    if rows.len() == 0 {
        "Docker host: "@ + host + "\n\n"@ + pad_right("ID"@, 12) + "  "@ + pad_right("NAME"@, 24) + "  "@
            + pad_right("IMAGE"@, 24) + "  "@ + pad_right("STATE"@, 10) + "  "@ + "STATUS"@
    } else {
        container_table(host, rows.drop_last()) + "\n"@ + row_text(rows.last())
    }
}

fn trim_slashes_exec(s: &str) -> (r: String)
    ensures
        r@ == trim_slashes(s@),
{
    let v = crate::text::chars_of(s);
    let mut i: usize = 0;
    assert(s@.skip(0) =~= s@);
    while i < v.len() && v[i] == '/'
        invariant
            i <= v@.len(),
            v@ == s@,
            trim_slashes(s@) == trim_slashes(s@.skip(i as int)),
        decreases v@.len() - i,
    {
        assert(s@.skip(i as int).skip(1) =~= s@.skip(i + 1));
        i = i + 1;
    }
    let r = crate::text::string_of_range(v.as_slice(), i, v.len());
    assert(r@ =~= s@.skip(i as int));
    r
}

fn names_exec(names: &Vec<String>) -> (r: String)
    ensures
        r@ == names_text(names@),
{
    let mut r = String::new();
    let mut i: usize = 0;
    while i < names.len()
        invariant
            i <= names@.len(),
            r@ == names_text(names@.take(i as int)),
        decreases names@.len() - i,
    {
        assert(names@.take(i + 1).drop_last() =~= names@.take(i as int));
        if i > 0 {
            push_str(&mut r, ", ");
        }
        let t = trim_slashes_exec(names[i].as_str());
        push_str(&mut r, t.as_str());
        i = i + 1;
    }
    assert(names@.take(i as int) =~= names@);
    r
}

pub(crate) fn padded(s: &str, w: usize) -> (r: String)
    ensures
        r@ == pad_right(s@, w as nat),
{
    let mut r = String::new();
    push_padded(&mut r, s, w);
    assert(Seq::<char>::empty() + pad_right(s@, w as nat) =~= pad_right(s@, w as nat));
    r
}

fn row_string(row: &ContainerRow) -> (r: String)
    ensures
        r@ == row_text(*row),
{
    let id = match &row.id {
        Some(id) => crate::tools::proxmox::truncate_cell(id.as_str(), 12),
        None => owned("<unknown>"),
    };
    let mut r = padded(id.as_str(), 12);
    push_str(&mut r, "  ");
    let n = names_exec(&row.names);
    let pn = padded(n.as_str(), 24);
    push_str(&mut r, pn.as_str());
    push_str(&mut r, "  ");
    let image = match &row.image {
        Some(x) => owned(x.as_str()),
        None => owned("<unknown>"),
    };
    let pi = padded(image.as_str(), 24);
    push_str(&mut r, pi.as_str());
    push_str(&mut r, "  ");
    let state = match &row.state {
        Some(x) => owned(x.as_str()),
        None => owned("unknown"),
    };
    let ps = padded(state.as_str(), 10);
    push_str(&mut r, ps.as_str());
    push_str(&mut r, "  ");
    match &row.status {
        Some(x) => push_str(&mut r, x.as_str()),
        None => {
            assert(r@ + Seq::<char>::empty() =~= r@);
        },
    }
    r
}

fn push_row(t: &mut String, row: &ContainerRow)
    ensures
        final(t)@ == old(t)@ + "\n"@ + row_text(*row),
{
    let r = row_string(row);
    push_str(t, "\n");
    push_str(t, r.as_str());
}

/// The listing of containers: "No containers found." for none, else the
/// table, kept within the output limit.
pub fn container_list_report(host: &str, rows: &Vec<ContainerRow>) -> (r: String)
    ensures
        rows@.len() == 0 ==> r@ == "No containers found."@,
        rows@.len() > 0 ==> r@ == crate::tools::truncated(container_table(host@, rows@), OUTPUT_MAX_CHARS),
{
    if rows.len() == 0 {
        return owned("No containers found.");
    }
    let mut t = owned("Docker host: ");
    push_str(&mut t, host);
    push_str(&mut t, "\n\n");
    push_padded(&mut t, "ID", 12);
    push_str(&mut t, "  ");
    push_padded(&mut t, "NAME", 24);
    push_str(&mut t, "  ");
    push_padded(&mut t, "IMAGE", 24);
    push_str(&mut t, "  ");
    push_padded(&mut t, "STATE", 10);
    push_str(&mut t, "  ");
    push_str(&mut t, "STATUS");
    assert(rows@.take(0) =~= Seq::<ContainerRow>::empty());
    let mut i: usize = 0;
    while i < rows.len()
        invariant
            i <= rows@.len(),
            t@ == container_table(host@, rows@.take(i as int)),
        decreases rows@.len() - i,
    {
        assert(rows@.take(i + 1).drop_last() =~= rows@.take(i as int));
        push_row(&mut t, &rows[i]);
        i = i + 1;
    }
    assert(rows@.take(i as int) =~= rows@);
    crate::tools::truncate_output(t.as_str(), OUTPUT_MAX_CHARS)
}

/// The dry-run text of a start.
pub fn container_start_dry_run(container: &str, host: &str) -> (r: String)
    ensures
        r@ == "DRY RUN: Would start container '"@ + container@ + "' on Docker host '"@ + host@ + "'."@,
{
    let mut r = owned("DRY RUN: Would start container '");
    push_str(&mut r, container);
    push_str(&mut r, "' on Docker host '");
    push_str(&mut r, host);
    push_str(&mut r, "'.");
    r
}

/// The report of a start.
pub fn container_start_report(container: &str, host: &str) -> (r: String)
    ensures
        r@ == "Started container '"@ + container@ + "' on Docker host '"@ + host@ + "'."@,
{
    let mut r = owned("Started container '");
    push_str(&mut r, container);
    push_str(&mut r, "' on Docker host '");
    push_str(&mut r, host);
    push_str(&mut r, "'.");
    r
}

/// The dry-run text of a stop.
pub fn container_stop_dry_run(container: &str, host: &str) -> (r: String)
    ensures
        r@ == "DRY RUN: Would stop container '"@ + container@ + "' on Docker host '"@ + host@ + "'."@,
{
    let mut r = owned("DRY RUN: Would stop container '");
    push_str(&mut r, container);
    push_str(&mut r, "' on Docker host '");
    push_str(&mut r, host);
    push_str(&mut r, "'.");
    r
}

/// The report of a stop.
pub fn container_stop_report(container: &str, host: &str) -> (r: String)
    ensures
        r@ == "Stopped container '"@ + container@ + "' on Docker host '"@ + host@ + "'."@,
{
    let mut r = owned("Stopped container '");
    push_str(&mut r, container);
    push_str(&mut r, "' on Docker host '");
    push_str(&mut r, host);
    push_str(&mut r, "'.");
    r
}

/// The grace period of a stop in the daemon's signed seconds, capped at
/// the largest it can hold; none when not given.
pub fn stop_timeout(timeout_secs: Option<u64>) -> (t: Option<i64>)
    ensures
        match timeout_secs {
            Some(x) => t == Some(if x <= i64::MAX as u64 {
                x as i64
            } else {
                i64::MAX
            }),
            None => t is None,
        },
{
    match timeout_secs {
        Some(x) => Some(if x <= i64::MAX as u64 {
            x as i64
        } else {
            i64::MAX
        }),
        None => None,
    }
}

/// The value of a text as `str::parse::<i64>` reads it: an optional sign
/// and at least one ASCII digit, within `i64`.
pub open spec fn parsed_i64(s: Seq<char>) -> Option<int> {
    if s.len() > 0 && s[0] == '-' {
        let rest = s.skip(1);
        if rest.len() > 0 && rest[0] == '+' {
            None
        } else {
            match crate::notifications::parsed_u64(rest) {
                Some(v) => if v <= 0x8000_0000_0000_0000 {
                    Some(-v)
                } else {
                    None
                },
                None => None,
            }
        }
    } else {
        match crate::notifications::parsed_u64(s) {
            Some(v) => if v <= i64::MAX {
                Some(v as int)
            } else {
                None
            },
            None => None,
        }
    }
}

/// `s.parse::<i64>().ok()`.
pub fn parse_i64(s: &str) -> (r: Option<i64>)
    ensures
        match parsed_i64(s@) {
            Some(v) => r == Some(v as i64),
            None => r is None,
        },
{
    let v = crate::text::chars_of(s);
    if v.len() > 0 && v[0] == '-' {
        let rest = crate::text::string_of_range(v.as_slice(), 1, v.len());
        assert(rest@ =~= s@.skip(1));
        let rv = crate::text::chars_of(rest.as_str());
        if rv.len() > 0 && rv[0] == '+' {
            return None;
        }
        match crate::notifications::parse_u64(rest.as_str()) {
            Some(m) => {
                if m <= 0x8000_0000_0000_0000 {
                    if m == 0x8000_0000_0000_0000 {
                        Some(i64::MIN)
                    } else {
                        Some(-(m as i64))
                    }
                } else {
                    None
                }
            },
            None => None,
        }
    } else {
        match crate::notifications::parse_u64(s) {
            Some(m) => {
                if m <= i64::MAX as u64 {
                    Some(m as i64)
                } else {
                    None
                }
            },
            None => None,
        }
    }
}

/// Where a log read starts: the given Unix time when it parses as an
/// integer, else from the beginning.
pub fn logs_since(since: Option<&str>) -> (t: i64)
    ensures
        t == match since {
            Some(x) => match parsed_i64(x@) {
                Some(v) => v,
                None => 0,
            },
            None => 0,
        },
{
    match since {
        Some(x) => match parse_i64(x) {
            Some(v) => v,
            None => 0,
        },
        None => 0,
    }
}

/// How many log lines to read: the given number, 100 by default.
pub fn logs_tail(tail: Option<usize>) -> (t: String)
    ensures
        t@ == decimal(
            match tail {
                Some(n) => n as nat,
                None => 100nat,
            },
        ),
{
    let n: usize = match tail {
        Some(n) => n,
        None => 100,
    };
    u64_to_decimal(n as u64)
}

/// The logs as returned: "No logs returned." when they are blank, else the
/// logs kept within the output limit.
pub fn logs_report(output: &str) -> (r: String)
    ensures
        crate::text::trim(output@).len() == 0 ==> r@ == crate::tools::truncated(
            "No logs returned."@,
            OUTPUT_MAX_CHARS,
        ),
        crate::text::trim(output@).len() > 0 ==> r@ == crate::tools::truncated(output@, OUTPUT_MAX_CHARS),
{
    let t = crate::text::trim_str(output);
    if crate::text::chars_of(t.as_str()).len() == 0 {
        crate::tools::truncate_output("No logs returned.", OUTPUT_MAX_CHARS)
    } else {
        crate::tools::truncate_output(output, OUTPUT_MAX_CHARS)
    }
}

} // verus!
