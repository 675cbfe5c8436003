//! SSH tools: which commands may run, and how their results are reported.
use vstd::prelude::*;
use crate::config::CommandAllowlist;
use crate::json::{object_text, render_object, JsonValue, JsonView};
use crate::text::{contains_seq, decimal, owned, push_char, push_str, starts_with_seq, str_contains, str_eq, str_starts_with, trim, u64_to_decimal};

verus! {

broadcast use vstd::seq_lib::group_seq_properties;

/// Characters kept of a command's output.
pub const OUTPUT_MAX_CHARS: usize = 5_000;

/// Largest file moved by upload or download: 50 MiB.
pub const MAX_FILE_SIZE: u64 = 52_428_800;

/// A command allowed by prefix `p`: the prefix itself, or the prefix
/// followed by a space and arguments.
pub open spec fn allowed_by(command: Seq<char>, p: Seq<char>) -> bool {
    command == p || starts_with_seq(command, p + " "@)
}

/// Whether some allowed prefix admits the command.
pub open spec fn command_allowed(command: Seq<char>, prefixes: Seq<String>) -> bool {
    exists|i: int| 0 <= i < prefixes.len() && allowed_by(command, (#[trigger] prefixes[i])@)
}

/// Items joined by a separator.
pub open spec fn joined(items: Seq<String>, sep: Seq<char>) -> Seq<char>
    decreases items.len(),
{
    if items.len() == 0 {
        seq![]
    } else if items.len() == 1 {
        items[0]@
    } else {
        joined(items.drop_last(), sep) + sep + items.last()@
    }
}

/// `items.join(sep)`.
pub fn join(items: &Vec<String>, sep: &str) -> (r: String)
    ensures
        r@ == joined(items@, sep@),
{
    let mut r = String::new();
    let mut i: usize = 0;
    while i < items.len()
        invariant
            i <= items@.len(),
            r@ == joined(items@.take(i as int), sep@),
        decreases items@.len() - i,
    {
        assert(items@.take(i + 1).drop_last() =~= items@.take(i as int));
        if i > 0 {
            push_str(&mut r, sep);
        }
        push_str(&mut r, items[i].as_str());
        i = i + 1;
    }
    assert(items@.take(i as int) =~= items@);
    r
}

/// The refusal of a command that no prefix admits.
pub open spec fn not_allowed_message(command: Seq<char>, prefixes: Seq<String>) -> Seq<char> {
    "Command '"@ + command + "' does not match any allowed prefix. Allowed: "@ + joined(prefixes, ", "@)
}

/// Checks the command against the allowed prefixes.
#[verifier::loop_isolation(false)]
pub fn validate_allowed_prefix(command: &str, allowlist: &CommandAllowlist) -> (r: Result<(), String>)
    ensures
        r is Ok <==> command_allowed(command@, allowlist.allowed_prefixes@),
        r matches Err(m) ==> m@ == not_allowed_message(command@, allowlist.allowed_prefixes@),
{
    let prefixes = &allowlist.allowed_prefixes;
    let mut i: usize = 0;
    while i < prefixes.len()
        invariant
            i <= prefixes@.len(),
            forall|k: int| 0 <= k < i ==> !allowed_by(command@, (#[trigger] prefixes@[k])@),
        decreases prefixes@.len() - i,
    {
        let p = prefixes[i].as_str();
        let mut with_space = owned(p);
        push_str(&mut with_space, " ");
        if str_eq(command, p) || str_starts_with(command, with_space.as_str()) {
            assert(allowed_by(command@, prefixes@[i as int]@));
            return Ok(());
        }
        i = i + 1;
    }
    let mut m = owned("Command '");
    push_str(&mut m, command);
    push_str(&mut m, "' does not match any allowed prefix. Allowed: ");
    let j = join(prefixes, ", ");
    push_str(&mut m, j.as_str());
    Err(m)
}

/// The first blocked pattern that occurs in the command.
pub open spec fn first_blocked(command: Seq<char>, patterns: Seq<String>) -> Option<int> {
    if exists|i: int| 0 <= i < patterns.len() && contains_seq(command, (#[trigger] patterns[i])@) {
        Some(
            choose|i: int|
                0 <= i < patterns.len() && contains_seq(command, (#[trigger] patterns[i])@) && forall|j: int|
                    0 <= j < i ==> !contains_seq(command, (#[trigger] patterns[j])@),
        )
    } else {
        None
    }
}

/// The first blocked pattern that the command contains, if any.
#[verifier::loop_isolation(false)]
pub fn match_blocked_pattern<'a>(command: &str, allowlist: &'a CommandAllowlist) -> (r: Option<&'a str>)
    ensures
        match first_blocked(command@, allowlist.blocked_patterns@) {
            Some(i) => r matches Some(p) && p@ == allowlist.blocked_patterns@[i]@,
            None => r is None,
        },
{
    let patterns = &allowlist.blocked_patterns;
    let mut i: usize = 0;
    while i < patterns.len()
        invariant
            i <= patterns@.len(),
            forall|k: int| 0 <= k < i ==> !contains_seq(command@, (#[trigger] patterns@[k])@),
        decreases patterns@.len() - i,
    {
        if str_contains(command, patterns[i].as_str()) {
            proof {
                let c = choose|c: int|
                    0 <= c < patterns@.len() && contains_seq(command@, (#[trigger] patterns@[c])@)
                        && forall|j: int| 0 <= j < c ==> !contains_seq(command@, (#[trigger] patterns@[j])@);
                assert(contains_seq(command@, patterns@[i as int]@));
                if c < i {
                    assert(!contains_seq(command@, patterns@[c]@));
                } else if c > i {
                    assert(!contains_seq(command@, patterns@[i as int]@));
                }
            }
            return Some(patterns[i].as_str());
        }
        i = i + 1;
    }
    None
}

/// The refusal of a command that contains a blocked pattern; the sentence
/// that ends it depends on where the check is made.
pub open spec fn blocked_message(pattern: Seq<char>, ending: Seq<char>) -> Seq<char> {
    "Command blocked: contains dangerous pattern '"@ + pattern + "'. "@ + ending
}

/// Ending of the blocked-command message for a validation on its own.
pub open spec fn validation_ending() -> Seq<char> {
    "This pattern is in the blocked list for safety."@
}

/// Ending of the blocked-command message before any confirmation.
pub open spec fn request_ending() -> Seq<char> {
    "This pattern is blocked for safety."@
}

/// Ending of the blocked-command message after confirmation.
pub open spec fn confirmed_ending() -> Seq<char> {
    "This pattern is blocked for safety even after confirmation."@
}

/// The verdict on a command: refused when no prefix admits it, then when it
/// contains a blocked pattern (message ending with `ending`).
pub open spec fn command_verdict(command: Seq<char>, allowlist: CommandAllowlist, ending: Seq<char>) -> Result<
    (),
    Seq<char>,
> {
    if !command_allowed(command, allowlist.allowed_prefixes@) {
        Err(not_allowed_message(command, allowlist.allowed_prefixes@))
    } else {
        match first_blocked(command, allowlist.blocked_patterns@) {
            Some(i) => Err(blocked_message(allowlist.blocked_patterns@[i]@, ending)),
            None => Ok(()),
        }
    }
}

fn screen(command: &str, allowlist: &CommandAllowlist, ending: &str) -> (r: Result<(), String>)
    ensures
        match command_verdict(command@, *allowlist, ending@) {
            Ok(()) => r is Ok,
            Err(m) => r matches Err(e) && e@ == m,
        },
{
    validate_allowed_prefix(command, allowlist)?;
    match match_blocked_pattern(command, allowlist) {
        Some(pattern) => {
            let mut m = owned("Command blocked: contains dangerous pattern '");
            push_str(&mut m, pattern);
            push_str(&mut m, "'. ");
            push_str(&mut m, ending);
            Err(m)
        },
        None => Ok(()),
    }
}

/// Validates a command against the allowlist.
pub fn validate_command(command: &str, allowlist: &CommandAllowlist) -> (r: Result<(), String>)
    ensures
        match command_verdict(command@, *allowlist, validation_ending()) {
            Ok(()) => r is Ok,
            Err(m) => r matches Err(e) && e@ == m,
        },
{
    screen(command, allowlist, "This pattern is in the blocked list for safety.")
}

/// Screens a command before a run is requested (and before any
/// confirmation token is issued).
pub fn screen_request(command: &str, allowlist: &CommandAllowlist) -> (r: Result<(), String>)
    ensures
        match command_verdict(command@, *allowlist, request_ending()) {
            Ok(()) => r is Ok,
            Err(m) => r matches Err(e) && e@ == m,
        },
{
    screen(command, allowlist, "This pattern is blocked for safety.")
}

/// Screens a command again when it is about to run (after confirmation too).
pub fn screen_confirmed(command: &str, allowlist: &CommandAllowlist) -> (r: Result<(), String>)
    ensures
        match command_verdict(command@, *allowlist, confirmed_ending()) {
            Ok(()) => r is Ok,
            Err(m) => r matches Err(e) && e@ == m,
        },
{
    screen(command, allowlist, "This pattern is blocked for safety even after confirmation.")
}

/// What `String::from_utf8_lossy` gives for some bytes: the UTF-8 text with
/// each invalid sequence replaced by U+FFFD.
pub uninterp spec fn lossy_text(bytes: Seq<u8>) -> Seq<char>;

/// `String::from_utf8_lossy(bytes)` as an owned string. Empty input gives
/// empty text.
#[verifier::external_body]
pub(crate) fn utf8_lossy(bytes: &[u8]) -> (s: String)
    ensures
        s@ == lossy_text(bytes@),
        bytes@.len() == 0 <==> s@.len() == 0,
{
    String::from_utf8_lossy(bytes).into_owned()
}

/// One output stream under its heading, ending with a newline; nothing when
/// empty.
pub open spec fn stream_section(heading: Seq<char>, text: Seq<char>) -> Seq<char> {
    if text.len() == 0 {
        seq![]
    } else if text.last() == '\n' {
        heading + text
    } else {
        heading + text + "\n"@
    }
}

/// The report of a finished command.
pub open spec fn exec_report(stdout: Seq<char>, stderr: Seq<char>, exit_status: Option<u32>) -> Seq<char> {
    let body = match exit_status {
        Some(status) => "Exit code: "@ + decimal(status as nat) + "\n"@,
        None => seq![],
    } + stream_section("--- stdout ---\n"@, stdout) + stream_section("--- stderr ---\n"@, stderr);
    if trim(body).len() == 0 {
        body + "Command completed with no output."@
    } else {
        body
    }
}

fn push_section(out: &mut String, heading: &str, text: &str)
    ensures
        final(out)@ == old(out)@ + stream_section(heading@, text@),
{
    let c = crate::text::chars_of(text);
    if c.len() == 0 {
        assert(final(out)@ =~= old(out)@ + stream_section(heading@, text@));
        return;
    }
    push_str(out, heading);
    push_str(out, text);
    if c[c.len() - 1] != '\n' {
        push_str(out, "\n");
    }
}

/// The report of a command's run: exit code, then standard output and
/// standard error (decoded lossily), each under a heading.
pub fn render_exec_output(stdout: &[u8], stderr: &[u8], exit_status: Option<u32>) -> (r: String)
    ensures
        r@ == exec_report(lossy_text(stdout@), lossy_text(stderr@), exit_status),
{
    let so = utf8_lossy(stdout);
    let se = utf8_lossy(stderr);
    let mut out = String::new();
    match exit_status {
        Some(status) => {
            push_str(&mut out, "Exit code: ");
            let d = u64_to_decimal(status as u64);
            push_str(&mut out, d.as_str());
            push_str(&mut out, "\n");
        },
        None => {},
    }
    push_section(&mut out, "--- stdout ---\n", so.as_str());
    push_section(&mut out, "--- stderr ---\n", se.as_str());
    let t = crate::text::trim_str(out.as_str());
    if crate::text::chars_of(t.as_str()).len() == 0 {
        push_str(&mut out, "Command completed with no output.");
    }
    out
}

/// Seconds a command may run: 30 by default, at most 300.
pub open spec fn exec_timeout(timeout_secs: Option<u64>) -> u64 {
    let t = match timeout_secs {
        Some(t) => t,
        None => 30,
    };
    if t < 300 {
        t
    } else {
        300
    }
}

/// The time limit of a command.
pub fn exec_timeout_secs(timeout_secs: Option<u64>) -> (t: u64)
    ensures
        t == exec_timeout(timeout_secs),
{
    let t = match timeout_secs {
        Some(t) => t,
        None => 30,
    };
    if t < 300 {
        t
    } else {
        300
    }
}

/// The dry-run report of a command.
pub fn exec_dry_run_output(command: &str, host: &str) -> (r: String)
    ensures
        r@ == "DRY RUN: Command '"@ + command@ + "' passes prefix validation for host '"@ + host@
            + "'. Set dry_run=false to execute."@,
{
    let mut r = owned("DRY RUN: Command '");
    push_str(&mut r, command);
    push_str(&mut r, "' passes prefix validation for host '");
    push_str(&mut r, host);
    push_str(&mut r, "'. Set dry_run=false to execute.");
    r
}

/// What the confirmation prompt says of a command.
pub fn exec_description(command: &str, host: &str) -> (r: String)
    ensures
        r@ == "About to run '"@ + command@ + "' on host '"@ + host@ + "'"@,
{
    let mut r = owned("About to run '");
    push_str(&mut r, command);
    push_str(&mut r, "' on host '");
    push_str(&mut r, host);
    push_str(&mut r, "'");
    r
}

/// The parameters kept with a confirmation token of a command.
pub fn exec_params_json(host: &str, command: &str, timeout_secs: Option<u64>) -> (r: String)
    ensures
        r@ == object_text(
            seq![
                ("command"@, JsonView::Str(command@)),
                ("host"@, JsonView::Str(host@)),
                (
                    "timeout"@,
                    match timeout_secs {
                        Some(t) => JsonView::Number(t),
                        None => JsonView::Null,
                    },
                ),
            ],
        ),
{
    let t = match timeout_secs {
        Some(t) => JsonValue::Number(t),
        None => JsonValue::Null,
    };
    let entries = vec![
        ("command", JsonValue::Str(owned(command))),
        ("host", JsonValue::Str(owned(host))),
        ("timeout", t),
    ];
    proof {
        reveal_strlit("command");
        reveal_strlit("host");
        reveal_strlit("timeout");
        reveal_with_fuel(crate::json::keys_ascending, 4);
        reveal_with_fuel(crate::json::text_less, 11);
        assert(crate::json::keys_ascending(crate::json::entries_view(entries@)));
    }
    let r = render_object(&entries);
    assert(crate::json::entries_view(entries@) =~= seq![
        ("command"@, JsonView::Str(command@)),
        ("host"@, JsonView::Str(host@)),
        (
            "timeout"@,
            match timeout_secs {
                Some(t) => JsonView::Number(t),
                None => JsonView::Null,
            },
        ),
    ]);
    r
}

/// The error for a command that ran out of time.
pub fn exec_timeout_message(secs: u64, host: &str) -> (r: String)
    ensures
        r@ == "Command timed out after "@ + decimal(secs as nat) + "s on host '"@ + host@ + "'."@,
{
    let mut r = owned("Command timed out after ");
    let d = u64_to_decimal(secs);
    push_str(&mut r, d.as_str());
    push_str(&mut r, "s on host '");
    push_str(&mut r, host);
    push_str(&mut r, "'.");
    r
}

/// Refuses a local file larger than the transfer limit.
pub fn check_upload_size(len: u64) -> (r: Result<(), String>)
    ensures
        r is Ok <==> len <= MAX_FILE_SIZE,
        r matches Err(m) ==> m@ == "File too large: "@ + decimal(len as nat) + " bytes (max "@ + decimal(
            MAX_FILE_SIZE as nat,
        ) + " bytes / 50MB)"@,
{
    if len > MAX_FILE_SIZE {
        let mut m = owned("File too large: ");
        let d = u64_to_decimal(len);
        push_str(&mut m, d.as_str());
        push_str(&mut m, " bytes (max ");
        let x = u64_to_decimal(MAX_FILE_SIZE);
        push_str(&mut m, x.as_str());
        push_str(&mut m, " bytes / 50MB)");
        return Err(m);
    }
    Ok(())
}

/// Refuses a remote file larger than the transfer limit.
pub fn check_download_size(len: u64) -> (r: Result<(), String>)
    ensures
        r is Ok <==> len <= MAX_FILE_SIZE,
        r matches Err(m) ==> m@ == "Remote file too large: "@ + decimal(len as nat) + " bytes (max "@
            + decimal(MAX_FILE_SIZE as nat) + " bytes / 50MB)"@,
{
    if len > MAX_FILE_SIZE {
        let mut m = owned("Remote file too large: ");
        let d = u64_to_decimal(len);
        push_str(&mut m, d.as_str());
        push_str(&mut m, " bytes (max ");
        let x = u64_to_decimal(MAX_FILE_SIZE);
        push_str(&mut m, x.as_str());
        push_str(&mut m, " bytes / 50MB)");
        return Err(m);
    }
    Ok(())
}

/// The report of an upload.
pub fn upload_report(bytes: u64, local_path: &str, host: &str, remote_path: &str) -> (r: String)
    ensures
        r@ == "Uploaded "@ + decimal(bytes as nat) + " bytes from '"@ + local_path@ + "' to '"@ + host@
            + ":"@ + remote_path@ + "'."@,
{
    let mut r = owned("Uploaded ");
    let d = u64_to_decimal(bytes);
    push_str(&mut r, d.as_str());
    push_str(&mut r, " bytes from '");
    push_str(&mut r, local_path);
    push_str(&mut r, "' to '");
    push_str(&mut r, host);
    push_str(&mut r, ":");
    push_str(&mut r, remote_path);
    push_str(&mut r, "'.");
    r
}

/// The report of a download.
pub fn download_report(bytes: u64, host: &str, remote_path: &str, local_path: &str) -> (r: String)
    ensures
        r@ == "Downloaded "@ + decimal(bytes as nat) + " bytes from '"@ + host@ + ":"@ + remote_path@
            + "' to '"@ + local_path@ + "'."@,
{
    let mut r = owned("Downloaded ");
    let d = u64_to_decimal(bytes);
    push_str(&mut r, d.as_str());
    push_str(&mut r, " bytes from '");
    push_str(&mut r, host);
    push_str(&mut r, ":");
    push_str(&mut r, remote_path);
    push_str(&mut r, "' to '");
    push_str(&mut r, local_path);
    push_str(&mut r, "'.");
    r
}

/// A command that passes validation starts with an allowed prefix as a
/// whole word and contains no blocked pattern.
pub proof fn law_validated_commands_are_safe(command: Seq<char>, allowlist: CommandAllowlist)
    requires
        command_verdict(command, allowlist, validation_ending()) is Ok,
    ensures
        exists|i: int|
            0 <= i < allowlist.allowed_prefixes@.len() && allowed_by(
                command,
                (#[trigger] allowlist.allowed_prefixes@[i])@,
            ),
        forall|j: int|
            0 <= j < allowlist.blocked_patterns@.len() ==> !contains_seq(
                command,
                (#[trigger] allowlist.blocked_patterns@[j])@,
            ),
{
}

} // verus!
