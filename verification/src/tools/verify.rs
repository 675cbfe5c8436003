//! Audit verification: finding recorded operations in the audit log and
//! judging a container's live state against the expected one.
use vstd::prelude::*;
use crate::json::{object_text, render_object, JsonValue, JsonView};
use crate::text::{contains_seq, is_space, owned, push_str, str_contains, str_eq, trim, trim_str};

verus! {

broadcast use {vstd::seq_lib::group_seq_properties, vstd::seq_lib::group_filter_ensures};

/// Lines of the audit log that are kept and scanned.
pub const MAX_SCAN_LINES: usize = 500;

/// Matches reported at most.
pub const MAX_MATCHES: usize = 10;

/// What `str::to_lowercase` gives for a text (Unicode lowercase mapping).
pub uninterp spec fn lower_text(s: Seq<char>) -> Seq<char>;

/// `s.to_lowercase()`.
#[verifier::external_body]
pub(crate) fn to_lowercase(s: &str) -> (r: String)
    ensures
        r@ == lower_text(s@),
{
    s.to_lowercase()
}

/// Whether a container's actual state satisfies the expected one, ignoring
/// surrounding whitespace and case; `stopped` and `exited` count as the same.
pub open spec fn state_matches(expected: Seq<char>, actual: Seq<char>) -> bool {
    let e = lower_text(trim(expected));
    let a = lower_text(trim(actual));
    a == e || (e == "stopped"@ && a == "exited"@) || (e == "exited"@ && a == "stopped"@)
}

/// Compares an expected container state with the actual one.
pub fn container_state_matches(expected: &str, actual: &str) -> (b: bool)
    ensures
        b == state_matches(expected@, actual@),
{
    let te = trim_str(expected);
    let e = to_lowercase(te.as_str());
    let ta = trim_str(actual);
    let a = to_lowercase(ta.as_str());
    str_eq(a.as_str(), e.as_str()) || (str_eq(e.as_str(), "stopped") && str_eq(a.as_str(), "exited"))
        || (str_eq(e.as_str(), "exited") && str_eq(a.as_str(), "stopped"))
}

/// The most recent lines of the log, newest first: the last
/// `MAX_SCAN_LINES` lines in reverse order.
pub open spec fn recent_lines_of(lines: Seq<String>) -> Seq<String> {
    let start = if lines.len() > MAX_SCAN_LINES {
        lines.len() - MAX_SCAN_LINES
    } else {
        0
    };
    lines.skip(start).reverse()
}

/// Keeps the newest `MAX_SCAN_LINES` lines of the log, newest first.
pub fn recent_audit_lines(lines: &Vec<String>) -> (r: Vec<String>)
    ensures
        r@ == recent_lines_of(lines@),
{
    let n = lines.len();
    let start = if n > MAX_SCAN_LINES {
        n - MAX_SCAN_LINES
    } else {
        0
    };
    let mut r: Vec<String> = Vec::new();
    let mut i: usize = n;
    while i > start
        invariant
            start <= i <= n,
            n == lines@.len(),
            r@ == lines@.subrange(i as int, n as int).reverse(),
        decreases i,
    {
        let x = lines[i - 1].clone();
        r.push(x);
        assert(r@ =~= lines@.subrange(i - 1, n as int).reverse());
        i = i - 1;
    }
    assert(lines@.skip(start as int) =~= lines@.subrange(start as int, n as int));
    r
}

/// The length of the leading run of non-whitespace characters.
pub open spec fn token_len(t: Seq<char>) -> nat
    decreases t.len(),
{
    if t.len() > 0 && !is_space(t[0]) {
        1 + token_len(t.skip(1))
    } else {
        0
    }
}

/// The first whitespace-separated token of a text and the text after it,
/// as the first step of `str::split_whitespace`.
pub open spec fn split_first(s: Seq<char>) -> Option<(Seq<char>, Seq<char>)> {
    let t = crate::text::trim_start(s);
    if t.len() == 0 {
        None
    } else {
        Some((t.take(token_len(t) as int), t.skip(token_len(t) as int)))
    }
}

proof fn lemma_trim_start_skip(s: Seq<char>, i: int)
    requires
        0 <= i <= s.len(),
        forall|k: int| 0 <= k < i ==> is_space(#[trigger] s[k]),
    ensures
        crate::text::trim_start(s) == crate::text::trim_start(s.skip(i)),
    decreases i,
{
    if i > 0 {
        assert(s.skip(1).skip(i - 1) =~= s.skip(i));
        assert forall|k: int| 0 <= k < i - 1 implies is_space(#[trigger] s.skip(1)[k]) by {
            assert(s.skip(1)[k] == s[k + 1]);
        }
        lemma_trim_start_skip(s.skip(1), i - 1);
    }
}

proof fn lemma_token_len(t: Seq<char>, j: int)
    requires
        0 <= j <= t.len(),
        forall|k: int| 0 <= k < j ==> !is_space(#[trigger] t[k]),
        j == t.len() || is_space(t[j]),
    ensures
        token_len(t) == j,
    decreases j,
{
    if j > 0 {
        assert forall|k: int| 0 <= k < j - 1 implies !is_space(#[trigger] t.skip(1)[k]) by {
            assert(t.skip(1)[k] == t[k + 1]);
        }
        lemma_token_len(t.skip(1), j - 1);
    }
}

/// Splits off the first whitespace-separated token.
pub fn split_first_token(s: &str) -> (r: Option<(String, String)>)
    ensures
        match split_first(s@) {
            Some((a, b)) => r matches Some((x, y)) && x@ == a && y@ == b,
            None => r is None,
        },
{
    let v = crate::text::chars_of(s);
    let n = v.len();
    let mut i: usize = 0;
    while i < n && crate::text::char_is_space(v[i])
        invariant
            i <= n,
            n == v@.len(),
            v@ == s@,
            forall|k: int| 0 <= k < i ==> is_space(#[trigger] v@[k]),
        decreases n - i,
    {
        i = i + 1;
    }
    proof {
        lemma_trim_start_skip(s@, i as int);
        if i < n {
            assert(!is_space(s@.skip(i as int)[0]));
        }
    }
    assert(crate::text::trim_start(s@.skip(i as int)) == s@.skip(i as int));
    if i == n {
        assert(s@.skip(i as int).len() == 0);
        return None;
    }
    let mut j: usize = i;
    while j < n && !crate::text::char_is_space(v[j])
        invariant
            i <= j <= n,
            n == v@.len(),
            v@ == s@,
            forall|k: int| i <= k < j ==> !is_space(#[trigger] v@[k]),
        decreases n - j,
    {
        j = j + 1;
    }
    proof {
        let t = s@.skip(i as int);
        assert forall|k: int| 0 <= k < j - i implies !is_space(#[trigger] t[k]) by {
            assert(t[k] == v@[k + i]);
        }
        if j < n {
            assert(t[j - i] == v@[j as int]);
        }
        lemma_token_len(t, j - i);
    }
    let a = crate::text::string_of_range(v.as_slice(), i, j);
    let b = crate::text::string_of_range(v.as_slice(), j, n);
    assert(a@ =~= s@.skip(i as int).take(j - i));
    assert(b@ =~= s@.skip(i as int).skip(j - i));
    Some((a, b))
}

/// The time of an audit timestamp token, `%Y-%m-%dT%H:%M:%SZ`, in seconds
/// since the Unix epoch, or `None` when the token does not parse.
pub uninterp spec fn audit_time(token: Seq<char>) -> Option<i64>;

/// `chrono::NaiveDateTime::parse_from_str(token, "%Y-%m-%dT%H:%M:%SZ")`,
/// taken as UTC seconds since the epoch.
#[verifier::external_body]
pub(crate) fn parse_audit_timestamp(token: &str) -> (r: Option<i64>)
    ensures
        r == audit_time(token@),
{
    chrono::NaiveDateTime::parse_from_str(token, "%Y-%m-%dT%H:%M:%SZ").ok().map(
        |time| time.and_utc().timestamp(),
    )
}

/// Whether a time (whole seconds) is earlier than the cutoff given as
/// seconds and nanoseconds.
pub open spec fn before_cutoff(t: i64, cutoff_secs: i64, cutoff_nanos: u32) -> bool {
    t < cutoff_secs || (t == cutoff_secs && cutoff_nanos > 0)
}

/// An audit line that records a call of `tool`: a parseable timestamp not
/// before the cutoff, then exactly `tool=<tool>`, and the `contains` text
/// somewhere when given.
pub open spec fn line_selected(
    line: Seq<char>,
    tool: Seq<char>,
    contains: Option<Seq<char>>,
    cutoff_secs: i64,
    cutoff_nanos: u32,
) -> bool {
    match split_first(line) {
        None => false,
        Some((ts, rest)) => match audit_time(ts) {
            None => false,
            Some(t) => {
                &&& !before_cutoff(t, cutoff_secs, cutoff_nanos)
                &&& (match split_first(rest) {
                    Some((tok, _)) => tok == "tool="@ + tool,
                    None => false,
                })
                &&& (match contains {
                    Some(needle) => contains_seq(line, needle),
                    None => true,
                })
            },
        },
    }
}

/// Whether one audit line records a call of `tool`.
pub fn audit_line_matches(
    line: &str,
    tool: &str,
    contains: Option<&str>,
    cutoff_secs: i64,
    cutoff_nanos: u32,
) -> (b: bool)
    ensures
        b == line_selected(
            line@,
            tool@,
            match contains {
                Some(c) => Some(c@),
                None => None,
            },
            cutoff_secs,
            cutoff_nanos,
        ),
{
    let (ts, rest) = match split_first_token(line) {
        None => {
            return false;
        },
        Some(p) => p,
    };
    let t = match parse_audit_timestamp(ts.as_str()) {
        None => {
            return false;
        },
        Some(t) => t,
    };
    if t < cutoff_secs || (t == cutoff_secs && cutoff_nanos > 0) {
        return false;
    }
    let mut expected = owned("tool=");
    push_str(&mut expected, tool);
    match split_first_token(rest.as_str()) {
        None => {
            return false;
        },
        Some((tok, _)) => {
            if !str_eq(tok.as_str(), expected.as_str()) {
                return false;
            }
        },
    }
    match contains {
        Some(needle) => str_contains(line, needle),
        None => true,
    }
}

/// The predicate of `line_selected` over lines.
pub open spec fn selected_pred(
    tool: Seq<char>,
    contains: Option<Seq<char>>,
    cutoff_secs: i64,
    cutoff_nanos: u32,
) -> spec_fn(String) -> bool {
    |l: String| line_selected(l@, tool, contains, cutoff_secs, cutoff_nanos)
}

/// The matching lines, in scan order, at most `MAX_MATCHES` of them.
pub open spec fn audit_matches(
    lines: Seq<String>,
    tool: Seq<char>,
    contains: Option<Seq<char>>,
    cutoff_secs: i64,
    cutoff_nanos: u32,
) -> Seq<String> {
    let f = lines.filter(selected_pred(tool, contains, cutoff_secs, cutoff_nanos));
    if f.len() > MAX_MATCHES {
        f.take(MAX_MATCHES as int)
    } else {
        f
    }
}

/// Scans lines (newest first) for records of `tool`, keeping at most
/// `MAX_MATCHES`.
pub fn select_audit_matches(
    lines: &Vec<String>,
    tool: &str,
    contains: Option<&str>,
    cutoff_secs: i64,
    cutoff_nanos: u32,
) -> (r: Vec<String>)
    ensures
        r@ == audit_matches(
            lines@,
            tool@,
            match contains {
                Some(c) => Some(c@),
                None => None,
            },
            cutoff_secs,
            cutoff_nanos,
        ),
{
    let ghost cv = match contains {
        Some(c) => Some(c@),
        None => None,
    };
    let ghost pred = selected_pred(tool@, cv, cutoff_secs, cutoff_nanos);
    let mut r: Vec<String> = Vec::new();
    let mut i: usize = 0;
    assert(lines@.take(0).filter(pred) =~= Seq::<String>::empty());
    while i < lines.len()
        invariant
            i <= lines@.len(),
            r@ == lines@.take(i as int).filter(pred),
            r@.len() < MAX_MATCHES,
            pred == selected_pred(tool@, cv, cutoff_secs, cutoff_nanos),
            cv == match contains {
                Some(c) => Some(c@),
                None => None,
            },
        decreases lines@.len() - i,
    {
        proof {
            assert(lines@.take(i + 1) =~= lines@.take(i as int).push(lines@[i as int]));
            lines@.take(i as int).lemma_filter_push(lines@[i as int], pred);
        }
        if audit_line_matches(lines[i].as_str(), tool, contains, cutoff_secs, cutoff_nanos) {
            r.push(lines[i].clone());
            if r.len() >= MAX_MATCHES {
                proof {
                    lemma_filter_prefix(lines@, pred, i + 1);
                }
                return r;
            }
        }
        i = i + 1;
    }
    assert(lines@.take(i as int) =~= lines@);
    r
}

proof fn lemma_filter_prefix(s: Seq<String>, pred: spec_fn(String) -> bool, k: int)
    requires
        0 <= k <= s.len(),
        s.take(k).filter(pred).len() == MAX_MATCHES,
    ensures
        s.filter(pred).len() >= MAX_MATCHES,
        s.filter(pred).take(MAX_MATCHES as int) == s.take(k).filter(pred),
    decreases s.len() - k,
{
    if k == s.len() {
        assert(s.take(k) =~= s);
    } else {
        assert(s.take(k + 1) =~= s.take(k).push(s[k]));
        s.take(k).lemma_filter_push(s[k], pred);
        let a = s.take(k + 1).filter(pred);
        if a.len() == MAX_MATCHES {
            lemma_filter_prefix(s, pred, k + 1);
        } else {
            lemma_filter_prefix_more(s, pred, k + 1);
            assert(a.take(MAX_MATCHES as int) =~= s.take(k).filter(pred));
        }
    }
}

proof fn lemma_filter_prefix_more(s: Seq<String>, pred: spec_fn(String) -> bool, k: int)
    requires
        0 <= k <= s.len(),
    ensures
        s.filter(pred).len() >= s.take(k).filter(pred).len(),
        s.filter(pred).take(s.take(k).filter(pred).len() as int) == s.take(k).filter(pred),
    decreases s.len() - k,
{
    if k == s.len() {
        assert(s.take(k) =~= s);
        assert(s.filter(pred).take(s.filter(pred).len() as int) =~= s.filter(pred));
    } else {
        assert(s.take(k + 1) =~= s.take(k).push(s[k]));
        s.take(k).lemma_filter_push(s[k], pred);
        lemma_filter_prefix_more(s, pred, k + 1);
        let a = s.take(k).filter(pred);
        let b = s.take(k + 1).filter(pred);
        let f = s.filter(pred);
        assert(f.take(a.len() as int) =~= f.take(b.len() as int).take(a.len() as int));
        assert(b.take(a.len() as int) =~= a);
    }
}

/// The window scanned when none is given: ten minutes.
pub fn time_window_minutes(last_minutes: Option<u64>) -> (m: u64)
    ensures
        m == match last_minutes {
            Some(m) => m,
            None => 10,
        },
{
    match last_minutes {
        Some(m) => m,
        None => 10,
    }
}

/// The error for a verification without an audit file.
pub open spec fn audit_not_configured() -> Seq<char> {
    "Audit file logging is not configured. Set [audit] file = \"/path/to/audit.log\" in config.toml to enable verification."@
}

/// The report when the audit log does not exist yet.
pub open spec fn missing_log_report() -> Seq<char> {
    object_text(
        seq![
            ("matches"@, JsonView::StrList(seq![])),
            ("reason"@, JsonView::Str("Audit log file does not exist yet (no operations recorded)."@)),
            ("scanned_lines"@, JsonView::Number(0)),
            ("verified"@, JsonView::Bool(false)),
        ],
    )
}

/// The report of a scan.
pub open spec fn scan_report(
    audit_file: Seq<char>,
    contains: Option<Seq<char>>,
    matches: Seq<String>,
    scanned: usize,
    minutes: u64,
    tool_name: Seq<char>,
) -> Seq<char> {
    object_text(
        seq![
            ("audit_file"@, JsonView::Str(audit_file)),
            (
                "contains_filter"@,
                match contains {
                    Some(c) => JsonView::Str(c),
                    None => JsonView::Null,
                },
            ),
            ("matches"@, JsonView::StrList(crate::json::texts(matches))),
            ("scanned_lines"@, JsonView::Number(scanned as u64)),
            ("time_window_minutes"@, JsonView::Number(minutes)),
            ("tool_name"@, JsonView::Str(tool_name)),
            ("verified"@, JsonView::Bool(matches.len() > 0)),
        ],
    )
}

fn missing_log_json() -> (r: String)
    ensures
        r@ == missing_log_report(),
{
    let empty: Vec<String> = Vec::new();
    assert(crate::json::texts(empty@) =~= Seq::<Seq<char>>::empty());
    let entries: Vec<(&str, JsonValue)> = vec![
        ("matches", JsonValue::StrList(empty)),
        ("reason", JsonValue::Str(owned("Audit log file does not exist yet (no operations recorded)."))),
        ("scanned_lines", JsonValue::Number(0)),
        ("verified", JsonValue::Bool(false)),
    ];
    proof {
        reveal_strlit("matches");
        reveal_strlit("reason");
        reveal_strlit("scanned_lines");
        reveal_strlit("verified");
        reveal_with_fuel(crate::json::keys_ascending, 5);
        reveal_with_fuel(crate::json::text_less, 11);
        assert(crate::json::keys_ascending(crate::json::entries_view(entries@)));
    }
    let r = render_object(&entries);
    assert(crate::json::entries_view(entries@) =~= seq![
        ("matches"@, JsonView::StrList(seq![])),
        ("reason"@, JsonView::Str("Audit log file does not exist yet (no operations recorded)."@)),
        ("scanned_lines"@, JsonView::Number(0)),
        ("verified"@, JsonView::Bool(false)),
    ]);
    r
}

fn scan_report_json(
    audit_file: &str,
    contains: Option<&str>,
    matches: Vec<String>,
    scanned: usize,
    minutes: u64,
    tool_name: &str,
) -> (r: String)
    ensures
        r@ == scan_report(
            audit_file@,
            match contains {
                Some(c) => Some(c@),
                None => None,
            },
            matches@,
            scanned,
            minutes,
            tool_name@,
        ),
{
    let ghost mv = matches@;
    let verified = matches.len() > 0;
    let filter = match contains {
        Some(c) => JsonValue::Str(owned(c)),
        None => JsonValue::Null,
    };
    let entries: Vec<(&str, JsonValue)> = vec![
        ("audit_file", JsonValue::Str(owned(audit_file))),
        ("contains_filter", filter),
        ("matches", JsonValue::StrList(matches)),
        ("scanned_lines", JsonValue::Number(scanned as u64)),
        ("time_window_minutes", JsonValue::Number(minutes)),
        ("tool_name", JsonValue::Str(owned(tool_name))),
        ("verified", JsonValue::Bool(verified)),
    ];
    proof {
        reveal_strlit("audit_file");
        reveal_strlit("contains_filter");
        reveal_strlit("matches");
        reveal_strlit("scanned_lines");
        reveal_strlit("time_window_minutes");
        reveal_strlit("tool_name");
        reveal_strlit("verified");
        reveal_with_fuel(crate::json::keys_ascending, 8);
        reveal_with_fuel(crate::json::text_less, 11);
        assert(crate::json::keys_ascending(crate::json::entries_view(entries@)));
    }
    let r = render_object(&entries);
    let ghost cv = match contains {
        Some(c) => Some(c@),
        None => None,
    };
    let ghost expected = seq![
        ("audit_file"@, JsonView::Str(audit_file@)),
        (
            "contains_filter"@,
            match cv {
                Some(c) => JsonView::Str(c),
                None => JsonView::Null,
            },
        ),
        ("matches"@, JsonView::StrList(crate::json::texts(mv))),
        ("scanned_lines"@, JsonView::Number(scanned as u64)),
        ("time_window_minutes"@, JsonView::Number(minutes)),
        ("tool_name"@, JsonView::Str(tool_name@)),
        ("verified"@, JsonView::Bool(mv.len() > 0)),
    ];
    assert(crate::json::entries_view(entries@)[1] == expected[1]);
    assert(crate::json::entries_view(entries@) =~= expected);
    assert(r@ == scan_report(audit_file@, cv, mv, scanned, minutes, tool_name@));
    r
}

/// The report of a scan of the log's lines.
pub open spec fn log_report(
    audit_file: Seq<char>,
    log_lines: Seq<String>,
    tool_name: Seq<char>,
    contains: Option<Seq<char>>,
    minutes: u64,
    cutoff_secs: i64,
    cutoff_nanos: u32,
) -> Seq<char> {
    let recent = recent_lines_of(log_lines);
    scan_report(
        audit_file,
        contains,
        audit_matches(recent, tool_name, contains, cutoff_secs, cutoff_nanos),
        recent.len() as usize,
        minutes,
        tool_name,
    )
}

/// Verifies that `tool_name` ran: `audit_file` is the configured log,
/// `file_exists` whether it exists, `log_lines` its lines in file order;
/// lines before the cutoff (seconds and nanoseconds since the epoch, the
/// start of a window of `minutes`) are ignored. The reply is enveloped.
pub fn verify_operation(
    audit_file: Option<&str>,
    file_exists: bool,
    log_lines: &Vec<String>,
    tool_name: &str,
    contains: Option<&str>,
    minutes: u64,
    cutoff_secs: i64,
    cutoff_nanos: u32,
) -> (r: Result<String, String>)
    ensures
        audit_file is None ==> (r matches Err(e) && e@ == audit_not_configured()),
        audit_file is Some && !file_exists ==> (r matches Ok(out) && exists|nonce: nat, at: Seq<char>|
            out@ == crate::tools::envelope_text(
                "audit.verify_operation"@,
                missing_log_report(),
                crate::tools::hex16(nonce),
                at,
            )),
        audit_file is Some && file_exists ==> (r matches Ok(out) && exists|nonce: nat, at: Seq<char>|
            out@ == #[trigger] crate::tools::envelope_text(
                "audit.verify_operation"@,
                log_report(
                    audit_file->0@,
                    log_lines@,
                    tool_name@,
                    crate::confirmation::opt_view(contains),
                    minutes,
                    cutoff_secs,
                    cutoff_nanos,
                ),
                crate::tools::hex16(nonce),
                at,
            )),
{
    let file = match audit_file {
        None => {
            return Err(
                owned(
                    "Audit file logging is not configured. Set [audit] file = \"/path/to/audit.log\" in config.toml to enable verification.",
                ),
            );
        },
        Some(f) => f,
    };
    if !file_exists {
        let content = missing_log_json();
        return Ok(crate::tools::wrap_output_envelope("audit.verify_operation", content.as_str()));
    }
    let lines = recent_audit_lines(log_lines);
    let scanned = lines.len();
    let matches = select_audit_matches(&lines, tool_name, contains, cutoff_secs, cutoff_nanos);
    let content = scan_report_json(file, contains, matches, scanned, minutes, tool_name);
    assert(content@ == log_report(
        file@,
        log_lines@,
        tool_name@,
        crate::confirmation::opt_view(contains),
        minutes,
        cutoff_secs,
        cutoff_nanos,
    ));
    let out = crate::tools::wrap_output_envelope("audit.verify_operation", content.as_str());
    Ok(out)
}

/// What inspecting a container gave.
#[derive(Debug)]
pub enum InspectOutcome {
    /// Docker answered 404; the error's text.
    NotFound(String),
    /// Any other failure; the error's text.
    Failed(String),
    /// The container exists; the text of its status, if reported.
    Found(Option<String>),
}

/// The Docker API's error type.
#[verifier::external_type_specification]
#[verifier::external_body]
pub struct ExBollardError(bollard::errors::Error);

/// A Docker error as plain values: the status code when the daemon answered
/// with an error status (`DockerResponseServerError`), `None` for any other
/// kind of failure, and the error's text. Nothing can be stated of an opaque
/// error value, so no clause is given.
#[verifier::external_body]
pub(crate) fn docker_error_parts(error: &bollard::errors::Error) -> (r: (Option<u16>, String)) {
    match error {
        bollard::errors::Error::DockerResponseServerError { status_code, .. } => (Some(*status_code), error.to_string()),
        _ => (None, error.to_string()),
    }
}

/// What a failed inspection means: only a 404 answer from the daemon says
/// the container does not exist; the error's text is kept either way.
pub open spec fn error_outcome(status: Option<u16>, text: String) -> InspectOutcome {
    if status == Some(404u16) {
        InspectOutcome::NotFound(text)
    } else {
        InspectOutcome::Failed(text)
    }
}

/// Classifies a failed inspection by the daemon's status code.
pub fn classify_inspect_error(status: Option<u16>, text: String) -> (r: InspectOutcome)
    ensures
        r == error_outcome(status, text),
{
    match status {
        Some(code) => if code == 404 {
            InspectOutcome::NotFound(text)
        } else {
            InspectOutcome::Failed(text)
        },
        None => InspectOutcome::Failed(text),
    }
}

/// Whether the expected state asks for the container to be gone.
pub open spec fn expects_absent(expected: Seq<char>) -> bool {
    expected == "absent"@ || expected == "deleted"@
}

/// The verdict on a container's state: verified or not, the state seen,
/// and the explanation.
pub open spec fn state_verdict(
    host: Seq<char>,
    container: Seq<char>,
    expected: Seq<char>,
    outcome: InspectOutcome,
) -> (bool, Seq<char>, Seq<char>) {
    if expects_absent(expected) {
        match outcome {
            InspectOutcome::NotFound(_) => (
                true,
                "absent"@,
                "Container '"@ + container + "' does not exist on host '"@ + host + "' (confirmed deleted)."@,
            ),
            InspectOutcome::Failed(e) => (
                false,
                "error"@,
                "Cannot confirm container '"@ + container + "' is absent on host '"@ + host + "': "@ + e@
                    + ". Only a Docker 404 response confirms deletion; this error may indicate an auth, network, or socket problem."@,
            ),
            InspectOutcome::Found(status) => {
                let state = match status {
                    Some(s) => s@,
                    None => "unknown"@,
                };
                (
                    false,
                    state,
                    "Container '"@ + container + "' STILL EXISTS on host '"@ + host + "' with state '"@
                        + state + "'. Expected: absent."@,
                )
            },
        }
    } else {
        match outcome {
            InspectOutcome::Found(status) => {
                let state = match status {
                    Some(s) => lower_text(s@),
                    None => "unknown"@,
                };
                let ok = state_matches(expected, state);
                (
                    ok,
                    state,
                    if ok {
                        "Container '"@ + container + "' on host '"@ + host + "' is in state '"@ + state
                            + "' (matches expected '"@ + expected + "')."@
                    } else {
                        "Container '"@ + container + "' on host '"@ + host + "' is in state '"@ + state
                            + "' (expected '"@ + expected + "')."@
                    },
                )
            },
            InspectOutcome::NotFound(e) => (
                false,
                "error"@,
                "Cannot verify container '"@ + container + "' on host '"@ + host + "': "@ + e@
                    + ". Expected state: '"@ + expected + "'."@,
            ),
            InspectOutcome::Failed(e) => (
                false,
                "error"@,
                "Cannot verify container '"@ + container + "' on host '"@ + host + "': "@ + e@
                    + ". Expected state: '"@ + expected + "'."@,
            ),
        }
    }
}

/// Judges a container's state against the expected one.
pub fn container_state_verdict(host: &str, container: &str, expected: &str, outcome: InspectOutcome) -> (r: (
    bool,
    String,
    String,
))
    ensures
        ({
            let (v, s, d) = state_verdict(host@, container@, expected@, outcome);
            r.0 == v && r.1@ == s && r.2@ == d
        }),
{
    let absent = str_eq(expected, "absent") || str_eq(expected, "deleted");
    if absent {
        match outcome {
            InspectOutcome::NotFound(_) => {
                let mut d = owned("Container '");
                push_str(&mut d, container);
                push_str(&mut d, "' does not exist on host '");
                push_str(&mut d, host);
                push_str(&mut d, "' (confirmed deleted).");
                (true, owned("absent"), d)
            },
            InspectOutcome::Failed(e) => {
                let mut d = owned("Cannot confirm container '");
                push_str(&mut d, container);
                push_str(&mut d, "' is absent on host '");
                push_str(&mut d, host);
                push_str(&mut d, "': ");
                push_str(&mut d, e.as_str());
                push_str(
                    &mut d,
                    ". Only a Docker 404 response confirms deletion; this error may indicate an auth, network, or socket problem.",
                );
                (false, owned("error"), d)
            },
            InspectOutcome::Found(status) => {
                let state = match status {
                    Some(s) => s,
                    None => owned("unknown"),
                };
                let mut d = owned("Container '");
                push_str(&mut d, container);
                push_str(&mut d, "' STILL EXISTS on host '");
                push_str(&mut d, host);
                push_str(&mut d, "' with state '");
                push_str(&mut d, state.as_str());
                push_str(&mut d, "'. Expected: absent.");
                (false, state, d)
            },
        }
    } else {
        match outcome {
            InspectOutcome::Found(status) => {
                let state = match status {
                    Some(s) => to_lowercase(s.as_str()),
                    None => owned("unknown"),
                };
                let ok = container_state_matches(expected, state.as_str());
                let mut d = owned("Container '");
                push_str(&mut d, container);
                push_str(&mut d, "' on host '");
                push_str(&mut d, host);
                push_str(&mut d, "' is in state '");
                push_str(&mut d, state.as_str());
                if ok {
                    push_str(&mut d, "' (matches expected '");
                } else {
                    push_str(&mut d, "' (expected '");
                }
                push_str(&mut d, expected);
                push_str(&mut d, "').");
                (ok, state, d)
            },
            InspectOutcome::NotFound(e) | InspectOutcome::Failed(e) => {
                let mut d = owned("Cannot verify container '");
                push_str(&mut d, container);
                push_str(&mut d, "' on host '");
                push_str(&mut d, host);
                push_str(&mut d, "': ");
                push_str(&mut d, e.as_str());
                push_str(&mut d, ". Expected state: '");
                push_str(&mut d, expected);
                push_str(&mut d, "'.");
                (false, owned("error"), d)
            },
        }
    }
}

/// The verdict on a container's state when inspecting it failed with this
/// status code (if the daemon answered) and error text.
pub fn container_state_verdict_on_status(
    host: &str,
    container: &str,
    expected: &str,
    status: Option<u16>,
    text: String,
) -> (r: (bool, String, String))
    ensures
        ({
            let (v, s, d) = state_verdict(host@, container@, expected@, error_outcome(status, text));
            r.0 == v && r.1@ == s && r.2@ == d
        }),
{
    let outcome = classify_inspect_error(status, text);
    container_state_verdict(host, container, expected, outcome)
}

/// The verdict on a container's state when inspecting it failed with this
/// Docker error.
pub fn container_state_verdict_on_error(
    host: &str,
    container: &str,
    expected: &str,
    error: &bollard::errors::Error,
) -> (r: (bool, String, String))
    ensures
        exists|status: Option<u16>, text: String|
            {
                let (v, s, d) = #[trigger] state_verdict(host@, container@, expected@, error_outcome(status, text));
                r.0 == v && r.1@ == s && r.2@ == d
            },
{
    let (status, text) = docker_error_parts(error);
    let ghost (st, tx) = (status, text);
    let r = container_state_verdict_on_status(host, container, expected, status, text);
    assert({
        let (v, s, d) = state_verdict(host@, container@, expected@, error_outcome(st, tx));
        r.0 == v && r.1@ == s && r.2@ == d
    });
    r
}

/// The report of a container-state verification.
pub open spec fn state_report(
    verified: bool,
    container: Seq<char>,
    host: Seq<char>,
    expected: Seq<char>,
    actual: Seq<char>,
    detail: Seq<char>,
) -> Seq<char> {
    object_text(
        seq![
            ("actual_state"@, JsonView::Str(actual)),
            ("container"@, JsonView::Str(container)),
            ("detail"@, JsonView::Str(detail)),
            ("expected_state"@, JsonView::Str(expected)),
            ("host"@, JsonView::Str(host)),
            ("verified"@, JsonView::Bool(verified)),
        ],
    )
}

/// The JSON report of a container-state verification.
pub fn container_state_report(
    verified: bool,
    container: &str,
    host: &str,
    expected: &str,
    actual: &str,
    detail: &str,
) -> (r: String)
    ensures
        r@ == state_report(verified, container@, host@, expected@, actual@, detail@),
{
    let entries: Vec<(&str, JsonValue)> = vec![
        ("actual_state", JsonValue::Str(owned(actual))),
        ("container", JsonValue::Str(owned(container))),
        ("detail", JsonValue::Str(owned(detail))),
        ("expected_state", JsonValue::Str(owned(expected))),
        ("host", JsonValue::Str(owned(host))),
        ("verified", JsonValue::Bool(verified)),
    ];
    proof {
        reveal_strlit("actual_state");
        reveal_strlit("container");
        reveal_strlit("detail");
        reveal_strlit("expected_state");
        reveal_strlit("host");
        reveal_strlit("verified");
        reveal_with_fuel(crate::json::keys_ascending, 7);
        reveal_with_fuel(crate::json::text_less, 11);
        assert(crate::json::keys_ascending(crate::json::entries_view(entries@)));
    }
    let r = render_object(&entries);
    assert(crate::json::entries_view(entries@) =~= seq![
        ("actual_state"@, JsonView::Str(actual@)),
        ("container"@, JsonView::Str(container@)),
        ("detail"@, JsonView::Str(detail@)),
        ("expected_state"@, JsonView::Str(expected@)),
        ("host"@, JsonView::Str(host@)),
        ("verified"@, JsonView::Bool(verified)),
    ]);
    r
}

/// Only a 404 from the daemon confirms that a container is gone: any other
/// failure leaves the deletion unconfirmed.
pub proof fn law_absence_needs_404(host: Seq<char>, container: Seq<char>, expected: Seq<char>, outcome: InspectOutcome)
    requires
        expects_absent(expected),
    ensures
        state_verdict(host, container, expected, outcome).0 <==> outcome is NotFound,
{
}

/// A failed inspection confirms that a container is gone exactly when the
/// daemon answered 404.
pub proof fn law_absence_needs_daemon_404(
    host: Seq<char>,
    container: Seq<char>,
    expected: Seq<char>,
    status: Option<u16>,
    text: String,
)
    requires
        expects_absent(expected),
    ensures
        state_verdict(host, container, expected, error_outcome(status, text)).0 <==> status == Some(404u16),
{
    law_absence_needs_404(host, container, expected, error_outcome(status, text));
}

} // verus!
