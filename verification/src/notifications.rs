//! Desktop notifications at startup: what is announced, and when a failure
//! notice is held back because another was sent less than a minute ago.
use vstd::prelude::*;
use crate::text::{decimal, owned, push_str, trim, u64_to_decimal};

verus! {

/// Seconds during which a second failure notice is held back.
pub const THROTTLE_SECS: u64 = 60;

/// Where the time of the last failure notice is kept.
pub const THROTTLE_FILE: &'static str = "/tmp/spacebot-homelab-mcp-notify";

/// How a notification presents itself.
#[derive(Debug, PartialEq, Eq, Structural, Clone, Copy)]
pub enum Severity {
    Success,
    Error,
}

/// A desktop notification.
#[derive(Debug)]
pub struct Notification {
    pub title: String,
    pub body: String,
    pub severity: Severity,
    pub sound: bool,
}

/// Something that shows notifications.
pub trait NotificationDispatcher {
    /// Shows the notification, or says why it could not.
    fn dispatch(&self, notification: &Notification) -> Result<(), String>;
}

/// The value of a decimal text, as `str::parse::<u64>` reads it: an optional
/// `+` and at least one ASCII digit, within `u64`.
pub open spec fn parsed_u64(s: Seq<char>) -> Option<nat> {
    let digits = unsigned_part(s);
    if digits.len() > 0 && all_digits(digits) && digits_value(digits) <= u64::MAX {
        Some(digits_value(digits))
    } else {
        None
    }
}

/// The text without a leading `+`.
pub open spec fn unsigned_part(s: Seq<char>) -> Seq<char> {
    if s.len() > 0 && s[0] == '+' {
        s.skip(1)
    } else {
        s
    }
}

/// Whether every character is an ASCII digit.
pub open spec fn all_digits(d: Seq<char>) -> bool {
    forall|i: int| 0 <= i < d.len() ==> '0' <= #[trigger] d[i] <= '9'
}

/// The value of a string of ASCII digits.
pub open spec fn digits_value(d: Seq<char>) -> nat
    decreases d.len(),
{
    if d.len() == 0 {
        0
    } else {
        digits_value(d.drop_last()) * 10 + ((d.last() as int) - 48) as nat
    }
}

/// `s.parse::<u64>().ok()`.
#[verifier::loop_isolation(false)]
pub fn parse_u64(s: &str) -> (r: Option<u64>)
    ensures
        match parsed_u64(s@) {
            Some(v) => r == Some(v as u64),
            None => r is None,
        },
{
    let v = crate::text::chars_of(s);
    let start: usize = if v.len() > 0 && v[0] == '+' {
        1
    } else {
        0
    };
    let ghost digits = unsigned_part(s@);
    assert(digits =~= s@.skip(start as int));
    if start >= v.len() {
        return None;
    }
    let mut i: usize = start;
    while i < v.len()
        invariant
            start <= i <= v@.len(),
            v@ == s@,
            digits =~= s@.skip(start as int),
            forall|k: int| 0 <= k < i - start ==> '0' <= #[trigger] digits[k] <= '9',
        decreases v@.len() - i,
    {
        let c = v[i];
        if !('0' <= c && c <= '9') {
            assert(c == digits[i - start]);
            assert(!('0' <= digits[i - start] <= '9'));
            assert(!(forall|k: int| 0 <= k < digits.len() ==> '0' <= #[trigger] digits[k] <= '9'));
            assert(parsed_u64(s@) is None);
            return None;
        }
        i = i + 1;
    }
    let mut value: u64 = 0;
    let mut i: usize = start;
    assert(digits.take(0) =~= Seq::<char>::empty());
    while i < v.len()
        invariant
            start <= i <= v@.len(),
            v@ == s@,
            digits =~= s@.skip(start as int),
            forall|k: int| 0 <= k < digits.len() ==> '0' <= #[trigger] digits[k] <= '9',
            value == digits_value(digits.take(i - start)),
        decreases v@.len() - i,
    {
        let c = v[i];
        assert(c == digits[i - start]);
        let d = (c as u32 - 48) as u64;
        assert(digits.take(i + 1 - start).drop_last() =~= digits.take(i - start));
        if value > (u64::MAX - d) / 10 {
            proof {
                lemma_digits_value_prefix(digits, i + 1 - start);
            }
            return None;
        }
        value = value * 10 + d;
        i = i + 1;
    }
    assert(digits.take(i - start) =~= digits);
    Some(value)
}

proof fn lemma_digits_value_prefix(d: Seq<char>, k: int)
    requires
        0 <= k <= d.len(),
        forall|i: int| 0 <= i < d.len() ==> '0' <= #[trigger] d[i] <= '9',
    ensures
        digits_value(d.take(k)) <= digits_value(d),
    decreases d.len() - k,
{
    if k < d.len() {
        lemma_digits_value_prefix(d, k + 1);
        assert(d.take(k + 1).drop_last() =~= d.take(k));
    } else {
        assert(d.take(k) =~= d);
    }
}

/// Whether a failure notice may be sent at `now` (seconds since the epoch):
/// when no earlier one is recorded (`last` is the throttle file's content,
/// `None` when it cannot be read), when the record is not a number, or when
/// it is at least a minute old.
pub open spec fn failure_allowed(last: Option<Seq<char>>, now: u64) -> bool {
    match last {
        None => true,
        Some(content) => match parsed_u64(trim(content)) {
            None => true,
            Some(ts) => (if now >= ts {
                now - ts
            } else {
                0
            }) >= THROTTLE_SECS,
        },
    }
}

/// The cross-process guard against repeated failure notices. What the
/// throttle file holds is read and written by the caller; the guard decides.
#[derive(Debug)]
pub struct ThrottleGuard;

impl ThrottleGuard {
    /// Whether a failure notice may be sent at `now` (seconds since the
    /// epoch), given what the throttle file holds (`None` when it is absent
    /// or unreadable): yes unless it holds a time less than a minute ago.
    pub fn should_notify_failure(last: Option<&str>, now: u64) -> (b: bool)
        ensures
            b == failure_allowed(crate::confirmation::opt_view(last), now),
    {
        match last {
            None => true,
            Some(content) => {
                let t = crate::text::trim_str(content);
                match parse_u64(t.as_str()) {
                    None => true,
                    Some(ts) => now.saturating_sub(ts) >= THROTTLE_SECS,
                }
            },
        }
    }

    /// What the throttle file records for a failure notice sent at `now`.
    pub fn record_failure(now: u64) -> (content: String)
        ensures
            content@ == decimal(now as nat),
    {
        u64_to_decimal(now)
    }
}

/// The desktop platforms whose notification sounds differ.
#[derive(Debug, PartialEq, Eq, Structural, Clone, Copy)]
pub enum Platform {
    MacOs,
    Linux,
    Other,
}

/// How a notification is presented on a desktop: the sound to play, if
/// any, and whether it is marked critical.
#[derive(Debug)]
pub struct DesktopStyle {
    pub sound_name: Option<&'static str>,
    pub critical: bool,
}

/// The sound a notification of this severity plays on this platform.
pub open spec fn sound_for(severity: Severity, platform: Platform) -> Option<Seq<char>> {
    match platform {
        Platform::MacOs => Some(
            if severity == Severity::Success {
                "Glass"@
            } else {
                "Basso"@
            },
        ),
        Platform::Linux => Some(
            if severity == Severity::Success {
                "message-new-instant"@
            } else {
                "dialog-warning"@
            },
        ),
        Platform::Other => None,
    }
}

/// Shows notifications on the desktop.
#[derive(Debug)]
pub struct DesktopDispatcher;

impl DesktopDispatcher {
    /// How `n` is presented on `platform`: with sound, Glass or Basso on
    /// macOS and message-new-instant or dialog-warning on Linux, where an
    /// error is also critical; without sound, plainly.
    pub fn style(&self, n: &Notification, platform: Platform) -> (st: DesktopStyle)
        ensures
            n.sound ==> (match st.sound_name {
                Some(name) => sound_for(n.severity, platform) == Some(name@),
                None => sound_for(n.severity, platform) is None,
            }),
            !n.sound ==> st.sound_name is None,
            st.critical == (n.sound && platform == Platform::Linux && n.severity == Severity::Error),
    {
        if !n.sound {
            return DesktopStyle { sound_name: None, critical: false };
        }
        let success = match n.severity {
            Severity::Success => true,
            Severity::Error => false,
        };
        match platform {
            Platform::MacOs => {
                let name = if success { "Glass" } else { "Basso" };
                proof {
                    reveal_strlit("Glass");
                    reveal_strlit("Basso");
                }
                DesktopStyle { sound_name: Some(name), critical: false }
            },
            Platform::Linux => {
                let name = if success { "message-new-instant" } else { "dialog-warning" };
                proof {
                    reveal_strlit("message-new-instant");
                    reveal_strlit("dialog-warning");
                }
                DesktopStyle { sound_name: Some(name), critical: !success }
            },
            Platform::Other => DesktopStyle { sound_name: None, critical: false },
        }
    }
}

/// Whether notifications are switched off by the environment (the value of
/// `SPACEBOT_HOMELAB_NO_NOTIFY`, if set): any nonempty value does.
pub fn is_suppressed(value: Option<&str>) -> (b: bool)
    ensures
        b == match value {
            Some(v) => v@.len() > 0,
            None => false,
        },
{
    match value {
        Some(v) => crate::text::chars_of(v).len() > 0,
        None => false,
    }
}

/// What to do at startup about notifications.
#[derive(Debug)]
pub enum NotifyAction {
    /// Nothing.
    Skip,
    /// Show this notification; `clear_throttle` removes the failure record
    /// first, `record_failure` writes the current time to it.
    Send { notification: Notification, clear_throttle: bool, record_failure: bool },
}

/// The announcement that the server is up.
pub open spec fn connected_body(tool_count: usize, tool_summary: Seq<char>) -> Seq<char> {
    "Connected — "@ + decimal(tool_count as nat) + " tools available\n"@ + tool_summary
}

/// Announces that the server is up with its tools, unless suppressed; the
/// failure throttle is cleared so the next failure always notifies.
pub fn notify_connected(tool_count: usize, tool_summary: &str, suppressed: bool) -> (a: NotifyAction)
    ensures
        suppressed ==> a is Skip,
        !suppressed ==> (a matches NotifyAction::Send { notification, clear_throttle, record_failure }
            && clear_throttle && !record_failure && notification.title@ == "Homelab MCP"@
            && notification.body@ == connected_body(tool_count, tool_summary@) && notification.severity
            == Severity::Success && notification.sound),
{
    if suppressed {
        return NotifyAction::Skip;
    }
    let mut body = owned("Connected — ");
    let d = u64_to_decimal(tool_count as u64);
    push_str(&mut body, d.as_str());
    push_str(&mut body, " tools available\n");
    push_str(&mut body, tool_summary);
    NotifyAction::Send {
        notification: Notification {
            title: owned("Homelab MCP"),
            body,
            severity: Severity::Success,
            sound: true,
        },
        clear_throttle: true,
        record_failure: false,
    }
}

/// Announces a fatal startup error, unless suppressed or a failure notice
/// was sent within the last minute (`last` and `now` as for
/// `ThrottleGuard::should_notify_failure`); the time of this notice is then recorded.
pub fn notify_failed(error: &str, suppressed: bool, last: Option<&str>, now: u64) -> (a: NotifyAction)
    ensures
        (suppressed || !failure_allowed(crate::confirmation::opt_view(last), now)) ==> a is Skip,
        !(suppressed || !failure_allowed(crate::confirmation::opt_view(last), now)) ==> (a matches NotifyAction::Send {
            notification,
            clear_throttle,
            record_failure,
        } && !clear_throttle && record_failure && notification.title@ == "Homelab MCP"@
            && notification.body@ == "Connection failed: "@ + error@ && notification.severity
            == Severity::Error && notification.sound),
{
    if suppressed || !ThrottleGuard::should_notify_failure(last, now) {
        return NotifyAction::Skip;
    }
    let mut body = owned("Connection failed: ");
    push_str(&mut body, error);
    NotifyAction::Send {
        notification: Notification {
            title: owned("Homelab MCP"),
            body,
            severity: Severity::Error,
            sound: true,
        },
        clear_throttle: false,
        record_failure: true,
    }
}

/// Two failure notices are never sent less than a minute apart: once one
/// is recorded at `t`, any check before `t + 60` holds the next one back.
pub proof fn law_failure_notices_throttled(t: u64, now: u64)
    requires
        t <= now < t + THROTTLE_SECS,
    ensures
        !failure_allowed(Some(decimal(t as nat)), now),
{
    lemma_decimal_parses(t as nat);
}

proof fn lemma_decimal_digits(n: nat)
    ensures
        decimal(n).len() > 0,
        forall|i: int| 0 <= i < decimal(n).len() ==> '0' <= #[trigger] decimal(n)[i] <= '9',
        digits_value(decimal(n)) == n,
    decreases n,
{
    if n < 10 {
        let d = decimal(n);
        assert((crate::text::digit_char(n) as int) == 48 + n);
        assert(d.drop_last() =~= Seq::<char>::empty());
        assert(digits_value(d) == digits_value(d.drop_last()) * 10 + ((d.last() as int) - 48) as nat);
    } else {
        lemma_decimal_digits(n / 10);
        let d = decimal(n);
        assert(d.drop_last() =~= decimal(n / 10));
        assert(d.last() == crate::text::digit_char(n % 10));
        assert((crate::text::digit_char(n % 10) as int) == 48 + n % 10);
        assert(digits_value(d) == digits_value(d.drop_last()) * 10 + ((d.last() as int) - 48) as nat);
        assert forall|i: int| 0 <= i < d.len() implies '0' <= #[trigger] d[i] <= '9' by {
            if i < d.len() - 1 {
                assert(d[i] == decimal(n / 10)[i]);
            }
        }
    }
}

proof fn lemma_decimal_parses(n: nat)
    requires
        n <= u64::MAX,
    ensures
        parsed_u64(trim(decimal(n))) == Some(n),
{
    lemma_decimal_digits(n);
    let d = decimal(n);
    assert(!crate::text::is_space(d[0]));
    assert(crate::text::trim_start(d) == d);
    assert(!crate::text::is_space(d.last()));
    assert(crate::text::trim_end(d) == d);
}

} // verus!
