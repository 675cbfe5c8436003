//! Two-step confirmation for destructive tools: a rule decides whether a call
//! needs confirmation, a single-use, tool-specific token is issued, and the
//! token is redeemed (within its time to live) for the parameters it was issued with.
//!
//! Time is a caller-supplied monotonic clock in milliseconds.
use vstd::prelude::*;
use crate::json::{json_quote, object_text, quoted, render_object, JsonValue};
use crate::text::{contains_seq, owned, push_str, str_contains, str_eq};

verus! {

broadcast use {vstd::seq_lib::group_seq_properties, vstd::seq_lib::group_filter_ensures};

/// Default lifetime of a token: five minutes.
pub const DEFAULT_TOKEN_TTL_MS: u64 = 300_000;

/// A configured confirmation rule for one tool.
#[derive(Debug)]
pub enum ConfirmRule {
    /// `"always"`: every call needs confirmation (any other text is a typo).
    Always(String),
    /// `{ when_pattern = [...] }`: calls whose command contains a pattern.
    WhenPattern { when_pattern: Vec<String> },
}

/// Whether a rule asks for confirmation of a call with the given command text.
pub open spec fn rule_requires(rule: ConfirmRule, command_text: Option<Seq<char>>) -> bool {
    match rule {
        ConfirmRule::Always(value) => value@ == "always"@,
        ConfirmRule::WhenPattern { when_pattern } => match command_text {
            Some(command) => exists|i: int|
                0 <= i < when_pattern.len() && contains_seq(command, #[trigger] when_pattern@[i]@),
            None => false,
        },
    }
}

/// The error text for a rule whose value is not `"always"`.
pub open spec fn invalid_rule_message(rule_name: Seq<char>, value: Seq<char>) -> Seq<char> {
    "Invalid confirmation rule for '"@ + rule_name
        + "': expected 'always' or { when_pattern = [...] }, got '"@ + value + "'"@
}

impl ConfirmRule {
    /// Rejects an `Always` rule whose text is not exactly `"always"`, so a typo
    /// does not silently disable confirmation.
    pub fn validate(&self, rule_name: &str) -> (r: Result<(), String>)
        ensures
            r is Err <==> (*self matches ConfirmRule::Always(v) && v@ != "always"@),
            r matches Err(m) ==> (*self matches ConfirmRule::Always(v) && m@
                == invalid_rule_message(rule_name@, v@)),
    {
        match self {
            ConfirmRule::Always(value) => {
                if str_eq(value.as_str(), "always") {
                    Ok(())
                } else {
                    let mut m = owned("Invalid confirmation rule for '");
                    push_str(&mut m, rule_name);
                    push_str(&mut m, "': expected 'always' or { when_pattern = [...] }, got '");
                    push_str(&mut m, value.as_str());
                    push_str(&mut m, "'");
                    Err(m)
                }
            },
            ConfirmRule::WhenPattern { .. } => Ok(()),
        }
    }

    /// Whether a call with this command text needs confirmation.
    #[verifier::loop_isolation(false)]
    pub fn requires_confirmation(&self, command_text: Option<&str>) -> (b: bool)
        ensures
            b == rule_requires(*self, opt_view(command_text)),
    {
        match self {
            ConfirmRule::Always(value) => str_eq(value.as_str(), "always"),
            ConfirmRule::WhenPattern { when_pattern } => match command_text {
                None => false,
                Some(command) => {
                    let mut i: usize = 0;
                    while i < when_pattern.len()
                        invariant
                            i <= when_pattern.len(),
                            forall|k: int|
                                0 <= k < i ==> !contains_seq(command@, #[trigger] when_pattern@[k]@),
                        decreases when_pattern.len() - i,
                    {
                        if str_contains(command, when_pattern[i].as_str()) {
                            assert(contains_seq(command@, when_pattern@[i as int]@));
                            return true;
                        }
                        i = i + 1;
                    }
                    false
                },
            },
        }
    }
}

/// A token waiting to be redeemed.
#[derive(Debug)]
pub struct PendingConfirmation {
    pub token: String,
    pub tool_name: String,
    pub params_json: String,
    pub created_at: u64,
    pub used: bool,
}

/// Milliseconds from `then` to `now`, zero if `now` is earlier.
pub open spec fn elapsed(now: int, then: int) -> int {
    if now >= then {
        now - then
    } else {
        0
    }
}

/// An entry that has neither expired nor been used.
pub open spec fn is_live(e: PendingConfirmation, now: int, ttl: int) -> bool {
    elapsed(now, e.created_at as int) < ttl && !e.used
}

pub open spec fn live_pred(now: int, ttl: int) -> spec_fn(PendingConfirmation) -> bool {
    |e: PendingConfirmation| is_live(e, now, ttl)
}

pub open spec fn other_token_pred(t: Seq<char>) -> spec_fn(PendingConfirmation) -> bool {
    |e: PendingConfirmation| e.token@ != t
}

/// No two entries share a token.
pub open spec fn tokens_distinct(p: Seq<PendingConfirmation>) -> bool {
    forall|i: int, j: int| 0 <= i < j < p.len() ==> p[i].token@ != p[j].token@
}

pub open spec fn has_token(p: Seq<PendingConfirmation>, t: Seq<char>) -> bool {
    exists|i: int| 0 <= i < p.len() && p[i].token@ == t
}

/// The position of the entry holding token `t` (meaningful when it exists).
pub open spec fn token_index(p: Seq<PendingConfirmation>, t: Seq<char>) -> int {
    choose|i: int| 0 <= i < p.len() && p[i].token@ == t
}

/// What redeeming a token decides.
#[derive(Debug, PartialEq, Eq, Structural)]
pub enum ConfirmVerdict {
    Missing,
    Expired,
    Used,
    WrongTool,
    Granted,
}

/// The decision for redeeming token `t` for `tool` at time `now`.
pub open spec fn verdict(
    p: Seq<PendingConfirmation>,
    t: Seq<char>,
    tool: Seq<char>,
    now: int,
    ttl: int,
) -> ConfirmVerdict {
    if !has_token(p, t) {
        ConfirmVerdict::Missing
    } else {
        let e = p[token_index(p, t)];
        if elapsed(now, e.created_at as int) >= ttl {
            ConfirmVerdict::Expired
        } else if e.used {
            ConfirmVerdict::Used
        } else if e.tool_name@ != tool {
            ConfirmVerdict::WrongTool
        } else {
            ConfirmVerdict::Granted
        }
    }
}

/// The pending entries after a token for `tool` with parameters `params` was
/// issued at `now`: stale and used entries are dropped, an entry with the same
/// token is replaced, and the new entry is last.
pub open spec fn issued(
    p: Seq<PendingConfirmation>,
    now: int,
    ttl: int,
    e: PendingConfirmation,
) -> Seq<PendingConfirmation> {
    p.filter(live_pred(now, ttl)).filter(other_token_pred(e.token@)).push(e)
}

/// Why a token could not be redeemed.
#[derive(Debug)]
pub enum ConfirmError {
    NotFound,
    Expired,
    AlreadyUsed,
    WrongTool { issued_for: String, requested: String },
}

impl ConfirmError {
    /// The verdict this error reports.
    pub open spec fn verdict_of(self) -> ConfirmVerdict {
        match self {
            ConfirmError::NotFound => ConfirmVerdict::Missing,
            ConfirmError::Expired => ConfirmVerdict::Expired,
            ConfirmError::AlreadyUsed => ConfirmVerdict::Used,
            ConfirmError::WrongTool { .. } => ConfirmVerdict::WrongTool,
        }
    }

    /// The text shown to the caller.
    pub fn message(&self) -> (m: String)
        ensures
            m@ == match *self {
                ConfirmError::NotFound =>
                    "Invalid or expired confirmation token. Tokens expire after 5 minutes."@,
                ConfirmError::Expired =>
                    "Confirmation token has expired (5 minute limit). Please re-initiate the operation."@,
                ConfirmError::AlreadyUsed =>
                    "Confirmation token has already been used. Each token is single-use."@,
                ConfirmError::WrongTool { issued_for, requested } => "Token was issued for '"@
                    + issued_for@ + "', not '"@ + requested@ + "'. Tokens are tool-specific."@,
            },
    {
        match self {
            ConfirmError::NotFound => owned(
                "Invalid or expired confirmation token. Tokens expire after 5 minutes.",
            ),
            ConfirmError::Expired => owned(
                "Confirmation token has expired (5 minute limit). Please re-initiate the operation.",
            ),
            ConfirmError::AlreadyUsed => owned(
                "Confirmation token has already been used. Each token is single-use.",
            ),
            ConfirmError::WrongTool { issued_for, requested } => {
                let mut m = owned("Token was issued for '");
                push_str(&mut m, issued_for.as_str());
                push_str(&mut m, "', not '");
                push_str(&mut m, requested.as_str());
                push_str(&mut m, "'. Tokens are tool-specific.");
                m
            },
        }
    }
}

/// The text of a refused redemption of token `t` for `tool` whose verdict
/// is `v`.
pub open spec fn refusal_text(p: Seq<PendingConfirmation>, t: Seq<char>, tool: Seq<char>, v: ConfirmVerdict) -> Seq<
    char,
> {
    match v {
        ConfirmVerdict::Missing => "Invalid or expired confirmation token. Tokens expire after 5 minutes."@,
        ConfirmVerdict::Expired =>
            "Confirmation token has expired (5 minute limit). Please re-initiate the operation."@,
        ConfirmVerdict::Used => "Confirmation token has already been used. Each token is single-use."@,
        ConfirmVerdict::WrongTool => "Token was issued for '"@ + p[token_index(p, t)].tool_name@ + "', not '"@
            + tool + "'. Tokens are tool-specific."@,
        ConfirmVerdict::Granted => Seq::empty(),
    }
}

/// The reply text of a call that needs confirmation: a JSON object with the
/// message, `"status": "confirmation_required"` and the token.
pub open spec fn required_reply(description: Seq<char>, tool: Seq<char>, token: Seq<char>) -> Seq<
    char,
> {
    seq!['{'] + quoted("message"@) + seq![':'] + quoted(
        description + ". Call confirm_operation with this token and tool name '"@ + tool
            + "' to proceed."@,
    ) + seq![','] + quoted("status"@) + seq![':'] + quoted("confirmation_required"@) + seq![',']
        + quoted("token"@) + seq![':'] + quoted(token) + seq!['}']
}

/// The first configured rule for `tool`, if any.
pub open spec fn rule_index(rules: Seq<(String, ConfirmRule)>, tool: Seq<char>) -> Option<int>
    decreases rules.len(),
{
    if rules.len() == 0 {
        None
    } else {
        match rule_index(rules.drop_last(), tool) {
            Some(i) => Some(i),
            None => if rules.last().0@ == tool {
                Some(rules.len() - 1)
            } else {
                None
            },
        }
    }
}

/// Whether a call of `tool` with this command text needs confirmation.
pub open spec fn needs_confirmation(
    rules: Seq<(String, ConfirmRule)>,
    tool: Seq<char>,
    command_text: Option<Seq<char>>,
) -> bool {
    match rule_index(rules, tool) {
        Some(i) => rule_requires(rules[i].1, command_text),
        None => false,
    }
}

pub open spec fn opt_view(o: Option<&str>) -> Option<Seq<char>> {
    match o {
        Some(s) => Some(s@),
        None => None,
    }
}

/// Trusted: `uuid::Uuid::new_v4()` rendered with `to_string`, the
/// hyphenated form of 36 characters. The value is random; no clause says
/// more of it.
#[verifier::external_body]
fn new_token() -> (t: String)
    ensures
        t@.len() == 36,
{
    uuid::Uuid::new_v4().to_string()
}

/// Issues and redeems confirmation tokens according to the configured rules.
#[derive(Debug)]
pub struct ConfirmationManager {
    pending: Vec<PendingConfirmation>,
    rules: Vec<(String, ConfirmRule)>,
    token_ttl: u64,
}

proof fn lemma_filter_keeps_distinct(s: Seq<PendingConfirmation>, pred: spec_fn(PendingConfirmation) -> bool)
    requires
        tokens_distinct(s),
    ensures
        tokens_distinct(s.filter(pred)),
        forall|k: int| 0 <= k < s.filter(pred).len() ==> s.contains(#[trigger] s.filter(pred)[k]),
    decreases s.len(),
{
    reveal(Seq::filter);
    if s.len() > 0 {
        let d = s.drop_last();
        lemma_filter_keeps_distinct(d, pred);
        let f = d.filter(pred);
        if pred(s.last()) {
            assert forall|i: int, j: int| 0 <= i < j < f.push(s.last()).len() implies f.push(
                s.last(),
            )[i].token@ != f.push(s.last())[j].token@ by {
                if j == f.len() {
                    assert(d.contains(f[i]));
                    let k = choose|k: int| 0 <= k < d.len() && d[k] == f[i];
                    assert(s[k] == d[k]);
                    assert(s[s.len() - 1] == s.last());
                }
            }
        }
    }
}

impl ConfirmationManager {
    #[verifier::type_invariant]
    spec fn inv(&self) -> bool {
        tokens_distinct(self.pending@)
    }

    /// The entries waiting to be redeemed.
    pub closed spec fn pending_view(&self) -> Seq<PendingConfirmation> {
        self.pending@
    }

    /// The configured rules.
    pub closed spec fn rules_view(&self) -> Seq<(String, ConfirmRule)> {
        self.rules@
    }

    /// The lifetime of a token, in milliseconds.
    pub closed spec fn ttl(&self) -> int {
        self.token_ttl as int
    }

    /// A manager with the given rules, no pending tokens and a five minute TTL.
    pub fn new(rules: Vec<(String, ConfirmRule)>) -> (m: Self)
        ensures
            m.pending_view().len() == 0,
            m.rules_view() == rules@,
            m.ttl() == DEFAULT_TOKEN_TTL_MS as int,
    {
        ConfirmationManager { pending: Vec::new(), rules, token_ttl: DEFAULT_TOKEN_TTL_MS }
    }

    /// The same manager with another token lifetime (in milliseconds).
    pub fn with_ttl(self, ttl_ms: u64) -> (m: Self)
        ensures
            m.pending_view() == self.pending_view(),
            m.rules_view() == self.rules_view(),
            m.ttl() == ttl_ms as int,
    {
        proof {
            use_type_invariant(&self);
        }
        let ConfirmationManager { pending, rules, token_ttl: _ } = self;
        ConfirmationManager { pending, rules, token_ttl: ttl_ms }
    }

    /// The configured rule for a tool, if any.
    fn find_rule(&self, tool_name: &str) -> (r: Option<usize>)
        ensures
            r is None ==> rule_index(self.rules@, tool_name@) is None,
            r matches Some(i) ==> rule_index(self.rules@, tool_name@) == Some(i as int) && i
                < self.rules@.len(),
    {
        let mut i: usize = 0;
        while i < self.rules.len()
            invariant
                i <= self.rules@.len(),
                rule_index(self.rules@.take(i as int), tool_name@) is None,
            decreases self.rules.len() - i,
        {
            proof {
                assert(self.rules@.take(i + 1).drop_last() == self.rules@.take(i as int));
            }
            if str_eq(self.rules[i].0.as_str(), tool_name) {
                proof {
                    assert(rule_index(self.rules@.take(i + 1), tool_name@) == Some(i as int));
                    lemma_rule_index_prefix(self.rules@, tool_name@, i + 1);
                }
                return Some(i);
            }
            i = i + 1;
        }
        assert(self.rules@.take(i as int) == self.rules@);
        None
    }

    /// Whether a call needs confirmation under the configured rules.
    pub fn needs_confirmation(&self, tool_name: &str, command_text: Option<&str>) -> (b: bool)
        ensures
            b == needs_confirmation(self.rules_view(), tool_name@, opt_view(command_text)),
    {
        match self.find_rule(tool_name) {
            None => false,
            Some(i) => self.rules[i].1.requires_confirmation(command_text),
        }
    }

    /// Keeps the entries satisfying `live` and not holding `drop_token`.
    fn sweep(&mut self, now: u64, drop_token: &str)
        ensures
            final(self).pending_view() == old(self).pending_view().filter(
                live_pred(now as int, old(self).ttl()),
            ).filter(other_token_pred(drop_token@)),
            final(self).rules_view() == old(self).rules_view(),
            final(self).ttl() == old(self).ttl(),
    {
        proof {
            use_type_invariant(&*self);
        }
        let ghost p0 = self.pending@;
        let ttl = self.token_ttl;
        let mut old_pending: Vec<PendingConfirmation> = Vec::new();
        std::mem::swap(&mut old_pending, &mut self.pending);
        let mut out: Vec<PendingConfirmation> = Vec::new();
        let ghost pred = |e: PendingConfirmation|
            is_live(e, now as int, ttl as int) && e.token@ != drop_token@;
        for e in it: old_pending
            invariant
                it.seq() == p0,
                pred == (|e: PendingConfirmation|
                    is_live(e, now as int, ttl as int) && e.token@ != drop_token@),
                out@ == p0.take(it.index() as int).filter(pred),
                self.pending@.len() == 0,
                self.rules@ == old(self).rules@,
                self.token_ttl == ttl,
                ttl == old(self).token_ttl,
        {
            proof {
                    assert(p0.take(it.index() + 1) == p0.take(it.index() as int).push(e));
                p0.take(it.index() as int).lemma_filter_push(e, pred);
            }
            let keep = (if now >= e.created_at {
                now - e.created_at
            } else {
                0
            }) < ttl && !e.used && !str_eq(e.token.as_str(), drop_token);
            if keep {
                out.push(e);
            }
        }
        proof {
            assert(p0.take(p0.len() as int) == p0);
            lemma_filter_filter(p0, live_pred(now as int, ttl as int), other_token_pred(drop_token@), pred);
            lemma_filter_keeps_distinct(p0, pred);
        }
        self.pending = out;
    }

    /// Issues a token for a call that needs confirmation, using the given token
    /// text; returns the reply, or `None` when no confirmation is needed (then
    /// nothing changes).
    pub fn require_with_token(
        &mut self,
        tool_name: &str,
        command_text: Option<&str>,
        description: &str,
        params_json: &str,
        now: u64,
        token: String,
    ) -> (r: Option<String>)
        ensures
            r is Some <==> needs_confirmation(old(self).rules_view(), tool_name@, opt_view(command_text)),
            r is None ==> final(self).pending_view() == old(self).pending_view(),
            r matches Some(reply) ==> {
                &&& reply@ == required_reply(description@, tool_name@, token@)
                &&& final(self).pending_view().len() > 0
                &&& final(self).pending_view().last().token@ == token@
                &&& final(self).pending_view().last().tool_name@ == tool_name@
                &&& final(self).pending_view().last().params_json@ == params_json@
                &&& final(self).pending_view().last().created_at == now
                &&& !final(self).pending_view().last().used
                &&& final(self).pending_view() == issued(
                    old(self).pending_view(),
                    now as int,
                    old(self).ttl(),
                    final(self).pending_view().last(),
                )
            },
            final(self).rules_view() == old(self).rules_view(),
            final(self).ttl() == old(self).ttl(),
    {
        if !self.needs_confirmation(tool_name, command_text) {
            return None;
        }
        self.sweep(now, token.as_str());
        let reply = {
            let mut message = owned(description);
            push_str(&mut message, ". Call confirm_operation with this token and tool name '");
            push_str(&mut message, tool_name);
            push_str(&mut message, "' to proceed.");
            let entries: Vec<(&str, JsonValue)> = vec![
                ("message", JsonValue::Str(message)),
                ("status", JsonValue::Str(owned("confirmation_required"))),
                ("token", JsonValue::Str(owned(token.as_str()))),
            ];
            proof {
                reveal_strlit("message");
                reveal_strlit("status");
                reveal_strlit("token");
                reveal_with_fuel(crate::json::keys_ascending, 4);
                reveal_with_fuel(crate::json::text_less, 11);
                assert(crate::json::keys_ascending(crate::json::entries_view(entries@)));
            }
            let r = render_object(&entries);
            proof {
                reveal_with_fuel(crate::json::members_text, 4);
                let ev = crate::json::entries_view(entries@);
                assert(ev.drop_last().drop_last().drop_last() =~= Seq::<(Seq<char>, crate::json::JsonView)>::empty());
            }
            r
        };
        let entry = PendingConfirmation {
            token,
            tool_name: owned(tool_name),
            params_json: owned(params_json),
            created_at: now,
            used: false,
        };
        proof {
            use_type_invariant(&*self);
            let f = self.pending@;
            assert forall|k: int| 0 <= k < f.len() implies f[k].token@ != entry.token@ by {
                let g = old(self).pending@.filter(live_pred(now as int, old(self).token_ttl as int));
                assert(other_token_pred(entry.token@)(f[k]));
            }
        }
        let mut p: Vec<PendingConfirmation> = Vec::new();
        std::mem::swap(&mut p, &mut self.pending);
        p.push(entry);
        self.pending = p;
        Some(reply)
    }

    /// Issues a fresh random token when the call needs confirmation.
    pub fn check_and_maybe_require(
        &mut self,
        tool_name: &str,
        command_text: Option<&str>,
        description: &str,
        params_json: &str,
        now: u64,
    ) -> (r: Result<Option<String>, String>)
        ensures
            r is Ok,
            r matches Ok(o) ==> (o is Some <==> needs_confirmation(
                old(self).rules_view(),
                tool_name@,
                opt_view(command_text),
            )),
            r matches Ok(None) ==> final(self).pending_view() == old(self).pending_view(),
            r matches Ok(Some(_)) ==> {
                &&& final(self).pending_view().len() > 0
                &&& final(self).pending_view().last().tool_name@ == tool_name@
                &&& final(self).pending_view().last().params_json@ == params_json@
                &&& final(self).pending_view().last().created_at == now
                &&& !final(self).pending_view().last().used
                &&& final(self).pending_view().last().token@.len() == 36
                &&& final(self).pending_view() == issued(
                    old(self).pending_view(),
                    now as int,
                    old(self).ttl(),
                    final(self).pending_view().last(),
                )
            },
            r matches Ok(Some(reply)) ==> reply@ == required_reply(
                description@,
                tool_name@,
                final(self).pending_view().last().token@,
            ),
            final(self).rules_view() == old(self).rules_view(),
            final(self).ttl() == old(self).ttl(),
    {
        if !self.needs_confirmation(tool_name, command_text) {
            return Ok(None);
        }
        let token = new_token();
        Ok(self.require_with_token(tool_name, command_text, description, params_json, now, token))
    }

    /// The position of the entry holding `token`, if any.
    fn find_token(&self, token: &str) -> (r: Option<usize>)
        ensures
            r is None <==> !has_token(self.pending_view(), token@),
            r matches Some(i) ==> i == token_index(self.pending_view(), token@) && i
                < self.pending_view().len(),
    {
        proof {
            use_type_invariant(self);
        }
        let mut i: usize = 0;
        while i < self.pending.len()
            invariant
                i <= self.pending@.len(),
                tokens_distinct(self.pending@),
                forall|k: int| 0 <= k < i ==> self.pending@[k].token@ != token@,
            decreases self.pending.len() - i,
        {
            if str_eq(self.pending[i].token.as_str(), token) {
                proof {
                    let j = token_index(self.pending@, token@);
                    assert(0 <= j < self.pending@.len() && self.pending@[j].token@ == token@);
                    if j != i {
                        if j < i {
                        } else {
                        }
                    }
                }
                return Some(i);
            }
            i = i + 1;
        }
        None
    }

    /// Redeems a token for a tool at time `now`: gives back the parameters of
    /// the confirmed call, or says why it cannot.
    pub fn confirm(&mut self, token: &str, tool_name: &str, now: u64) -> (r: Result<String, ConfirmError>)
        ensures
            r is Ok <==> verdict(old(self).pending_view(), token@, tool_name@, now as int, old(self).ttl())
                == ConfirmVerdict::Granted,
            r matches Ok(params) ==> params@ == old(self).pending_view()[token_index(
                old(self).pending_view(),
                token@,
            )].params_json@,
            r matches Err(e) ==> e.verdict_of() == verdict(
                old(self).pending_view(),
                token@,
                tool_name@,
                now as int,
                old(self).ttl(),
            ),
            r matches Err(ConfirmError::WrongTool { issued_for, requested }) ==> issued_for@
                == old(self).pending_view()[token_index(old(self).pending_view(), token@)].tool_name@
                && requested@ == tool_name@,
            ({
                let v = verdict(
                    old(self).pending_view(),
                    token@,
                    tool_name@,
                    now as int,
                    old(self).ttl(),
                );
                if v == ConfirmVerdict::Granted || v == ConfirmVerdict::Expired {
                    final(self).pending_view() == old(self).pending_view().filter(
                        other_token_pred(token@),
                    )
                } else {
                    final(self).pending_view() == old(self).pending_view()
                }
            }),
            final(self).rules_view() == old(self).rules_view(),
            final(self).ttl() == old(self).ttl(),
    {
        let i = match self.find_token(token) {
            None => {
                return Err(ConfirmError::NotFound);
            },
            Some(i) => i,
        };
        let created = self.pending[i].created_at;
        let age = if now >= created {
            now - created
        } else {
            0
        };
        if age >= self.token_ttl {
            self.remove_token(token);
            return Err(ConfirmError::Expired);
        }
        if self.pending[i].used {
            return Err(ConfirmError::AlreadyUsed);
        }
        if !str_eq(self.pending[i].tool_name.as_str(), tool_name) {
            return Err(
                ConfirmError::WrongTool {
                    issued_for: owned(self.pending[i].tool_name.as_str()),
                    requested: owned(tool_name),
                },
            );
        }
        let params = owned(self.pending[i].params_json.as_str());
        self.remove_token(token);
        Ok(params)
    }

    /// Drops the entry holding `token`.
    fn remove_token(&mut self, token: &str)
        ensures
            final(self).pending_view() == old(self).pending_view().filter(other_token_pred(token@)),
            final(self).rules_view() == old(self).rules_view(),
            final(self).ttl() == old(self).ttl(),
    {
        proof {
            use_type_invariant(&*self);
        }
        let ghost p0 = self.pending@;
        let mut old_pending: Vec<PendingConfirmation> = Vec::new();
        std::mem::swap(&mut old_pending, &mut self.pending);
        let mut out: Vec<PendingConfirmation> = Vec::new();
        let ghost pred = other_token_pred(token@);
        for e in it: old_pending
            invariant
                it.seq() == p0,
                pred == other_token_pred(token@),
                out@ == p0.take(it.index() as int).filter(pred),
                self.pending@.len() == 0,
                self.rules@ == old(self).rules@,
                self.token_ttl == old(self).token_ttl,
        {
            proof {
                assert(p0.take(it.index() + 1) == p0.take(it.index() as int).push(e));
                p0.take(it.index() as int).lemma_filter_push(e, pred);
            }
            if !str_eq(e.token.as_str(), token) {
                out.push(e);
            }
        }
        proof {
            assert(p0.take(p0.len() as int) == p0);
            lemma_filter_keeps_distinct(p0, pred);
        }
        self.pending = out;
    }
}

proof fn lemma_rule_index_prefix(rules: Seq<(String, ConfirmRule)>, tool: Seq<char>, n: int)
    requires
        0 <= n <= rules.len(),
        rule_index(rules.take(n), tool) is Some,
    ensures
        rule_index(rules, tool) == rule_index(rules.take(n), tool),
    decreases rules.len() - n,
{
    if n < rules.len() {
        assert(rules.take(n + 1).drop_last() == rules.take(n));
        lemma_rule_index_prefix(rules, tool, n + 1);
    } else {
        assert(rules.take(n) == rules);
    }
}

/// Filtering twice is filtering by the conjunction.
proof fn lemma_filter_filter(
    s: Seq<PendingConfirmation>,
    p: spec_fn(PendingConfirmation) -> bool,
    q: spec_fn(PendingConfirmation) -> bool,
    pq: spec_fn(PendingConfirmation) -> bool,
)
    requires
        forall|e: PendingConfirmation| #[trigger] pq(e) == (p(e) && q(e)),
    ensures
        s.filter(p).filter(q) == s.filter(pq),
    decreases s.len(),
{
    reveal(Seq::filter);
    if s.len() > 0 {
        lemma_filter_filter(s.drop_last(), p, q, pq);
        let x = s.last();
        s.drop_last().filter(p).lemma_filter_push(x, q);
        assert(s.drop_last().push(x) == s);
    }
}

/// The only entry of `issued(p, now, ttl, e)` that holds `e`'s token is the
/// new entry, at the end.
proof fn lemma_issued_token_index(p: Seq<PendingConfirmation>, now: int, ttl: int, e: PendingConfirmation)
    ensures
        has_token(issued(p, now, ttl, e), e.token@),
        token_index(issued(p, now, ttl, e), e.token@) == issued(p, now, ttl, e).len() - 1,
        issued(p, now, ttl, e).last() == e,
{
    let f = p.filter(live_pred(now, ttl)).filter(other_token_pred(e.token@));
    let q = f.push(e);
    assert(q[q.len() - 1].token@ == e.token@);
    let j = token_index(q, e.token@);
    if j != q.len() - 1 {
        assert(0 <= j < f.len());
        assert(other_token_pred(e.token@)(f[j]));
    }
}

/// A token redeemed for the tool it was issued for, before its time to live
/// has passed, gives back the parameters of the call it was issued for.
pub proof fn law_confirm_after_issue(
    p: Seq<PendingConfirmation>,
    now: int,
    ttl: int,
    e: PendingConfirmation,
    later: int,
)
    requires
        e.created_at == now,
        !e.used,
        elapsed(later, now) < ttl,
    ensures
        verdict(issued(p, now, ttl, e), e.token@, e.tool_name@, later, ttl) == ConfirmVerdict::Granted,
        issued(p, now, ttl, e)[token_index(issued(p, now, ttl, e), e.token@)].params_json@
            == e.params_json@,
{
    lemma_issued_token_index(p, now, ttl, e);
}

/// A token is single-use: once redeemed (or found expired) it is gone, and any
/// further attempt finds no such token.
pub proof fn law_token_single_use(
    p: Seq<PendingConfirmation>,
    t: Seq<char>,
    tool: Seq<char>,
    now: int,
    ttl: int,
)
    ensures
        verdict(p.filter(other_token_pred(t)), t, tool, now, ttl) == ConfirmVerdict::Missing,
{
    let f = p.filter(other_token_pred(t));
    if has_token(f, t) {
        let i = choose|i: int| 0 <= i < f.len() && f[i].token@ == t;
        assert(other_token_pred(t)(f[i]));
    }
}

/// A token is tool-specific: redeeming it for another tool is refused.
pub proof fn law_token_tool_specific(
    p: Seq<PendingConfirmation>,
    now: int,
    ttl: int,
    e: PendingConfirmation,
    other_tool: Seq<char>,
    later: int,
)
    requires
        e.created_at == now,
        !e.used,
        elapsed(later, now) < ttl,
        other_tool != e.tool_name@,
    ensures
        verdict(issued(p, now, ttl, e), e.token@, other_tool, later, ttl) == ConfirmVerdict::WrongTool,
{
    lemma_issued_token_index(p, now, ttl, e);
}

/// A token expires: once its time to live has passed it is refused, whatever
/// tool it is redeemed for.
pub proof fn law_token_expires(
    p: Seq<PendingConfirmation>,
    now: int,
    ttl: int,
    e: PendingConfirmation,
    tool: Seq<char>,
    later: int,
)
    requires
        e.created_at == now,
        elapsed(later, now) >= ttl,
    ensures
        verdict(issued(p, now, ttl, e), e.token@, tool, later, ttl) == ConfirmVerdict::Expired,
{
    lemma_issued_token_index(p, now, ttl, e);
}

/// Issuing a token keeps every other token that is still live.
pub proof fn law_issue_keeps_live_tokens(
    p: Seq<PendingConfirmation>,
    now: int,
    ttl: int,
    e: PendingConfirmation,
    q: PendingConfirmation,
)
    requires
        p.contains(q),
        is_live(q, now, ttl),
        q.token@ != e.token@,
    ensures
        issued(p, now, ttl, e).contains(q),
{
    let f = p.filter(live_pred(now, ttl));
    assert(live_pred(now, ttl)(q));
    assert(f.contains(q));
    assert(other_token_pred(e.token@)(q));
    let g = f.filter(other_token_pred(e.token@));
    assert(g.contains(q));
    let k = choose|k: int| 0 <= k < g.len() && g[k] == q;
    assert(g.push(e)[k] == q);
}

/// A tool without a configured rule never needs confirmation.
pub proof fn law_unruled_tool_never_confirms(
    rules: Seq<(String, ConfirmRule)>,
    tool: Seq<char>,
    command_text: Option<Seq<char>>,
)
    requires
        forall|i: int| 0 <= i < rules.len() ==> rules[i].0@ != tool,
    ensures
        !needs_confirmation(rules, tool, command_text),
{
    lemma_no_rule_index(rules, tool);
}

proof fn lemma_no_rule_index(rules: Seq<(String, ConfirmRule)>, tool: Seq<char>)
    requires
        forall|i: int| 0 <= i < rules.len() ==> rules[i].0@ != tool,
    ensures
        rule_index(rules, tool) is None,
    decreases rules.len(),
{
    if rules.len() > 0 {
        lemma_no_rule_index(rules.drop_last(), tool);
        assert(rules[rules.len() - 1].0@ != tool);
    }
}

/// A pattern rule asks for confirmation of a command exactly when the
/// command contains at least one of its patterns, wherever that pattern
/// stands in the list; without a command it asks for none.
pub proof fn law_any_pattern_requires_confirmation(patterns: Vec<String>, command: Seq<char>, i: int)
    ensures
        0 <= i < patterns@.len() && contains_seq(command, patterns@[i]@) ==> rule_requires(
            ConfirmRule::WhenPattern { when_pattern: patterns },
            Some(command),
        ),
        rule_requires(ConfirmRule::WhenPattern { when_pattern: patterns }, Some(command)) ==> exists|j: int|
            0 <= j < patterns@.len() && contains_seq(command, #[trigger] patterns@[j]@),
        !rule_requires(ConfirmRule::WhenPattern { when_pattern: patterns }, None),
{
    let rule = ConfirmRule::WhenPattern { when_pattern: patterns };
    if 0 <= i < patterns@.len() && contains_seq(command, patterns@[i]@) {
        assert(rule matches ConfirmRule::WhenPattern { when_pattern } && when_pattern@[i]@ == patterns@[i]@);
        assert(rule_requires(rule, Some(command)));
    }
}

proof fn lemma_rule_index_unique(rules: Seq<(String, ConfirmRule)>, tool: Seq<char>, j: int)
    requires
        0 <= j < rules.len(),
        rules[j].0@ == tool,
        forall|k: int| 0 <= k < rules.len() && k != j ==> rules[k].0@ != tool,
    ensures
        rule_index(rules, tool) == Some(j),
    decreases rules.len(),
{
    let d = rules.drop_last();
    if j == rules.len() - 1 {
        assert forall|k: int| 0 <= k < d.len() implies d[k].0@ != tool by {
            assert(d[k] == rules[k]);
        }
        lemma_no_rule_index(d, tool);
    } else {
        assert forall|k: int| 0 <= k < d.len() && k != j implies d[k].0@ != tool by {
            assert(d[k] == rules[k]);
        }
        assert(d[j] == rules[j]);
        lemma_rule_index_unique(d, tool, j);
    }
}

/// With a pattern rule configured for a tool (rule names are unique, as
/// the keys of the configuration are), a call of that tool needs
/// confirmation exactly when its command contains one of the rule's
/// patterns, whichever one it is.
pub proof fn law_pattern_rule_guards_every_pattern(
    rules: Seq<(String, ConfirmRule)>,
    tool: Seq<char>,
    j: int,
    patterns: Vec<String>,
    command: Seq<char>,
)
    requires
        0 <= j < rules.len(),
        rules[j].0@ == tool,
        rules[j].1 == (ConfirmRule::WhenPattern { when_pattern: patterns }),
        forall|k: int| 0 <= k < rules.len() && k != j ==> rules[k].0@ != tool,
    ensures
        needs_confirmation(rules, tool, Some(command)) <==> exists|i: int|
            0 <= i < patterns@.len() && contains_seq(command, #[trigger] patterns@[i]@),
{
    lemma_rule_index_unique(rules, tool, j);
    assert(needs_confirmation(rules, tool, Some(command)) == rule_requires(rules[j].1, Some(command)));
    if exists|i: int| 0 <= i < patterns@.len() && contains_seq(command, #[trigger] patterns@[i]@) {
        let i = choose|i: int| 0 <= i < patterns@.len() && contains_seq(command, #[trigger] patterns@[i]@);
        law_any_pattern_requires_confirmation(patterns, command, i);
    }
    if needs_confirmation(rules, tool, Some(command)) {
        law_any_pattern_requires_confirmation(patterns, command, 0);
    }
}

} // verus!
