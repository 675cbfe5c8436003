//! Sliding-window rate limiting per tool, with exact and trailing-`*`
//! wildcard patterns, shared globally or kept per caller.
//!
//! Time is a caller-supplied monotonic clock in milliseconds; the window is
//! one minute.
use vstd::prelude::*;
use crate::text::{
    chars_of, contains_chars, decimal, owned, push_char, push_str, starts_with_seq, str_eq,
    str_starts_with, string_of_range, u64_to_decimal,
};

verus! {

broadcast use {vstd::seq_lib::group_seq_properties, vstd::seq_lib::group_filter_ensures};

/// Length of the sliding window, in milliseconds.
pub const WINDOW_MS: u64 = 60_000;

/// Whether windows are shared by all callers or kept per caller.
#[derive(Debug)]
pub enum RateLimitMode {
    Global,
    PerCaller,
}

/// A configured limit.
#[derive(Debug)]
pub struct RateLimit {
    pub per_minute: u32,
}

/// The position of the exact limit for `tool` (the first one), if any.
pub open spec fn exact_index(exact: Seq<(String, u32)>, tool: Seq<char>) -> Option<int>
    decreases exact.len(),
{
    if exact.len() == 0 {
        None
    } else {
        match exact_index(exact.drop_last(), tool) {
            Some(i) => Some(i),
            None => if exact.last().0@ == tool {
                Some(exact.len() - 1)
            } else {
                None
            },
        }
    }
}

/// The position of the most specific wildcard prefix of `tool`: the longest
/// matching prefix, the first one configured among equally long ones.
pub open spec fn wildcard_index(wild: Seq<(String, u32)>, tool: Seq<char>) -> Option<int>
    decreases wild.len(),
{
    if wild.len() == 0 {
        None
    } else {
        let r = wildcard_index(wild.drop_last(), tool);
        if starts_with_seq(tool, wild.last().0@) && (match r {
            Some(j) => wild[j].0@.len() < wild.last().0@.len(),
            None => true,
        }) {
            Some(wild.len() - 1)
        } else {
            r
        }
    }
}

/// The window name and limit that apply to `tool`: an exact limit keyed by the
/// tool name, else the most specific wildcard keyed by its pattern.
pub open spec fn resolved(
    exact: Seq<(String, u32)>,
    wild: Seq<(String, u32)>,
    tool: Seq<char>,
) -> Option<(Seq<char>, u32)> {
    match exact_index(exact, tool) {
        Some(i) => Some((tool, exact[i].1)),
        None => match wildcard_index(wild, tool) {
            Some(j) => Some((wild[j].0@.push('*'), wild[j].1)),
            None => None,
        },
    }
}

/// The key of the window a call counts against.
pub open spec fn window_key(per_caller: bool, caller: Option<Seq<char>>, rate_key: Seq<char>) -> Seq<
    char,
> {
    match caller {
        Some(id) => if per_caller && id.len() > 0 {
            id + ":"@ + rate_key
        } else {
            rate_key
        },
        None => rate_key,
    }
}

/// A recorded call still within the window at `now`.
pub open spec fn in_window(t: u64, now: int) -> bool {
    t + WINDOW_MS > now
}

pub open spec fn in_window_pred(now: int) -> spec_fn(u64) -> bool {
    |t: u64| in_window(t, now)
}

/// The recorded calls of a window that still count at `now`.
pub open spec fn recent(w: Seq<u64>, now: int) -> Seq<u64> {
    w.filter(in_window_pred(now))
}

/// Seconds until the oldest counted call leaves the window.
pub open spec fn retry_after(recent_calls: Seq<u64>, now: int) -> nat {
    if recent_calls.len() == 0 {
        60
    } else {
        let age_secs = (if now >= recent_calls[0] {
            now - recent_calls[0]
        } else {
            0
        }) / 1000;
        if age_secs >= 60 {
            0
        } else {
            (60 - age_secs) as nat
        }
    }
}

/// A refused call.
#[derive(Debug)]
pub struct RateLimitError {
    pub tool_name: String,
    pub limit: u32,
    pub retry_after_secs: u64,
}

impl RateLimitError {
    /// The text shown to the caller.
    pub fn message(&self) -> (m: String)
        ensures
            m@ == "Rate limit exceeded for "@ + self.tool_name@ + ". Limit: "@ + decimal(
                self.limit as nat,
            ) + "/min. Retry after "@ + decimal(self.retry_after_secs as nat) + "s."@,
    {
        let mut m = owned("Rate limit exceeded for ");
        push_str(&mut m, self.tool_name.as_str());
        push_str(&mut m, ". Limit: ");
        let l = u64_to_decimal(self.limit as u64);
        push_str(&mut m, l.as_str());
        push_str(&mut m, "/min. Retry after ");
        let r = u64_to_decimal(self.retry_after_secs);
        push_str(&mut m, r.as_str());
        push_str(&mut m, "s.");
        m
    }
}

/// No two windows share a key.
pub open spec fn keys_distinct(w: Seq<(String, Vec<u64>)>) -> bool {
    forall|i: int, j: int| 0 <= i < j < w.len() ==> w[i].0@ != w[j].0@
}

pub open spec fn has_key(w: Seq<(String, Vec<u64>)>, k: Seq<char>) -> bool {
    exists|i: int| 0 <= i < w.len() && w[i].0@ == k
}

/// The recorded calls of window `k` (empty when there is none yet).
pub open spec fn window_of(w: Seq<(String, Vec<u64>)>, k: Seq<char>) -> Seq<u64> {
    if has_key(w, k) {
        w[choose|i: int| 0 <= i < w.len() && w[i].0@ == k].1@
    } else {
        Seq::empty()
    }
}

/// Sliding-window limiter.
#[derive(Debug)]
pub struct RateLimiter {
    windows: Vec<(String, Vec<u64>)>,
    exact_limits: Vec<(String, u32)>,
    wildcard_limits: Vec<(String, u32)>,
    per_caller: bool,
}

/// Trailing `*`s removed, as `trim_end_matches('*')` does.
pub open spec fn trim_stars(s: Seq<char>) -> Seq<char>
    decreases s.len(),
{
    if s.len() > 0 && s.last() == '*' {
        trim_stars(s.drop_last())
    } else {
        s
    }
}

pub open spec fn has_star(s: Seq<char>) -> bool {
    s.contains('*')
}

/// The exact limits of a configuration, in order.
pub open spec fn exact_of(limits: Seq<(String, RateLimit)>) -> Seq<(Seq<char>, u32)>
    decreases limits.len(),
{
    if limits.len() == 0 {
        Seq::empty()
    } else {
        let rest = exact_of(limits.drop_last());
        if has_star(limits.last().0@) {
            rest
        } else {
            rest.push((limits.last().0@, limits.last().1.per_minute))
        }
    }
}

/// The wildcard limits of a configuration (patterns with their trailing `*`s
/// removed), in order.
pub open spec fn wildcards_of(limits: Seq<(String, RateLimit)>) -> Seq<(Seq<char>, u32)>
    decreases limits.len(),
{
    if limits.len() == 0 {
        Seq::empty()
    } else {
        let rest = wildcards_of(limits.drop_last());
        if has_star(limits.last().0@) {
            rest.push((trim_stars(limits.last().0@), limits.last().1.per_minute))
        } else {
            rest
        }
    }
}

pub open spec fn entries_view(s: Seq<(String, u32)>) -> Seq<(Seq<char>, u32)> {
    s.map_values(|e: (String, u32)| (e.0@, e.1))
}

/// Removes trailing `*`s.
fn trim_trailing_stars(s: &str) -> (r: String)
    ensures
        r@ == trim_stars(s@),
{
    let v = chars_of(s);
    let mut n: usize = v.len();
    while n > 0 && v[n - 1] == '*'
        invariant
            n <= v.len(),
            trim_stars(v@.take(n as int)) == trim_stars(v@),
        decreases n,
    {
        proof {
            assert(v@.take(n as int).drop_last() == v@.take(n - 1));
        }
        n = n - 1;
    }
    assert(trim_stars(v@.take(n as int)) == v@.take(n as int));
    let r = string_of_range(v.as_slice(), 0, n);
    assert(v@.subrange(0, n as int) == v@.take(n as int));
    r
}

impl RateLimiter {
    #[verifier::type_invariant]
    spec fn inv(&self) -> bool {
        keys_distinct(self.windows@)
    }

    /// The recorded calls per window.
    pub closed spec fn windows_view(&self) -> Seq<(String, Vec<u64>)> {
        self.windows@
    }

    /// The exact limits, in order.
    pub closed spec fn exact_view(&self) -> Seq<(String, u32)> {
        self.exact_limits@
    }

    /// The wildcard prefixes with their limits, in order.
    pub closed spec fn wildcard_view(&self) -> Seq<(String, u32)> {
        self.wildcard_limits@
    }

    /// Whether windows are kept per caller.
    pub closed spec fn per_caller_view(&self) -> bool {
        self.per_caller
    }

    /// A limiter with no limits, in global mode.
    pub fn new() -> (r: Self)
        ensures
            r.windows_view().len() == 0,
            r.exact_view().len() == 0,
            r.wildcard_view().len() == 0,
            !r.per_caller_view(),
    {
        RateLimiter {
            windows: Vec::new(),
            exact_limits: Vec::new(),
            wildcard_limits: Vec::new(),
            per_caller: false,
        }
    }

    /// A limiter with the given exact limits and wildcard prefixes.
    pub fn with_limits(
        exact_limits: Vec<(String, u32)>,
        wildcard_limits: Vec<(String, u32)>,
        mode: RateLimitMode,
    ) -> (r: Self)
        ensures
            r.windows_view().len() == 0,
            r.exact_view() == exact_limits@,
            r.wildcard_view() == wildcard_limits@,
            r.per_caller_view() == (mode is PerCaller),
    {
        let per_caller = match mode {
            RateLimitMode::Global => false,
            RateLimitMode::PerCaller => true,
        };
        RateLimiter { windows: Vec::new(), exact_limits, wildcard_limits, per_caller }
    }

    /// A limiter from configured patterns: a pattern holding `*` is a wildcard
    /// on the prefix before its trailing `*`s, any other is an exact tool name.
    pub fn from_config(limits: &Vec<(String, RateLimit)>, mode: RateLimitMode) -> (r: Self)
        ensures
            r.windows_view().len() == 0,
            entries_view(r.exact_view()) == exact_of(limits@),
            entries_view(r.wildcard_view()) == wildcards_of(limits@),
            r.per_caller_view() == (mode is PerCaller),
    {
        let mut exact: Vec<(String, u32)> = Vec::new();
        let mut wild: Vec<(String, u32)> = Vec::new();
        let mut i: usize = 0;
        while i < limits.len()
            invariant
                i <= limits.len(),
                entries_view(exact@) == exact_of(limits@.take(i as int)),
                entries_view(wild@) == wildcards_of(limits@.take(i as int)),
            decreases limits.len() - i,
        {
            proof {
                assert(limits@.take(i + 1).drop_last() == limits@.take(i as int));
            }
            let pattern = &limits[i].0;
            let per_minute = limits[i].1.per_minute;
            let pv = chars_of(pattern.as_str());
            let star: Vec<char> = vec!['*'];
            let has = contains_chars(pv.as_slice(), star.as_slice());
            proof {
                if has {
                    let k = choose|k: int| crate::text::occurs_at(pv@, star@, k);
                    assert(pv@[k] == '*');
                } else {
                    if pv@.contains('*') {
                        let k = choose|k: int| 0 <= k < pv@.len() && pv@[k] == '*';
                        assert(pv@.subrange(k, k + 1) =~= star@);
                        assert(crate::text::occurs_at(pv@, star@, k));
                    }
                }
            }
            if has {
                let trimmed = trim_trailing_stars(pattern.as_str());
                wild.push((trimmed, per_minute));
            } else {
                exact.push((owned(pattern.as_str()), per_minute));
            }
            i = i + 1;
        }
        assert(limits@.take(limits.len() as int) == limits@);
        let per_caller = match mode {
            RateLimitMode::Global => false,
            RateLimitMode::PerCaller => true,
        };
        RateLimiter { windows: Vec::new(), exact_limits: exact, wildcard_limits: wild, per_caller }
    }

    /// The window name and limit that apply to a tool.
    pub fn resolve_limit(&self, tool_name: &str) -> (r: Option<(String, u32)>)
        ensures
            match resolved(self.exact_view(), self.wildcard_view(), tool_name@) {
                Some((k, l)) => r matches Some((rk, rl)) && rk@ == k && rl == l,
                None => r is None,
            },
    {
        let mut i: usize = 0;
        while i < self.exact_limits.len()
            invariant
                i <= self.exact_limits@.len(),
                exact_index(self.exact_limits@.take(i as int), tool_name@) is None,
            decreases self.exact_limits.len() - i,
        {
            proof {
                assert(self.exact_limits@.take(i + 1).drop_last() == self.exact_limits@.take(i as int));
            }
            if str_eq(self.exact_limits[i].0.as_str(), tool_name) {
                proof {
                    lemma_exact_index_prefix(self.exact_limits@, tool_name@, i + 1);
                }
                return Some((owned(tool_name), self.exact_limits[i].1));
            }
            i = i + 1;
        }
        assert(self.exact_limits@.take(i as int) == self.exact_limits@);
        let mut best: Option<usize> = None;
        let mut j: usize = 0;
        while j < self.wildcard_limits.len()
            invariant
                j <= self.wildcard_limits@.len(),
                wildcard_index(self.wildcard_limits@.take(j as int), tool_name@) == match best {
                    Some(b) => Some(b as int),
                    None => None::<int>,
                },
                best matches Some(b) ==> b < j,
            decreases self.wildcard_limits.len() - j,
        {
            proof {
                assert(self.wildcard_limits@.take(j + 1).drop_last() == self.wildcard_limits@.take(j as int));
            }
            let prefix = &self.wildcard_limits[j].0;
            if str_starts_with(tool_name, prefix.as_str()) {
                let better = match best {
                    None => true,
                    Some(b) => prefix_len(&self.wildcard_limits[b].0) < prefix_len(prefix),
                };
                if better {
                    best = Some(j);
                }
            }
            j = j + 1;
        }
        assert(self.wildcard_limits@.take(j as int) == self.wildcard_limits@);
        match best {
            None => None,
            Some(b) => {
                let mut key = owned(self.wildcard_limits[b].0.as_str());
                push_char(&mut key, '*');
                Some((key, self.wildcard_limits[b].1))
            },
        }
    }

    /// Checks (and, when allowed, records) a call of `tool_name` at `now`.
    /// In per-caller mode a non-empty caller id scopes the window.
    pub fn check(&mut self, tool_name: &str, caller_id: Option<&str>, now: u64) -> (r: Result<
        (),
        RateLimitError,
    >)
        ensures
            final(self).exact_view() == old(self).exact_view(),
            final(self).wildcard_view() == old(self).wildcard_view(),
            final(self).per_caller_view() == old(self).per_caller_view(),
            match resolved(old(self).exact_view(), old(self).wildcard_view(), tool_name@) {
                None => r is Ok && final(self).windows_view() == old(self).windows_view(),
                Some((rate_key, limit)) => {
                    let key = window_key(
                        old(self).per_caller_view(),
                        crate::confirmation::opt_view(caller_id),
                        rate_key,
                    );
                    let counted = recent(window_of(old(self).windows_view(), key), now as int);
                    &&& (r is Ok <==> counted.len() < limit)
                    &&& window_of(final(self).windows_view(), key) == if counted.len() < limit {
                        counted.push(now)
                    } else {
                        counted
                    }
                    &&& forall|k: Seq<char>|
                        k != key ==> #[trigger] window_of(final(self).windows_view(), k)
                            == window_of(old(self).windows_view(), k)
                    &&& (r matches Err(e) ==> e.tool_name@ == tool_name@ && e.limit == limit
                        && e.retry_after_secs == retry_after(counted, now as int))
                    &&& (r is Ok, window_of(final(self).windows_view(), key)) == step(
                        window_of(old(self).windows_view(), key),
                        now,
                        limit,
                    )
                },
            },
    {
        proof {
            use_type_invariant(&*self);
        }
        let (rate_key, limit) = match self.resolve_limit(tool_name) {
            None => {
                return Ok(());
            },
            Some(x) => x,
        };
        let key = make_window_key(self.per_caller, caller_id, rate_key.as_str());
        let mut windows: Vec<(String, Vec<u64>)> = Vec::new();
        std::mem::swap(&mut windows, &mut self.windows);
        let ghost w0 = windows@;
        let idx = find_window(&windows, key.as_str());
        let mut counted: Vec<u64> = Vec::new();
        match idx {
            Some(i) => {
                let w = &windows[i].1;
                let mut j: usize = 0;
                while j < w.len()
                    invariant
                        j <= w@.len(),
                        counted@ == w@.take(j as int).filter(in_window_pred(now as int)),
                    decreases w.len() - j,
                {
                    proof {
                        assert(w@.take(j + 1) == w@.take(j as int).push(w@[j as int]));
                        w@.take(j as int).lemma_filter_push(w@[j as int], in_window_pred(now as int));
                    }
                    let t = w[j];
                    if now < WINDOW_MS || t > now - WINDOW_MS {
                        counted.push(t);
                    }
                    j = j + 1;
                }
                assert(w@.take(w@.len() as int) == w@);
            },
            None => {
                assert(Seq::<u64>::empty().filter(in_window_pred(now as int)) =~= Seq::<u64>::empty());
            },
        }
        assert(counted@ == recent(window_of(w0, key@), now as int));
        let result = if counted.len() >= limit as usize {
            let retry = if counted.len() == 0 {
                60
            } else {
                let age = if now >= counted[0] {
                    now - counted[0]
                } else {
                    0
                };
                let secs = age / 1000;
                if secs >= 60 {
                    0
                } else {
                    60 - secs
                }
            };
            Err(RateLimitError { tool_name: owned(tool_name), limit, retry_after_secs: retry })
        } else {
            counted.push(now);
            Ok(())
        };
        let ghost nw = counted@;
        match idx {
            Some(i) => {
                windows.set(i, (key, counted));
                proof {
                    lemma_window_update(w0, i as int, windows@[i as int]);
                }
            },
            None => {
                windows.push((key, counted));
                proof {
                    lemma_window_push(w0, windows@.last());
                }
            },
        }
        self.windows = windows;
        result
    }
}

impl Default for RateLimiter {
    fn default() -> (r: Self)
        ensures
            r.windows_view().len() == 0,
            r.exact_view().len() == 0,
            r.wildcard_view().len() == 0,
            !r.per_caller_view(),
    {
        RateLimiter::new()
    }
}

/// The number of characters of a string.
fn prefix_len(s: &String) -> (n: usize)
    ensures
        n == s@.len(),
{
    chars_of(s.as_str()).len()
}

/// The key of the window a call counts against.
fn make_window_key(per_caller: bool, caller_id: Option<&str>, rate_key: &str) -> (k: String)
    ensures
        k@ == window_key(per_caller, crate::confirmation::opt_view(caller_id), rate_key@),
{
    match caller_id {
        Some(id) => {
            if per_caller && chars_of(id).len() > 0 {
                let mut k = owned(id);
                push_char(&mut k, ':');
                push_str(&mut k, rate_key);
                assert(k@ == id@ + ":"@ + rate_key@) by {
                    reveal_strlit(":");
                }
                k
            } else {
                owned(rate_key)
            }
        },
        None => owned(rate_key),
    }
}

/// The position of window `key`, if it exists.
fn find_window(w: &Vec<(String, Vec<u64>)>, key: &str) -> (r: Option<usize>)
    requires
        keys_distinct(w@),
    ensures
        r is None <==> !has_key(w@, key@),
        r matches Some(i) ==> i < w@.len() && w@[i as int].0@ == key@ && window_of(w@, key@)
            == w@[i as int].1@,
{
    let mut i: usize = 0;
    while i < w.len()
        invariant
            i <= w@.len(),
            keys_distinct(w@),
            forall|k: int| 0 <= k < i ==> w@[k].0@ != key@,
        decreases w.len() - i,
    {
        if str_eq(w[i].0.as_str(), key) {
            proof {
                assert(w@[i as int].0@ == key@);
                assert(has_key(w@, key@));
                let c = choose|c: int| 0 <= c < w@.len() && w@[c].0@ == key@;
                if c != i {
                    if c < i {
                    } else {
                    }
                }
            }
            return Some(i);
        }
        i = i + 1;
    }
    None
}

proof fn lemma_exact_index_prefix(exact: Seq<(String, u32)>, tool: Seq<char>, n: int)
    requires
        0 < n <= exact.len(),
        exact_index(exact.take(n - 1), tool) is None,
        exact[n - 1].0@ == tool,
    ensures
        exact_index(exact, tool) == Some(n - 1),
    decreases exact.len() - n,
{
    assert(exact.take(n).drop_last() == exact.take(n - 1));
    assert(exact_index(exact.take(n), tool) == Some(n - 1));
    lemma_exact_index_extend(exact, tool, n);
}

proof fn lemma_exact_index_extend(exact: Seq<(String, u32)>, tool: Seq<char>, n: int)
    requires
        0 <= n <= exact.len(),
        exact_index(exact.take(n), tool) is Some,
    ensures
        exact_index(exact, tool) == exact_index(exact.take(n), tool),
    decreases exact.len() - n,
{
    if n < exact.len() {
        assert(exact.take(n + 1).drop_last() == exact.take(n));
        lemma_exact_index_extend(exact, tool, n + 1);
    } else {
        assert(exact.take(n) == exact);
    }
}

proof fn lemma_window_update(w: Seq<(String, Vec<u64>)>, i: int, e: (String, Vec<u64>))
    requires
        keys_distinct(w),
        0 <= i < w.len(),
        w[i].0@ == e.0@,
    ensures
        keys_distinct(w.update(i, e)),
        window_of(w.update(i, e), e.0@) == e.1@,
        forall|k: Seq<char>| k != e.0@ ==> #[trigger] window_of(w.update(i, e), k) == window_of(w, k),
{
    let u = w.update(i, e);
    assert(u[i].0@ == e.0@);
    assert(has_key(u, e.0@));
    let c = choose|c: int| 0 <= c < u.len() && u[c].0@ == e.0@;
    if c != i {
        assert(w[c].0@ == w[i].0@);
        if c < i {
        } else {
        }
    }
    assert forall|k: Seq<char>| k != e.0@ implies #[trigger] window_of(u, k) == window_of(w, k) by {
        if has_key(w, k) {
            let a = choose|a: int| 0 <= a < w.len() && w[a].0@ == k;
            assert(u[a].0@ == k);
            assert(has_key(u, k));
            let b = choose|b: int| 0 <= b < u.len() && u[b].0@ == k;
            if a != b {
                if a < b {
                } else {
                }
            }
        } else {
            if has_key(u, k) {
                let b = choose|b: int| 0 <= b < u.len() && u[b].0@ == k;
                assert(w[b].0@ == k);
            }
        }
    }
}

proof fn lemma_window_push(w: Seq<(String, Vec<u64>)>, e: (String, Vec<u64>))
    requires
        keys_distinct(w),
        !has_key(w, e.0@),
    ensures
        keys_distinct(w.push(e)),
        window_of(w.push(e), e.0@) == e.1@,
        forall|k: Seq<char>| k != e.0@ ==> #[trigger] window_of(w.push(e), k) == window_of(w, k),
{
    let u = w.push(e);
    assert(u[u.len() - 1].0@ == e.0@);
    assert(has_key(u, e.0@));
    let c = choose|c: int| 0 <= c < u.len() && u[c].0@ == e.0@;
    if c != u.len() - 1 {
        assert(w[c].0@ == e.0@);
    }
    assert forall|i: int, j: int| 0 <= i < j < u.len() implies u[i].0@ != u[j].0@ by {
        if j == u.len() - 1 {
            assert(w[i].0@ != e.0@);
        }
    }
    assert forall|k: Seq<char>| k != e.0@ implies #[trigger] window_of(u, k) == window_of(w, k) by {
        if has_key(w, k) {
            let a = choose|a: int| 0 <= a < w.len() && w[a].0@ == k;
            assert(u[a].0@ == k);
            assert(has_key(u, k));
            let b = choose|b: int| 0 <= b < u.len() && u[b].0@ == k;
            if a != b {
                if b == u.len() - 1 {
                } else if a < b {
                } else {
                }
            }
        } else {
            if has_key(u, k) {
                let b = choose|b: int| 0 <= b < u.len() && u[b].0@ == k;
                if b < w.len() {
                    assert(w[b].0@ == k);
                }
            }
        }
    }
}

/// One check against a single window: whether the call is allowed, and the
/// window afterwards.
pub open spec fn step(w: Seq<u64>, now: u64, limit: u32) -> (bool, Seq<u64>) {
    let c = recent(w, now as int);
    if c.len() < limit {
        (true, c.push(now))
    } else {
        (false, c)
    }
}

/// A run of checks against one window: how many were allowed, and the window
/// afterwards.
pub open spec fn replay(w: Seq<u64>, times: Seq<u64>, limit: u32) -> (nat, Seq<u64>)
    decreases times.len(),
{
    if times.len() == 0 {
        (0, w)
    } else {
        let (n, w1) = replay(w, times.drop_last(), limit);
        let (ok, w2) = step(w1, times.last(), limit);
        (n + if ok {
            1nat
        } else {
            0nat
        }, w2)
    }
}

pub open spec fn within_one_minute(times: Seq<u64>) -> bool {
    &&& forall|i: int, j: int| 0 <= i <= j < times.len() ==> times[i] <= times[j]
    &&& forall|i: int| 0 <= i < times.len() ==> #[trigger] times[i] < times[0] + WINDOW_MS
}

proof fn lemma_replay_within_minute(times: Seq<u64>, limit: u32)
    requires
        within_one_minute(times),
    ensures
        replay(Seq::empty(), times, limit).0 == replay(Seq::empty(), times, limit).1.len(),
        replay(Seq::empty(), times, limit).0 <= limit,
        times.len() <= limit ==> replay(Seq::empty(), times, limit).0 == times.len(),
        forall|k: int|
            0 <= k < replay(Seq::empty(), times, limit).1.len() ==> times.len() > 0 && times[0]
                <= #[trigger] replay(Seq::empty(), times, limit).1[k],
    decreases times.len(),
{
    if times.len() > 0 {
        let d = times.drop_last();
        assert(within_one_minute(d));
        lemma_replay_within_minute(d, limit);
        let (n, w1) = replay(Seq::empty(), d, limit);
        let t = times.last();
        assert(recent(w1, t as int) == w1) by {
            assert forall|k: int| 0 <= k < w1.len() implies in_window_pred(t as int)(#[trigger] w1[k]) by {
                assert(d[0] == times[0]);
                assert(times[times.len() - 1] < times[0] + WINDOW_MS);
            }
            lemma_filter_all(w1, in_window_pred(t as int));
        }
        assert(times[0] <= times[times.len() - 1]);
    }
}

proof fn lemma_filter_all(s: Seq<u64>, p: spec_fn(u64) -> bool)
    requires
        forall|k: int| 0 <= k < s.len() ==> p(#[trigger] s[k]),
    ensures
        s.filter(p) == s,
    decreases s.len(),
{
    reveal(Seq::filter);
    if s.len() > 0 {
        lemma_filter_all(s.drop_last(), p);
        assert(s.drop_last().push(s.last()) == s);
    }
}

/// Within any one minute, a window with limit `limit` that starts empty
/// allows exactly the first `limit` calls: `min(calls, limit)` are allowed.
pub proof fn law_at_most_limit_per_minute(times: Seq<u64>, limit: u32)
    requires
        within_one_minute(times),
    ensures
        replay(Seq::empty(), times, limit).0 <= limit,
        replay(Seq::empty(), times, limit).0 <= times.len(),
        times.len() <= limit ==> replay(Seq::empty(), times, limit).0 == times.len(),
{
    lemma_replay_within_minute(times, limit);
    lemma_replay_count_bound(Seq::empty(), times, limit);
}

proof fn lemma_replay_count_bound(w: Seq<u64>, times: Seq<u64>, limit: u32)
    ensures
        replay(w, times, limit).0 <= times.len(),
    decreases times.len(),
{
    if times.len() > 0 {
        lemma_replay_count_bound(w, times.drop_last(), limit);
    }
}

/// Calls more than a minute old no longer count: a window whose calls are all
/// that old allows the next call (for any positive limit).
pub proof fn law_old_calls_expire(w: Seq<u64>, now: u64, limit: u32)
    requires
        limit > 0,
        forall|k: int| 0 <= k < w.len() ==> #[trigger] w[k] + WINDOW_MS <= now,
    ensures
        step(w, now, limit).0,
        step(w, now, limit).1 == seq![now],
{
    lemma_filter_none(w, in_window_pred(now as int));
    assert(Seq::<u64>::empty().push(now) == seq![now]);
}

proof fn lemma_filter_none(s: Seq<u64>, p: spec_fn(u64) -> bool)
    requires
        forall|k: int| 0 <= k < s.len() ==> !p(#[trigger] s[k]),
    ensures
        s.filter(p) == Seq::<u64>::empty(),
    decreases s.len(),
{
    reveal(Seq::filter);
    if s.len() > 0 {
        lemma_filter_none(s.drop_last(), p);
    }
}

/// In per-caller mode, two different callers count against different windows
/// (so one caller's calls never use up another's quota).
pub proof fn law_per_caller_windows_independent(a: Seq<char>, b: Seq<char>, rate_key: Seq<char>)
    requires
        a.len() > 0,
        b.len() > 0,
        a != b,
    ensures
        window_key(true, Some(a), rate_key) != window_key(true, Some(b), rate_key),
{
    let ka = a + ":"@ + rate_key;
    let kb = b + ":"@ + rate_key;
    reveal_strlit(":");
    if ka == kb {
        assert(ka.len() == kb.len());
        assert(a.len() == b.len());
        assert forall|i: int| 0 <= i < a.len() implies a[i] == b[i] by {
            assert(ka[i] == kb[i]);
        }
        assert(a =~= b);
    }
}

/// In global mode, the caller is ignored: every caller counts against the
/// same window.
pub proof fn law_global_mode_ignores_caller(
    c1: Option<Seq<char>>,
    c2: Option<Seq<char>>,
    rate_key: Seq<char>,
)
    ensures
        window_key(false, c1, rate_key) == window_key(false, c2, rate_key),
        window_key(false, c1, rate_key) == rate_key,
{
}

/// A call without a caller id counts against the shared window, even in
/// per-caller mode.
pub proof fn law_no_caller_uses_shared_window(rate_key: Seq<char>)
    ensures
        window_key(true, None, rate_key) == rate_key,
{
}

/// An exact limit for a tool takes precedence over any wildcard.
pub proof fn law_exact_overrides_wildcard(
    exact: Seq<(String, u32)>,
    wild: Seq<(String, u32)>,
    tool: Seq<char>,
    i: int,
)
    requires
        0 <= i < exact.len(),
        exact[i].0@ == tool,
        forall|j: int| 0 <= j < i ==> exact[j].0@ != tool,
    ensures
        resolved(exact, wild, tool) == Some((tool, exact[i].1)),
{
    lemma_exact_index_first(exact, tool, i);
}

proof fn lemma_exact_index_first(exact: Seq<(String, u32)>, tool: Seq<char>, i: int)
    requires
        0 <= i < exact.len(),
        exact[i].0@ == tool,
        forall|j: int| 0 <= j < i ==> exact[j].0@ != tool,
    ensures
        exact_index(exact, tool) == Some(i),
{
    lemma_exact_none_prefix(exact, tool, i);
    lemma_exact_index_prefix(exact, tool, i + 1);
}

proof fn lemma_exact_none_prefix(exact: Seq<(String, u32)>, tool: Seq<char>, n: int)
    requires
        0 <= n <= exact.len(),
        forall|j: int| 0 <= j < n ==> exact[j].0@ != tool,
    ensures
        exact_index(exact.take(n), tool) is None,
    decreases n,
{
    if n > 0 {
        assert(exact.take(n).drop_last() == exact.take(n - 1));
        lemma_exact_none_prefix(exact, tool, n - 1);
    }
}

proof fn lemma_exact_index_facts(e: Seq<(String, u32)>, t: Seq<char>)
    ensures
        exact_index(e, t) matches Some(i) ==> 0 <= i < e.len() && e[i].0@ == t,
        exact_index(e, t) is None ==> forall|k: int| 0 <= k < e.len() ==> (#[trigger] e[k]).0@ != t,
    decreases e.len(),
{
    if e.len() > 0 {
        let d = e.drop_last();
        lemma_exact_index_facts(d, t);
        if let Some(i) = exact_index(d, t) {
            assert(d[i] == e[i]);
        }
        if exact_index(e, t) is None {
            assert forall|k: int| 0 <= k < e.len() implies (#[trigger] e[k]).0@ != t by {
                if k < d.len() {
                    assert(d[k] == e[k]);
                }
            }
        }
    }
}

proof fn lemma_wildcard_index_facts(w: Seq<(String, u32)>, t: Seq<char>)
    ensures
        wildcard_index(w, t) matches Some(j) ==> {
            &&& 0 <= j < w.len()
            &&& starts_with_seq(t, w[j].0@)
            &&& forall|k: int|
                0 <= k < w.len() && starts_with_seq(t, (#[trigger] w[k]).0@) ==> w[k].0@.len() <= w[j].0@.len()
        },
        wildcard_index(w, t) is None ==> forall|k: int| 0 <= k < w.len() ==> !starts_with_seq(t, (#[trigger] w[k]).0@),
    decreases w.len(),
{
    if w.len() > 0 {
        let d = w.drop_last();
        lemma_wildcard_index_facts(d, t);
        let n = w.len() - 1;
        match wildcard_index(w, t) {
            Some(j) => {
                if j < n {
                    assert(d[j] == w[j]);
                }
                assert forall|k: int|
                    0 <= k < w.len() && starts_with_seq(t, (#[trigger] w[k]).0@) implies w[k].0@.len()
                    <= w[j].0@.len() by {
                    if k < n {
                        assert(d[k] == w[k]);
                        if j < n {
                            assert(d[j] == w[j]);
                        }
                    }
                }
            },
            None => {
                assert forall|k: int| 0 <= k < w.len() implies !starts_with_seq(t, (#[trigger] w[k]).0@) by {
                    if k < n {
                        assert(d[k] == w[k]);
                    }
                }
            },
        }
    }
}

/// The exact limits a configuration gives are its patterns without `*`.
proof fn lemma_exact_of_facts(limits: Seq<(String, RateLimit)>)
    ensures
        forall|k: int|
            #![trigger exact_of(limits)[k]]
            0 <= k < exact_of(limits).len() ==> exists|i: int|
                0 <= i < limits.len() && !has_star((#[trigger] limits[i]).0@) && exact_of(limits)[k] == (
                    limits[i].0@,
                    limits[i].1.per_minute,
                ),
        forall|i: int|
            0 <= i < limits.len() && !has_star((#[trigger] limits[i]).0@) ==> exists|k: int|
                0 <= k < exact_of(limits).len() && exact_of(limits)[k] == (limits[i].0@, limits[i].1.per_minute),
    decreases limits.len(),
{
    if limits.len() > 0 {
        let d = limits.drop_last();
        lemma_exact_of_facts(d);
        let ex = exact_of(limits);
        let dx = exact_of(d);
        assert forall|k: int| #![trigger ex[k]] 0 <= k < ex.len() implies exists|i: int|
            0 <= i < limits.len() && !has_star((#[trigger] limits[i]).0@) && ex[k] == (
                limits[i].0@,
                limits[i].1.per_minute,
            ) by {
            if k < dx.len() {
                assert(ex[k] == dx[k]);
                let i = choose|i: int|
                    0 <= i < d.len() && !has_star((#[trigger] d[i]).0@) && dx[k] == (d[i].0@, d[i].1.per_minute);
                assert(limits[i] == d[i]);
            } else {
                assert(limits[limits.len() - 1] == limits.last());
            }
        }
        assert forall|i: int| 0 <= i < limits.len() && !has_star((#[trigger] limits[i]).0@) implies exists|k: int|
            0 <= k < ex.len() && ex[k] == (limits[i].0@, limits[i].1.per_minute) by {
            if i < d.len() {
                assert(limits[i] == d[i]);
                assert(!has_star(d[i].0@));
                let k = choose|k: int| 0 <= k < dx.len() && dx[k] == (d[i].0@, d[i].1.per_minute);
                assert(ex[k] == dx[k]);
            } else {
                assert(ex[dx.len() as int] == (limits[i].0@, limits[i].1.per_minute));
            }
        }
    }
}

/// Whether `e` is the wildcard limit of one of the patterns with `*`.
pub open spec fn wild_entry_of(limits: Seq<(String, RateLimit)>, e: (Seq<char>, u32)) -> bool {
    exists|i: int|
        0 <= i < limits.len() && has_star((#[trigger] limits[i]).0@) && e == (
            trim_stars(limits[i].0@),
            limits[i].1.per_minute,
        )
}

/// The wildcard limits a configuration gives are its patterns with `*`,
/// each without its trailing `*`s.
#[verifier::spinoff_prover]
#[verifier::rlimit(50)]
proof fn lemma_wildcards_of_facts(limits: Seq<(String, RateLimit)>)
    ensures
        forall|k: int|
            0 <= k < wildcards_of(limits).len() ==> wild_entry_of(limits, #[trigger] wildcards_of(limits)[k]),
        forall|i: int|
            0 <= i < limits.len() && has_star((#[trigger] limits[i]).0@) ==> exists|k: int|
                0 <= k < wildcards_of(limits).len() && wildcards_of(limits)[k] == (
                    trim_stars(limits[i].0@),
                    limits[i].1.per_minute,
                ),
    decreases limits.len(),
{
    if limits.len() > 0 {
        let d = limits.drop_last();
        lemma_wildcards_of_facts(d);
        let ex = wildcards_of(limits);
        let dx = wildcards_of(d);
        assert forall|k: int| 0 <= k < ex.len() implies wild_entry_of(limits, #[trigger] ex[k]) by {
            if k < dx.len() {
                assert(ex[k] == dx[k]);
                assert(wild_entry_of(d, dx[k]));
                let i = choose|i: int|
                    0 <= i < d.len() && has_star((#[trigger] d[i]).0@) && dx[k] == (
                        trim_stars(d[i].0@),
                        d[i].1.per_minute,
                    );
                assert(limits[i] == d[i]);
            } else {
                assert(has_star(limits.last().0@));
                assert(ex[k] == (trim_stars(limits.last().0@), limits.last().1.per_minute));
                assert(limits[limits.len() - 1] == limits.last());
            }
        }
        assert forall|i: int| 0 <= i < limits.len() && has_star((#[trigger] limits[i]).0@) implies exists|k: int|
            0 <= k < ex.len() && ex[k] == (trim_stars(limits[i].0@), limits[i].1.per_minute) by {
            if i < d.len() {
                assert(limits[i] == d[i]);
                assert(has_star(d[i].0@));
                let k = choose|k: int| 0 <= k < dx.len() && dx[k] == (trim_stars(d[i].0@), d[i].1.per_minute);
                assert(ex[k] == dx[k]);
            } else {
                assert(ex[dx.len() as int] == (trim_stars(limits[i].0@), limits[i].1.per_minute));
            }
        }
    }
}

/// Whether some pattern without `*` is the tool's name.
pub open spec fn has_exact_pattern(limits: Seq<(String, RateLimit)>, tool: Seq<char>) -> bool {
    exists|i: int| 0 <= i < limits.len() && !has_star((#[trigger] limits[i]).0@) && limits[i].0@ == tool
}

/// Whether pattern `i` holds `*` and what precedes its trailing `*`s begins
/// the tool's name.
pub open spec fn wildcard_covers(limits: Seq<(String, RateLimit)>, i: int, tool: Seq<char>) -> bool {
    0 <= i < limits.len() && has_star(limits[i].0@) && starts_with_seq(tool, trim_stars(limits[i].0@))
}

/// The limit a configuration sets for a tool, as the limiter built from it
/// resolves it: a pattern without `*` equal to the tool's name wins (with
/// its limit, counted under the tool's name); otherwise the pattern with `*`
/// whose prefix is the longest that begins the name (counted under that
/// prefix and one `*`); otherwise no limit applies and every call passes.
#[verifier::spinoff_prover]
#[verifier::rlimit(80)]
pub proof fn law_configured_limit_applies(
    limits: Seq<(String, RateLimit)>,
    exact: Seq<(String, u32)>,
    wild: Seq<(String, u32)>,
    tool: Seq<char>,
)
    requires
        entries_view(exact) == exact_of(limits),
        entries_view(wild) == wildcards_of(limits),
    ensures
        has_exact_pattern(limits, tool) ==> (resolved(exact, wild, tool) matches Some((k, l)) && k == tool
            && exists|i: int|
            0 <= i < limits.len() && !has_star((#[trigger] limits[i]).0@) && limits[i].0@ == tool
                && limits[i].1.per_minute == l),
        !has_exact_pattern(limits, tool) && (exists|i: int| wildcard_covers(limits, i, tool)) ==> (resolved(
            exact,
            wild,
            tool,
        ) matches Some((k, l)) && exists|i: int|
            #[trigger] wildcard_covers(limits, i, tool) && k == trim_stars(limits[i].0@).push('*') && l
                == limits[i].1.per_minute && forall|i2: int|
                #[trigger] wildcard_covers(limits, i2, tool) ==> trim_stars(limits[i2].0@).len() <= trim_stars(
                    limits[i].0@,
                ).len()),
        !has_exact_pattern(limits, tool) && !(exists|i: int| wildcard_covers(limits, i, tool)) ==> resolved(
            exact,
            wild,
            tool,
        ) is None,
{
    lemma_exact_of_facts(limits);
    lemma_wildcards_of_facts(limits);
    lemma_exact_index_facts(exact, tool);
    lemma_wildcard_index_facts(wild, tool);
    let ex = exact_of(limits);
    let wx = wildcards_of(limits);
    assert forall|k: int| 0 <= k < exact.len() implies (#[trigger] exact[k]).0@ == ex[k].0 && exact[k].1 == ex[k].1 by {
        assert(entries_view(exact)[k] == (exact[k].0@, exact[k].1));
    }
    assert forall|k: int| 0 <= k < wild.len() implies (#[trigger] wild[k]).0@ == wx[k].0 && wild[k].1 == wx[k].1 by {
        assert(entries_view(wild)[k] == (wild[k].0@, wild[k].1));
    }
    assert(exact.len() == ex.len());
    assert(wild.len() == wx.len());
    if has_exact_pattern(limits, tool) {
        let i = choose|i: int| 0 <= i < limits.len() && !has_star((#[trigger] limits[i]).0@) && limits[i].0@ == tool;
        let k = choose|k: int| 0 <= k < ex.len() && ex[k] == (limits[i].0@, limits[i].1.per_minute);
        assert(exact[k].0@ == tool);
        let j = exact_index(exact, tool)->0;
        assert(exact[j].0@ == ex[j].0);
        let i2 = choose|i2: int|
            0 <= i2 < limits.len() && !has_star((#[trigger] limits[i2]).0@) && ex[j] == (
                limits[i2].0@,
                limits[i2].1.per_minute,
            );
        assert(limits[i2].0@ == tool && limits[i2].1.per_minute == exact[j].1);
    } else {
        assert forall|k: int| 0 <= k < exact.len() implies (#[trigger] exact[k]).0@ != tool by {
            let i = choose|i: int|
                0 <= i < limits.len() && !has_star((#[trigger] limits[i]).0@) && ex[k] == (
                    limits[i].0@,
                    limits[i].1.per_minute,
                );
            assert(exact[k].0@ == ex[k].0);
        }
        if exists|i: int| wildcard_covers(limits, i, tool) {
            let i = choose|i: int| wildcard_covers(limits, i, tool);
            assert(has_star(limits[i].0@));
            let k = choose|k: int| 0 <= k < wx.len() && wx[k] == (trim_stars(limits[i].0@), limits[i].1.per_minute);
            assert(wild[k].0@ == wx[k].0);
            assert(starts_with_seq(tool, wild[k].0@));
            let j = wildcard_index(wild, tool)->0;
            assert(wild[j].0@ == wx[j].0);
            assert(wild_entry_of(limits, wx[j]));
            let ij = choose|ij: int|
                0 <= ij < limits.len() && has_star((#[trigger] limits[ij]).0@) && wx[j] == (
                    trim_stars(limits[ij].0@),
                    limits[ij].1.per_minute,
                );
            assert(wildcard_covers(limits, ij, tool));
            assert forall|i2: int| #[trigger] wildcard_covers(limits, i2, tool) implies trim_stars(limits[i2].0@).len()
                <= trim_stars(limits[ij].0@).len() by {
                assert(has_star(limits[i2].0@));
                let k2 = choose|k2: int|
                    0 <= k2 < wx.len() && wx[k2] == (trim_stars(limits[i2].0@), limits[i2].1.per_minute);
                assert(wild[k2].0@ == wx[k2].0);
            }
        } else {
            assert forall|k: int| 0 <= k < wild.len() implies !starts_with_seq(tool, (#[trigger] wild[k]).0@) by {
                assert(wild_entry_of(limits, wx[k]));
                let ij = choose|ij: int|
                    0 <= ij < limits.len() && has_star((#[trigger] limits[ij]).0@) && wx[k] == (
                        trim_stars(limits[ij].0@),
                        limits[ij].1.per_minute,
                    );
                assert(wild[k].0@ == wx[k].0);
                if starts_with_seq(tool, wild[k].0@) {
                    assert(wildcard_covers(limits, ij, tool));
                }
            }
        }
    }
}

} // verus!
