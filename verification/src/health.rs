//! Connection health bookkeeping: per-connection status, consecutive failures
//! and the back-off schedule of the health monitor.
//!
//! Time is a caller-supplied monotonic clock in milliseconds.
use vstd::prelude::*;
use crate::text::{decimal, owned, push_str, str_eq, u64_to_decimal};

verus! {

/// The state of one connection.
#[derive(Debug, PartialEq, Eq, Structural, Clone, Copy)]
pub enum ConnectionStatus {
    Connected,
    Degraded,
    Disconnected,
    Connecting,
}

/// Health record of one connection.
#[derive(Debug)]
pub struct ConnectionHealth {
    pub status: ConnectionStatus,
    pub last_success: Option<u64>,
    pub last_error: Option<String>,
    pub consecutive_failures: u32,
    pub skip_cycles: u32,
    pub cycles_skipped: u32,
}

/// Health-monitor cycles skipped after the given number of consecutive
/// failures: none after one, then 1, 3, and 5 from the fourth on.
pub open spec fn backoff(failures: u32) -> u32 {
    if failures == 1 {
        0
    } else if failures == 2 {
        1
    } else if failures == 3 {
        3
    } else {
        5
    }
}

/// The status after the given number of consecutive failures: degraded
/// (requests still allowed) below three, disconnected from three on.
pub open spec fn status_after_failures(failures: u32) -> ConnectionStatus {
    if failures < 3 {
        ConnectionStatus::Degraded
    } else {
        ConnectionStatus::Disconnected
    }
}

/// Back-off schedule of the health monitor.
pub fn backoff_cycles(failures: u32) -> (s: u32)
    ensures
        s == backoff(failures),
{
    match failures {
        1 => 0,
        2 => 1,
        3 => 3,
        _ => 5,
    }
}

/// A fresh record for a connection being set up.
pub fn connecting() -> (h: ConnectionHealth)
    ensures
        h.status == ConnectionStatus::Connecting,
        h.last_success is None,
        h.last_error is None,
        h.consecutive_failures == 0,
        h.skip_cycles == 0,
        h.cycles_skipped == 0,
{
    ConnectionHealth {
        status: ConnectionStatus::Connecting,
        last_success: None,
        last_error: None,
        consecutive_failures: 0,
        skip_cycles: 0,
        cycles_skipped: 0,
    }
}

/// One health-monitor cycle for a record: whether the check is skipped, and
/// the record's skip counter afterwards.
pub open spec fn skip_step(skip_cycles: u32, cycles_skipped: u32) -> (bool, u32) {
    if skip_cycles > 0 && cycles_skipped < skip_cycles {
        (true, (cycles_skipped + 1) as u32)
    } else {
        (false, 0)
    }
}

/// The label of a status in messages.
pub open spec fn status_label(s: ConnectionStatus) -> Seq<char> {
    match s {
        ConnectionStatus::Connected => "connected"@,
        ConnectionStatus::Degraded => "degraded (intermittent failures)"@,
        ConnectionStatus::Disconnected => "unreachable"@,
        ConnectionStatus::Connecting => "connecting"@,
    }
}

/// How long ago the last success was, in words.
pub open spec fn last_success_text(last_success: Option<u64>, now: int) -> Seq<char> {
    match last_success {
        None => "never"@,
        Some(t) => {
            let secs = (if now >= t {
                now - t
            } else {
                0
            }) / 1000;
            if secs < 60 {
                "less than a minute ago"@
            } else {
                decimal((secs / 60) as nat) + " minutes ago"@
            }
        },
    }
}

/// The message given when a configured host cannot be used.
pub open spec fn unavailable_message(h: ConnectionHealth, display_name: Seq<char>, now: int) -> Seq<
    char,
> {
    "Host '"@ + display_name + "' is "@ + status_label(h.status) + ". Last error: "@ + (match h.last_error {
        Some(e) => e@,
        None => "unknown"@,
    }) + ". Last successful connection: "@ + last_success_text(h.last_success, now)
        + ". The connection manager will retry automatically."@
}

/// The message given for a host that has no health record.
pub open spec fn not_configured_message(display_name: Seq<char>) -> Seq<char> {
    "Host '"@ + display_name + "' is not configured"@
}

/// No two records share a key.
pub open spec fn health_keys_distinct(s: Seq<(String, ConnectionHealth)>) -> bool {
    forall|i: int, j: int| 0 <= i < j < s.len() ==> s[i].0@ != s[j].0@
}

pub open spec fn has_health(s: Seq<(String, ConnectionHealth)>, k: Seq<char>) -> bool {
    exists|i: int| 0 <= i < s.len() && s[i].0@ == k
}

pub open spec fn health_index(s: Seq<(String, ConnectionHealth)>, k: Seq<char>) -> int {
    choose|i: int| 0 <= i < s.len() && s[i].0@ == k
}

/// The record under key `k` (meaningful when it exists).
pub open spec fn health_of(s: Seq<(String, ConnectionHealth)>, k: Seq<char>) -> ConnectionHealth {
    s[health_index(s, k)].1
}

/// Health records of all connections, keyed like `docker:<name>`.
#[derive(Debug)]
pub struct HealthRegistry {
    entries: Vec<(String, ConnectionHealth)>,
}

impl HealthRegistry {
    #[verifier::type_invariant]
    spec fn inv(&self) -> bool {
        health_keys_distinct(self.entries@)
    }

    /// The records.
    pub closed spec fn view(&self) -> Seq<(String, ConnectionHealth)> {
        self.entries@
    }

    pub closed spec fn has(&self, k: Seq<char>) -> bool {
        has_health(self.entries@, k)
    }

    /// The record under a key (meaningful when `has(k)`).
    pub closed spec fn get(&self, k: Seq<char>) -> ConnectionHealth {
        health_of(self.entries@, k)
    }

    /// An empty registry.
    pub fn new() -> (r: Self)
        ensures
            forall|k: Seq<char>| !r.has(k),
    {
        HealthRegistry { entries: Vec::new() }
    }

    /// The position of the record under `key`.
    fn find(&self, key: &str) -> (r: Option<usize>)
        ensures
            r is None <==> !self.has(key@),
            r matches Some(i) ==> i < self.entries@.len() && i == health_index(self.entries@, key@),
    {
        proof {
            use_type_invariant(self);
        }
        let mut i: usize = 0;
        while i < self.entries.len()
            invariant
                i <= self.entries@.len(),
                health_keys_distinct(self.entries@),
                forall|k: int| 0 <= k < i ==> self.entries@[k].0@ != key@,
            decreases self.entries.len() - i,
        {
            if str_eq(self.entries[i].0.as_str(), key) {
                proof {
                    assert(self.entries@[i as int].0@ == key@);
                    let c = health_index(self.entries@, key@);
                    if c != i {
                        if c < i {
                        } else {
                        }
                    }
                }
                return Some(i);
            }
            i = i + 1;
        }
        None
    }

    /// Adds (or replaces) the record under `key` with a fresh `Connecting` one.
    pub fn register(&mut self, key: &str)
        ensures
            final(self).has(key@),
            final(self).get(key@).status == ConnectionStatus::Connecting,
            final(self).get(key@).consecutive_failures == 0,
            final(self).get(key@).skip_cycles == 0,
            final(self).get(key@).cycles_skipped == 0,
            final(self).get(key@).last_success is None,
            final(self).get(key@).last_error is None,
            forall|k: Seq<char>| k != key@ ==> final(self).has(k) == old(self).has(k),
            forall|k: Seq<char>| k != key@ && old(self).has(k) ==> final(self).get(k) == old(self).get(k),
    {
        let idx = self.find(key);
        self.put(idx, key, connecting());
    }

    /// Writes record `h` under `key`, at position `idx` when it already exists.
    fn put(&mut self, idx: Option<usize>, key: &str, h: ConnectionHealth)
        requires
            idx is None <==> !old(self).has(key@),
            idx matches Some(i) ==> i == health_index(old(self).entries@, key@) && i < old(self).entries@.len(),
        ensures
            final(self).has(key@),
            final(self).get(key@) == h,
            forall|k: Seq<char>| k != key@ ==> final(self).has(k) == old(self).has(k),
            forall|k: Seq<char>| k != key@ && old(self).has(k) ==> final(self).get(k) == old(self).get(k),
    {
        proof {
            use_type_invariant(&*self);
        }
        let ghost e0 = self.entries@;
        let mut entries: Vec<(String, ConnectionHealth)> = Vec::new();
        std::mem::swap(&mut entries, &mut self.entries);
        match idx {
            Some(i) => {
                entries.set(i, (owned(key), h));
                proof {
                    lemma_health_update(e0, i as int, entries@[i as int]);
                }
            },
            None => {
                entries.push((owned(key), h));
                proof {
                    lemma_health_push(e0, entries@.last());
                }
            },
        }
        self.entries = entries;
    }

    /// Records a successful check at `now`; says whether the connection was
    /// not connected before. A key without a record is left alone.
    pub fn mark_healthy(&mut self, key: &str, now: u64) -> (was_unhealthy: bool)
        ensures
            old(self).has(key@) ==> {
                &&& was_unhealthy == (old(self).get(key@).status != ConnectionStatus::Connected)
                &&& final(self).has(key@)
                &&& final(self).get(key@) == (ConnectionHealth {
                    status: ConnectionStatus::Connected,
                    last_success: Some(now),
                    last_error: None,
                    consecutive_failures: 0,
                    skip_cycles: 0,
                    cycles_skipped: 0,
                })
            },
            !old(self).has(key@) ==> !was_unhealthy && final(self).view() == old(self).view(),
            forall|k: Seq<char>| k != key@ ==> final(self).has(k) == old(self).has(k),
            forall|k: Seq<char>| k != key@ && old(self).has(k) ==> final(self).get(k) == old(self).get(k),
    {
        let idx = self.find(key);
        match idx {
            None => false,
            Some(i) => {
                let was_unhealthy = match self.entries[i].1.status {
                    ConnectionStatus::Connected => false,
                    _ => true,
                };
                self.put(
                    idx,
                    key,
                    ConnectionHealth {
                        status: ConnectionStatus::Connected,
                        last_success: Some(now),
                        last_error: None,
                        consecutive_failures: 0,
                        skip_cycles: 0,
                        cycles_skipped: 0,
                    },
                );
                was_unhealthy
            },
        }
    }

    /// Records a failed check; returns the number of consecutive failures
    /// (0 for a key without a record, which is left alone). The count
    /// saturates at `u32::MAX`.
    pub fn mark_unhealthy(&mut self, key: &str, error: String) -> (failures: u32)
        ensures
            old(self).has(key@) ==> {
                let f = old(self).get(key@).consecutive_failures;
                let nf = if f == u32::MAX {
                    f
                } else {
                    (f + 1) as u32
                };
                &&& failures == nf
                &&& final(self).has(key@)
                &&& final(self).get(key@) == (ConnectionHealth {
                    status: status_after_failures(nf),
                    last_success: old(self).get(key@).last_success,
                    last_error: Some(error),
                    consecutive_failures: nf,
                    skip_cycles: backoff(nf),
                    cycles_skipped: 0,
                })
            },
            !old(self).has(key@) ==> failures == 0 && final(self).view() == old(self).view(),
            forall|k: Seq<char>| k != key@ ==> final(self).has(k) == old(self).has(k),
            forall|k: Seq<char>| k != key@ && old(self).has(k) ==> final(self).get(k) == old(self).get(k),
    {
        let idx = self.find(key);
        match idx {
            None => 0,
            Some(i) => {
                let f = self.entries[i].1.consecutive_failures;
                let nf = if f == u32::MAX {
                    f
                } else {
                    f + 1
                };
                let last_success = self.entries[i].1.last_success;
                let status = if nf < 3 {
                    ConnectionStatus::Degraded
                } else {
                    ConnectionStatus::Disconnected
                };
                self.put(
                    idx,
                    key,
                    ConnectionHealth {
                        status,
                        last_success,
                        last_error: Some(error),
                        consecutive_failures: nf,
                        skip_cycles: backoff_cycles(nf),
                        cycles_skipped: 0,
                    },
                );
                nf
            },
        }
    }

    /// One health-monitor cycle: whether the check of `key` is skipped this
    /// time (its back-off is not yet over).
    pub fn should_skip_health_check(&mut self, key: &str) -> (skip: bool)
        ensures
            old(self).has(key@) ==> {
                let h = old(self).get(key@);
                let (s, n) = skip_step(h.skip_cycles, h.cycles_skipped);
                &&& skip == s
                &&& final(self).has(key@)
                &&& final(self).get(key@) == (ConnectionHealth { cycles_skipped: n, ..h })
            },
            !old(self).has(key@) ==> !skip && final(self).view() == old(self).view(),
            forall|k: Seq<char>| k != key@ ==> final(self).has(k) == old(self).has(k),
            forall|k: Seq<char>| k != key@ && old(self).has(k) ==> final(self).get(k) == old(self).get(k),
    {
        let idx = self.find(key);
        match idx {
            None => false,
            Some(i) => {
                let h = &self.entries[i].1;
                let skip = h.skip_cycles > 0 && h.cycles_skipped < h.skip_cycles;
                let n = if skip {
                    h.cycles_skipped + 1
                } else {
                    0
                };
                let ghost e0 = self.entries@;
                proof {
                    use_type_invariant(&*self);
                }
                self.set_cycles_skipped(i, n);
                proof {
                    lemma_health_update(
                        e0,
                        i as int,
                        (e0[i as int].0, ConnectionHealth { cycles_skipped: n, ..e0[i as int].1 }),
                    );
                }
                skip
            },
        }
    }

    /// The message given when the host behind `key` cannot be used, as of
    /// `now` (milliseconds).
    pub fn disconnected_error_message(&self, key: &str, display_name: &str, now: u64) -> (m: String)
        ensures
            self.has(key@) ==> m@ == unavailable_message(self.get(key@), display_name@, now as int),
            !self.has(key@) ==> m@ == not_configured_message(display_name@),
    {
        let idx = self.find(key);
        match idx {
            None => {
                let mut m = owned("Host '");
                push_str(&mut m, display_name);
                push_str(&mut m, "' is not configured");
                proof {
                    reveal_strlit("Host '");
                    reveal_strlit("' is not configured");
                }
                m
            },
            Some(i) => {
                let h = &self.entries[i].1;
                let label = match h.status {
                    ConnectionStatus::Connected => "connected",
                    ConnectionStatus::Degraded => "degraded (intermittent failures)",
                    ConnectionStatus::Disconnected => "unreachable",
                    ConnectionStatus::Connecting => "connecting",
                };
                let mut m = owned("Host '");
                push_str(&mut m, display_name);
                push_str(&mut m, "' is ");
                push_str(&mut m, label);
                push_str(&mut m, ". Last error: ");
                match &h.last_error {
                    Some(e) => push_str(&mut m, e.as_str()),
                    None => push_str(&mut m, "unknown"),
                }
                push_str(&mut m, ". Last successful connection: ");
                let since = last_success_words(h.last_success, now);
                push_str(&mut m, since.as_str());
                push_str(&mut m, ". The connection manager will retry automatically.");
                m
            },
        }
    }

    /// Refuses a host whose connection is down: `Err` with the message of
    /// `disconnected_error_message` when the record under `key` says
    /// `Disconnected`, `Ok` otherwise (also when there is no record).
    pub fn check_available(&self, key: &str, display_name: &str, now: u64) -> (r: Result<(), String>)
        ensures
            (self.has(key@) && self.get(key@).status == ConnectionStatus::Disconnected) ==> (r
                matches Err(m) && m@ == unavailable_message(self.get(key@), display_name@, now as int)),
            !(self.has(key@) && self.get(key@).status == ConnectionStatus::Disconnected) ==> r is Ok,
    {
        let idx = self.find(key);
        match idx {
            Some(i) => {
                if self.entries[i].1.status == ConnectionStatus::Disconnected {
                    Err(self.disconnected_error_message(key, display_name, now))
                } else {
                    Ok(())
                }
            },
            None => Ok(()),
        }
    }

    /// Whether the record under `key` says `Connected`.
    pub fn is_connected(&self, key: &str) -> (b: bool)
        ensures
            b == (self.has(key@) && self.get(key@).status == ConnectionStatus::Connected),
    {
        match self.find(key) {
            Some(i) => self.entries[i].1.status == ConnectionStatus::Connected,
            None => false,
        }
    }

    /// Sets the skip counter of the record at position `i`, keeping the rest.
    fn set_cycles_skipped(&mut self, i: usize, n: u32)
        requires
            i < old(self).entries@.len(),
        ensures
            final(self).entries@ == old(self).entries@.update(
                i as int,
                (old(self).entries@[i as int].0, ConnectionHealth { cycles_skipped: n, ..old(self).entries@[i as int].1 }),
            ),
            health_keys_distinct(final(self).entries@),
    {
        proof {
            use_type_invariant(&*self);
        }
        let ghost e0 = self.entries@;
        let mut entries: Vec<(String, ConnectionHealth)> = Vec::new();
        std::mem::swap(&mut entries, &mut self.entries);
        let (k, mut h) = entries.remove(i);
        h.cycles_skipped = n;
        entries.insert(i, (k, h));
        proof {
            assert(entries@ =~= e0.update(i as int, (e0[i as int].0, h)));
            lemma_health_update(e0, i as int, (e0[i as int].0, h));
        }
        self.entries = entries;
    }
}

/// How long ago `last_success` was, in words, as of `now` (milliseconds).
pub fn last_success_words(last_success: Option<u64>, now: u64) -> (w: String)
    ensures
        w@ == last_success_text(last_success, now as int),
{
    match last_success {
        None => {
            proof {
                reveal_strlit("never");
            }
            owned("never")
        },
        Some(t) => {
            let secs = (if now >= t {
                now - t
            } else {
                0
            }) / 1000;
            if secs < 60 {
                proof {
                    reveal_strlit("less than a minute ago");
                }
                owned("less than a minute ago")
            } else {
                let mut w = u64_to_decimal(secs / 60);
                push_str(&mut w, " minutes ago");
                w
            }
        },
    }
}

/// The back-off after a failure is honoured exactly: a record whose skip
/// counter was just reset to zero with `s` cycles to skip has its next `s`
/// checks skipped, one by one, and the check after them runs and resets
/// the counter.
pub proof fn law_backoff_skips_then_checks(s: u32, n: u32)
    requires
        n <= s,
    ensures
        n < s ==> skip_step(s, n) == (true, (n + 1) as u32),
        n == s ==> skip_step(s, n) == (false, 0u32),
{
}

/// A failure count maps to the status it reports: degraded below three
/// consecutive failures, disconnected from three on, and the back-off grows
/// with the count and never exceeds five cycles.
pub proof fn law_backoff_monotone(a: u32, b: u32)
    requires
        1 <= a <= b,
    ensures
        backoff(a) <= backoff(b) <= 5,
        status_after_failures(a) == ConnectionStatus::Disconnected ==> status_after_failures(b)
            == ConnectionStatus::Disconnected,
{
}

/// The skip counter before the `k`-th of successive health-check decisions
/// (counting from 0) on a record with `s` cycles to skip whose counter
/// starts at zero.
pub open spec fn skip_counter(s: u32, k: nat) -> u32
    decreases k,
{
    if k == 0 {
        0
    } else {
        skip_step(s, skip_counter(s, (k - 1) as nat)).1
    }
}

/// Back-off repeats: on a record with `s` cycles to skip whose counter
/// starts at zero (as a failure leaves it), successive decisions skip `s`
/// checks, run the next one and reset the counter, and so on: decision `k`
/// skips exactly when `k % (s + 1) < s`. With `s == 0` no check is skipped.
pub proof fn law_backoff_repeats(s: u32, k: nat)
    ensures
        skip_counter(s, k) == k % (s as nat + 1),
        skip_step(s, skip_counter(s, k)).0 == (k % (s as nat + 1) < s),
    decreases k,
{
    let m: nat = s as nat + 1;
    if k > 0 {
        law_backoff_repeats(s, (k - 1) as nat);
        let r = ((k - 1) as nat) % m;
        assert(k % m == if r + 1 < m { r + 1 } else { 0 }) by (nonlinear_arith)
            requires
                m > 0,
                k >= 1,
                r == ((k - 1) as nat) % m,
        {
            vstd::arithmetic::div_mod::lemma_fundamental_div_mod((k - 1) as int, m as int);
            vstd::arithmetic::div_mod::lemma_fundamental_div_mod(k as int, m as int);
            vstd::arithmetic::div_mod::lemma_mod_bound(k as int, m as int);
        }
    }
}

proof fn lemma_health_update(w: Seq<(String, ConnectionHealth)>, i: int, e: (String, ConnectionHealth))
    requires
        health_keys_distinct(w),
        0 <= i < w.len(),
        w[i].0@ == e.0@,
    ensures
        health_keys_distinct(w.update(i, e)),
        has_health(w.update(i, e), e.0@),
        health_of(w.update(i, e), e.0@) == e.1,
        forall|k: Seq<char>| k != e.0@ ==> #[trigger] has_health(w.update(i, e), k) == has_health(w, k),
        forall|k: Seq<char>|
            k != e.0@ && has_health(w, k) ==> #[trigger] health_of(w.update(i, e), k) == health_of(w, k),
{
    let u = w.update(i, e);
    assert(u[i].0@ == e.0@);
    let c = health_index(u, e.0@);
    if c != i {
        assert(w[c].0@ == w[i].0@);
        if c < i {
        } else {
        }
    }
    assert forall|k: Seq<char>| k != e.0@ implies #[trigger] has_health(u, k) == has_health(w, k) by {
        if has_health(w, k) {
            let a = choose|a: int| 0 <= a < w.len() && w[a].0@ == k;
            assert(u[a].0@ == k);
        }
        if has_health(u, k) {
            let b = choose|b: int| 0 <= b < u.len() && u[b].0@ == k;
            assert(w[b].0@ == k);
        }
    }
    assert forall|k: Seq<char>| k != e.0@ && has_health(w, k) implies #[trigger] health_of(u, k)
        == health_of(w, k) by {
        let a = health_index(w, k);
        assert(u[a].0@ == k);
        let b = health_index(u, k);
        if a != b {
            if a < b {
            } else {
            }
        }
    }
}

proof fn lemma_health_push(w: Seq<(String, ConnectionHealth)>, e: (String, ConnectionHealth))
    requires
        health_keys_distinct(w),
        !has_health(w, e.0@),
    ensures
        health_keys_distinct(w.push(e)),
        has_health(w.push(e), e.0@),
        health_of(w.push(e), e.0@) == e.1,
        forall|k: Seq<char>| k != e.0@ ==> #[trigger] has_health(w.push(e), k) == has_health(w, k),
        forall|k: Seq<char>|
            k != e.0@ && has_health(w, k) ==> #[trigger] health_of(w.push(e), k) == health_of(w, k),
{
    let u = w.push(e);
    assert(u[u.len() - 1].0@ == e.0@);
    let c = health_index(u, e.0@);
    if c != u.len() - 1 {
        assert(w[c].0@ == e.0@);
    }
    assert forall|i: int, j: int| 0 <= i < j < u.len() implies u[i].0@ != u[j].0@ by {
        if j == u.len() - 1 {
            assert(w[i].0@ != e.0@);
        }
    }
    assert forall|k: Seq<char>| k != e.0@ implies #[trigger] has_health(u, k) == has_health(w, k) by {
        if has_health(w, k) {
            let a = choose|a: int| 0 <= a < w.len() && w[a].0@ == k;
            assert(u[a].0@ == k);
        }
        if has_health(u, k) {
            let b = choose|b: int| 0 <= b < u.len() && u[b].0@ == k;
            if b < w.len() {
                assert(w[b].0@ == k);
            }
        }
    }
    assert forall|k: Seq<char>| k != e.0@ && has_health(w, k) implies #[trigger] health_of(u, k)
        == health_of(w, k) by {
        let a = health_index(w, k);
        assert(u[a].0@ == k);
        let b = health_index(u, k);
        if a != b {
            if b == u.len() - 1 {
            } else if a < b {
            } else {
            }
        }
    }
}

} // verus!
