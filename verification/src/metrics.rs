//! The Prometheus metrics the server exports: their names, help texts and
//! labels, and the label values a tool call is counted under.
use vstd::prelude::*;

verus! {

/// The prefix of every metric name.
pub const METRICS_NAMESPACE: &'static str = "homelab";

/// The kinds of Prometheus collectors in use.
#[derive(Debug, PartialEq, Eq, Structural, Clone, Copy)]
pub enum MetricKind {
    Counter,
    Histogram,
    Gauge,
}

/// One labelled metric family.
#[derive(Debug)]
pub struct MetricSpec {
    pub name: &'static str,
    pub help: &'static str,
    pub labels: Vec<&'static str>,
    pub kind: MetricKind,
}

/// A metric family as plain text: name, help, labels and kind.
pub open spec fn metric_view(m: MetricSpec) -> (Seq<char>, Seq<char>, Seq<Seq<char>>, MetricKind) {
    (m.name@, m.help@, m.labels@.map_values(|l: &'static str| l@), m.kind)
}

/// The metric families, in the order they are registered.
pub open spec fn metric_table() -> Seq<(Seq<char>, Seq<char>, Seq<Seq<char>>, MetricKind)> {
    seq![
        ("tool_calls_total"@, "Total MCP tool invocations"@, seq!["tool"@, "status"@], MetricKind::Counter),
        ("tool_duration_seconds"@, "Tool call duration in seconds"@, seq!["tool"@], MetricKind::Histogram),
        ("ssh_pool_active_sessions"@, "Active (checked out) SSH sessions"@, seq!["host"@], MetricKind::Gauge),
        ("ssh_pool_idle_sessions"@, "Idle (available) SSH sessions"@, seq!["host"@], MetricKind::Gauge),
        ("ssh_pool_total_sessions"@, "Total SSH sessions (active + idle)"@, seq!["host"@], MetricKind::Gauge),
        ("docker_connection_healthy"@, "Docker connection health (1=up, 0=down)"@, seq!["host"@], MetricKind::Gauge),
        ("ssh_connection_healthy"@, "SSH connection health (1=up, 0=down)"@, seq!["host"@], MetricKind::Gauge),
        ("confirmation_tokens_issued_total"@, "Confirmation tokens issued"@, seq!["tool"@], MetricKind::Counter),
        ("confirmation_tokens_resolved_total"@, "Confirmation tokens resolved"@, seq!["outcome"@], MetricKind::Counter),
    ]
}

fn spec_of(name: &'static str, help: &'static str, labels: Vec<&'static str>, kind: MetricKind) -> (m: MetricSpec)
    ensures
        m.name == name,
        m.help == help,
        m.labels == labels,
        m.kind == kind,
{
    MetricSpec { name, help, labels, kind }
}

/// The metric families the server registers, in order.
pub fn metric_specs() -> (specs: Vec<MetricSpec>)
    ensures
        specs@.len() == metric_table().len(),
        forall|i: int| 0 <= i < specs@.len() ==> metric_view(#[trigger] specs@[i]) == metric_table()[i],
{
    let mut v: Vec<MetricSpec> = Vec::new();
    v.push(spec_of("tool_calls_total", "Total MCP tool invocations", vec!["tool", "status"], MetricKind::Counter));
    v.push(spec_of("tool_duration_seconds", "Tool call duration in seconds", vec!["tool"], MetricKind::Histogram));
    v.push(spec_of("ssh_pool_active_sessions", "Active (checked out) SSH sessions", vec!["host"], MetricKind::Gauge));
    v.push(spec_of("ssh_pool_idle_sessions", "Idle (available) SSH sessions", vec!["host"], MetricKind::Gauge));
    v.push(spec_of("ssh_pool_total_sessions", "Total SSH sessions (active + idle)", vec!["host"], MetricKind::Gauge));
    v.push(spec_of("docker_connection_healthy", "Docker connection health (1=up, 0=down)", vec!["host"], MetricKind::Gauge));
    v.push(spec_of("ssh_connection_healthy", "SSH connection health (1=up, 0=down)", vec!["host"], MetricKind::Gauge));
    v.push(spec_of("confirmation_tokens_issued_total", "Confirmation tokens issued", vec!["tool"], MetricKind::Counter));
    v.push(spec_of("confirmation_tokens_resolved_total", "Confirmation tokens resolved", vec!["outcome"], MetricKind::Counter));
    proof {
        let t = metric_table();
        assert forall|i: int| 0 <= i < v@.len() implies metric_view(#[trigger] v@[i]) == t[i] by {
            let labels = v@[i].labels@;
            assert(labels.map_values(|l: &'static str| l@) =~= t[i].2);
        }
    }
    v
}

/// The status label a tool call is counted under.
pub fn call_status(is_error: bool) -> (s: &'static str)
    ensures
        s@ == (if is_error {
            "error"@
        } else {
            "success"@
        }),
{
    if is_error {
        "error"
    } else {
        "success"
    }
}

} // verus!
