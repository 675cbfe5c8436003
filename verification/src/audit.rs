//! The audit log: one line per tool invocation, written to a file and/or
//! syslog.
use vstd::prelude::*;
use crate::config::{Config, SyslogConfig};
use crate::text::{owned, push_str};

verus! {

/// Where the audit log goes.
#[derive(Debug)]
pub struct AuditLogger {
    pub file: Option<String>,
    pub syslog: Option<SyslogConfig>,
}

/// One audit line: time, tool, host, result and any details, then a newline.
pub open spec fn entry_text(
    timestamp: Seq<char>,
    tool: Seq<char>,
    host: Seq<char>,
    result: Seq<char>,
    details: Option<Seq<char>>,
) -> Seq<char> {
    timestamp + " tool="@ + tool + " host="@ + host + " result="@ + result + match details {
        Some(d) => " details="@ + d,
        None => seq![],
    } + "\n"@
}

impl AuditLogger {
    /// An audit logger with the configured file and syslog targets.
    pub fn new(config: &Config) -> (a: Self)
        ensures
            a.file == config.audit.file,
            match config.audit.syslog {
                Some(s) => a.syslog matches Some(t) && t.facility == s.facility && t.tag == s.tag,
                None => a.syslog is None,
            },
    {
        let file = match &config.audit.file {
            Some(f) => Some(f.clone()),
            None => None,
        };
        let syslog = match &config.audit.syslog {
            Some(s) => Some(SyslogConfig { facility: s.facility.clone(), tag: s.tag.clone() }),
            None => None,
        };
        AuditLogger { file, syslog }
    }

    /// The line recorded for a tool invocation at `timestamp`.
    pub fn entry(timestamp: &str, tool_name: &str, host: &str, result: &str, details: Option<&str>) -> (e: String)
        ensures
            e@ == entry_text(timestamp@, tool_name@, host@, result@, crate::confirmation::opt_view(details)),
    {
        let mut e = owned(timestamp);
        push_str(&mut e, " tool=");
        push_str(&mut e, tool_name);
        push_str(&mut e, " host=");
        push_str(&mut e, host);
        push_str(&mut e, " result=");
        push_str(&mut e, result);
        match details {
            Some(d) => {
                push_str(&mut e, " details=");
                push_str(&mut e, d);
            },
            None => {},
        }
        push_str(&mut e, "\n");
        e
    }

    /// The syslog priority of audit lines: the facility at level `info`.
    pub fn syslog_priority(facility: &str) -> (p: String)
        ensures
            p@ == facility@ + ".info"@,
    {
        let mut p = owned(facility);
        push_str(&mut p, ".info");
        p
    }
}

} // verus!
