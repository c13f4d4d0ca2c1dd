//! The audit trail: one immutable entry per attempted action, held as an
//! ordered, append-only sequence. The caller persists rendered lines;
//! the contracts here guarantee that entries are only ever appended and
//! that each entry carries exactly the action and status it was recorded
//! with.

use vstd::prelude::*;

verus! {

/// One immutable record of an attempted action: a timestamp (RFC 3339,
/// taken from the wall clock when the entry is recorded), the action's
/// name, and a status text.
#[derive(Debug)]
pub struct LogEntry {
    pub timestamp: String,
    pub action: String,
    pub status: String,
}

impl LogEntry {
    /// The persisted form of this entry: one line, the three fields
    /// separated by a comma and a space.
    pub open spec fn line_spec(self) -> Seq<char> {
        self.timestamp@ + ", "@ + self.action@ + ", "@ + self.status@ + "\n"@
    }

    /// Renders the entry as the one line that is appended to the
    /// persistent log file.
    pub fn render(&self) -> (r: String)
        ensures
            r@ == self.line_spec(),
    {
        let mut r = String::from_str(self.timestamp.as_str());
        r.append(", ");
        r.append(self.action.as_str());
        r.append(", ");
        r.append(self.status.as_str());
        r.append("\n");
        r
    }
}

/// `new_log` extends `old_log` by exactly one entry, whose action and
/// status are as given. The entry's timestamp is whatever the clock
/// returned when it was recorded.
pub open spec fn appended_entry(
    old_log: AuditLogger,
    new_log: AuditLogger,
    action: Seq<char>,
    status: Seq<char>,
) -> bool {
    &&& new_log.entries@.len() == old_log.entries@.len() + 1
    &&& new_log.entries@.subrange(0, old_log.entries@.len() as int) == old_log.entries@
    &&& new_log.entries@.last().action@ == action
    &&& new_log.entries@.last().status@ == status
}

/// The in-memory image of the audit trail for one process: an ordered
/// sequence of entries that only ever grows at the end.
#[derive(Debug)]
pub struct AuditLogger {
    pub entries: Vec<LogEntry>,
}

impl AuditLogger {
    pub fn new() -> (r: AuditLogger)
        ensures
            r.entries@.len() == 0,
    {
        AuditLogger { entries: Vec::new() }
    }

    /// Appends one entry for the given action and status, stamped with
    /// the current wall-clock time. Never touches existing entries.
    pub fn record(&mut self, action: &str, status: &str)
        ensures
            appended_entry(*old(self), *final(self), action@, status@),
    {
        let timestamp = now_rfc3339();
        let entry = LogEntry {
            timestamp,
            action: String::from_str(action),
            status: String::from_str(status),
        };
        self.entries.push(entry);
        proof {
            assert(self.entries@.subrange(0, old(self).entries@.len() as int)
                =~= old(self).entries@);
        }
    }
}

/// Relies on chrono::Local::now and chrono::DateTime::to_rfc3339 for the
/// current local wall-clock time rendered as an RFC 3339 string. The
/// value depends on the clock, so nothing is assumed of it.
#[verifier::external_body]
fn now_rfc3339() -> String {
    chrono::Local::now().to_rfc3339()
}

} // verus!
