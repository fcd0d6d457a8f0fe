use std::collections::VecDeque;
use vstd::prelude::*;
use vstd::string::StringExecFns;

verus! {

/// How many entries the log keeps; older ones are dropped.
pub const RING_BUFFER_CAPACITY: usize = 2000;

#[derive(Debug, Clone, Copy, PartialEq, Eq, Structural)]
pub enum LogLevel {
    Debug,
    Info,
    Warn,
    Error,
}

pub open spec fn level_text(l: LogLevel) -> Seq<char> {
    match l {
        LogLevel::Debug => "DEBUG"@,
        LogLevel::Info => "INFO"@,
        LogLevel::Warn => "WARN"@,
        LogLevel::Error => "ERROR"@,
    }
}

impl LogLevel {
    pub fn to_string(&self) -> (s: String)
        ensures
            s@ == level_text(*self),
    {
        match *self {
            LogLevel::Debug => String::from_str("DEBUG"),
            LogLevel::Info => String::from_str("INFO"),
            LogLevel::Warn => String::from_str("WARN"),
            LogLevel::Error => String::from_str("ERROR"),
        }
    }
}

/// One line of the log.
#[derive(Debug)]
pub struct LogEntry {
    pub timestamp: String,
    pub level: LogLevel,
    pub message: String,
}

/// The text of an entry: "[time] [LEVEL] message".
pub open spec fn entry_text(e: LogEntry) -> Seq<char> {
    "["@ + e.timestamp@ + "] ["@ + level_text(e.level) + "] "@ + e.message@
}

impl LogEntry {
    pub fn to_string(&self) -> (s: String)
        ensures
            s@ == entry_text(*self),
    {
        let mut s = String::from_str("[");
        s.append(self.timestamp.as_str());
        s.append("] [");
        let level = self.level.to_string();
        s.append(level.as_str());
        s.append("] ");
        s.append(self.message.as_str());
        s
    }

    /// A copy of the entry.
    pub fn duplicate(&self) -> (e: LogEntry)
        ensures
            e == *self,
    {
        LogEntry { timestamp: self.timestamp.clone(), level: self.level, message: self.message.clone() }
    }
}

/// The recent log entries, oldest first, at most `RING_BUFFER_CAPACITY` of them.
pub struct LogBuffer {
    pub entries: VecDeque<LogEntry>,
}

/// The report that `export_log` writes: a header with the system description, one line
/// per entry, and a closing line.
pub open spec fn report_text(diagnostics: Seq<char>, entries: Seq<LogEntry>) -> Seq<char> {
    "--- Debug Report ---\n"@ + diagnostics + "\n\n"@ + entry_lines(entries) + "--- End of Report ---\n"@
}

pub open spec fn entry_lines(entries: Seq<LogEntry>) -> Seq<char>
    decreases entries.len(),
{
    if entries.len() == 0 {
        Seq::empty()
    } else {
        entry_lines(entries.drop_last()) + entry_text(entries.last()) + "\n"@
    }
}

impl LogBuffer {
    pub open spec fn wf(&self) -> bool {
        self.entries@.len() <= RING_BUFFER_CAPACITY
    }

    pub fn new() -> (b: Self)
        ensures
            b.wf(),
            b.entries@.len() == 0,
    {
        LogBuffer { entries: VecDeque::with_capacity(RING_BUFFER_CAPACITY) }
    }

    /// Appends an entry; when the log is full the oldest entry is dropped first.
    pub fn push_to_buffer(&mut self, entry: LogEntry)
        requires
            old(self).wf(),
        ensures
            final(self).wf(),
            old(self).entries@.len() < RING_BUFFER_CAPACITY ==> final(self).entries@ == old(self).entries@.push(entry),
            old(self).entries@.len() >= RING_BUFFER_CAPACITY ==> final(self).entries@ == old(self).entries@.drop_first().push(entry),
    {
        if self.entries.len() >= RING_BUFFER_CAPACITY {
            let _ = self.entries.pop_front();
        }
        self.entries.push_back(entry);
    }

    /// Logs `message` at `level`, stamped with `timestamp`.
    pub fn log_with_level(&mut self, level: LogLevel, timestamp: String, message: String)
        requires
            old(self).wf(),
        ensures
            final(self).wf(),
            final(self).entries@ == (if old(self).entries@.len() < RING_BUFFER_CAPACITY {
                old(self).entries@
            } else {
                old(self).entries@.drop_first()
            }).push(LogEntry { timestamp, level, message }),
    {
        self.push_to_buffer(LogEntry { timestamp, level, message });
    }

    /// Logs `message` as information.
    pub fn log(&mut self, timestamp: String, message: String)
        requires
            old(self).wf(),
        ensures
            final(self).wf(),
            final(self).entries@ == (if old(self).entries@.len() < RING_BUFFER_CAPACITY {
                old(self).entries@
            } else {
                old(self).entries@.drop_first()
            }).push(LogEntry { timestamp, level: LogLevel::Info, message }),
    {
        self.log_with_level(LogLevel::Info, timestamp, message);
    }

    /// The whole log as a report, under a description of the system.
    pub fn export_log(&self, diagnostics: &str) -> (s: String)
        ensures
            s@ == report_text(diagnostics@, self.entries@),
    {
        let mut out = String::from_str("--- Debug Report ---\n");
        out.append(diagnostics);
        out.append("\n\n");
        let ghost head = out@;
        let mut i: usize = 0;
        while i < self.entries.len()
            invariant
                i <= self.entries@.len(),
                out@ == head + entry_lines(self.entries@.take(i as int)),
            decreases self.entries@.len() - i,
        {
            let line = self.entries[i].to_string();
            out.append(line.as_str());
            out.append("\n");
            assert(self.entries@.take(i + 1).drop_last() =~= self.entries@.take(i as int));
            i = i + 1;
        }
        assert(self.entries@.take(self.entries@.len() as int) =~= self.entries@);
        out.append("--- End of Report ---\n");
        out
    }

    /// The last `count` entries (all of them if there are fewer), oldest first.
    pub fn get_recent_entries(&self, count: usize) -> (v: Vec<LogEntry>)
        ensures
            v@ == self.entries@.subrange(
                if count >= self.entries@.len() { 0 } else { self.entries@.len() - count },
                self.entries@.len() as int,
            ),
    {
        let n = self.entries.len();
        let start = if count >= n { 0 } else { n - count };
        let mut v: Vec<LogEntry> = Vec::new();
        let mut i = start;
        while i < n
            invariant
                start <= i <= n,
                n == self.entries@.len(),
                v@ == self.entries@.subrange(start as int, i as int),
            decreases n - i,
        {
            v.push(self.entries[i].duplicate());
            i = i + 1;
            assert(v@ =~= self.entries@.subrange(start as int, i as int));
        }
        v
    }

    pub fn entry_count(&self) -> (n: usize)
        ensures
            n == self.entries@.len(),
    {
        self.entries.len()
    }
}

/// The log never holds more than its capacity, and the newest entry is always the one
/// just logged.
pub proof fn law_log_bounded_and_newest_last(before: LogBuffer, after: LogBuffer, e: LogEntry)
    requires
        before.wf(),
        before.entries@.len() < RING_BUFFER_CAPACITY ==> after.entries@ == before.entries@.push(e),
        before.entries@.len() >= RING_BUFFER_CAPACITY ==> after.entries@ == before.entries@.drop_first().push(e),
    ensures
        after.wf(),
        after.entries@.last() == e,
        after.entries@.len() == if before.entries@.len() < RING_BUFFER_CAPACITY {
            before.entries@.len() + 1
        } else {
            RING_BUFFER_CAPACITY as nat
        },
{
}

} // verus!
