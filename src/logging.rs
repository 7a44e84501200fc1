//! A deterministic, side-effect-free log and event trace.  Every timestamp
//! comes from the caller (usually the context's frozen time).

use vstd::prelude::*;
use crate::types::{StateHash, Timestamp, Version};

verus! {

/// Severity, ordered `Trace < Debug < Info < Warn < Error`.
#[derive(Debug, Clone, Copy, PartialEq, Eq, Structural)]
pub enum LogLevel {
    Trace,
    Debug,
    Info,
    Warn,
    Error,
}

/// The position of a level in the severity order.
pub open spec fn level_rank(l: LogLevel) -> int {
    match l {
        LogLevel::Trace => 0,
        LogLevel::Debug => 1,
        LogLevel::Info => 2,
        LogLevel::Warn => 3,
        LogLevel::Error => 4,
    }
}

impl LogLevel {
    /// The position of the level in the severity order.
    pub fn rank(&self) -> (r: u8)
        ensures
            r as int == level_rank(*self),
    {
        match self {
            LogLevel::Trace => 0,
            LogLevel::Debug => 1,
            LogLevel::Info => 2,
            LogLevel::Warn => 3,
            LogLevel::Error => 4,
        }
    }
}

/// One log record.
#[derive(Debug, Clone)]
pub struct LogEntry {
    pub level: LogLevel,
    pub timestamp: Timestamp,
    pub transaction_id: Option<String>,
    pub transaction_index: Option<usize>,
    pub rule_version: Option<Version>,
    pub state_hash: Option<StateHash>,
    pub message: String,
    pub metadata: Vec<(String, String)>,
}

impl LogEntry {
    pub fn new(level: LogLevel, timestamp: Timestamp, message: String) -> (r: LogEntry)
        ensures
            r.level == level,
            r.timestamp == timestamp,
            r.message == message,
            r.transaction_id is None,
            r.transaction_index is None,
            r.rule_version is None,
            r.state_hash is None,
            r.metadata@.len() == 0,
    {
        LogEntry {
            level,
            timestamp,
            transaction_id: None,
            transaction_index: None,
            rule_version: None,
            state_hash: None,
            message,
            metadata: Vec::new(),
        }
    }

    pub fn with_transaction(self, id: String, index: usize) -> (r: LogEntry)
        ensures
            r == (LogEntry { transaction_id: Some(id), transaction_index: Some(index), ..self }),
    {
        let mut e = self;
        e.transaction_id = Some(id);
        e.transaction_index = Some(index);
        e
    }

    pub fn with_rule(self, version: Version) -> (r: LogEntry)
        ensures
            r == (LogEntry { rule_version: Some(version), ..self }),
    {
        let mut e = self;
        e.rule_version = Some(version);
        e
    }

    pub fn with_state_hash(self, hash: StateHash) -> (r: LogEntry)
        ensures
            r == (LogEntry { state_hash: Some(hash), ..self }),
    {
        let mut e = self;
        e.state_hash = Some(hash);
        e
    }

    pub fn with_metadata(self, key: String, value: String) -> (r: LogEntry)
        ensures
            r.metadata@ == self.metadata@.push((key, value)),
            r.level == self.level,
            r.timestamp == self.timestamp,
            r.message == self.message,
            r.transaction_id == self.transaction_id,
            r.transaction_index == self.transaction_index,
            r.rule_version == self.rule_version,
            r.state_hash == self.state_hash,
    {
        let mut e = self;
        e.metadata.push((key, value));
        e
    }
}

/// Collects entries at or above a minimum level.
#[derive(Debug, Clone)]
pub struct DeterministicLogger {
    entries: Vec<LogEntry>,
    min_level: LogLevel,
}

impl DeterministicLogger {
    pub closed spec fn spec_entries(&self) -> Seq<LogEntry> {
        self.entries@
    }

    pub closed spec fn spec_min_level(&self) -> LogLevel {
        self.min_level
    }

    pub fn new(min_level: LogLevel) -> (r: DeterministicLogger)
        ensures
            r.spec_entries().len() == 0,
            r.spec_min_level() == min_level,
    {
        DeterministicLogger { entries: Vec::new(), min_level }
    }

    /// A logger that keeps every level.
    pub fn all() -> (r: DeterministicLogger)
        ensures
            r.spec_entries().len() == 0,
            r.spec_min_level() == LogLevel::Trace,
    {
        DeterministicLogger::new(LogLevel::Trace)
    }

    /// A logger that keeps `Info` and above.
    pub fn with_info_level() -> (r: DeterministicLogger)
        ensures
            r.spec_entries().len() == 0,
            r.spec_min_level() == LogLevel::Info,
    {
        DeterministicLogger::new(LogLevel::Info)
    }

    /// Keeps the entry when its level is at least the minimum.
    pub fn log(&mut self, entry: LogEntry)
        ensures
            final(self).spec_min_level() == old(self).spec_min_level(),
            level_rank(entry.level) >= level_rank(old(self).spec_min_level())
                ==> final(self).spec_entries() == old(self).spec_entries().push(entry)
                && final(self).spec_entries().drop_last() == old(self).spec_entries(),
            level_rank(entry.level) < level_rank(old(self).spec_min_level())
                ==> final(self).spec_entries() == old(self).spec_entries(),
    {
        if self.should_log(entry.level) {
            self.entries.push(entry);
            assert(self.entries@.drop_last() =~= old(self).entries@);
        }
    }

    fn should_log(&self, level: LogLevel) -> (r: bool)
        ensures
            r == (level_rank(level) >= level_rank(self.spec_min_level())),
    {
        level.rank() >= self.min_level.rank()
    }

    pub fn trace(&mut self, timestamp: Timestamp, message: String)
        ensures
            final(self).spec_min_level() == old(self).spec_min_level(),
            old(self).spec_min_level() == LogLevel::Trace ==> appended_fresh(old(self).spec_entries(), final(self).spec_entries(), LogLevel::Trace, timestamp, message),
            old(self).spec_min_level() != LogLevel::Trace ==> final(self).spec_entries() == old(
                self,
            ).spec_entries(),
    {
        self.log(LogEntry::new(LogLevel::Trace, timestamp, message));
    }

    pub fn debug(&mut self, timestamp: Timestamp, message: String)
        ensures
            final(self).spec_min_level() == old(self).spec_min_level(),
            level_rank(old(self).spec_min_level()) <= 1 ==> appended_fresh(old(self).spec_entries(), final(self).spec_entries(), LogLevel::Debug, timestamp, message),
            level_rank(old(self).spec_min_level()) > 1 ==> final(self).spec_entries() == old(
                self,
            ).spec_entries(),
    {
        self.log(LogEntry::new(LogLevel::Debug, timestamp, message));
    }

    pub fn info(&mut self, timestamp: Timestamp, message: String)
        ensures
            final(self).spec_min_level() == old(self).spec_min_level(),
            level_rank(old(self).spec_min_level()) <= 2 ==> appended_fresh(old(self).spec_entries(), final(self).spec_entries(), LogLevel::Info, timestamp, message),
            level_rank(old(self).spec_min_level()) > 2 ==> final(self).spec_entries() == old(
                self,
            ).spec_entries(),
    {
        self.log(LogEntry::new(LogLevel::Info, timestamp, message));
    }

    pub fn warn(&mut self, timestamp: Timestamp, message: String)
        ensures
            final(self).spec_min_level() == old(self).spec_min_level(),
            level_rank(old(self).spec_min_level()) <= 3 ==> appended_fresh(old(self).spec_entries(), final(self).spec_entries(), LogLevel::Warn, timestamp, message),
            level_rank(old(self).spec_min_level()) > 3 ==> final(self).spec_entries() == old(
                self,
            ).spec_entries(),
    {
        self.log(LogEntry::new(LogLevel::Warn, timestamp, message));
    }

    pub fn error(&mut self, timestamp: Timestamp, message: String)
        ensures
            final(self).spec_min_level() == old(self).spec_min_level(),
            appended_fresh(old(self).spec_entries(), final(self).spec_entries(), LogLevel::Error, timestamp, message),
    {
        self.log(LogEntry::new(LogLevel::Error, timestamp, message));
    }

    pub fn entries(&self) -> (r: &[LogEntry])
        ensures
            r@ == self.spec_entries(),
    {
        self.entries.as_slice()
    }

    pub fn len(&self) -> (r: usize)
        ensures
            r == self.spec_entries().len(),
    {
        self.entries.len()
    }

    pub fn is_empty(&self) -> (r: bool)
        ensures
            r == (self.spec_entries().len() == 0),
    {
        self.entries.len() == 0
    }

    pub fn clear(&mut self)
        ensures
            final(self).spec_entries().len() == 0,
            final(self).spec_min_level() == old(self).spec_min_level(),
    {
        self.entries.clear();
    }

    /// The entries of exactly this level, in order.
    pub fn filter_by_level(&self, level: LogLevel) -> (r: Vec<&LogEntry>)
        ensures
            r@.map_values(|e: &LogEntry| *e) == self.spec_entries().filter(
                |e: LogEntry| e.level == level,
            ),
    {
        let mut out: Vec<&LogEntry> = Vec::new();
        let mut i: usize = 0;
        while i < self.entries.len()
            invariant
                i <= self.entries@.len(),
                out@.map_values(|e: &LogEntry| *e) == self.entries@.take(i as int).filter(
                    |e: LogEntry| e.level == level,
                ),
            decreases self.entries@.len() - i,
        {
            let ghost before = out@;
            proof {
                assert(self.entries@.take(i + 1).drop_last() =~= self.entries@.take(i as int));
                reveal(Seq::filter);
            }
            let entry = &self.entries[i];
            if entry.level == level {
                out.push(entry);
                assert(out@.map_values(|e: &LogEntry| *e) =~= before.map_values(
                    |e: &LogEntry| *e,
                ).push(*entry));
            }
            i = i + 1;
        }
        assert(self.entries@.take(i as int) =~= self.entries@);
        out
    }

    /// The entries of one transaction, in order.
    pub fn filter_by_transaction(&self, transaction_id: &str) -> (r: Vec<&LogEntry>)
        ensures
            r@.map_values(|e: &LogEntry| *e) == self.spec_entries().filter(
                |e: LogEntry| e.transaction_id matches Some(id) && id@ == transaction_id@,
            ),
    {
        let wanted = transaction_id.to_owned();
        let mut out: Vec<&LogEntry> = Vec::new();
        let mut i: usize = 0;
        while i < self.entries.len()
            invariant
                i <= self.entries@.len(),
                wanted@ == transaction_id@,
                out@.map_values(|e: &LogEntry| *e) == self.entries@.take(i as int).filter(
                    |e: LogEntry| e.transaction_id matches Some(id) && id@ == transaction_id@,
                ),
            decreases self.entries@.len() - i,
        {
            let ghost before = out@;
            proof {
                assert(self.entries@.take(i + 1).drop_last() =~= self.entries@.take(i as int));
                reveal(Seq::filter);
            }
            let entry = &self.entries[i];
            let matches = match &entry.transaction_id {
                Some(id) => *id == wanted,
                None => false,
            };
            if matches {
                out.push(entry);
                assert(out@.map_values(|e: &LogEntry| *e) =~= before.map_values(
                    |e: &LogEntry| *e,
                ).push(*entry));
            }
            i = i + 1;
        }
        assert(self.entries@.take(i as int) =~= self.entries@);
        out
    }
}

impl Default for DeterministicLogger {
    fn default() -> (r: DeterministicLogger)
        ensures
            r.spec_entries().len() == 0,
            r.spec_min_level() == LogLevel::Info,
    {
        DeterministicLogger::with_info_level()
    }
}

/// An entry as `new` builds it.
pub open spec fn is_fresh_entry(e: LogEntry, level: LogLevel, timestamp: Timestamp, message: String) -> bool {
    &&& e.level == level
    &&& e.timestamp == timestamp
    &&& e.message == message
    &&& e.transaction_id is None
    &&& e.transaction_index is None
    &&& e.rule_version is None
    &&& e.state_hash is None
    &&& e.metadata@.len() == 0
}

/// The log grew by exactly one fresh entry.
pub open spec fn appended_fresh(
    before: Seq<LogEntry>,
    after: Seq<LogEntry>,
    level: LogLevel,
    timestamp: Timestamp,
    message: String,
) -> bool {
    &&& after.len() == before.len() + 1
    &&& after.drop_last() == before
    &&& is_fresh_entry(after.last(), level, timestamp, message)
}

/// Kinds of trace events.
#[derive(Debug, Clone, Copy, PartialEq, Eq, Structural)]
pub enum TraceEventType {
    ReplayStarted,
    TransactionStarted,
    TransactionCompleted,
    TransactionFailed,
    RuleApplicationStarted,
    RuleApplicationCompleted,
    StateTransition,
    CheckpointCreated,
    CheckpointRestored,
    ReplayCompleted,
    ReplayFailed,
}

/// One event of an execution.
#[derive(Debug, Clone)]
pub struct TraceEvent {
    pub timestamp: Timestamp,
    pub event_type: TraceEventType,
    pub transaction_id: Option<String>,
    pub transaction_index: Option<usize>,
    pub state_hash_before: Option<StateHash>,
    pub state_hash_after: Option<StateHash>,
    pub data: Vec<(String, String)>,
}

/// The log records and events of one execution.
#[derive(Debug, Clone)]
pub struct ExecutionTraceLog {
    pub start_time: Timestamp,
    pub end_time: Option<Timestamp>,
    pub logs: Vec<LogEntry>,
    pub events: Vec<TraceEvent>,
}

impl ExecutionTraceLog {
    pub fn new(start_time: Timestamp) -> (r: ExecutionTraceLog)
        ensures
            r.start_time == start_time,
            r.end_time is None,
            r.logs@.len() == 0,
            r.events@.len() == 0,
    {
        ExecutionTraceLog { start_time, end_time: None, logs: Vec::new(), events: Vec::new() }
    }

    pub fn add_log(&mut self, entry: LogEntry)
        ensures
            final(self).logs@ == old(self).logs@.push(entry),
            final(self).events == old(self).events,
            final(self).start_time == old(self).start_time,
            final(self).end_time == old(self).end_time,
    {
        self.logs.push(entry);
    }

    pub fn add_event(&mut self, event: TraceEvent)
        ensures
            final(self).events@ == old(self).events@.push(event),
            final(self).logs == old(self).logs,
            final(self).start_time == old(self).start_time,
            final(self).end_time == old(self).end_time,
    {
        self.events.push(event);
    }

    /// Marks the execution as finished at `end_time`.
    pub fn complete(&mut self, end_time: Timestamp)
        ensures
            final(self).end_time == Some(end_time),
            final(self).logs == old(self).logs,
            final(self).events == old(self).events,
            final(self).start_time == old(self).start_time,
    {
        self.end_time = Some(end_time);
    }

    /// The events of one kind, in order.
    pub fn events_by_type(&self, event_type: TraceEventType) -> (r: Vec<&TraceEvent>)
        ensures
            r@.map_values(|e: &TraceEvent| *e) == self.events@.filter(
                |e: TraceEvent| e.event_type == event_type,
            ),
    {
        let mut out: Vec<&TraceEvent> = Vec::new();
        let mut i: usize = 0;
        while i < self.events.len()
            invariant
                i <= self.events@.len(),
                out@.map_values(|e: &TraceEvent| *e) == self.events@.take(i as int).filter(
                    |e: TraceEvent| e.event_type == event_type,
                ),
            decreases self.events@.len() - i,
        {
            let ghost before = out@;
            proof {
                assert(self.events@.take(i + 1).drop_last() =~= self.events@.take(i as int));
                reveal(Seq::filter);
            }
            let event = &self.events[i];
            if event.event_type == event_type {
                out.push(event);
                assert(out@.map_values(|e: &TraceEvent| *e) =~= before.map_values(
                    |e: &TraceEvent| *e,
                ).push(*event));
            }
            i = i + 1;
        }
        assert(self.events@.take(i as int) =~= self.events@);
        out
    }

    /// The events of one transaction, in order.
    pub fn events_by_transaction(&self, transaction_id: &str) -> (r: Vec<&TraceEvent>)
        ensures
            r@.map_values(|e: &TraceEvent| *e) == self.events@.filter(
                |e: TraceEvent| e.transaction_id matches Some(id) && id@ == transaction_id@,
            ),
    {
        let wanted = transaction_id.to_owned();
        let mut out: Vec<&TraceEvent> = Vec::new();
        let mut i: usize = 0;
        while i < self.events.len()
            invariant
                i <= self.events@.len(),
                wanted@ == transaction_id@,
                out@.map_values(|e: &TraceEvent| *e) == self.events@.take(i as int).filter(
                    |e: TraceEvent| e.transaction_id matches Some(id) && id@ == transaction_id@,
                ),
            decreases self.events@.len() - i,
        {
            let ghost before = out@;
            proof {
                assert(self.events@.take(i + 1).drop_last() =~= self.events@.take(i as int));
                reveal(Seq::filter);
            }
            let event = &self.events[i];
            let matches = match &event.transaction_id {
                Some(id) => *id == wanted,
                None => false,
            };
            if matches {
                out.push(event);
                assert(out@.map_values(|e: &TraceEvent| *e) =~= before.map_values(
                    |e: &TraceEvent| *e,
                ).push(*event));
            }
            i = i + 1;
        }
        assert(self.events@.take(i as int) =~= self.events@);
        out
    }
}

} // verus!
