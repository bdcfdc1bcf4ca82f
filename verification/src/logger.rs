//! The log collector: the most recent log entries, kept in memory for the
//! admin console.

use std::collections::VecDeque;
use vstd::prelude::*;

use crate::model::views;

verus! {

/// The severity of a log entry.
#[derive(Clone, Copy, PartialEq, Eq, Debug)]
pub enum Level {
    Error,
    Warn,
    Info,
    Debug,
    Trace,
}

/// A point in time: whole seconds since the start of 1970 in UTC, and the
/// nanoseconds since that second began.
#[derive(Clone, Copy, PartialEq, Eq, Debug)]
pub struct Timestamp {
    pub seconds: i64,
    pub nanoseconds: u32,
}

/// One collected log entry.
#[derive(Debug, Clone)]
pub struct LogEntry {
    /// When the entry was collected.
    pub timestamp: Timestamp,
    /// Name of the entry's level, in capitals.
    pub level: String,
    /// The logged message.
    pub message: String,
    /// The module that logged it, or `app` where none was given.
    pub module: String,
}

/// The most recent log entries, up to a limit. When the limit is reached the
/// oldest entry makes room for a new one.
#[derive(Debug, Clone)]
pub struct LogCollector {
    entries: VecDeque<LogEntry>,
    max_entries: usize,
}

/// Mathematical content of a [`LogEntry`].
pub struct LogEntryView {
    pub timestamp: Timestamp,
    pub level: Seq<char>,
    pub message: Seq<char>,
    pub module: Seq<char>,
}

/// Mathematical content of a [`LogCollector`]: its entries from the oldest to
/// the newest, and its limit.
pub struct LogCollectorView {
    pub entries: Seq<LogEntryView>,
    pub max_entries: nat,
}

impl View for LogEntry {
    type V = LogEntryView;

    open spec fn view(&self) -> LogEntryView {
        LogEntryView {
            timestamp: self.timestamp,
            level: self.level@,
            message: self.message@,
            module: self.module@,
        }
    }
}

impl View for LogCollector {
    type V = LogCollectorView;

    closed spec fn view(&self) -> LogCollectorView {
        LogCollectorView { entries: views(self.entries@), max_entries: self.max_entries as nat }
    }
}

impl Level {
    /// The name of the level, in capitals.
    pub open spec fn name_text(self) -> Seq<char> {
        match self {
            Level::Error => "ERROR"@,
            Level::Warn => "WARN"@,
            Level::Info => "INFO"@,
            Level::Debug => "DEBUG"@,
            Level::Trace => "TRACE"@,
        }
    }

    /// The name of the level, in capitals.
    pub fn name(&self) -> (name: String)
        ensures
            name@ == self.name_text(),
    {
        match self {
            Level::Error => "ERROR".to_owned(),
            Level::Warn => "WARN".to_owned(),
            Level::Info => "INFO".to_owned(),
            Level::Debug => "DEBUG".to_owned(),
            Level::Trace => "TRACE".to_owned(),
        }
    }
}

/// The module name of an entry: the given one, or `app` where none is given.
pub open spec fn module_text(module: Option<&str>) -> Seq<char> {
    match module {
        Some(module) => module@,
        None => "app"@,
    }
}

impl LogCollectorView {
    /// The most entries that the collector ever holds: its limit, and one
    /// where the limit is zero, since a new entry is always kept.
    pub open spec fn capacity(self) -> nat {
        if self.max_entries == 0 {
            1
        } else {
            self.max_entries
        }
    }

    /// The collector after `entry` was added: where it held as many entries
    /// as its limit allows, or more, the oldest one is gone.
    pub open spec fn with_entry(self, entry: LogEntryView) -> LogCollectorView {
        let kept = if self.entries.len() > 0 && self.entries.len() >= self.max_entries {
            self.entries.drop_first()
        } else {
            self.entries
        };
        LogCollectorView { entries: kept.push(entry), ..self }
    }
}

/// A collector within its capacity stays within it when an entry is added,
/// and the new entry is then its newest. A collector that is full keeps all
/// but its oldest entry, in order; one that is not keeps them all.
pub proof fn adding_keeps_the_newest(collector: LogCollectorView, entry: LogEntryView)
    requires
        collector.entries.len() <= collector.capacity(),
    ensures
        collector.with_entry(entry).entries.len() <= collector.with_entry(entry).capacity(),
        collector.with_entry(entry).max_entries == collector.max_entries,
        collector.with_entry(entry).entries.last() == entry,
        collector.entries.len() < collector.max_entries ==> collector.with_entry(entry).entries
            == collector.entries.push(entry),
        collector.entries.len() == collector.capacity() ==> collector.with_entry(entry).entries
            == collector.entries.drop_first().push(entry),
{
}

/// `chrono::Utc::now`, read through `timestamp` and
/// `timestamp_subsec_nanos`: the time of the call by the machine's clock.
/// Nothing is known of it.
#[verifier::external_body]
fn now() -> Timestamp {
    let now = chrono::Utc::now();
    Timestamp { seconds: now.timestamp(), nanoseconds: now.timestamp_subsec_nanos() }
}

impl LogEntry {
    /// A second entry with the same content.
    pub fn duplicate(&self) -> (entry: Self)
        ensures
            entry@ == self@,
    {
        Self {
            timestamp: self.timestamp,
            level: self.level.clone(),
            message: self.message.clone(),
            module: self.module.clone(),
        }
    }
}

impl LogCollector {
    /// An empty collector that keeps up to `max_entries` entries.
    pub fn new(max_entries: usize) -> (collector: Self)
        ensures
            collector@ == (LogCollectorView {
                entries: Seq::empty(),
                max_entries: max_entries as nat,
            }),
    {
        let collector = Self { entries: VecDeque::with_capacity(max_entries), max_entries };
        assert(views(collector.entries@) == Seq::<LogEntryView>::empty());
        collector
    }

    /// Adds an entry that was collected at `timestamp`.
    pub fn add_entry_at(
        &mut self,
        timestamp: Timestamp,
        level: Level,
        message: &str,
        module: Option<&str>,
    )
        ensures
            final(self)@ == old(self)@.with_entry(
                LogEntryView {
                    timestamp,
                    level: level.name_text(),
                    message: message@,
                    module: module_text(module),
                },
            ),
    {
        let module_name = match module {
            Some(module) => module.to_owned(),
            None => "app".to_owned(),
        };
        let entry = LogEntry {
            timestamp,
            level: level.name(),
            message: message.to_owned(),
            module: module_name,
        };
        let ghost before = views(self.entries@);
        if self.entries.len() >= self.max_entries {
            let _ = self.entries.pop_front();
        }
        let ghost kept = views(self.entries@);
        assert(kept == if before.len() > 0 && before.len() >= self.max_entries {
            before.drop_first()
        } else {
            before
        });
        self.entries.push_back(entry);
        assert(views(self.entries@) == kept.push(entry@));
    }

    /// Adds an entry, collected now. The time it carries is the only thing
    /// that the call leaves open.
    pub fn add_entry(&mut self, level: Level, message: &str, module: Option<&str>)
        ensures
            final(self)@.entries.len() > 0,
            final(self)@ == old(self)@.with_entry(
                LogEntryView {
                    timestamp: final(self)@.entries.last().timestamp,
                    level: level.name_text(),
                    message: message@,
                    module: module_text(module),
                },
            ),
    {
        self.add_entry_at(now(), level, message, module);
    }

    /// The collected entries, the newest first.
    pub fn get_entries(&self) -> (entries: Vec<LogEntry>)
        ensures
            views(entries@) == self@.entries.reverse(),
    {
        let mut entries: Vec<LogEntry> = Vec::new();
        let mut left: usize = self.entries.len();
        let ghost collected = views(self.entries@);
        while left > 0
            invariant
                left <= self.entries.len(),
                collected == views(self.entries@),
                entries.len() == self.entries.len() - left,
                forall|i: int|
                    0 <= i < entries.len() ==> (#[trigger] entries[i])@ == collected[
                        collected.len() - 1 - i],
            decreases left,
        {
            left -= 1;
            entries.push(self.entries[left].duplicate());
        }
        assert(views(entries@) =~= collected.reverse());
        entries
    }

    /// Removes every entry. The limit stays.
    pub fn clear(&mut self)
        ensures
            final(self)@ == (LogCollectorView { entries: Seq::empty(), ..old(self)@ }),
    {
        self.entries.clear();
        assert(views(self.entries@) == Seq::<LogEntryView>::empty());
    }
}

} // verus!
