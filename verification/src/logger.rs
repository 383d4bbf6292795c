//! Level-filtered logging.
//!
//! The logger keeps the filtering rule verified and the output
//! unverified: entries that pass the current level are appended to a
//! buffer, and the surrounding application drains and prints them.

use vstd::prelude::*;

verus! {

/// Severity, most severe first.
#[derive(Clone, Copy, Debug, PartialEq, Eq, Structural)]
pub enum LogLevel {
    Critical,
    Error,
    Warning,
    Info,
    Debug,
}

/// Numeric rank of a level; smaller is more severe.
pub open spec fn level_rank(l: LogLevel) -> int {
    match l {
        LogLevel::Critical => 0,
        LogLevel::Error => 1,
        LogLevel::Warning => 2,
        LogLevel::Info => 3,
        LogLevel::Debug => 4,
    }
}

impl LogLevel {
    /// Exec mirror of [`level_rank`].
    pub fn rank(&self) -> (r: u32)
        ensures
            r as int == level_rank(*self),
    {
        match self {
            LogLevel::Critical => 0,
            LogLevel::Error => 1,
            LogLevel::Warning => 2,
            LogLevel::Info => 3,
            LogLevel::Debug => 4,
        }
    }
}

/// One log entry.
#[derive(Clone, Debug)]
pub struct Log {
    pub level: LogLevel,
    pub label: String,
    pub message: String,
}

impl Log {
    pub fn new(level: LogLevel, label: String, message: String) -> (r: Log)
        ensures
            r.level == level,
            r.label == label,
            r.message == message,
    {
        Log { level, label, message }
    }
}

/// A buffering logger: entries at most as verbose as the current level
/// are kept, the rest are dropped.
pub struct Logger {
    pub level: LogLevel,
    pub entries: Vec<Log>,
}

/// Whether a message at `l` passes a logger set to `threshold`.
pub open spec fn passes(l: LogLevel, threshold: LogLevel) -> bool {
    level_rank(l) <= level_rank(threshold)
}

impl Logger {
    /// A fresh logger at the default `Info` level.
    pub fn new() -> (r: Logger)
        ensures
            r.level == LogLevel::Info,
            r.entries@.len() == 0,
    {
        Logger { level: LogLevel::Info, entries: Vec::new() }
    }

    /// Appends the entry exactly when its level passes the filter.
    pub fn log(&mut self, log: Log)
        ensures
            final(self).level == old(self).level,
            passes(log.level, old(self).level) ==> final(self).entries@ == old(
                self,
            ).entries@.push(log),
            !passes(log.level, old(self).level) ==> final(self).entries@ == old(self).entries@,
    {
        if log.level.rank() > self.level.rank() {
            return ;
        }
        self.entries.push(log);
    }

    pub fn error(&mut self, label: String, message: String)
        ensures
            final(self).level == old(self).level,
            passes(LogLevel::Error, old(self).level) ==> final(self).entries@ == old(
                self,
            ).entries@.push(Log { level: LogLevel::Error, label, message }),
            !passes(LogLevel::Error, old(self).level) ==> final(self).entries@ == old(
                self,
            ).entries@,
    {
        self.log(Log::new(LogLevel::Error, label, message));
    }

    pub fn warn(&mut self, label: String, message: String)
        ensures
            final(self).level == old(self).level,
            passes(LogLevel::Warning, old(self).level) ==> final(self).entries@ == old(
                self,
            ).entries@.push(Log { level: LogLevel::Warning, label, message }),
            !passes(LogLevel::Warning, old(self).level) ==> final(self).entries@ == old(
                self,
            ).entries@,
    {
        self.log(Log::new(LogLevel::Warning, label, message));
    }

    pub fn info(&mut self, label: String, message: String)
        ensures
            final(self).level == old(self).level,
            passes(LogLevel::Info, old(self).level) ==> final(self).entries@ == old(
                self,
            ).entries@.push(Log { level: LogLevel::Info, label, message }),
            !passes(LogLevel::Info, old(self).level) ==> final(self).entries@ == old(
                self,
            ).entries@,
    {
        self.log(Log::new(LogLevel::Info, label, message));
    }

    pub fn debug(&mut self, label: String, message: String)
        ensures
            final(self).level == old(self).level,
            passes(LogLevel::Debug, old(self).level) ==> final(self).entries@ == old(
                self,
            ).entries@.push(Log { level: LogLevel::Debug, label, message }),
            !passes(LogLevel::Debug, old(self).level) ==> final(self).entries@ == old(
                self,
            ).entries@,
    {
        self.log(Log::new(LogLevel::Debug, label, message));
    }

    pub fn set_level(&mut self, level: LogLevel)
        ensures
            final(self).level == level,
            final(self).entries == old(self).entries,
    {
        self.level = level;
    }
}

} // verus!
