//! Logging configuration and numbered log events.
use vstd::prelude::*;

verus! {

/// Logging configuration.
#[derive(Debug, Clone)]
pub struct LoggingConfig {
    pub level: String,
    pub enable_file_logging: bool,
    pub log_dir: String,
    pub max_log_files: u32,
}

impl Default for LoggingConfig {
    fn default() -> (c: Self)
        ensures
            c.level@ == "info"@,
            !c.enable_file_logging,
            c.log_dir@ == "./logs"@,
            c.max_log_files == 10,
    {
        LoggingConfig {
            level: "info".to_owned(),
            enable_file_logging: false,
            log_dir: "./logs".to_owned(),
            max_log_files: 10,
        }
    }
}

/// Severity of a log event.
#[derive(Debug, Clone, Copy, PartialEq, Eq, Structural)]
pub enum LogLevel {
    Debug,
    Info,
    Warn,
    Error,
}

/// One numbered log event, for the subscriber to emit.
#[derive(Debug, Clone)]
pub struct LogEvent {
    pub id: u64,
    pub level: LogLevel,
    pub message: String,
}

/// A logger that numbers its events in the order they are made.
pub struct Logger {
    config: LoggingConfig,
    event_counter: u64,
}

impl Logger {
    /// The configuration.
    pub closed spec fn config_view(&self) -> LoggingConfig {
        self.config
    }

    /// The number the next event gets.
    pub closed spec fn next_id(&self) -> u64 {
        self.event_counter
    }

    pub fn new(config: LoggingConfig) -> (l: Self)
        ensures
            l.config_view() == config,
            l.next_id() == 0,
    {
        Logger { config, event_counter: 0 }
    }

    /// A new event at `level` with the next number; numbers wrap after `u64::MAX`.
    pub fn event(&mut self, level: LogLevel, msg: &str) -> (e: LogEvent)
        ensures
            e.id == old(self).next_id(),
            e.level == level,
            e.message@ == msg@,
            final(self).next_id() == old(self).next_id().wrapping_add(1),
            final(self).config_view() == old(self).config_view(),
    {
        let id = self.event_counter;
        self.event_counter = self.event_counter.wrapping_add(1);
        LogEvent { id, level, message: msg.to_owned() }
    }

    pub fn info(&mut self, msg: &str) -> (e: LogEvent)
        ensures
            e.id == old(self).next_id(),
            e.level == LogLevel::Info,
            e.message@ == msg@,
            final(self).next_id() == old(self).next_id().wrapping_add(1),
            final(self).config_view() == old(self).config_view(),
    {
        self.event(LogLevel::Info, msg)
    }

    pub fn warn(&mut self, msg: &str) -> (e: LogEvent)
        ensures
            e.id == old(self).next_id(),
            e.level == LogLevel::Warn,
            e.message@ == msg@,
            final(self).next_id() == old(self).next_id().wrapping_add(1),
            final(self).config_view() == old(self).config_view(),
    {
        self.event(LogLevel::Warn, msg)
    }

    pub fn error(&mut self, msg: &str) -> (e: LogEvent)
        ensures
            e.id == old(self).next_id(),
            e.level == LogLevel::Error,
            e.message@ == msg@,
            final(self).next_id() == old(self).next_id().wrapping_add(1),
            final(self).config_view() == old(self).config_view(),
    {
        self.event(LogLevel::Error, msg)
    }

    pub fn debug(&mut self, msg: &str) -> (e: LogEvent)
        ensures
            e.id == old(self).next_id(),
            e.level == LogLevel::Debug,
            e.message@ == msg@,
            final(self).next_id() == old(self).next_id().wrapping_add(1),
            final(self).config_view() == old(self).config_view(),
    {
        self.event(LogLevel::Debug, msg)
    }

    pub fn level(&self) -> (s: &str)
        ensures
            s@ == self.config_view().level@,
    {
        self.config.level.as_str()
    }
}

impl Default for Logger {
    fn default() -> (l: Self)
        ensures
            l.config_view().level@ == "info"@,
            l.next_id() == 0,
    {
        Logger::new(LoggingConfig::default())
    }
}

} // verus!
