//! What the service logs.
//!
//! The engine writes nothing itself. It makes records, and whoever runs it
//! hands them to a logger.
use vstd::prelude::*;
use vstd::string::StringExecFns;

verus! {

/// How grave a record is.
#[derive(Debug, Clone, Copy, PartialEq, Eq, Structural)]
pub enum LogLevel {
    Error,
    Warn,
    Info,
    Debug,
    Trace,
}

/// The colour in which a level is printed.
#[derive(Debug, Clone, Copy, PartialEq, Eq, Structural)]
pub enum LevelColor {
    Red,
    Yellow,
    Green,
    Cyan,
    Magenta,
}

/// One message for the log.
#[derive(Debug)]
pub struct LogRecord {
    pub level: LogLevel,
    pub message: String,
}

/// Mathematical value of a [`LogRecord`].
pub struct LogRecordView {
    pub level: LogLevel,
    pub message: Seq<char>,
}

impl View for LogRecord {
    type V = LogRecordView;

    open spec fn view(&self) -> LogRecordView {
        LogRecordView { level: self.level, message: self.message@ }
    }
}

/// The colour of each level: errors red, warnings yellow, information
/// green, debugging cyan, traces magenta.
pub open spec fn color_of(level: LogLevel) -> LevelColor {
    match level {
        LogLevel::Error => LevelColor::Red,
        LogLevel::Warn => LevelColor::Yellow,
        LogLevel::Info => LevelColor::Green,
        LogLevel::Debug => LevelColor::Cyan,
        LogLevel::Trace => LevelColor::Magenta,
    }
}

/// The colour in which `level` is printed.
pub fn level_color(level: LogLevel) -> (color: LevelColor)
    ensures
        color == color_of(level),
{
    match level {
        LogLevel::Error => LevelColor::Red,
        LogLevel::Warn => LevelColor::Yellow,
        LogLevel::Info => LevelColor::Green,
        LogLevel::Debug => LevelColor::Cyan,
        LogLevel::Trace => LevelColor::Magenta,
    }
}

/// The record of an informational message.
pub fn log_info(message: &str) -> (record: LogRecord)
    ensures
        record@ == (LogRecordView { level: LogLevel::Info, message: message@ }),
{
    LogRecord { level: LogLevel::Info, message: String::from_str(message) }
}

/// The record of an error.
pub fn log_error(message: &str) -> (record: LogRecord)
    ensures
        record@ == (LogRecordView { level: LogLevel::Error, message: message@ }),
{
    LogRecord { level: LogLevel::Error, message: String::from_str(message) }
}

/// The record of a warning.
pub fn log_warn(message: &str) -> (record: LogRecord)
    ensures
        record@ == (LogRecordView { level: LogLevel::Warn, message: message@ }),
{
    LogRecord { level: LogLevel::Warn, message: String::from_str(message) }
}

} // verus!
