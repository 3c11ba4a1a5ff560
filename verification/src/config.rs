//! The `Config` struct and its associated enums. A `Config` is an immutable
//! snapshot: it is handed to the logger at construction and never changes.

use vstd::prelude::*;

use crate::level::LevelFilter;

verus! {

/// Where the logs are written to.
/// Defaults to `Console`.
#[derive(Clone, Copy, Debug, PartialEq, Eq, Structural)]
pub enum LoggingMode {
    /// Logs are written to a file.
    File,
    /// Logs are written to the console (stdout or stderr).
    Console,
    /// Logs are written to both a file and the console (stdout or stderr).
    FileAndConsole,
}

/// The output stream for the console. Only applies if `LoggingMode` is
/// `Console` or `FileAndConsole`. Defaults to `Stdout`.
#[derive(Clone, Copy, Debug, PartialEq, Eq, Structural)]
pub enum ConsoleMode {
    /// Logs are written to stdout.
    Stdout,
    /// Logs are written to stderr.
    Stderr,
    /// Entries with a level of `Error` are written to stderr; all other
    /// entries are written to stdout.
    Mixed,
}

/// The name of the log file. Only applies if `LoggingMode` is `File` or
/// `FileAndConsole`. Defaults to `AutoGenerate`.
pub enum OutputFileName {
    /// The log file name is generated from the current date and time (UTC).
    AutoGenerate,
    /// The log file name is specified by the user.
    Custom(String),
}

/// The directory the log file is written to. Only applies if `LoggingMode` is
/// `File` or `FileAndConsole`. Defaults to `Custom` with directory `logs`.
pub enum OutputDirName {
    /// The log file is written to the current directory.
    CurrentDir,
    /// The log file is written to a directory specified by the user.
    Custom(String),
}

/// The time zone used for the timestamps of log entries.
/// Defaults to `UTC`.
#[derive(Clone, Copy, Debug, PartialEq, Eq, Structural)]
pub enum TimeZone {
    /// Local system time. Obtaining it may fail on some platforms; the logger
    /// then degrades to lines without a timestamp.
    Local,
    UTC,
}

/// The format of the date and time in log entries.
/// Defaults to `ISO8601`.
pub enum DateTimeFormat {
    ISO8601,
    RFC3339,
    RFC2822,
    /// A pattern in the `time` crate's version-1 format-description syntax.
    Custom(&'static str),
}

/// Whether to color log entries on the terminal with ANSI escape codes.
/// Defaults to `True`.
#[derive(Clone, Copy, Debug, PartialEq, Eq, Structural)]
pub enum UseTermColor {
    True,
    False,
}

/// Whether file writes go straight to the file descriptor or accumulate in an
/// in-memory buffer until a flush. Defaults to `Synchronous`.
#[derive(Clone, Copy, Debug, PartialEq, Eq, Structural)]
pub enum LoggingStrategy {
    Synchronous,
    Asynchronous,
}

/// Whether to rotate the log file once it reaches a size (in bytes).
/// Has no effect when `OutputFileName` is `Custom`, since the replacement file
/// would get the same name as the old one. Defaults to `False`.
#[derive(Clone, Copy, Debug, PartialEq, Eq, Structural)]
pub enum SplitLogFiles {
    True(u64),
    False,
}

/// Configuration options for the logger.
/// Use `Default::default()` for the default settings.
pub struct Config {
    pub out_file_name: OutputFileName,
    pub out_dir_name: OutputDirName,
    pub min_log_level: LevelFilter,
    pub timezone: TimeZone,
    pub logging_mode: LoggingMode,
    pub console_mode: ConsoleMode,
    pub datetime_format: DateTimeFormat,
    pub use_term_color: UseTermColor,
    pub logging_strategy: LoggingStrategy,
    pub split_log_files: SplitLogFiles,
}

impl Default for Config {
    /// The default configuration: console-only logging to stdout, threshold
    /// `Info`, UTC ISO8601 timestamps with color, synchronous writes, no
    /// rotation, and an auto-generated file name under `logs/` should file
    /// logging be switched on.
    fn default() -> (r: Self)
        ensures
            r.out_file_name is AutoGenerate,
            r.out_dir_name matches OutputDirName::Custom(d) && d@ == "logs"@,
            r.min_log_level == LevelFilter::Info,
            r.timezone == TimeZone::UTC,
            r.logging_mode == LoggingMode::Console,
            r.console_mode == ConsoleMode::Stdout,
            r.datetime_format is ISO8601,
            r.use_term_color == UseTermColor::True,
            r.logging_strategy == LoggingStrategy::Synchronous,
            r.split_log_files == SplitLogFiles::False,
    {
        Config {
            out_file_name: OutputFileName::AutoGenerate,
            out_dir_name: OutputDirName::Custom(String::from_str("logs")),
            min_log_level: LevelFilter::Info,
            timezone: TimeZone::UTC,
            logging_mode: LoggingMode::Console,
            console_mode: ConsoleMode::Stdout,
            datetime_format: DateTimeFormat::ISO8601,
            use_term_color: UseTermColor::True,
            logging_strategy: LoggingStrategy::Synchronous,
            split_log_files: SplitLogFiles::False,
        }
    }
}

} // verus!
