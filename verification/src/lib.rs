//! A log-writing backend: formats, colorizes, routes and counts severity-tagged
//! log records on behalf of an external logging facade.
//!
//! The crate is organised around a [`Logger`] that is constructed once from an
//! immutable [`Config`]. Emitting a record is split in two: the logger decides
//! (filter by threshold, render the timestamp, build the line, pick the console
//! stream, colorize) and hands back a plan of plain values; the thin runtime
//! around the crate performs the actual stream and file writes and drives the
//! rotation counter through [`sink::SinkState`].

use vstd::prelude::*;

pub mod color;
pub mod config;
pub mod level;
pub mod logger;
pub mod paths;
pub mod sink;
pub mod time_format;

pub use config::Config;
pub use level::{Level, LevelFilter, Metadata, Record};
pub use logger::{InitError, Logger};

verus! {

/// Builds the logging backend for `config`: the explicitly owned handle call
/// sites emit through. Construction is refused exactly when the configured
/// custom datetime pattern is invalid; opening the log file (when the routing
/// mode includes one) is the runtime's part, via [`paths::get_log_pathbuf`].
pub fn init(config: Config) -> (r: Result<Logger, InitError>)
    ensures
        r is Ok <==> (match config.datetime_format {
            config::DateTimeFormat::Custom(s) => time_format::pattern_is_valid(s@),
            _ => true,
        }),
        r matches Ok(l) ==> l.wf() && l.config == config,
        r matches Err(e) ==> e == InitError::InvalidTimeFormat,
{
    Logger::new(config)
}

} // verus!
