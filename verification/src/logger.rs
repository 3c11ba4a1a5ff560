//! The logger orchestrator: filters records by threshold, composes the log
//! line, and decides routing and colorization.
//!
//! The logger never performs I/O itself. Each call that the facade maps to a
//! write returns an [`EmitPlan`] of plain values — which console stream to
//! write which text to, and which line to append to the file — and the thin
//! runtime around the crate carries the plan out, holding the file and its
//! [`crate::sink::SinkState`] behind one lock.

use vstd::prelude::*;

use vstd::string::StringExecFns;

use crate::color::colorize;
use crate::config::Config;
use crate::config::ConsoleMode;
use crate::config::DateTimeFormat;
use crate::config::LoggingMode;
use crate::config::TimeZone;
use crate::config::UseTermColor;
use crate::level::level_enabled;
use crate::level::spec_enabled;
use crate::level::Level;
use crate::level::Metadata;
use crate::level::Record;
use crate::time_format::is_rendered_time;
use crate::time_format::now_local_parts;
use crate::time_format::now_utc_parts;
use crate::time_format::pattern_is_valid;
use crate::time_format::render_instant;
use crate::time_format::Instant;
use crate::time_format::TimePattern;

verus! {

/// Why construction of a `Logger` was refused.
#[derive(Clone, Copy, Debug, PartialEq, Eq, Structural)]
pub enum InitError {
    /// The configured custom datetime pattern does not compile.
    InvalidTimeFormat,
}

/// The console stream a record is routed to.
#[derive(Clone, Copy, Debug, PartialEq, Eq, Structural)]
pub enum ConsoleStream {
    Stdout,
    Stderr,
}

/// One console write for the caller to perform: a stream and the exact text.
pub struct ConsoleWrite {
    pub stream: ConsoleStream,
    pub text: String,
}

/// Everything one emission asks the caller to do: at most one console write
/// and at most one line appended to the file.
pub struct EmitPlan {
    pub console: Option<ConsoleWrite>,
    pub file_line: Option<String>,
}

/// Which sinks a flush call reaches: the file (under its lock), then the
/// console stream(s) the console sub-mode keeps active.
pub struct FlushPlan {
    pub file: bool,
    pub stdout: bool,
    pub stderr: bool,
}

/// Whether a routing mode sends records to the file.
pub open spec fn spec_mode_has_file(mode: LoggingMode) -> bool {
    mode is File || mode is FileAndConsole
}

/// Whether a routing mode sends records to the console.
pub open spec fn spec_mode_has_console(mode: LoggingMode) -> bool {
    mode is Console || mode is FileAndConsole
}

/// The stream the console sub-mode routes a record to: `Mixed` sends `Error`
/// records to stderr and everything else to stdout.
pub open spec fn spec_console_stream(mode: ConsoleMode, level: Level) -> ConsoleStream {
    match mode {
        ConsoleMode::Stdout => ConsoleStream::Stdout,
        ConsoleMode::Stderr => ConsoleStream::Stderr,
        ConsoleMode::Mixed => if level is Error {
            ConsoleStream::Stderr
        } else {
            ConsoleStream::Stdout
        },
    }
}

/// Picks the console stream for a record under the console sub-mode.
pub fn console_stream_for(mode: ConsoleMode, level: Level) -> (r: ConsoleStream)
    ensures
        r == spec_console_stream(mode, level),
{
    match mode {
        ConsoleMode::Stdout => ConsoleStream::Stdout,
        ConsoleMode::Stderr => ConsoleStream::Stderr,
        ConsoleMode::Mixed => if level == Level::Error {
            ConsoleStream::Stderr
        } else {
            ConsoleStream::Stdout
        },
    }
}

/// The line layout: `"<timestamp> <LEVEL> <target> - <message>\n"`, with the
/// timestamp field and its separating space omitted when absent.
pub open spec fn spec_line(ts: Option<Seq<char>>, level: Level, target: Seq<char>, args: Seq<char>) -> Seq<char> {
    let tail = level.spec_name() + " "@ + target + " - "@ + args + "\n"@;
    match ts {
        Some(t) => t + " "@ + tail,
        None => tail,
    }
}

/// Every composed line is one whole, well-formed record: it ends with the
/// terminating newline, and the level name stands at its fixed position —
/// right after the timestamp field when there is one, else at the front.
pub proof fn lemma_line_shape(ts: Option<Seq<char>>, level: Level, target: Seq<char>, args: Seq<char>)
    ensures
        spec_line(ts, level, target, args).len() > 0,
        spec_line(ts, level, target, args).last() == '\n',
        ({
            let start: int = match ts {
                Some(t) => t.len() as int + 1,
                None => 0,
            };
            spec_line(ts, level, target, args).subrange(start, start + level.spec_name().len() as int)
                == level.spec_name()
        }),
{
    reveal_strlit("\n");
    reveal_strlit(" ");
    let line = spec_line(ts, level, target, args);
    let name = level.spec_name();
    let tail = name + " "@ + target + " - "@ + args + "\n"@;
    assert(tail.last() == '\n');
    assert(tail.subrange(0, name.len() as int) =~= name);
    match ts {
        Some(t) => {
            assert(line =~= t + " "@ + tail);
            assert(line.subrange(t.len() as int + 1, t.len() as int + 1 + name.len() as int)
                =~= name);
        },
        None => {
            assert(line.subrange(0, name.len() as int) =~= name);
        },
    }
}

/// Whether a line is the one composed for a record: the fixed layout around
/// either no timestamp or some text rendered in the configured format.
pub open spec fn is_record_line(
    line: Seq<char>,
    format: DateTimeFormat,
    level: Level,
    target: Seq<char>,
    args: Seq<char>,
) -> bool {
    ||| line == spec_line(None, level, target, args)
    ||| exists|t: Seq<char>|
        is_rendered_time(format, t) && line == spec_line(Some(t), level, target, args)
}

/// Builds the log line for `record`, with or without a timestamp field.
pub fn compose_message(timestamp: Option<&str>, record: &Record) -> (r: String)
    ensures
        timestamp matches Some(t) ==> r@ == spec_line(Some(t@), record.level, record.target@, record.args@),
        timestamp is None ==> r@ == spec_line(None, record.level, record.target@, record.args@),
{
    let mut out: String = match timestamp {
        Some(t) => {
            let mut s = String::from_str(t);
            s.append(" ");
            s
        },
        None => String::new(),
    };
    out.append(record.level.as_str());
    out.append(" ");
    out.append(record.target.as_str());
    out.append(" - ");
    out.append(record.args.as_str());
    out.append("\n");
    proof {
        if timestamp is Some {
            assert(out@ =~= spec_line(
                Some(timestamp->Some_0@),
                record.level,
                record.target@,
                record.args@,
            ));
        } else {
            assert(out@ =~= spec_line(None, record.level, record.target@, record.args@));
        }
    }
    out
}

/// The log-writing backend: an immutable configuration and, when a custom
/// datetime pattern is configured, that pattern compiled once at
/// construction and reused for every record.
pub struct Logger {
    pub config: Config,
    pub custom_time_format: Option<TimePattern>,
}

impl Logger {
    /// Well-formedness: a compiled pattern is held exactly when the
    /// configuration asks for a custom datetime format, and stems from the
    /// configured pattern text.
    pub open spec fn wf(&self) -> bool {
        match self.config.datetime_format {
            DateTimeFormat::Custom(s) => self.custom_time_format matches Some(p)
                && p.spec_source() == s@,
            _ => self.custom_time_format is None,
        }
    }

    /// Creates a new `Logger` from `config`, compiling the custom datetime
    /// pattern once; construction is refused exactly when that pattern is
    /// invalid. Opening the log file is the caller's part: see
    /// [`crate::paths::get_log_pathbuf`].
    pub fn new(config: Config) -> (r: Result<Logger, InitError>)
        ensures
            r is Ok <==> (match config.datetime_format {
                DateTimeFormat::Custom(s) => pattern_is_valid(s@),
                _ => true,
            }),
            r matches Ok(l) ==> l.wf() && l.config == config,
            r matches Err(e) ==> e == InitError::InvalidTimeFormat,
    {
        let custom_time_format = match &config.datetime_format {
            DateTimeFormat::Custom(s) => match TimePattern::new(s) {
                Ok(p) => Some(p),
                Err(_) => {
                    return Err(InitError::InvalidTimeFormat);
                },
            },
            _ => None,
        };
        Ok(Logger { config, custom_time_format })
    }

    /// True exactly when a record with this metadata passes the threshold.
    pub fn enabled(&self, metadata: &Metadata) -> (r: bool)
        ensures
            r == spec_enabled(metadata.level, self.config.min_log_level),
    {
        level_enabled(metadata.level, self.config.min_log_level)
    }

    /// Renders the current instant per the configured timezone and datetime
    /// format. On `Ok` the text is the rendering, in the configured format,
    /// of some instant. Obtaining local time, or formatting, may fail;
    /// `Err(())` lets the caller degrade to a line without a timestamp.
    pub fn get_current_time(&self) -> (r: Result<String, ()>)
        requires
            self.wf(),
        ensures
            r matches Ok(s) ==> is_rendered_time(self.config.datetime_format, s@),
    {
        let i: Instant = match self.config.timezone {
            TimeZone::Local => match now_local_parts() {
                Ok(p) => Instant { secs: p.0, nanos: p.1, offset_secs: p.2 },
                Err(_) => {
                    return Err(());
                },
            },
            TimeZone::UTC => {
                let p = now_utc_parts();
                Instant { secs: p.0, nanos: p.1, offset_secs: 0 }
            },
        };
        let r = render_instant(&self.config.datetime_format, self.custom_time_format.as_ref(), i);
        proof {
            if r is Ok {
                assert(r->Ok_0@ == crate::time_format::spec_rendered(
                    self.config.datetime_format,
                    i,
                ));
            }
        }
        r
    }

    /// Decides everything about writing `message` at `log_level`: whether a
    /// console write happens, to which stream and with what text, and
    /// whether the line goes to the file. The file gets the message itself,
    /// uncolored; the console text is the message colorized per the
    /// configuration. The caller performs the writes.
    pub fn write(&self, message: &str, log_level: Level) -> (p: EmitPlan)
        ensures
            (p.file_line is Some) == spec_mode_has_file(self.config.logging_mode),
            p.file_line matches Some(l) ==> l@ == message@,
            (p.console is Some) == spec_mode_has_console(self.config.logging_mode),
            p.console matches Some(c) ==> c.stream == spec_console_stream(
                self.config.console_mode,
                log_level,
            ),
            p.console matches Some(c) ==> c.text@.len() >= message@.len(),
            p.console matches Some(c) ==> (self.config.use_term_color is False ==> c.text@
                == message@),
    {
        let console = match self.config.logging_mode {
            LoggingMode::Console | LoggingMode::FileAndConsole => {
                let text = colorize(
                    message,
                    log_level,
                    self.config.use_term_color == UseTermColor::True,
                );
                let stream = console_stream_for(self.config.console_mode, log_level);
                Some(ConsoleWrite { stream, text })
            },
            LoggingMode::File => None,
        };
        let file_line = match self.config.logging_mode {
            LoggingMode::File | LoggingMode::FileAndConsole => Some(message.to_owned()),
            LoggingMode::Console => None,
        };
        EmitPlan { console, file_line }
    }

    /// Handles one record. A record below the threshold produces an empty
    /// plan; an admitted record always produces at least one action, since
    /// every routing mode reaches some sink. The line is composed with the
    /// current time, degrading to the timestamp-less layout when the time
    /// cannot be obtained or rendered.
    pub fn log(&self, record: &Record) -> (p: EmitPlan)
        requires
            self.wf(),
        ensures
            (p.console is Some || p.file_line is Some) == spec_enabled(
                record.level,
                self.config.min_log_level,
            ),
            (p.file_line is Some) == (spec_enabled(record.level, self.config.min_log_level)
                && spec_mode_has_file(self.config.logging_mode)),
            (p.console is Some) == (spec_enabled(record.level, self.config.min_log_level)
                && spec_mode_has_console(self.config.logging_mode)),
            p.file_line matches Some(l) ==> is_record_line(
                l@,
                self.config.datetime_format,
                record.level,
                record.target@,
                record.args@,
            ),
            p.console matches Some(c) ==> c.stream == spec_console_stream(
                self.config.console_mode,
                record.level,
            ),
            p.console matches Some(c) ==> (self.config.use_term_color is False ==> is_record_line(
                c.text@,
                self.config.datetime_format,
                record.level,
                record.target@,
                record.args@,
            )),
            p.console matches Some(c) ==> (p.file_line matches Some(l)
                ==> (self.config.use_term_color is False ==> c.text@ == l@)),
    {
        if !self.enabled(&Metadata { level: record.level }) {
            EmitPlan { console: None, file_line: None }
        } else {
            let ghost format = self.config.datetime_format;
            let message: String = match self.get_current_time() {
                Ok(ts) => {
                    let m = compose_message(Some(ts.as_str()), record);
                    proof {
                        assert(is_rendered_time(format, ts@) && m@ == spec_line(
                            Some(ts@),
                            record.level,
                            record.target@,
                            record.args@,
                        ));
                    }
                    m
                },
                Err(_) => compose_message(None, record),
            };
            self.write(message.as_str(), record.level)
        }
    }

    /// Decides what a flush call reaches: the file sink whenever the routing
    /// mode includes a file, and the console stream(s) the console sub-mode
    /// keeps active (`Mixed` uses both).
    pub fn flush(&self) -> (p: FlushPlan)
        ensures
            p.file == spec_mode_has_file(self.config.logging_mode),
            p.stdout == (self.config.console_mode is Stdout || self.config.console_mode is Mixed),
            p.stderr == (self.config.console_mode is Stderr || self.config.console_mode is Mixed),
    {
        let file = match self.config.logging_mode {
            LoggingMode::File | LoggingMode::FileAndConsole => true,
            LoggingMode::Console => false,
        };
        let (stdout, stderr) = match self.config.console_mode {
            ConsoleMode::Stdout => (true, false),
            ConsoleMode::Stderr => (false, true),
            ConsoleMode::Mixed => (true, true),
        };
        FlushPlan { file, stdout, stderr }
    }
}

} // verus!
