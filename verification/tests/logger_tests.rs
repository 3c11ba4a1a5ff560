use logpeek::config::{
    Config, ConsoleMode, DateTimeFormat, LoggingMode, LoggingStrategy, OutputDirName,
    OutputFileName, SplitLogFiles, TimeZone, UseTermColor,
};
use logpeek::level::{Level, LevelFilter, Metadata, Record};
use logpeek::logger::{compose_message, ConsoleStream, InitError, Logger};
use logpeek::init;

fn file_only_config(min_log_level: LevelFilter) -> Config {
    Config {
        out_file_name: OutputFileName::Custom(String::from("test.log")),
        out_dir_name: OutputDirName::CurrentDir,
        min_log_level,
        timezone: TimeZone::UTC,
        logging_mode: LoggingMode::File,
        console_mode: ConsoleMode::Stdout,
        datetime_format: DateTimeFormat::ISO8601,
        use_term_color: UseTermColor::False,
        logging_strategy: LoggingStrategy::Synchronous,
        split_log_files: SplitLogFiles::False,
    }
}

fn record(level: Level, target: &str, args: &str) -> Record {
    Record { level, target: String::from(target), args: String::from(args) }
}

const ALL_LEVELS: [Level; 5] = [Level::Error, Level::Warn, Level::Info, Level::Debug, Level::Trace];

const ALL_FILTERS: [LevelFilter; 6] = [
    LevelFilter::Off,
    LevelFilter::Error,
    LevelFilter::Warn,
    LevelFilter::Info,
    LevelFilter::Debug,
    LevelFilter::Trace,
];

fn level_rank(level: Level) -> u8 {
    match level {
        Level::Error => 1,
        Level::Warn => 2,
        Level::Info => 3,
        Level::Debug => 4,
        Level::Trace => 5,
    }
}

fn filter_rank(filter: LevelFilter) -> u8 {
    match filter {
        LevelFilter::Off => 0,
        LevelFilter::Error => 1,
        LevelFilter::Warn => 2,
        LevelFilter::Info => 3,
        LevelFilter::Debug => 4,
        LevelFilter::Trace => 5,
    }
}

// Emission is visible exactly when the record's level passes the threshold,
// for every threshold and every level.
#[test]
fn test_threshold_matrix() {
    for filter in ALL_FILTERS {
        let logger = Logger::new(file_only_config(filter)).unwrap();
        for level in ALL_LEVELS {
            let expected = level_rank(level) <= filter_rank(filter);
            assert_eq!(logger.enabled(&Metadata { level }), expected);
            let plan = logger.log(&record(level, "test", "msg"));
            assert_eq!(plan.file_line.is_some() || plan.console.is_some(), expected);
            assert_eq!(plan.file_line.is_some(), expected);
            assert!(plan.console.is_none());
        }
    }
}

// Routing mode file-only, threshold Trace: five records at the five levels
// give five lines, each holding its level name, in order.
#[test]
fn test_file_only_five_levels_scenario() {
    let logger = Logger::new(file_only_config(LevelFilter::Trace)).unwrap();
    let mut lines: Vec<String> = Vec::new();
    for level in [Level::Trace, Level::Debug, Level::Info, Level::Warn, Level::Error] {
        let plan = logger.log(&record(level, "test", "msg"));
        assert!(plan.console.is_none());
        lines.push(plan.file_line.expect("file-only routing must produce a file line"));
    }
    assert_eq!(lines.len(), 5);
    let names = ["TRACE", "DEBUG", "INFO", "WARN", "ERROR"];
    for (line, name) in lines.iter().zip(names.iter()) {
        assert!(line.contains(name));
        assert!(line.ends_with(&format!("{} test - msg\n", name)));
        assert!(line.ends_with('\n'));
        assert_eq!(line.matches('\n').count(), 1);
    }
}

#[test]
fn test_compose_message_without_timestamp() {
    let r = record(Level::Error, "app", "boom");
    assert_eq!(compose_message(None, &r), "ERROR app - boom\n");
}

#[test]
fn test_compose_message_with_timestamp() {
    let r = record(Level::Info, "core", "ready");
    assert_eq!(compose_message(Some("2023-11-14T22:13:20Z"), &r), "2023-11-14T22:13:20Z INFO core - ready\n");
}

#[test]
fn test_console_routing_stdout_and_stderr() {
    let mut config = file_only_config(LevelFilter::Trace);
    config.logging_mode = LoggingMode::Console;
    config.console_mode = ConsoleMode::Stdout;
    let logger = Logger::new(config).unwrap();
    let plan = logger.write("ERROR test - msg\n", Level::Error);
    assert!(plan.file_line.is_none());
    let console = plan.console.unwrap();
    assert_eq!(console.stream, ConsoleStream::Stdout);
    assert_eq!(console.text, "ERROR test - msg\n");

    let mut config = file_only_config(LevelFilter::Trace);
    config.logging_mode = LoggingMode::Console;
    config.console_mode = ConsoleMode::Stderr;
    let logger = Logger::new(config).unwrap();
    let console = logger.write("INFO test - msg\n", Level::Info).console.unwrap();
    assert_eq!(console.stream, ConsoleStream::Stderr);
}

#[test]
fn test_console_routing_mixed_splits_by_severity() {
    let mut config = file_only_config(LevelFilter::Trace);
    config.logging_mode = LoggingMode::Console;
    config.console_mode = ConsoleMode::Mixed;
    let logger = Logger::new(config).unwrap();
    let errors = logger.write("ERROR test - msg\n", Level::Error).console.unwrap();
    assert_eq!(errors.stream, ConsoleStream::Stderr);
    for level in [Level::Warn, Level::Info, Level::Debug, Level::Trace] {
        let other = logger.write("line\n", level).console.unwrap();
        assert_eq!(other.stream, ConsoleStream::Stdout);
    }
}

#[test]
fn test_both_mode_keeps_file_line_uncolored() {
    let mut config = file_only_config(LevelFilter::Trace);
    config.logging_mode = LoggingMode::FileAndConsole;
    config.use_term_color = UseTermColor::True;
    let logger = Logger::new(config).unwrap();
    let plan = logger.write("WARN test - msg\n", Level::Warn);
    assert_eq!(plan.file_line.unwrap(), "WARN test - msg\n");
    let console = plan.console.unwrap();
    assert!(console.text.len() >= "WARN test - msg\n".len());
    assert!(console.text.contains("WARN test - msg"));
}

#[test]
fn test_colors_disabled_console_text_is_plain() {
    let mut config = file_only_config(LevelFilter::Trace);
    config.logging_mode = LoggingMode::Console;
    config.use_term_color = UseTermColor::False;
    let logger = Logger::new(config).unwrap();
    for level in ALL_LEVELS {
        let console = logger.write("plain line\n", level).console.unwrap();
        assert_eq!(console.text, "plain line\n");
        assert!(!console.text.contains('\u{1b}'));
    }
}

// With colors forced on, the console text carries ANSI codes around the
// message; the file line never does.
#[test]
fn test_colors_forced_add_escape_codes() {
    colored::control::set_override(true);
    let mut config = file_only_config(LevelFilter::Trace);
    config.logging_mode = LoggingMode::FileAndConsole;
    config.use_term_color = UseTermColor::True;
    let logger = Logger::new(config).unwrap();
    let plan = logger.write("ERROR test - msg\n", Level::Error);
    let console = plan.console.unwrap();
    assert!(console.text.starts_with("\u{1b}[31m"));
    assert!(console.text.contains("ERROR test - msg"));
    assert!(console.text.len() > "ERROR test - msg\n".len());
    assert_eq!(plan.file_line.unwrap(), "ERROR test - msg\n");
    colored::control::unset_override();
}

// A logger with a custom datetime format puts the rendered pattern in front
// of the level field.
#[test]
fn test_log_line_with_custom_format() {
    let mut config = file_only_config(LevelFilter::Trace);
    config.datetime_format = DateTimeFormat::Custom("[hour]:[minute]:[second]");
    let logger = Logger::new(config).unwrap();
    let line = logger.log(&record(Level::Info, "core", "ready")).file_line.unwrap();
    assert!(line.ends_with(" INFO core - ready\n"));
    assert_eq!(line.len(), "00:00:00 INFO core - ready\n".len());
    assert_eq!(line.matches(':').count(), 2);
}

#[test]
fn test_flush_plan_per_mode() {
    let logger = Logger::new(file_only_config(LevelFilter::Info)).unwrap();
    let plan = logger.flush();
    assert!(plan.file);
    assert!(plan.stdout);
    assert!(!plan.stderr);

    let mut config = file_only_config(LevelFilter::Info);
    config.logging_mode = LoggingMode::Console;
    config.console_mode = ConsoleMode::Mixed;
    let logger = Logger::new(config).unwrap();
    let plan = logger.flush();
    assert!(!plan.file);
    assert!(plan.stdout);
    assert!(plan.stderr);

    let mut config = file_only_config(LevelFilter::Info);
    config.logging_mode = LoggingMode::FileAndConsole;
    config.console_mode = ConsoleMode::Stderr;
    let logger = Logger::new(config).unwrap();
    let plan = logger.flush();
    assert!(plan.file);
    assert!(!plan.stdout);
    assert!(plan.stderr);
}

#[test]
fn test_invalid_custom_pattern_is_refused() {
    let mut config = file_only_config(LevelFilter::Info);
    config.datetime_format = DateTimeFormat::Custom("[not_a_component]");
    match Logger::new(config) {
        Err(InitError::InvalidTimeFormat) => {},
        Ok(_) => panic!("an invalid pattern must refuse construction"),
    }
    let mut config = file_only_config(LevelFilter::Info);
    config.datetime_format = DateTimeFormat::Custom("[not_a_component]");
    assert!(matches!(init(config), Err(InitError::InvalidTimeFormat)));
}

#[test]
fn test_valid_custom_pattern_is_accepted() {
    let mut config = file_only_config(LevelFilter::Info);
    config.datetime_format = DateTimeFormat::Custom("[hour]:[minute]:[second]");
    assert!(Logger::new(config).is_ok());
    let mut config = file_only_config(LevelFilter::Info);
    config.datetime_format = DateTimeFormat::Custom("[hour]:[minute]:[second]");
    assert!(init(config).is_ok());
}

#[test]
fn test_default_config() {
    let config = Config::default();
    assert!(matches!(config.out_file_name, OutputFileName::AutoGenerate));
    match config.out_dir_name {
        OutputDirName::Custom(d) => assert_eq!(d, "logs"),
        OutputDirName::CurrentDir => panic!("the default output directory is `logs`"),
    }
    assert_eq!(config.min_log_level, LevelFilter::Info);
    assert!(matches!(config.timezone, TimeZone::UTC));
    assert_eq!(config.logging_mode, LoggingMode::Console);
    assert_eq!(config.console_mode, ConsoleMode::Stdout);
    assert!(matches!(config.datetime_format, DateTimeFormat::ISO8601));
    assert_eq!(config.use_term_color, UseTermColor::True);
    assert_eq!(config.logging_strategy, LoggingStrategy::Synchronous);
    assert_eq!(config.split_log_files, SplitLogFiles::False);
}

#[test]
fn test_get_current_time_is_nonempty_for_utc() {
    let logger = Logger::new(file_only_config(LevelFilter::Info)).unwrap();
    let text = logger.get_current_time().expect("UTC ISO8601 rendering must succeed");
    assert!(!text.is_empty());
}
