use radio_check::logging::{
    build_console_filter, choose_console_source, file_log_enabled, file_log_level, level_enabled,
    level_filter_from_u8, ConsoleFilterSource, LevelFilter, LogLevel,
};

#[test]
fn level_filter_values() {
    assert_eq!(level_filter_from_u8(0), LevelFilter::Off);
    assert_eq!(level_filter_from_u8(1), LevelFilter::Error);
    assert_eq!(level_filter_from_u8(2), LevelFilter::Warn);
    assert_eq!(level_filter_from_u8(3), LevelFilter::Info);
    assert_eq!(level_filter_from_u8(4), LevelFilter::Debug);
    assert_eq!(level_filter_from_u8(5), LevelFilter::Trace);
    assert_eq!(level_filter_from_u8(6), LevelFilter::Trace);
    assert_eq!(level_filter_from_u8(255), LevelFilter::Trace);
}

#[test]
fn level_filter_round_trip() {
    for f in [
        LevelFilter::Off,
        LevelFilter::Error,
        LevelFilter::Warn,
        LevelFilter::Info,
        LevelFilter::Debug,
        LevelFilter::Trace,
    ] {
        assert_eq!(level_filter_from_u8(f.as_u8()), f);
    }
    assert_eq!(LevelFilter::Debug.as_u8(), 4);
}

#[test]
fn record_levels_against_filters() {
    assert!(level_enabled(LogLevel::Error, LevelFilter::Error));
    assert!(!level_enabled(LogLevel::Error, LevelFilter::Off));
    assert!(!level_enabled(LogLevel::Trace, LevelFilter::Debug));
    assert!(level_enabled(LogLevel::Debug, LevelFilter::Debug));
    assert!(level_enabled(LogLevel::Info, LevelFilter::Trace));
}

#[test]
fn file_log_follows_stored_level() {
    // the starting file level is Debug: trace records stay out
    let start = file_log_level(false);
    assert_eq!(start, 4);
    assert!(file_log_enabled(LogLevel::Debug, start));
    assert!(!file_log_enabled(LogLevel::Trace, start));
    // debug mode raises it to Trace
    let debug = file_log_level(true);
    assert_eq!(debug, 5);
    assert!(file_log_enabled(LogLevel::Trace, debug));
    // raising the level never drops a record that was logged
    for level in [LogLevel::Error, LogLevel::Warn, LogLevel::Info, LogLevel::Debug, LogLevel::Trace] {
        for a in 0u8..8 {
            for b in a..8 {
                if file_log_enabled(level, a) {
                    assert!(file_log_enabled(level, b));
                }
            }
        }
    }
    assert!(!file_log_enabled(LogLevel::Error, 0));
}

#[test]
fn console_filter_sources() {
    assert_eq!(build_console_filter(None).1, ConsoleFilterSource::DefaultInfo);
    assert_eq!(build_console_filter(Some("")).1, ConsoleFilterSource::DefaultInfo);
    assert_eq!(build_console_filter(Some("   \t")).1, ConsoleFilterSource::DefaultInfo);
    assert_eq!(build_console_filter(Some("debug")).1, ConsoleFilterSource::Environment);
    assert_eq!(build_console_filter(Some(" radio_check=trace ")).1, ConsoleFilterSource::Environment);
    // too many '/' separators: env_filter refuses the directive
    assert_eq!(build_console_filter(Some("info/a/b")).1, ConsoleFilterSource::DefaultInfo);
}

#[test]
fn console_filter_levels() {
    let (filter, _) = build_console_filter(None);
    assert_eq!(filter.filter(), log::LevelFilter::Info);
    let (filter, _) = build_console_filter(Some("warn"));
    assert_eq!(filter.filter(), log::LevelFilter::Warn);
    let (filter, _) = build_console_filter(Some("info/a/b"));
    assert_eq!(filter.filter(), log::LevelFilter::Info);
}

#[test]
fn console_source_decision() {
    assert_eq!(choose_console_source(true, true), ConsoleFilterSource::Environment);
    assert_eq!(choose_console_source(true, false), ConsoleFilterSource::DefaultInfo);
    assert_eq!(choose_console_source(false, true), ConsoleFilterSource::DefaultInfo);
    assert_eq!(choose_console_source(false, false), ConsoleFilterSource::DefaultInfo);
}

#[test]
fn console_filter_without_directives_falls_to_error() {
    // accepted, but names no directive: the built filter keeps errors only
    let (filter, source) = build_console_filter(Some(","));
    assert_eq!(source, ConsoleFilterSource::Environment);
    assert_eq!(filter.filter(), log::LevelFilter::Error);
    let (filter, source) = build_console_filter(Some("radio_check=debug,trace"));
    assert_eq!(source, ConsoleFilterSource::Environment);
    assert_eq!(filter.filter(), log::LevelFilter::Trace);
}
