use std::cell::RefCell;

use aries_vcx::api_lib::utils::logger::{
    checked_level, format_line, get_level, text_format, text_no_color_format, Level, LibvcxDefaultLogger,
    LibvcxLogger, LineFormat, LogRecord, LoggerState,
};

fn record(level: Level, target: &str, file: Option<&str>, line: Option<u32>, args: &str) -> LogRecord {
    LogRecord {
        level,
        target: target.to_string(),
        args: args.to_string(),
        module: None,
        file: file.map(|f| f.to_string()),
        line,
    }
}

#[test]
fn levels_are_numbered_from_one() {
    assert_eq!(get_level(1), Level::Error);
    assert_eq!(get_level(2), Level::Warn);
    assert_eq!(get_level(3), Level::Info);
    assert_eq!(get_level(4), Level::Debug);
    assert_eq!(get_level(5), Level::Trace);
    assert_eq!(checked_level(0), None);
    assert_eq!(checked_level(6), None);
    assert_eq!(checked_level(3), Some(Level::Info));
    for (level, named) in [
        (Level::Error, log::Level::Error),
        (Level::Warn, log::Level::Warn),
        (Level::Info, log::Level::Info),
        (Level::Debug, log::Level::Debug),
        (Level::Trace, log::Level::Trace),
    ] {
        assert_eq!(level.code(), named as u32);
        assert_eq!(level.as_str(), named.as_str());
        assert_eq!(get_level(level.code()), level);
    }
    assert_ne!(LoggerState::Default, LoggerState::Custom);
}

#[test]
fn lines_are_laid_out_in_columns() {
    let line = format_line(
        "2021-01-02 03:04:05.000000006",
        " WARN",
        &record(Level::Warn, "aries::connection", Some("src/connection.rs"), Some(42), "connection lost"),
    );
    assert_eq!(
        line,
        "2021-01-02 03:04:05.000000006 |  WARN | aries::connection              |                   src/connection.rs:42   | connection lost\n"
    );
}

#[test]
fn lines_agree_with_the_formatter_of_std() {
    let long = "x".repeat(40);
    let cases = [
        record(Level::Error, "", None, None, ""),
        record(Level::Info, "t", Some("f.rs"), Some(1), "m"),
        record(Level::Trace, &long, Some(&long), Some(123456), "wide"),
        record(Level::Debug, "żółw", Some("ścieżka/plik.rs"), Some(9999), "treść"),
        record(Level::Warn, &"y".repeat(30), Some(&"z".repeat(35)), Some(1000), "exact"),
        record(Level::Warn, &"y".repeat(29), Some(&"z".repeat(34)), Some(999), "one short"),
    ];
    for case in cases.iter() {
        let level = format!("{:>5}", case.level.as_str());
        let expected = format!(
            "{} | {:>5} | {:<30} | {:>35}:{:<4} | {}\n",
            "TS",
            case.level.as_str(),
            case.target,
            case.file.clone().unwrap_or_default(),
            case.line.unwrap_or(0),
            case.args
        );
        assert_eq!(format_line("TS", &level, case), expected);
        let plain = text_no_color_format(case);
        assert!(plain.ends_with(&expected[2..]));
        let styled = text_format("\u{1b}[31mERROR\u{1b}[0m", case);
        assert!(styled.contains(" | \u{1b}[31mERROR\u{1b}[0m | "));
        assert!(styled.ends_with(&format!(" | {}\n", case.args)));
    }
}

#[test]
fn timestamp_comes_first() {
    let line = text_no_color_format(&record(Level::Info, "t", None, None, "m"));
    let timestamp = line.split(" | ").next().unwrap();
    // date, time and nine digits of nanoseconds
    assert_eq!(timestamp.len(), 29);
    assert_eq!(&timestamp[4..5], "-");
    assert_eq!(&timestamp[10..11], " ");
    assert_eq!(&timestamp[19..20], ".");
}

#[test]
fn default_logger_chooses_pattern_and_format() {
    assert_eq!(LibvcxDefaultLogger::pattern(Some("debug".to_string()), Some("info".to_string())), Some("debug".to_string()));
    assert_eq!(LibvcxDefaultLogger::pattern(None, Some("info".to_string())), Some("info".to_string()));
    assert_eq!(LibvcxDefaultLogger::pattern(None, None), None);
    assert_eq!(LibvcxDefaultLogger::filters(&None), "warn");
    assert_eq!(LibvcxDefaultLogger::filters(&Some("aries=trace".to_string())), "aries=trace");
    assert_eq!(LibvcxDefaultLogger::line_format(Some("text_no_color")), LineFormat::TextNoColor);
    assert_eq!(LibvcxDefaultLogger::line_format(Some("text")), LineFormat::Text);
    assert_eq!(LibvcxDefaultLogger::line_format(Some("TEXT_NO_COLOR")), LineFormat::Text);
    assert_eq!(LibvcxDefaultLogger::line_format(None), LineFormat::Text);
}

#[test]
fn android_level_is_named_by_the_pattern() {
    for pattern in [
        "error", "warn", "info", "debug", "trace", "ERROR", "Warn", "iNFo", "DEBUG", "TRACE", "", "off", "warning",
        "infos", " info", "inf\u{00f8}", "\u{0130}nfo", "debu\u{0261}", "tra\u{212a}e", "aries=debug",
    ] {
        let expected = match pattern.to_lowercase().as_ref() {
            "error" => Level::Error,
            "warn" => Level::Warn,
            "info" => Level::Info,
            "debug" => Level::Debug,
            "trace" => Level::Trace,
            _ => Level::Error,
        };
        assert_eq!(LibvcxDefaultLogger::android_level(Some(pattern)), expected, "{:?}", pattern);
    }
    assert_eq!(LibvcxDefaultLogger::android_level(None), Level::Error);
    assert_eq!(LibvcxDefaultLogger::android_level(Some("WaRn")), Level::Warn);
}

#[test]
fn records_are_handed_to_the_callbacks() {
    let asked: RefCell<Vec<(u32, String)>> = RefCell::new(Vec::new());
    let logged: RefCell<Vec<(u32, String, String, Option<String>, Option<String>, u32)>> = RefCell::new(Vec::new());
    let flushed = RefCell::new(0u32);
    let logger = LibvcxLogger::new(
        Some(|level: u32, target: &str| {
            asked.borrow_mut().push((level, target.to_string()));
            level <= 3
        }),
        |level: u32, target: &str, message: &str, module: Option<&str>, file: Option<&str>, line: u32| {
            logged.borrow_mut().push((
                level,
                target.to_string(),
                message.to_string(),
                module.map(|m| m.to_string()),
                file.map(|f| f.to_string()),
                line,
            ));
        },
        Some(|| {
            *flushed.borrow_mut() += 1;
        }),
    );
    assert!(logger.enabled(Level::Error, "a"));
    assert!(logger.enabled(Level::Info, "b"));
    assert!(!logger.enabled(Level::Debug, "c"));
    assert_eq!(*asked.borrow(), vec![(1, "a".to_string()), (3, "b".to_string()), (4, "c".to_string())]);

    let mut located = record(Level::Warn, "aries", Some("src/lib.rs"), Some(7), "careful");
    located.module = Some("aries::lib".to_string());
    logger.log(&located);
    logger.log(&record(Level::Trace, "t", None, None, "m"));
    assert_eq!(
        *logged.borrow(),
        vec![
            (2, "aries".to_string(), "careful".to_string(), Some("aries::lib".to_string()), Some("src/lib.rs".to_string()), 7),
            (5, "t".to_string(), "m".to_string(), None, None, 0),
        ]
    );
    logger.flush();
    logger.flush();
    assert_eq!(*flushed.borrow(), 2);
}

#[test]
fn missing_callbacks_mean_enabled_and_nothing_to_flush() {
    let count = RefCell::new(0u32);
    let logger: LibvcxLogger<fn(u32, &str) -> bool, _, fn()> = LibvcxLogger::new(
        None,
        |_level: u32, _target: &str, _message: &str, _module: Option<&str>, _file: Option<&str>, _line: u32| {
            *count.borrow_mut() += 1;
        },
        None,
    );
    for level in [Level::Error, Level::Warn, Level::Info, Level::Debug, Level::Trace] {
        assert!(logger.enabled(level, "any"));
    }
    logger.flush();
    logger.log(&record(Level::Error, "t", None, None, "error level message"));
    assert_eq!(*count.borrow(), 1);
}
