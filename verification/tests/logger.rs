use tinylogger::{
    Action, Color, ColorChoice, Config, ConfigBuilder, Dispatch, Level, LevelFilter, LevelPadding,
    Record, TinyLogger,
};

const LEVELS: [Level; 5] = [Level::Error, Level::Warn, Level::Info, Level::Debug, Level::Trace];

fn write(text: &str) -> Action {
    Action::Write(String::from(text))
}

fn site() -> Record {
    Record::new(Level::Warn, Some("svc.rs"), Some(42), "disk at 92%")
}

fn file_only(level: LevelFilter, config: Config) -> TinyLogger {
    TinyLogger::init(level, config, None, Some("out.log"))
}

fn line_of(logger: &TinyLogger, record: &Record) -> String {
    let mut line = String::new();
    logger.try_log_file(record, &mut line);
    line
}

#[test]
fn init_keeps_what_it_was_given() {
    let logger =
        TinyLogger::init(LevelFilter::Debug, Config::default(), Some(ColorChoice::Auto), Some("out.log"));
    assert_eq!(logger.level(), LevelFilter::Debug);
    assert_eq!(logger.config(), &Config::default());
    assert_eq!(logger.term(), Some(ColorChoice::Auto));
    assert_eq!(logger.file(), Some("out.log"));
}

#[test]
fn init_without_sinks() {
    let logger = TinyLogger::init(LevelFilter::Trace, Config::default(), None, None);
    assert_eq!(logger.term(), None);
    assert_eq!(logger.file(), None);
}

#[test]
fn enabled_follows_the_threshold() {
    let logger = file_only(LevelFilter::Info, Config::default());
    assert!(logger.enabled(Level::Error));
    assert!(logger.enabled(Level::Warn));
    assert!(logger.enabled(Level::Info));
    assert!(!logger.enabled(Level::Debug));
    assert!(!logger.enabled(Level::Trace));
}

#[test]
fn enabled_is_false_when_off() {
    let logger = file_only(LevelFilter::Off, Config::default());
    for level in LEVELS {
        assert!(!logger.enabled(level));
    }
}

#[test]
fn warn_record_with_its_tag_and_location() {
    let config = ConfigBuilder::default().set_max_level(LevelFilter::Warn).build();
    let logger = file_only(LevelFilter::Info, config);
    let dispatch = logger.log(&site());
    assert_eq!(dispatch.file, vec![write("[WARN] [svc.rs:42] disk at 92%\n")]);
    assert!(dispatch.term.is_empty());
}

#[test]
fn warn_record_under_the_default_config() {
    let logger = file_only(LevelFilter::Info, Config::default());
    let dispatch = logger.log(&site());
    assert_eq!(dispatch.file, vec![write("[svc.rs:42] disk at 92%\n")]);
    assert!(dispatch.term.is_empty());
}

#[test]
fn error_record_under_the_default_config() {
    let logger = file_only(LevelFilter::Info, Config::default());
    let record = Record::new(Level::Error, Some("svc.rs"), Some(42), "disk full");
    assert_eq!(logger.log(&record).file, vec![write("[ERROR] [svc.rs:42] disk full\n")]);
}

#[test]
fn a_record_below_the_threshold_reaches_no_sink() {
    let logger = TinyLogger::init(
        LevelFilter::Error,
        Config::default(),
        Some(ColorChoice::Always),
        Some("out.log"),
    );
    let record = Record::new(Level::Info, Some("svc.rs"), Some(42), "disk at 92%");
    assert!(!logger.enabled(Level::Info));
    assert_eq!(logger.log(&record), Dispatch { term: vec![], file: vec![] });
}

#[test]
fn nothing_is_logged_when_off() {
    let logger = TinyLogger::init(
        LevelFilter::Off,
        Config::default(),
        Some(ColorChoice::Always),
        Some("out.log"),
    );
    for level in LEVELS {
        let record = Record::new(level, None, None, "m");
        assert_eq!(logger.log(&record), Dispatch { term: vec![], file: vec![] });
    }
}

#[test]
fn a_logger_without_sinks_drops_every_record() {
    let logger = TinyLogger::init(LevelFilter::Trace, Config::default(), None, None);
    for level in LEVELS {
        let record = Record::new(level, Some("a.rs"), Some(1), "m");
        assert_eq!(logger.log(&record), Dispatch { term: vec![], file: vec![] });
    }
}

#[test]
fn location_off_omits_the_location_at_every_level() {
    let config = ConfigBuilder::default()
        .set_max_level(LevelFilter::Info)
        .set_location_level(LevelFilter::Off)
        .build();
    let logger = file_only(LevelFilter::Trace, config);
    let expected = ["[ERROR] m\n", "[WARN] m\n", "[INFO] m\n", "m\n", "m\n"];
    for (level, line) in LEVELS.into_iter().zip(expected) {
        let record = Record::new(level, Some("a.rs"), Some(1), "m");
        assert_eq!(line_of(&logger, &record), line);
    }
}

#[test]
fn level_off_omits_the_tag_at_every_level() {
    let config = ConfigBuilder::default().set_max_level(LevelFilter::Off).build();
    let logger = file_only(LevelFilter::Trace, config);
    for level in LEVELS {
        let record = Record::new(level, Some("a.rs"), Some(1), "m");
        assert_eq!(line_of(&logger, &record), "[a.rs:1] m\n");
    }
}

#[test]
fn both_thresholds_off_leave_the_message() {
    let config = ConfigBuilder::default()
        .set_max_level(LevelFilter::Off)
        .set_location_level(LevelFilter::Off)
        .build();
    let logger = file_only(LevelFilter::Trace, config);
    for level in LEVELS {
        let record = Record::new(level, Some("a.rs"), Some(1), "only this");
        assert_eq!(line_of(&logger, &record), "only this\n");
    }
}

#[test]
fn each_segment_follows_its_own_threshold() {
    let filters = [
        LevelFilter::Off,
        LevelFilter::Error,
        LevelFilter::Warn,
        LevelFilter::Info,
        LevelFilter::Debug,
        LevelFilter::Trace,
    ];
    for tag in filters {
        for location in filters {
            let config =
                ConfigBuilder::default().set_max_level(tag).set_location_level(location).build();
            let logger = file_only(LevelFilter::Trace, config);
            for level in LEVELS {
                let record = Record::new(level, Some("f.rs"), Some(9), "m");
                let mut expected = String::new();
                if tag != LevelFilter::Off && level.ordinal() <= tag.ordinal() {
                    expected.push_str(&format!("[{}] ", level.as_str()));
                }
                if location != LevelFilter::Off && level.ordinal() <= location.ordinal() {
                    expected.push_str("[f.rs:9] ");
                }
                expected.push_str("m\n");
                assert_eq!(line_of(&logger, &record), expected);
            }
        }
    }
}

#[test]
fn try_log_file_appends_to_the_buffer() {
    let logger = file_only(LevelFilter::Trace, Config::default());
    let mut buffer = String::from("first\n");
    logger.try_log_file(&Record::new(Level::Error, None, None, "second"), &mut buffer);
    assert_eq!(buffer, "first\n[ERROR] [<unknown>:<unknown>] second\n");
}

#[test]
fn try_log_file_does_not_look_at_the_logger_threshold() {
    let logger = file_only(LevelFilter::Off, Config::default());
    assert_eq!(line_of(&logger, &Record::new(Level::Error, None, Some(2), "m")), "[ERROR] [<unknown>:2] m\n");
}

#[test]
fn every_record_is_one_line_of_the_file() {
    let config = ConfigBuilder::default().set_max_level(LevelFilter::Trace).build();
    let logger = file_only(LevelFilter::Trace, config);
    let mut file = String::new();
    for worker in 0..4u32 {
        for (count, level) in LEVELS.into_iter().enumerate() {
            let record = Record::new(level, Some("w.rs"), Some(worker), &format!("record {}", count));
            for action in logger.log(&record).file {
                match action {
                    Action::Write(text) => file.push_str(&text),
                    other => panic!("unexpected {:?}", other),
                }
            }
        }
    }
    assert!(file.ends_with('\n'));
    assert_eq!(file.lines().count(), 20);
    assert_eq!(file.lines().next(), Some("[ERROR] [w.rs:0] record 0"));
    assert_eq!(file.lines().last(), Some("[TRACE] [w.rs:3] record 4"));
}

#[test]
fn terminal_steps_of_an_error_record() {
    let logger = TinyLogger::init(LevelFilter::Trace, Config::default(), Some(ColorChoice::Auto), None);
    let record = Record::new(Level::Error, Some("svc.rs"), Some(42), "disk full");
    let dispatch = logger.log(&record);
    assert_eq!(
        dispatch.term,
        vec![
            Action::SetColor(Some(Color::Red)),
            write("[ERROR] "),
            Action::Reset,
            write("[svc.rs:42] "),
            write("disk full\n"),
            Action::Flush,
        ]
    );
    assert!(dispatch.file.is_empty());
}

#[test]
fn terminal_steps_use_the_colour_of_the_level() {
    let config = ConfigBuilder::default()
        .set_max_level(LevelFilter::Trace)
        .set_location_level(LevelFilter::Off)
        .build();
    let logger = TinyLogger::init(LevelFilter::Trace, config, Some(ColorChoice::Always), None);
    let colors = [Color::Red, Color::Yellow, Color::Blue, Color::Cyan, Color::White];
    for (level, color) in LEVELS.into_iter().zip(colors) {
        let record = Record::new(level, None, None, "m");
        assert_eq!(
            logger.log(&record).term,
            vec![
                Action::SetColor(Some(color)),
                write(&format!("[{}] ", level.as_str())),
                Action::Reset,
                write("m\n"),
                Action::Flush,
            ]
        );
    }
}

#[test]
fn terminal_steps_with_a_colour_set_to_none() {
    let config = ConfigBuilder::default()
        .set_max_level(LevelFilter::Trace)
        .set_level_padding(LevelPadding::Left)
        .set_level_color(Level::Info, None)
        .build();
    let logger = TinyLogger::init(LevelFilter::Trace, config, Some(ColorChoice::Never), None);
    let record = Record::new(Level::Info, Some("a.rs"), None, "m");
    assert_eq!(
        logger.log(&record).term,
        vec![
            Action::SetColor(None),
            write("[ INFO] "),
            Action::Reset,
            write("[a.rs:<unknown>] "),
            write("m\n"),
            Action::Flush,
        ]
    );
}

#[test]
fn terminal_steps_without_a_level_tag_set_no_colour() {
    let logger = TinyLogger::init(LevelFilter::Trace, Config::default(), Some(ColorChoice::Auto), None);
    let record = Record::new(Level::Debug, Some("a.rs"), Some(3), "m");
    assert_eq!(logger.log(&record).term, vec![write("[a.rs:3] "), write("m\n"), Action::Flush]);
}

#[test]
fn terminal_steps_with_both_thresholds_off() {
    let config = ConfigBuilder::default()
        .set_max_level(LevelFilter::Off)
        .set_location_level(LevelFilter::Off)
        .build();
    let logger = TinyLogger::init(LevelFilter::Trace, config, Some(ColorChoice::Auto), None);
    let record = Record::new(Level::Error, Some("a.rs"), Some(3), "m");
    assert_eq!(logger.log(&record).term, vec![write("m\n"), Action::Flush]);
}

#[test]
fn try_log_term_appends_to_the_stream() {
    let logger = TinyLogger::init(LevelFilter::Off, Config::default(), None, None);
    let mut stream = vec![Action::Flush];
    logger.try_log_term(&Record::new(Level::Trace, None, None, "m"), &mut stream);
    assert_eq!(
        stream,
        vec![Action::Flush, write("[<unknown>:<unknown>] "), write("m\n"), Action::Flush]
    );
}

#[test]
fn both_sinks_get_the_same_text() {
    let config = ConfigBuilder::default().set_max_level(LevelFilter::Warn).build();
    let logger =
        TinyLogger::init(LevelFilter::Info, config, Some(ColorChoice::Auto), Some("out.log"));
    let dispatch = logger.log(&site());
    assert_eq!(dispatch.file, vec![write("[WARN] [svc.rs:42] disk at 92%\n")]);
    assert_eq!(
        dispatch.term,
        vec![
            Action::SetColor(Some(Color::Yellow)),
            write("[WARN] "),
            Action::Reset,
            write("[svc.rs:42] "),
            write("disk at 92%\n"),
            Action::Flush,
        ]
    );
}

#[test]
fn flush_reaches_the_sinks_that_are_present() {
    let both =
        TinyLogger::init(LevelFilter::Off, Config::default(), Some(ColorChoice::Auto), Some("out.log"));
    assert_eq!(both.flush(), Dispatch { term: vec![Action::Flush], file: vec![Action::Flush] });
    let term = TinyLogger::init(LevelFilter::Off, Config::default(), Some(ColorChoice::Auto), None);
    assert_eq!(term.flush(), Dispatch { term: vec![Action::Flush], file: vec![] });
    let file = TinyLogger::init(LevelFilter::Off, Config::default(), None, Some("out.log"));
    assert_eq!(file.flush(), Dispatch { term: vec![], file: vec![Action::Flush] });
    let none = TinyLogger::init(LevelFilter::Off, Config::default(), None, None);
    assert_eq!(none.flush(), Dispatch { term: vec![], file: vec![] });
}

#[test]
fn record_clone_is_equal() {
    let record = site();
    assert_eq!(record.clone(), record);
    assert_eq!(record.level, Level::Warn);
    assert_eq!(record.file.as_deref(), Some("svc.rs"));
    assert_eq!(record.line, Some(42));
    assert_eq!(record.args, "disk at 92%");
}
